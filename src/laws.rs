use vstd::prelude::*;
use crate::bytecode::{attr_of, Bytecode};
use crate::data::{declared_labels, is_next_free_attr, is_next_free_label};
use crate::ids::TempIndex;
use crate::target::{ends_lifetime, reverse_lookup, unchecked_param};
use crate::ty::Type;

verus! {

/// Whether no two keys of `m` map to the same value.
pub open spec fn injective(m: Map<TempIndex, TempIndex>) -> bool {
    forall|a: TempIndex, b: TempIndex|
        #[trigger] m.contains_key(a) && #[trigger] m.contains_key(b) && m[a] == m[b] ==> a == b
}

/// The reverse lookup inverts a proxy map without collisions: the value of each
/// entry leads back to its key, and a value that no entry has leads nowhere.
pub proof fn law_reverse_lookup_inverse(m: Map<TempIndex, TempIndex>, i: TempIndex, q: TempIndex)
    requires
        injective(m),
    ensures
        m.contains_key(i) ==> reverse_lookup(m, m[i]) == Some(i),
        (forall|k: TempIndex| #[trigger] m.contains_key(k) ==> m[k] != q) ==> reverse_lookup(m, q) is None,
{
    if m.contains_key(i) {
        let p = m[i];
        assert(m.contains_key(i) && m[i] == p);
        assert(forall|k2: TempIndex| #[trigger] m.contains_key(k2) && m[k2] == p ==> i <= k2);
        let k = choose|k: TempIndex| #[trigger] m.contains_key(k) && m[k] == p
            && forall|k2: TempIndex| #[trigger] m.contains_key(k2) && m[k2] == p ==> k <= k2;
        assert(k == i);
    }
}

/// A private function never checks a `&mut` parameter that has a proxy; a public
/// function that returns no reference checks every parameter, proxy or not.
pub proof fn law_unchecked_param_classification(
    public: bool,
    return_types: Seq<Type>,
    ref_param_proxy_map: Map<TempIndex, TempIndex>,
    idx: TempIndex,
)
    ensures
        !public && ref_param_proxy_map.contains_key(idx) ==> unchecked_param(
            public,
            return_types,
            ref_param_proxy_map,
            idx,
        ),
        public && (forall|i: int| 0 <= i < return_types.len() ==> !(#[trigger] return_types[i] is Reference))
            ==> ends_lifetime(public, return_types)
            && !unchecked_param(public, return_types, ref_param_proxy_map, idx),
{
}

/// The next free attribute id is fixed by the code: one more than the largest id,
/// so two results that both meet the allocator's contract are equal.
pub proof fn law_next_free_attr_unique(code: Seq<Bytecode>, r1: usize, r2: usize)
    requires
        is_next_free_attr(code, r1),
        is_next_free_attr(code, r2),
    ensures
        r1 == r2,
{
    if code.len() > 0 {
        let i = choose|i: int| 0 <= i < code.len() && attr_of(#[trigger] code[i]) + 1 == r1;
        let j = choose|j: int| 0 <= j < code.len() && attr_of(#[trigger] code[j]) + 1 == r2;
        assert(attr_of(code[i]) < r2);
        assert(attr_of(code[j]) < r1);
    }
}

/// Only label declarations decide the next free label: two codes that declare the
/// same labels, whatever their other instructions and attribute ids, get the same one.
pub proof fn law_next_free_label_depends_on_labels_only(
    c1: Seq<Bytecode>,
    c2: Seq<Bytecode>,
    r1: usize,
    r2: usize,
)
    requires
        is_next_free_label(c1, r1),
        is_next_free_label(c2, r2),
        declared_labels(c1) == declared_labels(c2),
    ensures
        r1 == r2,
{
    let ls = declared_labels(c1);
    if !ls.is_empty() {
        assert(ls.contains((r1 - 1) as usize));
        assert(ls.contains((r2 - 1) as usize));
        assert(((r1 - 1) as usize) < r2);
        assert(((r2 - 1) as usize) < r1);
    }
}

} // verus!
