use vstd::prelude::*;
use std::collections::BTreeMap;
use crate::annotations::{AnalysisKind, Annotations};
use crate::bytecode::Bytecode;
use crate::data::{name_lookup, FunctionData};
use crate::env::{local_name_of, pragma_lookup, Exp, FunctionEnv, GlobalEnv, ModuleEnv, Spec};
use crate::ids::{AttrId, FunId, Loc, QualifiedId, SpecBlockId, StructId, TempIndex};
use crate::ty::Type;
use vstd::std_specs::iter::IteratorSpec;
use vstd::std_specs::btree::increasing_seq;
use vstd::std_specs::cmp::OrdSpec;

verus! {

broadcast use vstd::std_specs::btree::group_btree_axioms, vstd::laws_cmp::group_laws_cmp;

/// A view that pairs the immutable description of a function with its current
/// record. All passes and printers read a function through it.
pub struct FunctionTarget<'env> {
    pub func_env: &'env FunctionEnv<'env>,
    pub data: &'env FunctionData,
    /// The analyses whose results a listing shows; transient, dropped by a clone.
    pub annotation_formatters: Vec<AnalysisKind>,
}

/// Whether a call of the function ends the lifetime of its input references:
/// it is public and returns no reference.
pub open spec fn ends_lifetime(public: bool, return_types: Seq<Type>) -> bool {
    public && forall|i: int| 0 <= i < return_types.len() ==> !(#[trigger] return_types[i] is Reference)
}

/// Whether the parameter `idx` is exempt from full checking at the call boundary.
pub open spec fn unchecked_param(
    public: bool,
    return_types: Seq<Type>,
    ref_param_proxy_map: Map<TempIndex, TempIndex>,
    idx: TempIndex,
) -> bool {
    (!public || !ends_lifetime(public, return_types)) && ref_param_proxy_map.contains_key(idx)
}

/// The least key of `m` under which `v` stands, if any.
pub open spec fn reverse_lookup(m: Map<TempIndex, TempIndex>, v: TempIndex) -> Option<TempIndex> {
    if exists|k: TempIndex| #[trigger] m.contains_key(k) && m[k] == v {
        Some(choose|k: TempIndex| #[trigger] m.contains_key(k) && m[k] == v
            && forall|k2: TempIndex| #[trigger] m.contains_key(k2) && m[k2] == v ==> k <= k2)
    } else {
        None
    }
}

/// The index that an optional reference points to.
pub open spec fn deref_index(r: Option<&TempIndex>) -> Option<TempIndex> {
    match r {
        Some(i) => Some(*i),
        None => None,
    }
}

/// Whether `c` is a decimal digit.
pub open spec fn is_digit(c: char) -> bool {
    '0' <= c && c <= '9'
}

/// The number that a string of decimal digits denotes.
pub open spec fn digits_value(s: Seq<char>) -> nat
    decreases s.len(),
{
    if s.len() == 0 {
        0
    } else {
        digits_value(s.drop_last()) * 10 + ((s.last() as u32) - ('0' as u32)) as nat
    }
}

/// Where the digits of a temporary's name begin: after `$t` and an optional `+`.
pub open spec fn digits_start(name: Seq<char>) -> int {
    if name.len() > 2 && name[2] == '+' {
        3
    } else {
        2
    }
}

/// The index that a temporary's name carries: `$t`, an optional `+`, then the
/// decimal digits (at least one) of an index that fits in `usize`.
pub open spec fn temp_index_of(name: Seq<char>) -> Option<TempIndex> {
    let d = digits_start(name);
    if name.len() > d && name[0] == '$' && name[1] == 't'
        && (forall|i: int| d <= i < name.len() ==> is_digit(#[trigger] name[i]))
        && digits_value(name.skip(d)) <= usize::MAX {
        Some(digits_value(name.skip(d)) as TempIndex)
    } else {
        None
    }
}

proof fn lemma_digits_prefix(s: Seq<char>, i: int)
    requires
        0 <= i <= s.len(),
        forall|j: int| 0 <= j < s.len() ==> is_digit(#[trigger] s[j]),
    ensures
        digits_value(s.take(i)) <= digits_value(s),
    decreases s.len(),
{
    if i < s.len() {
        let p = s.drop_last();
        assert(p.take(i) =~= s.take(i));
        assert forall|j: int| 0 <= j < p.len() implies is_digit(#[trigger] p[j]) by {
            assert(p[j] == s[j]);
        }
        lemma_digits_prefix(p, i);
    } else {
        assert(s.take(i) =~= s);
    }
}

/// A name whose first digits already exceed `usize` carries no index.
proof fn lemma_overflow_rejects(name: Seq<char>, n: int)
    requires
        0 <= n <= name.len() - digits_start(name),
        digits_value(name.skip(digits_start(name)).take(n)) > usize::MAX,
    ensures
        temp_index_of(name) is None,
{
    let d = digits_start(name);
    let digits = name.skip(d);
    if forall|j: int| d <= j < name.len() ==> is_digit(#[trigger] name[j]) {
        assert forall|j: int| 0 <= j < digits.len() implies is_digit(#[trigger] digits[j]) by {
            assert(digits[j] == name[j + d]);
        }
        lemma_digits_prefix(digits, n);
    }
}

/// The index carried by a temporary's name, if the name has that form.
fn parse_temp_index(name: &String) -> (r: Option<TempIndex>)
    ensures
        r == temp_index_of(name@),
{
    let s = name.as_str();
    let len = s.unicode_len();
    if len <= 2 || s.get_char(0) != '$' || s.get_char(1) != 't' {
        return None;
    }
    let start: usize = if s.get_char(2) == '+' { 3 } else { 2 };
    assert(start == digits_start(name@));
    if len <= start {
        return None;
    }
    let ghost digits = name@.skip(start as int);
    let mut v: usize = 0;
    let mut i: usize = start;
    while i < len
        invariant
            s@ == name@,
            len == name@.len(),
            start == digits_start(name@),
            len > start,
            digits == name@.skip(start as int),
            start <= i <= len,
            forall|j: int| start <= j < i ==> is_digit(#[trigger] name@[j]),
            v == digits_value(digits.take(i - start)),
        decreases len - i,
    {
        let c = s.get_char(i);
        if c < '0' || c > '9' {
            return None;
        }
        let d = (c as u32 - '0' as u32) as usize;
        let ghost t = digits.take(i - start + 1);
        assert(t.drop_last() =~= digits.take(i - start));
        assert(t.last() == c);
        match v.checked_mul(10) {
            Some(m) => match m.checked_add(d) {
                Some(n) => { v = n; },
                None => {
                    proof {
                        lemma_overflow_rejects(name@, (i - start + 1) as int);
                    }
                    return None;
                },
            },
            None => {
                proof {
                    lemma_overflow_rejects(name@, (i - start + 1) as int);
                }
                return None;
            },
        }
        i = i + 1;
    }
    assert(digits.take(i - start) =~= digits);
    Some(v)
}

impl<'env> Clone for FunctionTarget<'env> {
    /// Another view of the same function; the formatters are not carried over.
    fn clone(&self) -> (r: Self)
        ensures
            r.func_env == self.func_env,
            r.data == self.data,
            r.annotation_formatters@.len() == 0,
    {
        FunctionTarget { func_env: self.func_env, data: self.data, annotation_formatters: Vec::new() }
    }
}

impl<'env> FunctionTarget<'env> {
    /// A view of `data` as the record of the function that `func_env` describes.
    pub fn new(func_env: &'env FunctionEnv<'env>, data: &'env FunctionData) -> (r: FunctionTarget<'env>)
        ensures
            r.func_env == func_env,
            r.data == data,
            r.annotation_formatters@.len() == 0,
    {
        FunctionTarget { func_env, data, annotation_formatters: Vec::new() }
    }

    /// The name of this function.
    pub fn get_name(&self) -> (r: &String)
        ensures
            *r == self.func_env.name,
    {
        &self.func_env.name
    }

    /// The id of this function in its module.
    pub fn get_id(&self) -> (r: FunId)
        ensures
            r == self.func_env.id,
    {
        self.func_env.id
    }

    /// The description of the enclosing module.
    pub fn module_env(&self) -> (r: &ModuleEnv<'env>)
        ensures
            r == self.func_env.module_env,
    {
        self.func_env.module_env
    }

    /// The description of the whole program.
    pub fn global_env(&self) -> (r: &GlobalEnv)
        ensures
            r == self.func_env.module_env.env,
    {
        self.func_env.module_env.env
    }

    /// The location of this function.
    pub fn get_loc(&self) -> (r: Loc)
        ensures
            r == self.func_env.loc,
    {
        self.func_env.loc
    }

    /// The location of the instruction with the given attribute id, or else of the function.
    pub fn get_bytecode_loc(&self, attr_id: AttrId) -> (r: Loc)
        ensures
            r == (if self.data.locations@.contains_key(attr_id) {
                self.data.locations@[attr_id]
            } else {
                self.func_env.loc
            }),
    {
        match self.data.locations.get(&attr_id) {
            Some(loc) => *loc,
            None => self.get_loc(),
        }
    }

    /// Whether this function is native.
    pub fn is_native(&self) -> (r: bool)
        ensures
            r == self.func_env.native,
    {
        self.func_env.native
    }

    /// Whether this function is intrinsic.
    pub fn is_intrinsic(&self) -> (r: bool)
        ensures
            r == self.func_env.intrinsic,
    {
        self.func_env.intrinsic
    }

    /// Whether this function is opaque.
    pub fn is_opaque(&self) -> (r: bool)
        ensures
            r == self.func_env.opaque,
    {
        self.func_env.opaque
    }

    /// Whether this function is public.
    pub fn is_public(&self) -> (r: bool)
        ensures
            r == self.func_env.public,
    {
        self.func_env.public
    }

    /// Whether this function has `&mut` parameters.
    pub fn is_mutating(&self) -> (r: bool)
        ensures
            r == self.func_env.mutating,
    {
        self.func_env.mutating
    }

    /// The names of the type parameters.
    pub fn get_type_parameters(&self) -> (r: &Vec<String>)
        ensures
            *r == self.func_env.type_params,
    {
        &self.func_env.type_params
    }

    /// The type returned at position `idx`.
    pub fn get_return_type(&self, idx: usize) -> (r: &Type)
        requires
            idx < self.data.return_types@.len(),
        ensures
            *r == self.data.return_types@[idx as int],
    {
        &self.data.return_types[idx]
    }

    /// The returned types.
    pub fn get_return_types(&self) -> (r: &[Type])
        ensures
            r@ == self.data.return_types@,
    {
        self.data.return_types.as_slice()
    }

    /// The number of returned values.
    pub fn get_return_count(&self) -> (r: usize)
        ensures
            r == self.data.return_types@.len(),
    {
        self.data.return_types.len()
    }

    /// The number of parameters.
    pub fn get_parameter_count(&self) -> (r: usize)
        ensures
            r == self.func_env.parameter_count,
    {
        self.func_env.parameter_count
    }

    /// The name of a local: its declared name, or a name made from its index.
    pub fn get_local_name(&self, idx: usize) -> (r: String)
        ensures
            r@ == local_name_of(self.func_env.local_names@, idx as nat),
    {
        self.func_env.get_local_name(idx)
    }

    /// The index of the local with the given name: the registered one, or else the
    /// one that a temporary's name carries.
    pub fn get_local_index(&self, name: &String) -> (r: Option<TempIndex>)
        ensures
            r == (match name_lookup(self.data.name_to_index@, name@) {
                Some(i) => Some(i),
                None => temp_index_of(name@),
            }),
    {
        let s = &self.data.name_to_index;
        let mut i: usize = s.len();
        assert(s@.take(i as int) =~= s@);
        while i > 0
            invariant
                s == &self.data.name_to_index,
                i <= s@.len(),
                name_lookup(s@, name@) == name_lookup(s@.take(i as int), name@),
            decreases i,
        {
            assert(s@.take(i as int).drop_last() =~= s@.take(i - 1));
            assert(s@.take(i as int).last() == s@[i - 1]);
            if s[i - 1].0 == *name {
                return Some(s[i - 1].1);
            }
            i = i - 1;
        }
        parse_temp_index(name)
    }

    /// The number of locals, parameters and temporaries included.
    pub fn get_local_count(&self) -> (r: usize)
        ensures
            r == self.data.local_types@.len(),
    {
        self.data.local_types.len()
    }

    /// The number of locals that the source declares.
    pub fn get_user_local_count(&self) -> (r: usize)
        ensures
            r == self.func_env.local_names@.len(),
    {
        self.func_env.get_local_count()
    }

    /// Whether the local at `idx` was introduced by the compiler.
    pub fn is_temporary(&self, idx: usize) -> (r: bool)
        ensures
            r == (idx >= self.func_env.local_names@.len()),
    {
        self.func_env.is_temporary(idx)
    }

    /// The type of the local at `idx`.
    pub fn get_local_type(&self, idx: usize) -> (r: &Type)
        requires
            idx < self.data.local_types@.len(),
        ensures
            *r == self.data.local_types@[idx as int],
    {
        &self.data.local_types[idx]
    }

    /// The specification of this function.
    pub fn get_spec(&self) -> (r: &'env Spec)
        ensures
            *r == self.func_env.spec,
    {
        &self.func_env.spec
    }

    /// The specification attached at the given block.
    pub fn get_spec_on_impl(&self, block_id: SpecBlockId) -> (r: &'env Spec)
        requires
            self.data.spec_blocks_on_impl@.contains_key(block_id),
            self.func_env.spec.on_impl@.contains_key(self.data.spec_blocks_on_impl@[block_id]),
        ensures
            *r == self.func_env.spec.on_impl@[self.data.spec_blocks_on_impl@[block_id]],
    {
        let code_offset = self.data.spec_blocks_on_impl.get(&block_id).unwrap();
        let spec: &'env Spec = &self.func_env.spec;
        spec.on_impl.get(code_offset).unwrap()
    }

    /// A boolean pragma: the function's own setting, else the module's, else the default.
    pub fn is_pragma_true<F: FnOnce() -> bool>(&self, name: &str, default: F) -> (r: bool)
        requires
            default.requires(()),
        ensures
            match pragma_lookup(self.func_env.pragmas@, name@) {
                Some(b) => r == b,
                None => match pragma_lookup(self.func_env.module_env.pragmas@, name@) {
                    Some(b) => r == b,
                    None => default.ensures((), r),
                },
            },
    {
        self.func_env.is_pragma_true(name, default)
    }

    /// The code.
    pub fn get_bytecode(&self) -> (r: &[Bytecode])
        ensures
            r@ == self.data.code@,
    {
        self.data.code.as_slice()
    }

    /// The results of analyses.
    pub fn get_annotations(&self) -> (r: &Annotations)
        ensures
            *r == self.data.annotations,
    {
        &self.data.annotations
    }

    /// The global resources that this function may acquire.
    pub fn get_acquires_global_resources(&self) -> (r: &[StructId])
        ensures
            r@ == self.data.acquires_global_resources@,
    {
        self.data.acquires_global_resources.as_slice()
    }

    /// The input parameter that the output parameter `idx` stands for.
    pub fn get_return_index(&self, idx: usize) -> (r: Option<&usize>)
        ensures
            match r {
                Some(i) => self.data.ref_param_return_map@.contains_key(idx)
                    && *i == self.data.ref_param_return_map@[idx],
                None => !self.data.ref_param_return_map@.contains_key(idx),
            },
    {
        self.data.ref_param_return_map.get(&idx)
    }

    /// The least output parameter that stands for the input parameter `idx`;
    /// the inverse of `get_return_index`.
    pub fn get_input_for_return_index(&self, idx: usize) -> (r: Option<&usize>)
        ensures
            deref_index(r) == reverse_lookup(self.data.ref_param_return_map@, idx),
    {
        find_key_of(&self.data.ref_param_return_map, idx)
    }

    /// The local that stands in for the local `idx`.
    pub fn get_proxy_index(&self, idx: usize) -> (r: Option<&usize>)
        ensures
            match r {
                Some(i) => self.data.param_proxy_map@.contains_key(idx)
                    && *i == self.data.param_proxy_map@[idx],
                None => !self.data.param_proxy_map@.contains_key(idx),
            },
    {
        self.data.param_proxy_map.get(&idx)
    }

    /// The local that tracks the value of the `&mut` parameter `idx`.
    pub fn get_ref_proxy_index(&self, idx: usize) -> (r: Option<&usize>)
        ensures
            match r {
                Some(i) => self.data.ref_param_proxy_map@.contains_key(idx)
                    && *i == self.data.ref_param_proxy_map@[idx],
                None => !self.data.ref_param_proxy_map@.contains_key(idx),
            },
    {
        self.data.ref_param_proxy_map.get(&idx)
    }

    /// The least `&mut` parameter that the local `idx` tracks; the inverse of
    /// `get_ref_proxy_index`.
    pub fn get_reverse_ref_proxy_index(&self, idx: usize) -> (r: Option<&usize>)
        ensures
            deref_index(r) == reverse_lookup(self.data.ref_param_proxy_map@, idx),
    {
        find_key_of(&self.data.ref_param_proxy_map, idx)
    }

    /// Whether the parameter `idx` is a `&mut` parameter exempt from full checking:
    /// it has a proxy, and a call does not end the lifetime of references.
    pub fn is_unchecked_param(&self, idx: TempIndex) -> (r: bool)
        ensures
            r == unchecked_param(self.func_env.public, self.data.return_types@,
                self.data.ref_param_proxy_map@, idx),
    {
        (!self.is_public() || !self.call_ends_lifetime()) && self.get_ref_proxy_index(idx).is_some()
    }

    /// Whether a call of this function ends the lifetime of its input references.
    pub fn call_ends_lifetime(&self) -> (r: bool)
        ensures
            r == ends_lifetime(self.func_env.public, self.data.return_types@),
    {
        if !self.is_public() {
            return false;
        }
        let tys = &self.data.return_types;
        let mut i: usize = 0;
        while i < tys.len()
            invariant
                tys == &self.data.return_types,
                self.func_env.public,
                i <= tys@.len(),
                forall|j: int| 0 <= j < i ==> !(#[trigger] tys@[j] is Reference),
            decreases tys@.len() - i,
        {
            if tys[i].is_reference() {
                assert(tys@[i as int] is Reference);
                return false;
            }
            i = i + 1;
        }
        true
    }

    /// The targets that "modifies" clauses name for a resource type.
    pub fn get_modify_targets_for_type(&self, ty: &QualifiedId) -> (r: Option<&Vec<Exp>>)
        ensures
            match r {
                Some(v) => self.data.modify_targets@.contains_key(*ty)
                    && *v == self.data.modify_targets@[*ty],
                None => !self.data.modify_targets@.contains_key(*ty),
            },
    {
        self.get_modify_targets().get(ty)
    }

    /// The targets that "modifies" clauses name, by resource type.
    pub fn get_modify_targets(&self) -> (r: &BTreeMap<QualifiedId, Vec<Exp>>)
        ensures
            *r == self.data.modify_targets,
    {
        &self.data.modify_targets
    }

    /// Adds an analysis whose results a listing shows.
    pub fn register_annotation_formatter(&mut self, kind: AnalysisKind)
        ensures
            final(self).func_env == old(self).func_env,
            final(self).data == old(self).data,
            final(self).annotation_formatters@ == old(self).annotation_formatters@.push(kind),
    {
        self.annotation_formatters.push(kind);
    }

    /// Adds the analyses that listings in tests show: live variables, borrows and
    /// reaching definitions.
    pub fn register_annotation_formatters_for_test(&mut self)
        ensures
            final(self).func_env == old(self).func_env,
            final(self).data == old(self).data,
            final(self).annotation_formatters@ == old(self).annotation_formatters@.push(AnalysisKind::LiveVar).push(
                AnalysisKind::Borrow,
            ).push(AnalysisKind::ReachingDef),
    {
        self.register_annotation_formatter(AnalysisKind::LiveVar);
        self.register_annotation_formatter(AnalysisKind::Borrow);
        self.register_annotation_formatter(AnalysisKind::ReachingDef);
    }
}

/// The least key of `m` under which `v` stands, by a scan in key order.
fn find_key_of(m: &BTreeMap<TempIndex, TempIndex>, v: TempIndex) -> (r: Option<&TempIndex>)
    ensures
        deref_index(r) == reverse_lookup(m@, v),
{
    let it0 = m.iter();
    let ghost s = it0.remaining();
    proof {
        let ks = s.map_values(|kv: (&TempIndex, &TempIndex)| *kv.0);
        assert(increasing_seq(ks));
        assert forall|i: int, j: int| 0 <= i < j < s.len() implies *s[i].0 < *s[j].0 by {
            assert(ks[i] == *s[i].0);
            assert(ks[j] == *s[j].0);
            assert(ks[i].cmp_spec(&ks[j]) is Less);
        }
    }
    for (k, x) in it: it0
        invariant
            it.seq() == s,
            s.len() == m@.dom().len(),
            forall|j: int| 0 <= j < s.len() ==> m@.contains_key(*s[j].0) && m@[*s[j].0] == *s[j].1,
            forall|k: TempIndex| #[trigger] m@.contains_key(k) ==> s.contains((&k, &m@[k])),
            forall|i: int, j: int| 0 <= i < j < s.len() ==> *s[i].0 < *s[j].0,
            forall|j: int| 0 <= j < it.index() ==> *(#[trigger] s[j]).1 != v,
    {
        if *x == v {
            proof {
                let i = it.index() as int;
                assert(s[i] == (k, x));
                assert forall|k2: TempIndex| #[trigger] m@.contains_key(k2) && m@[k2] == v implies *k <= k2 by {
                    let j = choose|j: int| 0 <= j < s.len() && s[j] == (&k2, &m@[k2]);
                    if j < i {
                        assert(*s[j].1 != v);
                    }
                }
            }
            return Some(k);
        }
    }
    proof {
        assert forall|k2: TempIndex| #[trigger] m@.contains_key(k2) implies m@[k2] != v by {
            let j = choose|j: int| 0 <= j < s.len() && s[j] == (&k2, &m@[k2]);
        }
    }
    None
}

} // verus!
