use vstd::prelude::*;
use std::collections::{BTreeMap, BTreeSet};
use crate::annotations::Annotations;
use crate::bytecode::{attr_of, callee_of, label_of, Bytecode, Operation};
use crate::env::{Exp, FunctionEnv};
use crate::ids::{AttrId, Label, CodeOffset, Loc, QualifiedId, SpecBlockId, StructId, TempIndex};
use crate::ty::Type;
use vstd::std_specs::iter::IteratorSpec;
use vstd::std_specs::btree::increasing_seq;
use vstd::std_specs::cmp::OrdSpec;

verus! {

broadcast use vstd::std_specs::btree::group_btree_axioms, vstd::laws_cmp::group_laws_cmp;

/// The owned, mutable state of one function's intermediate representation.
pub struct FunctionData {
    /// The code.
    pub code: Vec<Bytecode>,
    /// The types of the locals, parameters first.
    pub local_types: Vec<Type>,
    /// The types of the returned values.
    pub return_types: Vec<Type>,
    /// Locals that stand in for other locals.
    pub param_proxy_map: BTreeMap<TempIndex, TempIndex>,
    /// From a `&mut` input parameter to the local that tracks the value it refers to.
    pub ref_param_proxy_map: BTreeMap<TempIndex, TempIndex>,
    /// From a synthesized output parameter back to its `&mut` input parameter.
    pub ref_param_return_map: BTreeMap<TempIndex, TempIndex>,
    /// The global resources that this function may acquire.
    pub acquires_global_resources: Vec<StructId>,
    /// The source location of each instruction, by attribute id.
    pub locations: BTreeMap<AttrId, Loc>,
    /// Results of analyses; dropped by a clone.
    pub annotations: Annotations,
    /// The code offset at which each specification block of the source stands.
    pub spec_blocks_on_impl: BTreeMap<SpecBlockId, CodeOffset>,
    /// Declared local names with their indices; a later entry overrides an earlier one.
    pub name_to_index: Vec<(String, TempIndex)>,
    /// The targets that "modifies" clauses name, by resource type.
    pub modify_targets: BTreeMap<QualifiedId, Vec<Exp>>,
}

/// The index of the last entry named `name`, if any.
pub open spec fn name_lookup(s: Seq<(String, TempIndex)>, name: Seq<char>) -> Option<TempIndex>
    decreases s.len(),
{
    if s.len() == 0 {
        None
    } else if s.last().0@ == name {
        Some(s.last().1)
    } else {
        name_lookup(s.drop_last(), name)
    }
}

/// The names of the entries, as text, with their indices.
pub open spec fn names_view(s: Seq<(String, TempIndex)>) -> Seq<(Seq<char>, TempIndex)> {
    s.map_values(|e: (String, TempIndex)| (e.0@, e.1))
}

/// The callees of the direct calls in `code`.
pub open spec fn callees_of(code: Seq<Bytecode>) -> Set<QualifiedId> {
    Set::new(|q: QualifiedId| exists|i: int| 0 <= i < code.len() && #[trigger] callee_of(code[i]) == Some(q))
}

/// `r` is one more than the largest attribute id in `code`, or 1 if `code` is empty.
pub open spec fn is_next_free_attr(code: Seq<Bytecode>, r: usize) -> bool {
    &&& forall|i: int| 0 <= i < code.len() ==> attr_of(#[trigger] code[i]) < r
    &&& code.len() == 0 ==> r == 1
    &&& code.len() > 0 ==> exists|i: int| 0 <= i < code.len() && attr_of(#[trigger] code[i]) + 1 == r
}

/// The labels that the label declarations of `code` declare.
pub open spec fn declared_labels(code: Seq<Bytecode>) -> Set<Label> {
    Set::new(|l: Label| exists|i: int| 0 <= i < code.len() && #[trigger] label_of(code[i]) == Some(l))
}

/// `r` is one more than the largest declared label in `code`, or 1 if there is none.
pub open spec fn is_next_free_label(code: Seq<Bytecode>, r: usize) -> bool {
    &&& forall|l: Label| #[trigger] declared_labels(code).contains(l) ==> l < r
    &&& declared_labels(code).is_empty() ==> r == 1
    &&& !declared_labels(code).is_empty() ==> declared_labels(code).contains((r - 1) as Label)
}

/// `f` may be called on any index and gives one result for each.
pub open spec fn is_renaming<F: Fn(TempIndex) -> TempIndex>(f: F) -> bool {
    &&& forall|x: TempIndex| #[trigger] f.requires((x,))
    &&& forall|x: TempIndex, y1: TempIndex, y2: TempIndex|
        #[trigger] f.ensures((x,), y1) && #[trigger] f.ensures((x,), y2) ==> y1 == y2
}

/// `new` holds, for each entry `(k, v)` of `old`, the entry `(f(k), f(v))`, and
/// nothing else; where several keys are renamed alike, the greatest of them wins.
pub open spec fn renamed_by<F: Fn(TempIndex) -> TempIndex>(
    f: F,
    old: Map<TempIndex, TempIndex>,
    new: Map<TempIndex, TempIndex>,
) -> bool {
    &&& forall|k: TempIndex| #[trigger] old.contains_key(k) ==> exists|k2: TempIndex|
        #[trigger] f.ensures((k,), k2) && new.contains_key(k2)
    &&& forall|k2: TempIndex| #[trigger] new.contains_key(k2) ==> exists|k: TempIndex|
        #[trigger] old.contains_key(k) && f.ensures((k,), k2) && f.ensures((old[k],), new[k2])
        && forall|k3: TempIndex| #[trigger] old.contains_key(k3) && k < k3 ==> !f.ensures((k3,), k2)
}

/// Applies `f` to both sides of every entry of `m`, in increasing order of keys.
fn rename_map<F: Fn(TempIndex) -> TempIndex>(m: &BTreeMap<TempIndex, TempIndex>, f: &F) -> (r:
    BTreeMap<TempIndex, TempIndex>)
    requires
        is_renaming(*f),
    ensures
        renamed_by(*f, m@, r@),
{
    let mut r: BTreeMap<TempIndex, TempIndex> = BTreeMap::new();
    let ghost mut ks: Seq<TempIndex> = Seq::empty();
    let ghost mut vs: Seq<TempIndex> = Seq::empty();
    let it0 = m.iter();
    let ghost s = it0.remaining();
    proof {
        let keys = s.map_values(|kv: (&TempIndex, &TempIndex)| *kv.0);
        assert(increasing_seq(keys));
        assert forall|i: int, j: int| 0 <= i < j < s.len() implies *s[i].0 < *s[j].0 by {
            assert(keys[i] == *s[i].0);
            assert(keys[j] == *s[j].0);
            assert(keys[i].cmp_spec(&keys[j]) is Less);
        }
    }
    for (k, v) in it: it0
        invariant
            it.seq() == s,
            s.len() == m@.dom().len(),
            forall|j: int| 0 <= j < s.len() ==> m@.contains_key(*s[j].0) && m@[*s[j].0] == *s[j].1,
            forall|k: TempIndex| #[trigger] m@.contains_key(k) ==> s.contains((&k, &m@[k])),
            forall|i: int, j: int| 0 <= i < j < s.len() ==> *s[i].0 < *s[j].0,
            is_renaming(*f),
            ks.len() == it.index(),
            vs.len() == it.index(),
            ks.len() <= s.len(),
            forall|j: int| 0 <= j < ks.len() ==> f.ensures((*s[j].0,), #[trigger] ks[j]) && f.ensures((*s[j].1,), vs[j]),
            forall|j: int| 0 <= j < ks.len() ==> r@.contains_key(#[trigger] ks[j]),
            forall|k2: TempIndex| #[trigger] r@.contains_key(k2) ==> exists|j: int| 0 <= j < ks.len() && ks[j] == k2
                && r@[k2] == vs[j] && forall|j2: int| j < j2 < ks.len() ==> #[trigger] ks[j2] != k2,
    {
        let k2 = f(*k);
        let v2 = f(*v);
        let ghost i = it.index() as int;
        assert(s[i] == (k, v));
        let ghost ks0 = ks;
        let ghost vs0 = vs;
        let ghost r0 = r@;
        proof {
            ks = ks.push(k2);
            vs = vs.push(v2);
        }
        r.insert(k2, v2);
        assert forall|k3: TempIndex| #[trigger] r@.contains_key(k3) implies exists|j: int| 0 <= j < ks.len() && ks[j] == k3
            && r@[k3] == vs[j] && forall|j2: int| j < j2 < ks.len() ==> #[trigger] ks[j2] != k3 by {
            if k3 == k2 {
                assert(ks[i] == k2 && vs[i] == v2);
            } else {
                assert(r0.contains_key(k3));
                let j = choose|j: int| 0 <= j < ks0.len() && ks0[j] == k3 && r0[k3] == vs0[j]
                    && forall|j2: int| j < j2 < ks0.len() ==> #[trigger] ks0[j2] != k3;
                assert(ks[j] == ks0[j] && vs[j] == vs0[j]);
                assert forall|j2: int| j < j2 < ks.len() implies #[trigger] ks[j2] != k3 by {
                    if j2 < i {
                        assert(ks[j2] == ks0[j2]);
                    }
                }
            }
        }
        assert forall|j: int| 0 <= j < ks.len() implies r@.contains_key(#[trigger] ks[j]) by {
            if j < i {
                assert(ks[j] == ks0[j]);
                assert(r0.contains_key(ks0[j]));
            }
        }
    }
    proof {
        assert forall|k: TempIndex| #[trigger] m@.contains_key(k) implies exists|k2: TempIndex|
            #[trigger] f.ensures((k,), k2) && r@.contains_key(k2) by {
            let j = choose|j: int| 0 <= j < s.len() && s[j] == (&k, &m@[k]);
            assert(r@.contains_key(ks[j]));
        }
        assert forall|k2: TempIndex| #[trigger] r@.contains_key(k2) implies exists|k: TempIndex|
            #[trigger] m@.contains_key(k) && f.ensures((k,), k2) && f.ensures((m@[k],), r@[k2])
            && forall|k3: TempIndex| #[trigger] m@.contains_key(k3) && k < k3 ==> !f.ensures((k3,), k2) by {
            let j = choose|j: int| 0 <= j < ks.len() && ks[j] == k2 && r@[k2] == vs[j]
                && forall|j2: int| j < j2 < ks.len() ==> #[trigger] ks[j2] != k2;
            let k = *s[j].0;
            assert(m@.contains_key(k));
            assert forall|k3: TempIndex| #[trigger] m@.contains_key(k3) && k < k3 implies !f.ensures((k3,), k2) by {
                let j3 = choose|j3: int| 0 <= j3 < s.len() && s[j3] == (&k3, &m@[k3]);
                if j3 <= j {
                    if j3 < j {
                        assert(*s[j3].0 < *s[j].0);
                    }
                }
                assert(j < j3);
                assert(ks[j3] != k2);
                assert(f.ensures((k3,), ks[j3]));
            }
        }
    }
    r
}

impl FunctionData {
    /// Creates the record of a function from its description and its lowered code.
    pub fn new(
        func_env: &FunctionEnv<'_>,
        code: Vec<Bytecode>,
        local_types: Vec<Type>,
        return_types: Vec<Type>,
        locations: BTreeMap<AttrId, Loc>,
        acquires_global_resources: Vec<StructId>,
        given_spec_blocks: BTreeMap<SpecBlockId, CodeOffset>,
    ) -> (r: Self)
        ensures
            r.code == code,
            r.local_types == local_types,
            r.return_types == return_types,
            r.param_proxy_map@ == Map::<TempIndex, TempIndex>::empty(),
            r.ref_param_proxy_map@ == Map::<TempIndex, TempIndex>::empty(),
            r.ref_param_return_map@ == Map::<TempIndex, TempIndex>::empty(),
            r.acquires_global_resources == acquires_global_resources,
            r.locations == locations,
            r.annotations@.len() == 0,
            r.spec_blocks_on_impl == given_spec_blocks,
            r.name_to_index@.len() == func_env.local_names@.len(),
            forall|i: int| 0 <= i < r.name_to_index@.len() ==>
                (#[trigger] r.name_to_index@[i]).0@ == func_env.local_names@[i]@
                && r.name_to_index@[i].1 == i,
            r.modify_targets@ == func_env.modify_targets@,
    {
        let mut name_to_index: Vec<(String, TempIndex)> = Vec::new();
        let n = func_env.get_local_count();
        for idx in 0..n
            invariant
                n == func_env.local_names@.len(),
                name_to_index@.len() == idx,
                forall|i: int| 0 <= i < idx ==>
                    (#[trigger] name_to_index@[i]).0@ == func_env.local_names@[i]@
                    && name_to_index@[i].1 == i,
        {
            let name = func_env.get_local_name(idx);
            name_to_index.push((name, idx));
        }
        FunctionData {
            code,
            local_types,
            return_types,
            param_proxy_map: BTreeMap::new(),
            ref_param_proxy_map: BTreeMap::new(),
            ref_param_return_map: BTreeMap::new(),
            acquires_global_resources,
            locations,
            annotations: Annotations::new(),
            spec_blocks_on_impl: given_spec_blocks,
            name_to_index,
            modify_targets: func_env.modify_targets.clone(),
        }
    }

    /// An attribute id that no instruction has: one more than the largest, or 1.
    pub fn next_free_attr_index(&self) -> (r: usize)
        requires
            forall|i: int| 0 <= i < self.code@.len() ==> attr_of(#[trigger] self.code@[i]) < usize::MAX,
        ensures
            is_next_free_attr(self.code@, r),
    {
        let mut max: usize = 0;
        let mut i: usize = 0;
        while i < self.code.len()
            invariant
                i <= self.code@.len(),
                forall|j: int| 0 <= j < self.code@.len() ==> attr_of(#[trigger] self.code@[j]) < usize::MAX,
                forall|j: int| 0 <= j < i ==> attr_of(#[trigger] self.code@[j]) <= max,
                i == 0 ==> max == 0,
                i > 0 ==> exists|j: int| 0 <= j < i && attr_of(#[trigger] self.code@[j]) == max,
            decreases self.code@.len() - i,
        {
            let a = self.code[i].get_attr_id();
            if i == 0 || a > max {
                max = a;
            }
            i = i + 1;
        }
        max + 1
    }

    /// A label that no label declaration uses: one more than the largest, or 1.
    pub fn next_free_label_index(&self) -> (r: usize)
        requires
            forall|i: int| 0 <= i < self.code@.len() && (#[trigger] label_of(self.code@[i])) is Some
                ==> label_of(self.code@[i])->0 < usize::MAX,
        ensures
            is_next_free_label(self.code@, r),
    {
        let mut max: Option<usize> = None;
        let mut i: usize = 0;
        while i < self.code.len()
            invariant
                i <= self.code@.len(),
                forall|j: int| 0 <= j < self.code@.len() && (#[trigger] label_of(self.code@[j])) is Some
                    ==> label_of(self.code@[j])->0 < usize::MAX,
                forall|j: int| 0 <= j < i && (#[trigger] label_of(self.code@[j])) is Some
                    ==> max is Some && label_of(self.code@[j])->0 <= max->0,
                max is None ==> forall|j: int| 0 <= j < i ==> (#[trigger] label_of(self.code@[j])) is None,
                max is Some ==> exists|j: int| 0 <= j < i && (#[trigger] label_of(self.code@[j])) == max,
            decreases self.code@.len() - i,
        {
            if let Bytecode::Label(_, l) = self.code[i] {
                assert(label_of(self.code@[i as int]) == Some(l));
                match max {
                    None => { max = Some(l); },
                    Some(m) => if l > m { max = Some(l); },
                }
            }
            i = i + 1;
        }
        let r: usize = match max {
            None => 1,
            Some(m) => m + 1,
        };
        proof {
            let c = self.code@;
            assert forall|l: Label| #[trigger] declared_labels(c).contains(l) implies l < r by {
                let j = choose|j: int| 0 <= j < c.len() && #[trigger] label_of(c[j]) == Some(l);
            }
            if max is None {
                assert forall|l: Label| !#[trigger] declared_labels(c).contains(l) by {
                    if declared_labels(c).contains(l) {
                        let j = choose|j: int| 0 <= j < c.len() && #[trigger] label_of(c[j]) == Some(l);
                    }
                }
                assert(declared_labels(c) =~= Set::<Label>::empty());
            } else {
                let j = choose|j: int| 0 <= j < i && #[trigger] label_of(c[j]) == max;
                assert(declared_labels(c).contains(max->0));
            }
        }
        r
    }

    /// The functions that this one calls directly, natives included.
    pub fn get_callees(&self) -> (r: BTreeSet<QualifiedId>)
        ensures
            r@ == callees_of(self.code@),
    {
        let mut callees: BTreeSet<QualifiedId> = BTreeSet::new();
        let mut i: usize = 0;
        while i < self.code.len()
            invariant
                i <= self.code@.len(),
                callees@ == callees_of(self.code@.take(i as int)),
            decreases self.code@.len() - i,
        {
            if let Bytecode::Call(_, _, Operation::Function(mid, fid), _) = self.code[i] {
                callees.insert((mid, fid));
            }
            proof {
                let t = self.code@.take(i as int + 1);
                let p = self.code@.take(i as int);
                assert(t.take(i as int) =~= p);
                assert forall|q: QualifiedId| #[trigger] callees_of(t).contains(q) == (callees_of(p).contains(q)
                    || callee_of(self.code@[i as int]) == Some(q)) by {
                    if callees_of(t).contains(q) {
                        let j = choose|j: int| 0 <= j < t.len() && #[trigger] callee_of(t[j]) == Some(q);
                        if j < i {
                            assert(p[j] == t[j]);
                        }
                    }
                    if callees_of(p).contains(q) {
                        let j = choose|j: int| 0 <= j < p.len() && #[trigger] callee_of(p[j]) == Some(q);
                        assert(p[j] == t[j]);
                    }
                    if callee_of(self.code@[i as int]) == Some(q) {
                        assert(t[i as int] == self.code@[i as int]);
                    }
                }
                assert(callees@ =~= callees_of(t));
            }
            i = i + 1;
        }
        assert(self.code@.take(i as int) =~= self.code@);
        callees
    }

    /// Applies a renaming of locals to the two proxy maps, on both sides of each entry.
    /// The code, the other maps and the local names are left as they are. Where two
    /// keys are renamed alike, the entry of the greater key is kept.
    pub fn rename_vars<F: Fn(TempIndex) -> TempIndex>(&mut self, f: &F)
        requires
            is_renaming(*f),
        ensures
            renamed_by(*f, old(self).param_proxy_map@, final(self).param_proxy_map@),
            renamed_by(*f, old(self).ref_param_proxy_map@, final(self).ref_param_proxy_map@),
            final(self).code == old(self).code,
            final(self).local_types == old(self).local_types,
            final(self).return_types == old(self).return_types,
            final(self).ref_param_return_map == old(self).ref_param_return_map,
            final(self).acquires_global_resources == old(self).acquires_global_resources,
            final(self).locations == old(self).locations,
            final(self).annotations == old(self).annotations,
            final(self).spec_blocks_on_impl == old(self).spec_blocks_on_impl,
            final(self).name_to_index == old(self).name_to_index,
            final(self).modify_targets == old(self).modify_targets,
    {
        self.param_proxy_map = rename_map(&self.param_proxy_map, f);
        self.ref_param_proxy_map = rename_map(&self.ref_param_proxy_map, f);
    }
}

/// A record under construction by a pass, with the next attribute id to hand out.
pub struct FunctionDataBuilder<'a> {
    pub data: &'a mut FunctionData,
    pub next_attr_index: usize,
}

impl<'a> FunctionDataBuilder<'a> {
    /// Starts building on `data`; new instructions get ids that no instruction has.
    pub fn new(data: &'a mut FunctionData) -> (r: Self)
        requires
            forall|i: int| 0 <= i < old(data).code@.len() ==> attr_of(#[trigger] old(data).code@[i]) < usize::MAX,
        ensures
            forall|i: int| 0 <= i < old(data).code@.len() ==> attr_of(#[trigger] old(data).code@[i]) < r.next_attr_index,
            *r.data == *old(data),
    {
        let next_attr_index = data.next_free_attr_index();
        FunctionDataBuilder { data, next_attr_index }
    }
}

/// Copies the names of the entries, with their indices.
fn clone_names(s: &Vec<(String, TempIndex)>) -> (r: Vec<(String, TempIndex)>)
    ensures
        names_view(r@) == names_view(s@),
{
    let mut r: Vec<(String, TempIndex)> = Vec::new();
    for i in 0..s.len()
        invariant
            r@.len() == i,
            forall|j: int| 0 <= j < i ==> (#[trigger] r@[j]).0@ == s@[j].0@ && r@[j].1 == s@[j].1,
    {
        r.push((s[i].0.clone(), s[i].1));
    }
    assert(names_view(r@) =~= names_view(s@));
    r
}

impl Clone for FunctionData {
    /// A copy of this record without its annotations: a clone starts a new stage,
    /// whose analyses must run again.
    fn clone(&self) -> (r: Self)
        ensures
            r.code@ == self.code@,
            r.local_types@ == self.local_types@,
            r.return_types@ == self.return_types@,
            r.param_proxy_map@ == self.param_proxy_map@,
            r.ref_param_proxy_map@ == self.ref_param_proxy_map@,
            r.ref_param_return_map@ == self.ref_param_return_map@,
            r.acquires_global_resources@ == self.acquires_global_resources@,
            r.locations@ == self.locations@,
            r.annotations@ == Map::<u64, crate::annotations::Annotation>::empty(),
            r.spec_blocks_on_impl@ == self.spec_blocks_on_impl@,
            names_view(r.name_to_index@) == names_view(self.name_to_index@),
            r.modify_targets@ == self.modify_targets@,
    {
        let r = FunctionData {
            code: self.code.clone(),
            local_types: self.local_types.clone(),
            return_types: self.return_types.clone(),
            param_proxy_map: self.param_proxy_map.clone(),
            ref_param_proxy_map: self.ref_param_proxy_map.clone(),
            ref_param_return_map: self.ref_param_return_map.clone(),
            acquires_global_resources: self.acquires_global_resources.clone(),
            locations: self.locations.clone(),
            annotations: Annotations::new(),
            spec_blocks_on_impl: self.spec_blocks_on_impl.clone(),
            name_to_index: clone_names(&self.name_to_index),
            modify_targets: self.modify_targets.clone(),
        };
        assert(r.code@ =~= self.code@);
        assert(r.local_types@ =~= self.local_types@);
        assert(r.return_types@ =~= self.return_types@);
        assert(r.acquires_global_resources@ =~= self.acquires_global_resources@);
        r
    }
}

} // verus!
