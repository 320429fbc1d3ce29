use vstd::prelude::*;
use std::collections::BTreeMap;
use crate::ids::{CodeOffset, FunId, Loc, ModuleId, QualifiedId};
use crate::text::{temp_name, temp_name_string};

verus! {

/// A specification expression, in source text.
pub type Exp = String;

/// The specification of a function: its conditions, and the blocks attached to
/// offsets of its code.
pub struct Spec {
    pub conditions: Vec<Exp>,
    pub on_impl: BTreeMap<CodeOffset, Spec>,
}

/// What the whole program knows: here, the verification conditions by location.
pub struct GlobalEnv {
    /// Each entry: the location, a tag, and a description.
    pub condition_infos: Vec<(Loc, String, String)>,
}

/// The source-level description of a module.
pub struct ModuleEnv<'env> {
    pub env: &'env GlobalEnv,
    pub id: ModuleId,
    pub name: String,
    /// Boolean pragmas set on the module.
    pub pragmas: Vec<(String, bool)>,
}

/// The source-level description of a function; never changed by the passes.
pub struct FunctionEnv<'env> {
    pub module_env: &'env ModuleEnv<'env>,
    pub name: String,
    pub id: FunId,
    pub loc: Loc,
    pub native: bool,
    pub intrinsic: bool,
    pub opaque: bool,
    pub public: bool,
    pub mutating: bool,
    /// The names of the type parameters.
    pub type_params: Vec<String>,
    pub parameter_count: usize,
    /// The names of the declared locals, parameters first.
    pub local_names: Vec<String>,
    pub spec: Spec,
    pub modify_targets: BTreeMap<QualifiedId, Vec<Exp>>,
    /// Boolean pragmas set on the function.
    pub pragmas: Vec<(String, bool)>,
}

/// The value of the first pragma named `name`, if any.
pub open spec fn pragma_lookup(s: Seq<(String, bool)>, name: Seq<char>) -> Option<bool>
    decreases s.len(),
{
    if s.len() == 0 {
        None
    } else if s[0].0@ == name {
        Some(s[0].1)
    } else {
        pragma_lookup(s.drop_first(), name)
    }
}

/// The name of a local: its declared name, or a name made from its index.
pub open spec fn local_name_of(names: Seq<String>, idx: nat) -> Seq<char> {
    if idx < names.len() {
        names[idx as int]@
    } else {
        temp_name(idx)
    }
}

/// Finds the first pragma named `name`.
pub fn find_pragma(s: &Vec<(String, bool)>, name: &String) -> (r: Option<bool>)
    ensures
        r == pragma_lookup(s@, name@),
{
    let mut i: usize = 0;
    assert(s@.skip(0) =~= s@);
    while i < s.len()
        invariant
            i <= s@.len(),
            pragma_lookup(s@, name@) == pragma_lookup(s@.skip(i as int), name@),
        decreases s@.len() - i,
    {
        assert(s@.skip(i as int).drop_first() =~= s@.skip(i as int + 1));
        if s[i].0 == *name {
            return Some(s[i].1);
        }
        i = i + 1;
    }
    assert(s@.skip(i as int).len() == 0);
    None
}

impl<'env> FunctionEnv<'env> {
    /// The name of a local: its declared name, or a name made from its index.
    pub fn get_local_name(&self, idx: usize) -> (r: String)
        ensures
            r@ == local_name_of(self.local_names@, idx as nat),
    {
        if idx < self.local_names.len() {
            self.local_names[idx].clone()
        } else {
            temp_name_string(idx)
        }
    }

    /// The number of declared locals, parameters included.
    pub fn get_local_count(&self) -> (r: usize)
        ensures
            r == self.local_names@.len(),
    {
        self.local_names.len()
    }

    /// Whether the local at `idx` was introduced by the compiler.
    pub fn is_temporary(&self, idx: usize) -> (r: bool)
        ensures
            r == (idx >= self.local_names@.len()),
    {
        idx >= self.local_names.len()
    }

    /// A boolean pragma: the function's own setting, else the module's, else the default.
    pub fn is_pragma_true<F: FnOnce() -> bool>(&self, name: &str, default: F) -> (r: bool)
        requires
            default.requires(()),
        ensures
            match pragma_lookup(self.pragmas@, name@) {
                Some(b) => r == b,
                None => match pragma_lookup(self.module_env.pragmas@, name@) {
                    Some(b) => r == b,
                    None => default.ensures((), r),
                },
            },
    {
        let key = String::from_str(name);
        match find_pragma(&self.pragmas, &key) {
            Some(b) => b,
            None => match find_pragma(&self.module_env.pragmas, &key) {
                Some(b) => b,
                None => default(),
            },
        }
    }
}

} // verus!
