use vstd::prelude::*;

verus! {

/// Tags one instruction; correlates it with its source location and annotations.
pub type AttrId = usize;

/// A local slot: parameters first, then declared locals, then temporaries.
pub type TempIndex = usize;

/// A jump target within one function's code.
pub type Label = usize;

/// A specification block attached to a point of the code.
pub type SpecBlockId = usize;

/// The position of an instruction in a function's code.
pub type CodeOffset = usize;

/// Identifies a module of the program.
pub type ModuleId = usize;

/// Identifies a function within its module.
pub type FunId = usize;

/// Identifies a struct within its module.
pub type StructId = usize;

/// An item qualified by the module that declares it.
pub type QualifiedId = (ModuleId, usize);

/// A source location: a file and a range of positions in it.
#[derive(Clone, Copy, Debug, PartialEq, Eq, Structural)]
pub struct Loc {
    pub file_id: usize,
    pub start: usize,
    pub end: usize,
}

} // verus!
