//! Per-function intermediate representation of a stackless bytecode pipeline:
//! the mutable function record, the query view over it, and the helpers that
//! keep its index maps consistent while passes rewrite the code.

pub mod ids;
pub mod text;
pub mod ty;
pub mod annotations;
pub mod bytecode;
pub mod env;
pub mod data;
pub mod target;
pub mod render;
pub mod laws;
