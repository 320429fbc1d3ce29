use vstd::prelude::*;
use std::collections::BTreeMap;
use crate::ids::CodeOffset;

verus! {

broadcast use vstd::std_specs::btree::group_btree_axioms, vstd::laws_cmp::group_laws_cmp;

/// The analysis that produced an annotation; one slot of the store per kind.
#[derive(Clone, Copy, Debug, PartialEq, Eq, Structural)]
pub enum AnalysisKind {
    LiveVar,
    Borrow,
    ReachingDef,
    /// An analysis defined outside this library, by its own number.
    Custom(u32),
}

/// The slot of the store in which an analysis keeps its result.
pub open spec fn kind_key(k: AnalysisKind) -> u64 {
    match k {
        AnalysisKind::LiveVar => 0,
        AnalysisKind::Borrow => 1,
        AnalysisKind::ReachingDef => 2,
        AnalysisKind::Custom(n) => (n as u64 + 3) as u64,
    }
}

/// What an analysis computed for a function: a fact, as text, per code offset.
#[derive(Debug)]
pub struct Annotation {
    pub facts: BTreeMap<CodeOffset, String>,
}

/// The side table of analysis results attached to a function record.
#[derive(Debug)]
pub struct Annotations {
    map: BTreeMap<u64, Annotation>,
}

impl AnalysisKind {
    /// The slot of the store in which this analysis keeps its result.
    pub fn key(&self) -> (r: u64)
        ensures
            r == kind_key(*self),
    {
        match self {
            AnalysisKind::LiveVar => 0,
            AnalysisKind::Borrow => 1,
            AnalysisKind::ReachingDef => 2,
            AnalysisKind::Custom(n) => *n as u64 + 3,
        }
    }
}

impl Annotation {
    /// The fact recorded at a code offset, if any.
    pub fn fact_at(&self, offset: CodeOffset) -> (r: Option<&String>)
        ensures
            match r {
                Some(s) => self.facts@.contains_key(offset) && *s == self.facts@[offset],
                None => !self.facts@.contains_key(offset),
            },
    {
        self.facts.get(&offset)
    }
}

impl Annotations {
    /// The results held, by slot.
    pub closed spec fn view(&self) -> Map<u64, Annotation> {
        self.map@
    }

    /// An empty store.
    pub fn new() -> (r: Self)
        ensures
            r@ == Map::<u64, Annotation>::empty(),
    {
        Annotations { map: BTreeMap::new() }
    }

    /// Stores the result of an analysis, replacing any earlier result of that kind.
    pub fn set(&mut self, kind: AnalysisKind, value: Annotation)
        ensures
            final(self)@ == old(self)@.insert(kind_key(kind), value),
    {
        let k = kind.key();
        self.map.insert(k, value);
    }

    /// The result of an analysis, if one was stored.
    pub fn get(&self, kind: AnalysisKind) -> (r: Option<&Annotation>)
        ensures
            match r {
                Some(a) => self@.contains_key(kind_key(kind)) && *a == self@[kind_key(kind)],
                None => !self@.contains_key(kind_key(kind)),
            },
    {
        let k = kind.key();
        self.map.get(&k)
    }

    /// Whether a result of this kind is stored.
    pub fn has(&self, kind: AnalysisKind) -> (r: bool)
        ensures
            r == self@.contains_key(kind_key(kind)),
    {
        let k = kind.key();
        self.map.contains_key(&k)
    }

    /// The number of results stored.
    pub fn len(&self) -> (r: usize)
        ensures
            r == self@.len(),
    {
        self.map.len()
    }

    /// Whether no result is stored.
    pub fn is_empty(&self) -> (r: bool)
        ensures
            r == (self@.len() == 0),
    {
        self.map.is_empty()
    }
}

} // verus!
