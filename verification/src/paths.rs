//! Instance paths: where in the document an instance lives.

use vstd::prelude::*;

verus! {

/// One step of an instance path: an object key or an array index.
#[derive(Debug, PartialEq)]
pub enum PathChunk {
    Property(String),
    Index(usize),
}

impl Clone for PathChunk {
    fn clone(&self) -> (r: Self)
        ensures
            r == *self,
    {
        match self {
            PathChunk::Property(s) => PathChunk::Property(s.clone()),
            PathChunk::Index(i) => PathChunk::Index(*i),
        }
    }
}

/// The walk from the document root to the instance under validation.
#[derive(Debug, PartialEq)]
pub struct InstancePath {
    pub chunks: Vec<PathChunk>,
}

impl View for InstancePath {
    type V = Seq<PathChunk>;

    open spec fn view(&self) -> Seq<PathChunk> {
        self.chunks@
    }
}

impl InstancePath {
    /// The path of the document root.
    pub fn new() -> (r: Self)
        ensures
            r@ == Seq::<PathChunk>::empty(),
    {
        InstancePath { chunks: Vec::new() }
    }

    /// Extends the path by one step.
    pub fn push(&mut self, chunk: PathChunk)
        ensures
            final(self)@ == old(self)@.push(chunk),
    {
        self.chunks.push(chunk);
    }
}

impl Clone for InstancePath {
    fn clone(&self) -> (r: Self)
        ensures
            r@ == self@,
    {
        let chunks = self.chunks.clone();
        proof {
            assert(chunks@ =~= self.chunks@);
        }
        InstancePath { chunks }
    }
}

} // verus!
