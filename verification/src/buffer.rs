use vstd::prelude::*;

verus! {

/// How a GPU buffer will be used, which decides the usage flags it is
/// created with.
#[derive(Clone, Copy, PartialEq, Eq, Structural, Debug)]
pub enum BufferType {
    Index,
    Vertex,
}

} // verus!
