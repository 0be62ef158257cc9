use vstd::prelude::*;

verus! {

/// The two shader stages of the quad pipeline.
#[derive(Clone, Copy, PartialEq, Eq, Structural, Debug)]
pub enum ShaderType {
    Fragment,
    Vertex,
}

} // verus!
