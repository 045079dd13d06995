//! Shader stages.

use vstd::prelude::*;

verus! {

/// The stage of the pipeline whose uniform registers an upload addresses.
#[derive(Clone, Copy, Debug, PartialEq, Eq, Structural)]
pub enum Type {
    /// The vertex stage.
    Vertex,
    /// The geometry stage.
    Geometry,
}

} // verus!
