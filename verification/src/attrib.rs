//! Vertex attribute descriptors.

use vstd::prelude::*;

verus! {

/// How the hardware reads the attributes of one vertex. The library copies
/// the descriptor and does not interpret it.
#[derive(Clone, Copy, Debug, PartialEq, Eq)]
pub struct Info {
    pub flags: [u32; 2],
    pub permutation: u64,
    pub attr_count: i32,
}

} // verus!
