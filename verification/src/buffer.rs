//! Vertex buffer descriptors and the parts of a buffer that a draw call reads.

use vstd::prelude::*;

verus! {

/// The layout of one vertex buffer.
#[derive(Clone, Copy, Debug, PartialEq, Eq)]
pub struct Config {
    pub offset: u32,
    pub flags: [u32; 2],
}

/// Where the hardware finds vertex data. The library copies the descriptor
/// and does not interpret it.
#[derive(Clone, Copy, Debug, PartialEq, Eq)]
pub struct Info {
    pub base_paddr: u32,
    pub buf_count: i32,
    pub buffers: [Config; 12],
}

/// The shape that consecutive vertices are assembled into.
#[derive(Clone, Copy, Debug, PartialEq, Eq, Structural)]
pub enum Primitive {
    /// Every three vertices make one triangle.
    Triangles,
    /// Every vertex after the second makes a triangle with the two before it.
    TriangleStrip,
    /// Every vertex after the second makes a triangle with the one before it
    /// and the first.
    TriangleFan,
    /// The vertices go to the geometry stage.
    GeometryPrim,
}

/// A run of vertices in a buffer that is described by an [`Info`].
#[derive(Clone, Copy, Debug)]
pub struct Slice<'buf> {
    index: i32,
    size: i32,
    buf_info: &'buf Info,
}

impl<'buf> Slice<'buf> {
    pub closed spec fn spec_index(&self) -> i32 {
        self.index
    }

    pub closed spec fn spec_len(&self) -> i32 {
        self.size
    }

    pub closed spec fn spec_info(&self) -> Info {
        *self.buf_info
    }

    /// The run of `size` vertices that starts at vertex `index` of the
    /// buffer that `buf_info` describes.
    pub fn new(buf_info: &'buf Info, index: i32, size: i32) -> (slice: Slice<'buf>)
        ensures
            slice.index() == index,
            slice.len() == size,
            slice.spec_info() == *buf_info,
    {
        Slice { index, size, buf_info }
    }

    /// The position of the first vertex.
    #[verifier::when_used_as_spec(spec_index)]
    pub fn index(&self) -> (index: i32)
        ensures
            index == self.index(),
    {
        self.index
    }

    /// The number of vertices.
    #[verifier::when_used_as_spec(spec_len)]
    pub fn len(&self) -> (size: i32)
        ensures
            size == self.len(),
    {
        self.size
    }

    /// The descriptor of the buffer.
    pub fn info(&self) -> (info: &'buf Info)
        ensures
            *info == self.spec_info(),
    {
        self.buf_info
    }
}

} // verus!
