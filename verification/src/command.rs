//! The primitive operations of the hardware.

use vstd::prelude::*;
use crate::attrib;
use crate::buffer;
use crate::math::Matrix4;
use crate::shader;

verus! {

/// The flag with which a frame is begun: drawing waits for the display.
pub const FRAME_SYNCDRAW: u8 = 1;

/// One primitive operation that the hardware is asked to perform.
///
/// Floating-point components are 32-bit words, as in [`crate::math`].
#[derive(Clone, Copy, Debug, PartialEq, Eq)]
#[allow(inconsistent_fields)]
pub enum Command {
    /// Begin a frame.
    FrameBegin { flags: u8 },
    /// End the frame.
    FrameEnd { flags: u8 },
    /// Copy a buffer descriptor into the active binding.
    SetBufInfo { info: buffer::Info },
    /// Copy an attribute descriptor into the active binding.
    SetAttrInfo { info: attrib::Info },
    /// Draw `count` vertices, from vertex `first` on.
    DrawArrays { primitive: buffer::Primitive, first: i32, count: i32 },
    /// Write one floating-point register.
    FloatUniform { stage: shader::Type, index: i32, x: u32, y: u32, z: u32, w: u32 },
    /// Write one boolean register.
    BoolUniform { stage: shader::Type, index: i32, value: bool },
    /// Write one integer register.
    IntUniform { stage: shader::Type, index: i32, x: i32, y: i32, z: i32, w: i32 },
    /// Write the four rows of a matrix into four floating-point registers.
    MatrixUniform { stage: shader::Type, index: i32, matrix: Matrix4 },
    /// Release the hardware context.
    Fini,
}

} // verus!
