//! The conditions that an [`Instance`](crate::Instance) reports to its caller.

use vstd::prelude::*;

verus! {

/// A condition from which the caller can recover.
#[derive(Clone, Copy, Debug, PartialEq, Eq, Structural)]
pub enum Error {
    /// The hardware context could not be initialized.
    FailedToInitialize,
    /// The hardware refused the render target.
    InvalidRenderTarget,
}

} // verus!
