//! Render targets.

use vstd::prelude::*;

verus! {

/// A handle to a configured output surface. The library hands it on and
/// reads nothing through it.
#[derive(Clone, Copy, Debug, PartialEq, Eq, Structural)]
pub struct Target {
    raw: usize,
}

impl Target {
    pub closed spec fn spec_as_raw(&self) -> usize {
        self.raw
    }

    /// The target that the driver knows by `raw`.
    pub fn from_raw(raw: usize) -> (target: Target)
        ensures
            target.as_raw() == raw,
    {
        Target { raw }
    }

    /// The number by which the driver knows this target.
    #[verifier::when_used_as_spec(spec_as_raw)]
    pub fn as_raw(&self) -> (raw: usize)
        ensures
            raw == self.as_raw(),
    {
        self.raw
    }
}

} // verus!
