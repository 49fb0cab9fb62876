//! The failures a load-and-render cycle can end in.

use vstd::prelude::*;

verus! {

/// Why a request produced no new frame, or why no rendering state exists.
#[derive(Debug, PartialEq, Eq)]
pub enum Failure {
    /// The fetch did not complete with a success status.
    NetworkError,
    /// The fetched text is not a well-formed document; the reason is the
    /// parser's own wording.
    ParseError(String),
    /// No device or surface could be acquired.
    DeviceInitError,
    /// The surface had no drawable frame to give.
    SurfaceAcquireError,
    /// The GPU rejected the submitted work.
    RenderError,
}

/// What the host is expected to do about a failure.
#[derive(Clone, Copy, Debug, PartialEq, Eq, Structural)]
pub enum Recovery {
    /// Report it; whatever was on screen stays there.
    KeepFrame,
    /// Report it and fall back to a rendering path that needs no GPU.
    FallBack,
}

impl Failure {
    /// The recovery each kind of failure calls for: only a missing device
    /// makes the GPU path unusable, every other failure costs one frame.
    pub open spec fn spec_recovery(&self) -> Recovery {
        if self is DeviceInitError {
            Recovery::FallBack
        } else {
            Recovery::KeepFrame
        }
    }

    #[verifier::when_used_as_spec(spec_recovery)]
    pub fn recovery(&self) -> (r: Recovery)
        ensures
            r == self.spec_recovery(),
    {
        match self {
            Failure::DeviceInitError => Recovery::FallBack,
            _ => Recovery::KeepFrame,
        }
    }
}

} // verus!
