//! Error kinds surfaced by the core and their classification from raw device
//! result codes.

use crate::flags::{
    RESULT_ERROR_DEVICE_LOST, RESULT_ERROR_OUT_OF_DATE, RESULT_ERROR_OUT_OF_DEVICE_MEMORY,
    RESULT_ERROR_OUT_OF_HOST_MEMORY, RESULT_ERROR_SURFACE_LOST,
};
use vstd::prelude::*;

verus! {

/// What went wrong, by the response the caller must give.
#[derive(Clone, Copy, Debug, PartialEq, Eq, Structural)]
pub enum Error {
    /// Host or device memory, or a fixed-capacity table, is exhausted.
    AllocationFailure,
    /// A stale or unknown key was used in a lookup, or a pass declares one
    /// resource twice.
    InvalidHandle,
    /// The surface became unusable, or the retry budget ran out.
    SwapchainLost,
    /// The device failed beyond recovery; the whole system must be rebuilt.
    DeviceLost,
    /// Any other failed device call, with its raw result code.
    ApiError(i32),
    /// A chain of relative sizes did not reach a concrete extent.
    RecursionLimit,
}

/// How a negative device result code is classified.
pub open spec fn classify_result(code: i32) -> Error {
    if code == RESULT_ERROR_OUT_OF_HOST_MEMORY || code == RESULT_ERROR_OUT_OF_DEVICE_MEMORY {
        Error::AllocationFailure
    } else if code == RESULT_ERROR_DEVICE_LOST {
        Error::DeviceLost
    } else if code == RESULT_ERROR_SURFACE_LOST || code == RESULT_ERROR_OUT_OF_DATE {
        Error::SwapchainLost
    } else {
        Error::ApiError(code)
    }
}

impl Error {
    /// Classifies the raw result code of a failed device call.
    pub fn from_result_code(code: i32) -> (e: Error)
        ensures
            e == classify_result(code),
    {
        if code == RESULT_ERROR_OUT_OF_HOST_MEMORY || code == RESULT_ERROR_OUT_OF_DEVICE_MEMORY {
            Error::AllocationFailure
        } else if code == RESULT_ERROR_DEVICE_LOST {
            Error::DeviceLost
        } else if code == RESULT_ERROR_SURFACE_LOST || code == RESULT_ERROR_OUT_OF_DATE {
            Error::SwapchainLost
        } else {
            Error::ApiError(code)
        }
    }

    /// Whether the failure may be answered by rebuilding the swapchain and
    /// trying again. Only a lost swapchain is; every other kind surfaces.
    pub open spec fn recoverable(self) -> bool {
        self is SwapchainLost
    }

    /// Tests [`Error::recoverable`].
    pub fn is_recoverable(&self) -> (r: bool)
        ensures
            r == self.recoverable(),
    {
        match self {
            Error::SwapchainLost => true,
            _ => false,
        }
    }

    /// Whether nothing short of tearing the system down can follow.
    pub open spec fn fatal(self) -> bool {
        self is DeviceLost
    }

    /// Tests [`Error::fatal`].
    pub fn is_fatal(&self) -> (r: bool)
        ensures
            r == self.fatal(),
    {
        match self {
            Error::DeviceLost => true,
            _ => false,
        }
    }
}

} // verus!
