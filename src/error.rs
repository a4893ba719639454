use vstd::prelude::*;

verus! {

/// The failures that a call from the host can end in.
#[derive(Debug, Clone, Copy, PartialEq, Eq, Structural)]
pub enum SnapError {
    /// No node is registered under the cookie.
    NotFound,
    /// The host could not name the requested data format.
    FormatResolutionFailed,
    /// The data format is not one that nodes can render.
    UnsupportedFormat,
    /// The destination medium is not a shared global memory handle.
    UnsupportedMedium,
    /// Locking the shared memory handle gave no address.
    LockFailed,
    /// Unlocking the shared memory handle failed.
    UnlockFailed,
    /// The shared allocator gave no buffer.
    AllocationFailure,
    /// Any other failure.
    GenericFailure,
}

/// `E_POINTER` (0x80004003).
pub const E_POINTER: i32 = -2147467261;

/// `E_FAIL` (0x80004005).
pub const E_FAIL: i32 = -2147467259;

/// `DV_E_FORMATETC` (0x80040064).
pub const DV_E_FORMATETC: i32 = -2147221404;

/// `DV_E_TYMED` (0x80040069).
pub const DV_E_TYMED: i32 = -2147221399;

/// The status code under which the host receives an error.
pub open spec fn hresult_of(e: SnapError) -> i32 {
    match e {
        SnapError::NotFound => E_POINTER,
        SnapError::UnsupportedFormat => DV_E_FORMATETC,
        SnapError::UnsupportedMedium => DV_E_TYMED,
        _ => E_FAIL,
    }
}

impl SnapError {
    /// The status code that reports this error to the host.
    pub fn hresult(&self) -> (r: i32)
        ensures
            r == hresult_of(*self),
            r < 0,
    {
        match self {
            SnapError::NotFound => E_POINTER,
            SnapError::UnsupportedFormat => DV_E_FORMATETC,
            SnapError::UnsupportedMedium => DV_E_TYMED,
            _ => E_FAIL,
        }
    }
}

} // verus!
