use vstd::prelude::*;

verus! {

/// A failure surfaced to the caller as a typed, recoverable error.
///
/// Conditions that indicate a violated internal invariant (a buffer/image
/// size mismatch, overflow while computing the buffer length) are not
/// represented here: the verified core rules them out by contract, and the
/// embedder treats them as fatal.
#[derive(Clone, Copy, Debug, PartialEq, Eq)]
pub enum SoftBufferError {
    /// The host window or its document is missing from this runtime.
    PlatformUnavailable,
    /// No drawing-surface element matches the requested handle.
    TargetNotFound,
    /// The target element's drawing context is already claimed by another
    /// rendering mode.
    ContextAlreadyOwned,
    /// A context was already created for the target element, but it is not
    /// the expected 2D type.
    UnexpectedContextType,
    /// The surface dimensions lie outside the valid coordinate range: zero,
    /// or beyond the representable positive range of the signed coordinate
    /// type used for paint rectangles.
    SizeOutOfRange { width: u32, height: u32 },
}

} // verus!
