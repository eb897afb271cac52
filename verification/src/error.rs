use vstd::prelude::*;

verus! {

/// The kinds of failure the control plane surfaces to a caller.
///
/// Acquisition errors are surfaced unmodified; release errors are always
/// swallowed, so no variant stands for a failed unexport.
#[derive(Clone, Copy, Debug, PartialEq, Eq, Structural)]
pub enum GpioError {
    /// The target line is already exported by some actor.
    Busy,
    /// The target line is unknown to the control plane (out-of-range
    /// index, missing hardware).
    NotFound,
    /// The invoking process lacks write access to the control plane.
    Permission,
    /// A read or write on an already-reachable entry point failed.
    Io,
    /// The value read from an input line is neither ASCII `0` nor ASCII
    /// `1`, or fewer than one byte was available.
    Malformed,
}

} // verus!
