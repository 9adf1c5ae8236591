use vstd::prelude::*;

verus! {

/// How an operation of this layer fails.
///
/// Failures of the engine itself (a destroy that goes wrong, a buffer the
/// engine cannot hand out) are not recoverable at this level and are kept out
/// of the result type; the two variants here are the caller-recoverable
/// failures of the layer's own checks.
#[derive(Clone, Copy, Debug, PartialEq, Eq, Structural)]
pub enum VectorError {
    /// A caller-supplied argument broke a stated rule before any work was
    /// done, such as an index producer whose reported size bounds are not an
    /// exact count.
    InvalidArgument,
    /// A write would have run past a declared capacity or a reported length;
    /// nothing was written.
    OutOfBounds,
}

} // verus!
