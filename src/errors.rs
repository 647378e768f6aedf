use vstd::prelude::*;

verus! {

/// Errors reported by the hashing layer.
#[derive(Debug, Clone, Copy, PartialEq, Eq, Structural)]
pub enum PrimitivesError {
    /// The operation is declared by a backend but has no implementation.
    NotImplemented,
    /// Rejection sampling ran out of attempts without finding a curve point.
    SamplingExhausted,
}

} // verus!
