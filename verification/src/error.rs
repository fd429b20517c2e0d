use vstd::prelude::*;

verus! {

/// Why a multiplication, or one of its tasks, did not produce a value.
#[derive(Debug, Clone, Copy, PartialEq, Eq, Structural)]
pub enum MultiplyError {
    /// The column count of the left operand differs from the row count of the
    /// right operand, or two vectors of different lengths were multiplied.
    DimensionMismatch,
    /// A worker could not compute the value of an output cell.
    TaskComputationFailure,
    /// A reply channel was closed before anything was sent on it.
    WorkerUnavailable,
}

} // verus!
