//! What can go wrong while a frame is planned.

use vstd::prelude::*;

verus! {

/// The failures of the pipeline. None of them is transient, so none is
/// retried: the frame that meets one is abandoned.
#[derive(Clone, Copy, Debug, PartialEq, Eq, Structural)]
pub enum PipelineError {
    /// A buffer cannot be allocated or bound.
    ResourceError,
    /// A pass of the transform was asked for out of the order of its stages.
    StateError,
    /// Two planes that belong together differ in their dimensions.
    DimensionMismatch,
}

} // verus!
