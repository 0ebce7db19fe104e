//! What can go wrong between a decoded image and its letterboxed canvas.

use vstd::prelude::*;

verus! {

/// A failure of the pipeline on one image.
#[derive(Copy, Clone, Debug, PartialEq, Eq, Structural)]
pub enum PipelineError {
    /// The region to keep when trimming does not lie within the image.
    CropOutOfBounds,
    /// The image to lay on the canvas is larger than the canvas.
    CompositeOutOfBounds,
    /// A side of the canvas does not fit `u32`, or a buffer that the work
    /// needs does not fit an allocation.
    TooLarge,
}

} // verus!
