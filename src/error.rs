//! Configuration errors, raised before any pixel work begins.
use vstd::prelude::*;

verus! {

/// A render parameter that cannot be used.
#[derive(Clone, Copy, Debug, PartialEq, Eq, Structural)]
pub enum RenderError {
    /// The image is zero pixels wide.
    ZeroWidth,
    /// The image is zero pixels high.
    ZeroHeight,
    /// The iteration budget is zero.
    ZeroIterations,
    /// The magnification is not positive.
    NonPositiveMagnification,
    /// The pixel buffer would not fit in memory's address range.
    TooLarge,
    /// The number of iteration counts is not one per pixel.
    CountMismatch,
    /// The number of gradient samples is not one per iteration count.
    SampleMismatch,
}

} // verus!
