//! Counts "steps" from the distance that the mouse cursor travels: positions
//! read at a fixed cadence feed a counter that sums the Euclidean length of each
//! move, in thousandths of a pixel, and reports one step per hundred pixels.
//! A small state machine decides when the cursor is read and how a refused read
//! is retried.
use vstd::prelude::*;

pub mod counter;
pub mod geometry;
pub mod sampler;

pub use counter::StepCounter;
pub use sampler::{sampler_step, Diagnostic, SamplerAction, SamplerEvent, SamplerState, Transition};

verus! {

} // verus!
