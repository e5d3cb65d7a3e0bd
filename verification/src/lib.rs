//! A streaming ITU-R BS.1770-4 loudness measurement pipeline.
//!
//! Multichannel audio frames flow through a two-stage K-weighting filter
//! into overlapping gated power windows; a two-pass absolute/relative
//! gating turns the emitted power frames into integrated LUFS figures.
//! Because verified code cannot hold floating-point values, every sample
//! travels as the bit pattern of an IEEE-754 binary64 value; the module
//! [`arith`] holds the small trusted layer that performs the rounded
//! arithmetic on those bit patterns.

pub mod arith;
pub mod channel;
pub mod filter;
pub mod frame;
pub mod gated_loudness;
pub mod gating;
pub mod loudness;
pub mod mean_sq;
pub mod peak;
pub mod pipeline;
pub mod stats;
pub mod util;

pub use filter::KWeightFilter;
pub use frame::Frame;
pub use gated_loudness::GatedLoudness;
pub use gating::{GatedPowers, Gating};
pub use loudness::Loudness;
pub use pipeline::{Output, Pipeline, PipelineBuilder};
pub use util::Util;
