//! Adaptive frame-selection and bounded-concurrency annotation pipeline.
//!
//! A video is decoded into frames; each frame's luminance plane is reduced
//! to a small fixed-size feature vector; a streaming selector driven by a
//! fixed sampling clock picks, window by window, the frame most different
//! from a running reference; selected frames are annotated by an external
//! description capability under a strict concurrency bound; finally the
//! out-of-order completions are restored to ascending timestamp order and
//! an optional consolidated summary is requested.
//!
//! Timestamps are carried as whole milliseconds and luminance levels as
//! integers, so every rule of the pipeline is stated and proved exactly.

use vstd::prelude::*;

pub mod codec;
pub mod config;
pub mod dispatch;
pub mod errors;
pub mod extract;
pub mod feature;
pub mod pipeline;
pub mod raster;
pub mod records;
pub mod selector;
pub mod similarity;
pub mod summary;
pub mod text;

verus! {

/// Milliseconds between two ticks of the sampling clock.
pub const SAMPLE_INTERVAL_MS: u64 = 250;

/// Default bound on concurrently running description calls.
pub const DEFAULT_MAX_CONCURRENCY: usize = 100;

} // verus!
