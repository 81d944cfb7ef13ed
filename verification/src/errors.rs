//! The pipeline's error taxonomy.
//!
//! Decode, feature, encode and annotation failures are fatal to the batch
//! under the default fail-fast policy and reach the caller; persistence
//! failures are reported per item; a summary failure never invalidates the
//! per-frame results and is absorbed by the caller with a fallback string.

use vstd::prelude::*;

verus! {

/// What went wrong, by pipeline stage.
#[derive(Clone, Copy, Debug, PartialEq, Eq, Structural)]
pub enum PipelineError {
    /// No decodable video stream was found.
    NoVideoStream,
    /// The decoder failed before yielding a first frame.
    DecodeFailed,
    /// A luminance plane did not match its stated geometry.
    FeatureGeometry,
    /// Compressing a frame to an image failed.
    EncodeFailed,
    /// The external description capability failed for a job.
    AnnotationFailed,
    /// Writing a finished frame to storage failed.
    PersistFailed,
}

impl PipelineError {
    /// A human-readable cause, one line per variant.
    pub fn message(&self) -> (r: &'static str)
        ensures
            *self is NoVideoStream ==> r@ == "no video stream found"@,
            *self is DecodeFailed ==> r@ == "failed to decode video"@,
            *self is FeatureGeometry ==> r@ == "frame plane geometry is invalid"@,
            *self is EncodeFailed ==> r@ == "failed to encode frame image"@,
            *self is AnnotationFailed ==> r@ == "frame description request failed"@,
            *self is PersistFailed ==> r@ == "failed to persist frame image"@,
    {
        match self {
            PipelineError::NoVideoStream => "no video stream found",
            PipelineError::DecodeFailed => "failed to decode video",
            PipelineError::FeatureGeometry => "frame plane geometry is invalid",
            PipelineError::EncodeFailed => "failed to encode frame image",
            PipelineError::AnnotationFailed => "frame description request failed",
            PipelineError::PersistFailed => "failed to persist frame image",
        }
    }
}

} // verus!
