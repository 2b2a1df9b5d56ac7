//! The failure taxonomy of the classification pipeline.

use vstd::prelude::*;

verus! {

/// Every way a stage of the pipeline can fail.
///
/// - `DecodeError`: the uploaded bytes are not a decodable image (unsupported
///   encoding, truncated data, or a zero-sized pixel grid).
/// - `ModelLoadError`: the classifier's weights or class-name table are
///   missing, truncated, or do not fit the expected architecture.
/// - `NotLoadedError`: classification was requested before a model was loaded.
/// - `InvalidKError`: a top-K extraction was requested with k outside
///   `1 ..= class count`.
#[derive(Clone, Copy, Debug, PartialEq, Eq, Structural)]
pub enum PipelineError {
    DecodeError,
    ModelLoadError,
    NotLoadedError,
    InvalidKError,
}

} // verus!
