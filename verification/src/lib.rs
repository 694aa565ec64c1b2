//! Verified core of a Turkish speech-transcription pipeline.
//!
//! The library holds the logic that can be checked: audio duration
//! validation and the resampling plan, model-artifact provisioning
//! policy (resolution order, integrity thresholds, retry/backoff),
//! transcription segment validation, Turkish text post-processing,
//! transcript rendering, and the mapping from failures to exit codes.
//! Decoding, networking, the inference engine and all other I/O live
//! outside the library and hand it plain values.

pub mod audio;
pub mod errors;
pub mod logging;
pub mod model;
pub mod output;
pub mod postprocess;
pub mod text;
pub mod transcribe;
