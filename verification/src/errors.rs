//! The failure taxonomy of the pipeline, typed by stage, and the
//! mapping from failures to stable exit codes.

use vstd::prelude::*;

verus! {

/// Failures of audio loading and validation.
#[derive(Debug)]
pub enum AudioError {
    /// The audio file could not be opened.
    FileOpen { path: String },
    /// Probing found no known container or codec.
    UnsupportedFormat,
    /// The container holds no audio track.
    NoTrack,
    /// No decoder exists for the track's codec.
    UnsupportedCodec,
    /// Decoding failed mid-stream; carries the decoder's message.
    DecodeError(String),
    /// The file decoded to no samples at all.
    EmptyAudio,
    /// The decoded audio is shorter than the half-second minimum.
    TooShort { samples: usize },
    /// The decoded audio is longer than the four-hour maximum.
    TooLong { samples: usize },
}

/// Failures of model-artifact provisioning.
#[derive(Debug)]
pub enum ModelError {
    /// No home or cache directory could be determined.
    NoCacheDir,
    /// Not enough disk space for the model download.
    InsufficientDiskSpace,
    /// Every download attempt failed; carries the attempt count and
    /// the last failure's description.
    DownloadFailed { attempts: u32, reason: String },
    /// The server answered with a non-success status.
    HttpError { status: u16, url: String },
    /// The download timed out.
    Timeout { seconds: u64 },
    /// The artifact is smaller than the variant's minimum size.
    FileTooSmall { size: u64, expected: u64, model: String },
    /// The inference engine could not load the model.
    LoadFailed(String),
    /// The model path is not valid UTF-8.
    InvalidPath(String),
    /// The cache directory could not be created.
    CacheDirCreation { path: String },
    /// The finished download could not be renamed into place.
    RenameFailed(String),
}

/// Failures of the inference stage.
#[derive(Debug)]
pub enum TranscriptionError {
    /// The inference session could not be created.
    StateCreation,
    /// Inference over the buffer failed.
    InferenceFailed,
    /// A segment could not be read back from the engine.
    SegmentRead,
    /// A segment carried timestamps outside the valid range.
    InvalidTimestamp { index: i32, start: i64, end: i64 },
}

/// Failures of transcript writing.
#[derive(Debug)]
pub enum OutputError {
    /// The output file could not be created.
    FileCreate { path: String },
    /// Writing the transcript failed.
    WriteFailed(String),
}

/// A failure of any stage, as the top-level handler sees it.
/// `Unknown` stands for a failure in which no recognized kind was
/// found.
#[derive(Debug)]
pub enum PipelineError {
    Audio(AudioError),
    Model(ModelError),
    Transcription(TranscriptionError),
    Output(OutputError),
    Unknown,
}

/// The stable exit code that classifies a failure.
pub open spec fn spec_exit_code(e: PipelineError) -> int {
    match e {
        PipelineError::Audio(a) => match a {
            AudioError::FileOpen { .. } => 10,
            AudioError::UnsupportedFormat => 10,
            AudioError::NoTrack => 11,
            AudioError::UnsupportedCodec => 11,
            AudioError::DecodeError(_) => 11,
            AudioError::EmptyAudio => 12,
            AudioError::TooShort { .. } => 12,
            AudioError::TooLong { .. } => 12,
        },
        PipelineError::Model(m) => match m {
            ModelError::NoCacheDir => 20,
            ModelError::CacheDirCreation { .. } => 20,
            ModelError::InsufficientDiskSpace => 21,
            ModelError::DownloadFailed { .. } => 21,
            ModelError::HttpError { .. } => 21,
            ModelError::Timeout { .. } => 21,
            ModelError::FileTooSmall { .. } => 22,
            ModelError::LoadFailed(_) => 23,
            ModelError::InvalidPath(_) => 23,
            ModelError::RenameFailed(_) => 23,
        },
        PipelineError::Transcription(_) => 30,
        PipelineError::Output(_) => 40,
        PipelineError::Unknown => 99,
    }
}

/// The exit-code families: success, audio input, audio decode, audio
/// validation, model not found, model download, model integrity, model
/// load, transcription, output write, unknown.
pub struct ExitCode;

impl ExitCode {
    pub const SUCCESS: i32 = 0;

    pub const AUDIO_INPUT: i32 = 10;

    pub const AUDIO_DECODE: i32 = 11;

    pub const AUDIO_VALIDATION: i32 = 12;

    pub const MODEL_NOT_FOUND: i32 = 20;

    pub const MODEL_DOWNLOAD: i32 = 21;

    pub const MODEL_INTEGRITY: i32 = 22;

    pub const MODEL_LOAD: i32 = 23;

    pub const TRANSCRIPTION: i32 = 30;

    pub const OUTPUT_WRITE: i32 = 40;

    pub const UNKNOWN: i32 = 99;

    /// Classifies a failure into its stable exit code.
    pub fn from_error(err: &PipelineError) -> (code: i32)
        ensures
            code == spec_exit_code(*err),
    {
        match err {
            PipelineError::Audio(a) => match a {
                AudioError::FileOpen { .. } => 10,
                AudioError::UnsupportedFormat => 10,
                AudioError::NoTrack => 11,
                AudioError::UnsupportedCodec => 11,
                AudioError::DecodeError(_) => 11,
                AudioError::EmptyAudio => 12,
                AudioError::TooShort { .. } => 12,
                AudioError::TooLong { .. } => 12,
            },
            PipelineError::Model(m) => match m {
                ModelError::NoCacheDir => 20,
                ModelError::CacheDirCreation { .. } => 20,
                ModelError::InsufficientDiskSpace => 21,
                ModelError::DownloadFailed { .. } => 21,
                ModelError::HttpError { .. } => 21,
                ModelError::Timeout { .. } => 21,
                ModelError::FileTooSmall { .. } => 22,
                ModelError::LoadFailed(_) => 23,
                ModelError::InvalidPath(_) => 23,
                ModelError::RenameFailed(_) => 23,
            },
            PipelineError::Transcription(_) => 30,
            PipelineError::Output(_) => 40,
            PipelineError::Unknown => 99,
        }
    }
}

} // verus!
