//! Model-artifact provisioning policy: sizing thresholds, file and URL
//! naming, the resolution order, integrity checks, and the
//! retry/backoff schedule.
//!
//! The filesystem probes, the HTTP transfer and the sleeps between
//! attempts happen outside the library; the library decides, from
//! their plain results, what is done next.

use vstd::prelude::*;

use crate::errors::ModelError;
use crate::text::str_eq;

verus! {

/// Maximum number of download attempts.
pub const MAX_RETRIES: u32 = 3;

/// Backoff delay in seconds slept after the failure of the given
/// attempt (1-based). The last table entry is reused when the attempt
/// count runs past the table.
pub open spec fn spec_backoff_delay_secs(attempt: u32) -> u64 {
    if attempt <= 1 {
        1
    } else if attempt == 2 {
        2
    } else {
        4
    }
}

/// Backoff schedule: attempt 1 -> 1 s, attempt 2 -> 2 s, attempt 3 and
/// beyond -> 4 s.
pub fn backoff_delay_secs(attempt: u32) -> (delay: u64)
    requires
        attempt >= 1,
    ensures
        delay == spec_backoff_delay_secs(attempt),
{
    if attempt == 1 {
        1
    } else if attempt == 2 {
        2
    } else {
        4
    }
}

/// The minimum plausible artifact size in bytes for a model variant;
/// zero for a variant without a threshold.
pub open spec fn spec_min_model_size(variant: Seq<char>) -> u64 {
    if variant == "tiny"@ {
        50_000_000
    } else if variant == "base"@ {
        100_000_000
    } else if variant == "small"@ {
        300_000_000
    } else if variant == "medium"@ {
        1_000_000_000
    } else if variant == "large-v3"@ {
        2_000_000_000
    } else {
        0
    }
}

/// Minimum expected model file size in bytes for each known variant.
pub fn min_model_size(model: &str) -> (r: u64)
    ensures
        r == spec_min_model_size(model@),
{
    if str_eq(model, "tiny") {
        50_000_000
    } else if str_eq(model, "base") {
        100_000_000
    } else if str_eq(model, "small") {
        300_000_000
    } else if str_eq(model, "medium") {
        1_000_000_000
    } else if str_eq(model, "large-v3") {
        2_000_000_000
    } else {
        0
    }
}

/// The artifact file name for a variant: `ggml-<variant>.bin`.
pub fn model_filename(size: &str) -> (r: String)
    ensures
        r@ == "ggml-"@ + size@ + ".bin"@,
{
    let mut s = String::from_str("ggml-");
    s.append(size);
    s.append(".bin");
    s
}

/// The legacy single bundled artifact name accepted beside the
/// conventional one.
pub fn legacy_model_filename() -> (r: String)
    ensures
        r@ == "model.bin"@,
{
    String::from_str("model.bin")
}

/// The canonical download URL for a variant.
pub fn model_url(size: &str) -> (r: String)
    ensures
        r@ == "https://huggingface.co/ggerganov/whisper.cpp/resolve/main/ggml-"@ + size@
            + ".bin"@,
{
    let mut s = String::from_str("https://huggingface.co/ggerganov/whisper.cpp/resolve/main/ggml-");
    s.append(size);
    s.append(".bin");
    proof {
        assert(s@ =~= "https://huggingface.co/ggerganov/whisper.cpp/resolve/main/ggml-"@ + size@
            + ".bin"@);
    }
    s
}

// ── Resolution order ────────────────────────────────────────────────

/// The candidate locations for a model artifact, in the order they
/// are tried: bundled beside the executable, the legacy bundled name,
/// the per-user cache, and finally a fresh download.
#[derive(Clone, Copy, Debug, PartialEq, Eq, Structural)]
pub enum ModelSource {
    Bundled,
    BundledLegacy,
    Cache,
    Download,
}

/// The first candidate tried when resolving a model artifact.
pub fn first_source() -> (s: ModelSource)
    ensures
        s == ModelSource::Bundled,
{
    ModelSource::Bundled
}

/// The candidate tried after the given one fails to yield an
/// artifact; a failed download has no successor.
pub fn next_source(s: ModelSource) -> (n: Option<ModelSource>)
    ensures
        s == ModelSource::Bundled ==> n == Some(ModelSource::BundledLegacy),
        s == ModelSource::BundledLegacy ==> n == Some(ModelSource::Cache),
        s == ModelSource::Cache ==> n == Some(ModelSource::Download),
        s == ModelSource::Download ==> n == None::<ModelSource>,
{
    match s {
        ModelSource::Bundled => Some(ModelSource::BundledLegacy),
        ModelSource::BundledLegacy => Some(ModelSource::Cache),
        ModelSource::Cache => Some(ModelSource::Download),
        ModelSource::Download => None,
    }
}

// ── Integrity checks ────────────────────────────────────────────────

/// Whether a cached artifact of the given size may be used for the
/// variant. An artifact below the variant's threshold is rejected:
/// the cached copy is then deleted and the resolution falls through
/// to a download.
pub fn cached_size_acceptable(size_bytes: u64, variant: &str) -> (ok: bool)
    ensures
        ok == !(spec_min_model_size(variant@) > 0 && size_bytes < spec_min_model_size(variant@)),
{
    let min = min_model_size(variant);
    !(min > 0 && size_bytes < min)
}

/// What `validate_downloaded_size` returns: success exactly when the
/// size passes the variant's threshold, and otherwise the
/// `FileTooSmall` error carrying the size, the threshold and the
/// variant.
pub open spec fn download_size_result(
    actual: u64,
    variant: Seq<char>,
    r: Result<(), ModelError>,
) -> bool {
    match r {
        Ok(_) => !(spec_min_model_size(variant) > 0 && actual < spec_min_model_size(variant)),
        Err(e) => match e {
            ModelError::FileTooSmall { size, expected, model } => {
                &&& spec_min_model_size(variant) > 0
                &&& actual < spec_min_model_size(variant)
                &&& size == actual
                &&& expected == spec_min_model_size(variant)
                &&& model@ == variant
            },
            _ => false,
        },
    }
}

/// Validates a downloaded artifact's size against the variant's
/// threshold before it is renamed into the cache; an undersized
/// download is never accepted.
pub fn validate_downloaded_size(actual: u64, variant: &str) -> (r: Result<(), ModelError>)
    ensures
        download_size_result(actual, variant@, r),
{
    let min = min_model_size(variant);
    if min > 0 && actual < min {
        Err(
            ModelError::FileTooSmall {
                size: actual,
                expected: min,
                model: String::from_str(variant),
            },
        )
    } else {
        Ok(())
    }
}

// ── Retry schedule ──────────────────────────────────────────────────

/// The outcome of one download attempt, as the caller observed it.
pub enum AttemptOutcome {
    Success,
    Failure { reason: String },
}

/// Whether an attempt succeeded.
pub open spec fn outcome_ok(o: AttemptOutcome) -> bool {
    o is Success
}

/// The failure description of an attempt; empty for a success.
pub open spec fn outcome_reason(o: AttemptOutcome) -> Seq<char> {
    match o {
        AttemptOutcome::Failure { reason } => reason@,
        AttemptOutcome::Success => Seq::empty(),
    }
}

/// What a full run of the retry loop did: how many attempts were
/// made, the delays slept between them, and the final failure if
/// every attempt failed.
pub struct RetryReport {
    pub attempts: u32,
    pub delays: Vec<u64>,
    pub failure: Option<ModelError>,
}

/// Replays the retry policy over the recorded outcomes of successive
/// download attempts: attempts stop at the first success or after
/// `MAX_RETRIES` failures; the backoff schedule is slept between
/// consecutive attempts; when every attempt fails, the result is
/// `DownloadFailed` carrying the attempt count and the last failure's
/// description.
pub fn run_retry_schedule(outcomes: &Vec<AttemptOutcome>) -> (report: RetryReport)
    requires
        outcomes@.len() >= MAX_RETRIES,
    ensures
        outcome_ok(outcomes@[0]) ==> report.attempts == 1 && report.delays@ == Seq::<u64>::empty()
            && report.failure is None,
        !outcome_ok(outcomes@[0]) && outcome_ok(outcomes@[1]) ==> report.attempts == 2
            && report.delays@ == seq![1u64] && report.failure is None,
        !outcome_ok(outcomes@[0]) && !outcome_ok(outcomes@[1]) && outcome_ok(outcomes@[2])
            ==> report.attempts == 3 && report.delays@ == seq![1u64, 2u64]
            && report.failure is None,
        !outcome_ok(outcomes@[0]) && !outcome_ok(outcomes@[1]) && !outcome_ok(outcomes@[2]) ==> {
            &&& report.attempts == 3
            &&& report.delays@ == seq![1u64, 2u64]
            &&& match report.failure {
                Some(e) => match e {
                    ModelError::DownloadFailed { attempts, reason } => attempts == 3 && reason@
                        == outcome_reason(outcomes@[2]),
                    _ => false,
                },
                None => false,
            }
        },
{
    let mut delays: Vec<u64> = Vec::new();
    match &outcomes[0] {
        AttemptOutcome::Success => {
            return RetryReport { attempts: 1, delays, failure: None };
        },
        AttemptOutcome::Failure { .. } => {},
    }
    delays.push(backoff_delay_secs(1));
    proof {
        assert(delays@ =~= seq![1u64]);
    }
    match &outcomes[1] {
        AttemptOutcome::Success => {
            return RetryReport { attempts: 2, delays, failure: None };
        },
        AttemptOutcome::Failure { .. } => {},
    }
    delays.push(backoff_delay_secs(2));
    proof {
        assert(delays@ =~= seq![1u64, 2u64]);
    }
    match &outcomes[2] {
        AttemptOutcome::Success => RetryReport { attempts: 3, delays, failure: None },
        AttemptOutcome::Failure { reason } => RetryReport {
            attempts: 3,
            delays,
            failure: Some(ModelError::DownloadFailed { attempts: 3, reason: reason.clone() }),
        },
    }
}

} // verus!
