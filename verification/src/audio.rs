//! Audio validation and the resampling plan.
//!
//! Decoding hands the pipeline a buffer of mono samples. The library
//! validates the buffer's duration against the fixed bounds and, when
//! the source rate differs from the target rate, computes the
//! linear-interpolation resampling plan: for each output index, the
//! source index and the fractional interpolation weight, as exact
//! integer arithmetic. Applying the plan to the sample values is the
//! caller's task, since sample values are floating point.

use vstd::arithmetic::div_mod::{
    lemma_fundamental_div_mod, lemma_fundamental_div_mod_converse, lemma_div_is_ordered,
};
use vstd::arithmetic::mul::lemma_mul_inequality;
use vstd::prelude::*;

use crate::errors::AudioError;

verus! {

/// The fixed target sample rate of the inference engine.
pub const WHISPER_SAMPLE_RATE: u32 = 16_000;

/// Samples for the minimum accepted duration: half a second at the
/// target rate.
pub const MIN_AUDIO_SAMPLES: usize = 8_000;

/// Samples for the maximum accepted duration: four hours at the
/// target rate.
pub const MAX_AUDIO_SAMPLES: usize = 4 * 3600 * 16_000;

/// Samples under which the audio is accepted but flagged as likely to
/// give poor results: one second at the target rate.
pub const QUALITY_WARN_SAMPLES: usize = 16_000;

/// Validates the duration of a decoded buffer of `sample_count` mono
/// samples at the target rate. An empty buffer, one under half a
/// second and one over four hours are rejected; both bounds are
/// inclusive on the accepted side. An accepted buffer under one
/// second returns `true`: a non-fatal quality warning.
pub fn validate_duration(sample_count: usize) -> (r: Result<bool, AudioError>)
    ensures
        sample_count == 0 ==> r == Err::<bool, AudioError>(AudioError::EmptyAudio),
        0 < sample_count < MIN_AUDIO_SAMPLES ==> r == Err::<bool, AudioError>(
            (AudioError::TooShort { samples: sample_count }),
        ),
        sample_count > MAX_AUDIO_SAMPLES ==> r == Err::<bool, AudioError>(
            (AudioError::TooLong { samples: sample_count }),
        ),
        MIN_AUDIO_SAMPLES <= sample_count <= MAX_AUDIO_SAMPLES ==> r == Ok::<bool, AudioError>(
            sample_count < QUALITY_WARN_SAMPLES,
        ),
{
    if sample_count == 0 {
        Err(AudioError::EmptyAudio)
    } else if sample_count < MIN_AUDIO_SAMPLES {
        Err(AudioError::TooShort { samples: sample_count })
    } else if sample_count > MAX_AUDIO_SAMPLES {
        Err(AudioError::TooLong { samples: sample_count })
    } else {
        Ok(sample_count < QUALITY_WARN_SAMPLES)
    }
}

/// One output sample of the resampling plan: the source index to read
/// and the fractional interpolation weight `frac_num / to_rate`
/// towards the following source sample.
pub struct ResamplePoint {
    pub idx: usize,
    pub frac_num: u64,
}

/// The length of the resampled output: the ceiling of
/// `input_len * to_rate / from_rate`.
pub open spec fn spec_resample_len(input_len: int, from_rate: int, to_rate: int) -> int {
    (input_len * to_rate + from_rate - 1) / from_rate
}

/// Computes the linear-interpolation resampling plan from
/// `input_len` samples at `from_rate` to the output rate `to_rate`.
/// Output index `i` reads source position `i * from_rate / to_rate`:
/// integer part the source index, remainder over `to_rate` the
/// interpolation weight. Equal rates give the identity plan.
pub fn resample_plan(input_len: usize, from_rate: u32, to_rate: u32) -> (plan: Vec<ResamplePoint>)
    requires
        from_rate >= 1,
        to_rate >= 1,
        input_len * to_rate + from_rate <= usize::MAX,
    ensures
        plan@.len() == spec_resample_len(input_len as int, from_rate as int, to_rate as int),
        forall|i: int|
            0 <= i < plan@.len() ==> plan@[i].idx == i * from_rate / (to_rate as int)
                && plan@[i].frac_num == i * from_rate % (to_rate as int) && plan@[i].idx
                < input_len,
        from_rate == to_rate ==> plan@.len() == input_len,
        from_rate == to_rate ==> forall|i: int|
            0 <= i < plan@.len() ==> plan@[i].idx == i && plan@[i].frac_num == 0,
{
    let f = from_rate as usize;
    let t = to_rate as usize;
    let n = input_len * t;
    let out_len = (n + f - 1) / f;
    proof {
        // out_len * f lies within f - 1 of n, so every i < out_len
        // keeps i * f below n.
        lemma_fundamental_div_mod(n + f - 1, f as int);
        if from_rate == to_rate {
            lemma_fundamental_div_mod_converse(n + f - 1, f as int, input_len as int, f - 1);
        }
    }
    let mut plan: Vec<ResamplePoint> = Vec::new();
    let mut i: usize = 0;
    while i < out_len
        invariant
            i <= out_len,
            f == from_rate,
            t == to_rate,
            f >= 1,
            t >= 1,
            n == input_len * t,
            n + f <= usize::MAX,
            out_len == spec_resample_len(input_len as int, f as int, t as int),
            plan@.len() == i,
            forall|j: int|
                0 <= j < i ==> plan@[j].idx == j * f / (t as int) && plan@[j].frac_num == j * f % (
                t as int) && plan@[j].idx < input_len,
            f == t ==> forall|j: int| 0 <= j < i ==> plan@[j].idx == j && plan@[j].frac_num == 0,
        decreases out_len - i,
    {
        proof {
            // i * f <= (out_len - 1) * f == n - 1 - ((n + f - 1) % f).
            lemma_mul_inequality(i as int, out_len - 1, f as int);
            lemma_fundamental_div_mod(n + f - 1, f as int);
            assert((out_len - 1) * f == out_len * f - f) by (nonlinear_arith);
            assert(i * f < n);
            assert(n >= 1);
            assert(input_len >= 1) by (nonlinear_arith)
                requires
                    n == input_len * t,
                    n >= 1,
                    t >= 1,
            ;
            // (input_len * t - 1) / t == input_len - 1 bounds the index.
            assert((input_len - 1) * t == input_len * t - t) by (nonlinear_arith);
            lemma_fundamental_div_mod_converse(n - 1, t as int, input_len - 1, t - 1);
            lemma_div_is_ordered(i * f, n - 1, t as int);
        }
        let src = i * f;
        let idx = src / t;
        let frac = src % t;
        proof {
            if from_rate == to_rate {
                lemma_fundamental_div_mod_converse(src as int, t as int, i as int, 0);
            }
        }
        plan.push(ResamplePoint { idx, frac_num: frac as u64 });
        i = i + 1;
    }
    plan
}

} // verus!
