//! Orchestration of the inference stage: the deterministic decoding
//! parameters handed to the engine, and validation of the timed
//! segments read back from it.
//!
//! The engine itself is an opaque capability that turns mono samples
//! into raw timed segments; the library decides how it is configured
//! and which of its segments survive.

use vstd::prelude::*;

use crate::text::{spec_trim, str_to_chars, trim_chars, chars_to_string};

verus! {

/// The deterministic decoding parameters for one inference run.
/// Fractional parameters are carried in thousandths so they stay
/// plain integers; the engine adapter divides by 1000.
pub struct InferenceConfig {
    /// Beam-search width.
    pub beam_size: i32,
    /// Beam-search patience in thousandths; negative disables early
    /// stopping.
    pub patience_milli: i32,
    /// Target language code.
    pub language: String,
    /// Whether to translate instead of transcribe.
    pub translate: bool,
    pub print_special: bool,
    pub print_progress: bool,
    pub print_realtime: bool,
    pub print_timestamps: bool,
    /// No-speech probability threshold in thousandths, above which a
    /// segment is suppressed as hallucinated silence.
    pub no_speech_threshold_milli: u32,
    /// Threads the engine may use internally.
    pub n_threads: i32,
}

/// Builds the fixed decoding parameters: beam search of width 5 with
/// no early-stopping patience, Turkish, no translation, no console
/// printing from the engine, a no-speech threshold of 0.6, and the
/// caller's thread count.
pub fn inference_config(n_threads: i32) -> (c: InferenceConfig)
    requires
        n_threads >= 1,
    ensures
        c.beam_size == 5,
        c.patience_milli == -1000,
        c.language@ == "tr"@,
        !c.translate,
        !c.print_special,
        !c.print_progress,
        !c.print_realtime,
        !c.print_timestamps,
        c.no_speech_threshold_milli == 600,
        c.n_threads == n_threads,
{
    InferenceConfig {
        beam_size: 5,
        patience_milli: -1000,
        language: String::from_str("tr"),
        translate: false,
        print_special: false,
        print_progress: false,
        print_realtime: false,
        print_timestamps: false,
        no_speech_threshold_milli: 600,
        n_threads,
    }
}

/// One segment as the engine reports it: timestamps in centiseconds,
/// text as returned.
pub struct RawSegment {
    pub start_cs: i64,
    pub end_cs: i64,
    pub text: String,
}

/// One validated segment: non-negative ordered timestamps in
/// centiseconds and whitespace-trimmed non-empty text.
pub struct Segment {
    pub start_cs: u64,
    pub end_cs: u64,
    pub text: String,
}

/// A validated segment is well formed when its start does not lie
/// after its end.
pub open spec fn seg_wf(s: Segment) -> bool {
    s.start_cs <= s.end_cs
}

/// The mathematical content of a raw segment.
pub open spec fn raw_model(r: RawSegment) -> (int, int, Seq<char>) {
    (r.start_cs as int, r.end_cs as int, r.text@)
}

/// The mathematical content of a validated segment.
pub open spec fn seg_model(s: Segment) -> (int, int, Seq<char>) {
    (s.start_cs as int, s.end_cs as int, s.text@)
}

/// The contents of a sequence of raw segments.
pub open spec fn raws_model(v: Seq<RawSegment>) -> Seq<(int, int, Seq<char>)> {
    v.map_values(|r: RawSegment| raw_model(r))
}

/// The contents of a sequence of validated segments.
pub open spec fn segs_model(v: Seq<Segment>) -> Seq<(int, int, Seq<char>)> {
    v.map_values(|s: Segment| seg_model(s))
}

/// Whether a reported segment survives validation: no negative
/// timestamp, end not before start, and text that is non-empty after
/// trimming.
pub open spec fn spec_keep(t: (int, int, Seq<char>)) -> bool {
    &&& t.0 >= 0
    &&& t.1 >= 0
    &&& t.1 >= t.0
    &&& spec_trim(t.2).len() > 0
}

/// The surviving segments in their original order, each with its
/// text trimmed.
pub open spec fn spec_filter_segments(s: Seq<(int, int, Seq<char>)>) -> Seq<(int, int, Seq<char>)>
    decreases s.len(),
{
    if s.len() == 0 {
        s
    } else {
        let rest = spec_filter_segments(s.drop_first());
        if spec_keep(s.first()) {
            seq![(s.first().0, s.first().1, spec_trim(s.first().2))] + rest
        } else {
            rest
        }
    }
}

/// Validates the segments the engine reported, in order: a segment
/// with a negative timestamp, with its end before its start, or with
/// text that trims to nothing is skipped and counted; the rest keep
/// their order, with trimmed text.
pub fn filter_segments(raw: &Vec<RawSegment>) -> (res: (Vec<Segment>, u32))
    requires
        raw@.len() <= u32::MAX,
    ensures
        segs_model(res.0@) == spec_filter_segments(raws_model(raw@)),
        res.1 as int == raw@.len() - res.0@.len(),
        res.0@.len() <= raw@.len(),
        forall|i: int| 0 <= i < res.0@.len() ==> seg_wf(res.0@[i]),
{
    let n = raw.len();
    let mut out: Vec<Segment> = Vec::new();
    let mut skipped: u32 = 0;
    let mut i: usize = 0;
    proof {
        assert(raws_model(raw@).skip(0) =~= raws_model(raw@));
        assert(segs_model(out@) + spec_filter_segments(raws_model(raw@)) =~= spec_filter_segments(
            raws_model(raw@),
        ));
    }
    while i < n
        invariant
            i <= n,
            n == raw@.len(),
            n <= u32::MAX,
            out@.len() + skipped == i,
            spec_filter_segments(raws_model(raw@)) == segs_model(out@) + spec_filter_segments(
                raws_model(raw@).skip(i as int),
            ),
            forall|k: int| 0 <= k < out@.len() ==> seg_wf(out@[k]),
        decreases n - i,
    {
        proof {
            assert(raws_model(raw@).skip(i as int).first() == raw_model(raw@[i as int]));
            assert(raws_model(raw@).skip(i as int).drop_first() =~= raws_model(raw@).skip(i + 1));
        }
        let seg = &raw[i];
        if seg.start_cs < 0 || seg.end_cs < 0 || seg.end_cs < seg.start_cs {
            skipped = skipped + 1;
        } else {
            let tv = str_to_chars(seg.text.as_str());
            let trimmed = trim_chars(&tv);
            if trimmed.len() == 0 {
                skipped = skipped + 1;
            } else {
                let text = chars_to_string(&trimmed);
                let ghost out0 = out@;
                out.push(
                    Segment {
                        start_cs: seg.start_cs as u64,
                        end_cs: seg.end_cs as u64,
                        text,
                    },
                );
                proof {
                    assert(segs_model(out@) =~= segs_model(out0) + seq![
                        (
                            raw@[i as int].start_cs as int,
                            raw@[i as int].end_cs as int,
                            spec_trim(raw@[i as int].text@),
                        ),
                    ]);
                    assert(segs_model(out0) + spec_filter_segments(
                        raws_model(raw@).skip(i as int),
                    ) =~= segs_model(out@) + spec_filter_segments(raws_model(raw@).skip(i + 1)));
                }
            }
        }
        i = i + 1;
    }
    proof {
        assert(raws_model(raw@).skip(n as int) =~= Seq::<(int, int, Seq<char>)>::empty());
        assert(segs_model(out@) + Seq::<(int, int, Seq<char>)>::empty() =~= segs_model(out@));
    }
    (out, skipped)
}

} // verus!
