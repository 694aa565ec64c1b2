//! Rendering of the transcript report: a fixed header, the full text
//! of all segments, and one timestamped line per segment. Writing the
//! rendered text to a file is the caller's task.

use vstd::prelude::*;

use crate::text::{chars_to_string, push_all, str_to_chars};
use crate::transcribe::{seg_model, segs_model, Segment};

verus! {

/// The decimal digit character for a value below ten.
pub open spec fn spec_digit(d: int) -> char {
    if d == 0 {
        '0'
    } else if d == 1 {
        '1'
    } else if d == 2 {
        '2'
    } else if d == 3 {
        '3'
    } else if d == 4 {
        '4'
    } else if d == 5 {
        '5'
    } else if d == 6 {
        '6'
    } else if d == 7 {
        '7'
    } else if d == 8 {
        '8'
    } else {
        '9'
    }
}

/// The decimal digits of a non-negative number, most significant
/// first.
pub open spec fn spec_dec(n: int) -> Seq<char>
    decreases n,
{
    if n < 10 {
        seq![spec_digit(n)]
    } else {
        spec_dec(n / 10).push(spec_digit(n % 10))
    }
}

/// A number zero-padded to at least two decimal digits.
pub open spec fn spec_pad2(n: int) -> Seq<char> {
    if n < 10 {
        seq!['0'] + spec_dec(n)
    } else {
        spec_dec(n)
    }
}

/// A second count formatted as `MM:SS`, minutes and seconds each
/// zero-padded to two digits.
pub open spec fn spec_mmss(sec: int) -> Seq<char> {
    spec_pad2(sec / 60) + seq![':'] + spec_pad2(sec % 60)
}

/// The digit character for a value below ten.
fn digit_char(d: u64) -> (c: char)
    requires
        d < 10,
    ensures
        c == spec_digit(d as int),
{
    if d == 0 {
        '0'
    } else if d == 1 {
        '1'
    } else if d == 2 {
        '2'
    } else if d == 3 {
        '3'
    } else if d == 4 {
        '4'
    } else if d == 5 {
        '5'
    } else if d == 6 {
        '6'
    } else if d == 7 {
        '7'
    } else if d == 8 {
        '8'
    } else {
        '9'
    }
}

/// The decimal digits of a number, most significant first.
fn u64_dec(n: u64) -> (v: Vec<char>)
    ensures
        v@ == spec_dec(n as int),
    decreases n,
{
    if n < 10 {
        let mut v: Vec<char> = Vec::new();
        v.push(digit_char(n));
        proof {
            assert(v@ =~= seq![spec_digit(n as int)]);
        }
        v
    } else {
        let mut v = u64_dec(n / 10);
        v.push(digit_char(n % 10));
        v
    }
}

/// A number zero-padded to at least two decimal digits.
fn u64_pad2(n: u64) -> (v: Vec<char>)
    ensures
        v@ == spec_pad2(n as int),
{
    if n < 10 {
        let mut v: Vec<char> = Vec::new();
        v.push('0');
        v.push(digit_char(n));
        proof {
            assert(v@ =~= seq!['0'] + spec_dec(n as int));
        }
        v
    } else {
        u64_dec(n)
    }
}

/// A second count as `MM:SS`.
fn mmss(sec: u64) -> (v: Vec<char>)
    ensures
        v@ == spec_mmss(sec as int),
{
    let mut v = u64_pad2(sec / 60);
    v.push(':');
    let s = u64_pad2(sec % 60);
    push_all(&mut v, &s);
    proof {
        assert(v@ =~= spec_mmss(sec as int));
    }
    v
}

/// The texts of the segments joined by single spaces.
pub open spec fn spec_join_texts(segs: Seq<(int, int, Seq<char>)>) -> Seq<char>
    decreases segs.len(),
{
    if segs.len() == 0 {
        Seq::empty()
    } else {
        segs.first().2 + spec_join_rest(segs.drop_first())
    }
}

/// The remaining texts, each preceded by a single space.
pub open spec fn spec_join_rest(segs: Seq<(int, int, Seq<char>)>) -> Seq<char>
    decreases segs.len(),
{
    if segs.len() == 0 {
        Seq::empty()
    } else {
        " "@ + segs.first().2 + spec_join_rest(segs.drop_first())
    }
}

/// One timestamped line: `[MM:SS -> MM:SS]  <text>`, timestamps in
/// whole seconds from the centisecond values.
pub open spec fn spec_seg_line(t: (int, int, Seq<char>)) -> Seq<char> {
    "["@ + spec_mmss(t.0 / 100) + " -> "@ + spec_mmss(t.1 / 100) + "]  "@ + t.2 + "\n"@
}

/// The timestamped lines of all segments, in order.
pub open spec fn spec_seg_lines(segs: Seq<(int, int, Seq<char>)>) -> Seq<char>
    decreases segs.len(),
{
    if segs.len() == 0 {
        Seq::empty()
    } else {
        spec_seg_line(segs.first()) + spec_seg_lines(segs.drop_first())
    }
}

/// The complete transcript report. An empty segment list yields
/// exactly the sentinel line; otherwise the fixed header (title,
/// source name, model label, duration with one decimal place, a
/// separator), the space-joined full text, and the timestamped
/// section follow each other. The duration is carried in tenths of a
/// second.
pub open spec fn spec_render(
    source: Seq<char>,
    model: Seq<char>,
    duration_tenths: int,
    segs: Seq<(int, int, Seq<char>)>,
) -> Seq<char> {
    if segs.len() == 0 {
        "No speech detected in the audio.\n"@
    } else {
        "=== TRANSCRIPT (Turkish) ===\n"@ + "Source: "@ + source + "\n"@ + "Model: whisper-"@
            + model + "\n"@ + "Duration: "@ + spec_dec(duration_tenths / 10) + "."@ + spec_dec(
            duration_tenths % 10,
        ) + "s\n"@ + "========================================\n"@ + "\n"@ + spec_join_texts(segs)
            + "\n\n"@ + "=== TIMESTAMPED ===\n\n"@ + spec_seg_lines(segs)
    }
}

/// The texts of the segments joined by single spaces.
fn render_join_texts(segments: &Vec<Segment>) -> (v: Vec<char>)
    requires
        segments@.len() > 0,
    ensures
        v@ == spec_join_texts(segs_model(segments@)),
{
    let ghost m = segs_model(segments@);
    let mut v = str_to_chars(segments[0].text.as_str());
    let mut k: usize = 1;
    proof {
        assert(m.drop_first() =~= m.skip(1));
        assert(spec_join_texts(m) == m.first().2 + spec_join_rest(m.skip(1)));
    }
    while k < segments.len()
        invariant
            1 <= k <= segments@.len(),
            m == segs_model(segments@),
            spec_join_texts(m) == v@ + spec_join_rest(m.skip(k as int)),
        decreases segments@.len() - k,
    {
        proof {
            assert(m.skip(k as int).first() == m[k as int]);
            assert(m.skip(k as int).drop_first() =~= m.skip(k + 1));
        }
        push_all(&mut v, &str_to_chars(" "));
        let t = str_to_chars(segments[k].text.as_str());
        push_all(&mut v, &t);
        k = k + 1;
    }
    proof {
        assert(m.skip(segments@.len() as int) =~= Seq::<(int, int, Seq<char>)>::empty());
        assert(v@ + Seq::<char>::empty() =~= v@);
    }
    v
}

/// One timestamped line for a segment.
fn render_seg_line(seg: &Segment) -> (v: Vec<char>)
    ensures
        v@ == spec_seg_line(seg_model(*seg)),
{
    let mut v = str_to_chars("[");
    let s = mmss(seg.start_cs / 100);
    push_all(&mut v, &s);
    push_all(&mut v, &str_to_chars(" -> "));
    let e = mmss(seg.end_cs / 100);
    push_all(&mut v, &e);
    push_all(&mut v, &str_to_chars("]  "));
    let t = str_to_chars(seg.text.as_str());
    push_all(&mut v, &t);
    push_all(&mut v, &str_to_chars("\n"));
    proof {
        assert(v@ =~= spec_seg_line(seg_model(*seg)));
    }
    v
}

/// The timestamped lines of all segments.
fn render_seg_lines(segments: &Vec<Segment>) -> (v: Vec<char>)
    ensures
        v@ == spec_seg_lines(segs_model(segments@)),
{
    let ghost m = segs_model(segments@);
    let mut v: Vec<char> = Vec::new();
    let mut k: usize = 0;
    proof {
        assert(m.skip(0) =~= m);
        assert(Seq::<char>::empty() + spec_seg_lines(m) =~= spec_seg_lines(m));
    }
    while k < segments.len()
        invariant
            k <= segments@.len(),
            m == segs_model(segments@),
            spec_seg_lines(m) == v@ + spec_seg_lines(m.skip(k as int)),
        decreases segments@.len() - k,
    {
        proof {
            assert(m.skip(k as int).first() == m[k as int]);
            assert(m.skip(k as int).drop_first() =~= m.skip(k + 1));
        }
        let line = render_seg_line(&segments[k]);
        push_all(&mut v, &line);
        k = k + 1;
    }
    proof {
        assert(m.skip(segments@.len() as int) =~= Seq::<(int, int, Seq<char>)>::empty());
        assert(v@ + Seq::<char>::empty() =~= v@);
    }
    v
}

/// Renders the complete transcript report for the validated
/// segments. The duration is the inference wall-clock time in tenths
/// of a second; `source_name` is the audio file's name and
/// `model_size` the variant label.
pub fn render_transcript(
    source_name: &str,
    model_size: &str,
    duration_tenths: u64,
    segments: &Vec<Segment>,
) -> (r: String)
    ensures
        r@ == spec_render(
            source_name@,
            model_size@,
            duration_tenths as int,
            segs_model(segments@),
        ),
{
    if segments.len() == 0 {
        proof {
            assert(segs_model(segments@) =~= Seq::<(int, int, Seq<char>)>::empty());
        }
        return String::from_str("No speech detected in the audio.\n");
    }
    let mut v = str_to_chars("=== TRANSCRIPT (Turkish) ===\n");
    push_all(&mut v, &str_to_chars("Source: "));
    push_all(&mut v, &str_to_chars(source_name));
    push_all(&mut v, &str_to_chars("\n"));
    push_all(&mut v, &str_to_chars("Model: whisper-"));
    push_all(&mut v, &str_to_chars(model_size));
    push_all(&mut v, &str_to_chars("\n"));
    push_all(&mut v, &str_to_chars("Duration: "));
    let whole = u64_dec(duration_tenths / 10);
    push_all(&mut v, &whole);
    push_all(&mut v, &str_to_chars("."));
    let tenth = u64_dec(duration_tenths % 10);
    push_all(&mut v, &tenth);
    push_all(&mut v, &str_to_chars("s\n"));
    push_all(&mut v, &str_to_chars("========================================\n"));
    push_all(&mut v, &str_to_chars("\n"));
    let joined = render_join_texts(segments);
    push_all(&mut v, &joined);
    push_all(&mut v, &str_to_chars("\n\n"));
    push_all(&mut v, &str_to_chars("=== TIMESTAMPED ===\n\n"));
    let lines = render_seg_lines(segments);
    push_all(&mut v, &lines);
    proof {
        assert(v@ =~= spec_render(
            source_name@,
            model_size@,
            duration_tenths as int,
            segs_model(segments@),
        ));
    }
    chars_to_string(&v)
}

} // verus!
