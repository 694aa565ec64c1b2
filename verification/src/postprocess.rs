//! Turkish-specific post-processing of transcribed segment text.
//!
//! Four passes run in a fixed order: literal substitution of known
//! garbled tokens, proper-noun repair, wrong-diacritic normalization,
//! and question-particle detection that appends a missing `?`.

use vstd::prelude::*;

use crate::text::{
    chars_to_string, ends_with_word, is_ws, replace_all, spec_replace, spec_trim_end, str_to_chars,
    suffix_at_word_end, trim_end_chars,
};

verus! {

/// The lowercase form of a character sequence, as the standard
/// library's `str::to_lowercase` computes it; a function of the
/// characters alone.
pub uninterp spec fn lower_of(s: Seq<char>) -> Seq<char>;

/// Lowercases a string for case-insensitive matching.
///
/// Relies on `str::to_lowercase`: the result depends on the characters
/// of the input alone.
#[verifier::external_body]
fn lowercase(s: &str) -> (r: String)
    ensures
        r@ == lower_of(s@),
{
    s.to_lowercase()
}

// ── Substitution pass ───────────────────────────────────────────────

/// Known garbled tokens and their corrections, applied in order,
/// case-sensitively, to every occurrence.
pub open spec fn spec_fix_substitutions(s: Seq<char>) -> Seq<char> {
    spec_replace(
        spec_replace(
            spec_replace(spec_replace(s, "göğlen"@, "görülen"@), "göğünmeyen"@, "görünmeyen"@),
            "göğlü"@,
            "görülü"@,
        ),
        "bilepini"@,
        "deneyimini"@,
    )
}

/// Replaces known garbled Turkish tokens with their corrected forms.
pub fn fix_substitutions(text: &str) -> (r: String)
    ensures
        r@ == spec_fix_substitutions(text@),
{
    proof {
        reveal_strlit("göğlen");
        reveal_strlit("göğünmeyen");
        reveal_strlit("göğlü");
        reveal_strlit("bilepini");
    }
    let v = str_to_chars(text);
    let v = replace_all(&v, &str_to_chars("göğlen"), &str_to_chars("görülen"));
    let v = replace_all(&v, &str_to_chars("göğünmeyen"), &str_to_chars("görünmeyen"));
    let v = replace_all(&v, &str_to_chars("göğlü"), &str_to_chars("görülü"));
    let v = replace_all(&v, &str_to_chars("bilepini"), &str_to_chars("deneyimini"));
    chars_to_string(&v)
}

// ── Proper-noun pass ────────────────────────────────────────────────

/// Known misheard proper nouns and their correct forms.
pub open spec fn spec_fix_proper_nouns(s: Seq<char>) -> Seq<char> {
    spec_replace(
        spec_replace(
            spec_replace(s, "Peter Dubek"@, "Peter Drucker"@),
            "Aydigur Şahina"@,
            "Edgar Schein"@,
        ),
        "Antağı de Sen"@,
        "Antoine de Saint"@,
    )
}

/// Replaces known misheard proper nouns with their correct forms.
pub fn fix_proper_nouns(text: &str) -> (r: String)
    ensures
        r@ == spec_fix_proper_nouns(text@),
{
    proof {
        reveal_strlit("Peter Dubek");
        reveal_strlit("Aydigur Şahina");
        reveal_strlit("Antağı de Sen");
    }
    let v = str_to_chars(text);
    let v = replace_all(&v, &str_to_chars("Peter Dubek"), &str_to_chars("Peter Drucker"));
    let v = replace_all(&v, &str_to_chars("Aydigur Şahina"), &str_to_chars("Edgar Schein"));
    let v = replace_all(&v, &str_to_chars("Antağı de Sen"), &str_to_chars("Antoine de Saint"));
    chars_to_string(&v)
}

// ── Character-normalization pass ────────────────────────────────────

/// Known wrong-diacritic spellings and their corrections.
pub open spec fn spec_fix_turkish_chars(s: Seq<char>) -> Seq<char> {
    spec_replace(spec_replace(s, "hültür"@, "kültür"@), "kültüğü"@, "kültürü"@)
}

/// Replaces known wrong-diacritic spellings with the right ones.
pub fn fix_turkish_chars(text: &str) -> (r: String)
    ensures
        r@ == spec_fix_turkish_chars(text@),
{
    proof {
        reveal_strlit("hültür");
        reveal_strlit("kültüğü");
    }
    let v = str_to_chars(text);
    let v = replace_all(&v, &str_to_chars("hültür"), &str_to_chars("kültür"));
    let v = replace_all(&v, &str_to_chars("kültüğü"), &str_to_chars("kültürü"));
    chars_to_string(&v)
}

// ── Question-particle pass ──────────────────────────────────────────

/// The punctuation stripped before looking for a question particle.
pub open spec fn is_strip_punct(c: char) -> bool {
    c == '.' || c == '!' || c == ',' || c == ';' || c == ':'
}

/// The sequence with trailing `. ! , ; :` characters removed.
pub open spec fn spec_strip_trailing_punct(s: Seq<char>) -> Seq<char>
    decreases s.len(),
{
    if s.len() == 0 {
        s
    } else if is_strip_punct(s.last()) {
        spec_strip_trailing_punct(s.drop_last())
    } else {
        s
    }
}

/// Decides whether a character is in the stripped punctuation set.
fn is_strip_punct_char(c: char) -> (r: bool)
    ensures
        r == is_strip_punct(c),
{
    c == '.' || c == '!' || c == ',' || c == ';' || c == ':'
}

/// Removes trailing `. ! , ; :` characters from a character vector.
fn strip_trailing_punct(v: &Vec<char>) -> (r: Vec<char>)
    ensures
        r@ == spec_strip_trailing_punct(v@),
{
    let mut j: usize = v.len();
    proof {
        assert(v@.take(v@.len() as int) =~= v@);
    }
    while j > 0 && is_strip_punct_char(v[j - 1])
        invariant
            j <= v@.len(),
            spec_strip_trailing_punct(v@) == spec_strip_trailing_punct(v@.take(j as int)),
        decreases j,
    {
        proof {
            assert(v@.take(j as int).last() == v@[j - 1]);
            assert(v@.take(j as int).drop_last() =~= v@.take(j - 1));
        }
        j = j - 1;
    }
    proof {
        if j > 0 {
            assert(!is_strip_punct(v@.take(j as int).last()));
        }
        assert(spec_strip_trailing_punct(v@.take(j as int)) == v@.take(j as int));
    }
    let mut r: Vec<char> = Vec::new();
    let mut i: usize = 0;
    while i < j
        invariant
            i <= j <= v@.len(),
            r@ == v@.take(j as int).take(i as int),
        decreases j - i,
    {
        r.push(v[i]);
        proof {
            assert(r@ =~= v@.take(j as int).take(i + 1));
        }
        i = i + 1;
    }
    proof {
        assert(v@.take(j as int).take(j as int) =~= v@.take(j as int));
    }
    r
}

/// Whether the lowercased text ends in one of the Turkish question
/// particles as a standalone trailing word. All vowel-harmony variants
/// are listed; since every listed particle is checked, the order of
/// the checks does not change the outcome.
pub open spec fn has_question_particle(lower: Seq<char>) -> bool {
    ||| suffix_at_word_end(lower, "mısınız"@)
    ||| suffix_at_word_end(lower, "misiniz"@)
    ||| suffix_at_word_end(lower, "musunuz"@)
    ||| suffix_at_word_end(lower, "müsünüz"@)
    ||| suffix_at_word_end(lower, "mıyız"@)
    ||| suffix_at_word_end(lower, "miyiz"@)
    ||| suffix_at_word_end(lower, "muyuz"@)
    ||| suffix_at_word_end(lower, "müyüz"@)
    ||| suffix_at_word_end(lower, "mısın"@)
    ||| suffix_at_word_end(lower, "misin"@)
    ||| suffix_at_word_end(lower, "musun"@)
    ||| suffix_at_word_end(lower, "müsün"@)
    ||| suffix_at_word_end(lower, "mıdır"@)
    ||| suffix_at_word_end(lower, "midir"@)
    ||| suffix_at_word_end(lower, "mudur"@)
    ||| suffix_at_word_end(lower, "müdür"@)
    ||| suffix_at_word_end(lower, "mı"@)
    ||| suffix_at_word_end(lower, "mi"@)
    ||| suffix_at_word_end(lower, "mu"@)
    ||| suffix_at_word_end(lower, "mü"@)
}

/// Decides whether the lowercased text ends in a question particle.
fn find_question_particle(lower: &Vec<char>) -> (r: bool)
    ensures
        r == has_question_particle(lower@),
{
    ends_with_word(lower, &str_to_chars("mısınız")) || ends_with_word(
        lower,
        &str_to_chars("misiniz"),
    ) || ends_with_word(lower, &str_to_chars("musunuz")) || ends_with_word(
        lower,
        &str_to_chars("müsünüz"),
    ) || ends_with_word(lower, &str_to_chars("mıyız")) || ends_with_word(
        lower,
        &str_to_chars("miyiz"),
    ) || ends_with_word(lower, &str_to_chars("muyuz")) || ends_with_word(
        lower,
        &str_to_chars("müyüz"),
    ) || ends_with_word(lower, &str_to_chars("mısın")) || ends_with_word(
        lower,
        &str_to_chars("misin"),
    ) || ends_with_word(lower, &str_to_chars("musun")) || ends_with_word(
        lower,
        &str_to_chars("müsün"),
    ) || ends_with_word(lower, &str_to_chars("mıdır")) || ends_with_word(
        lower,
        &str_to_chars("midir"),
    ) || ends_with_word(lower, &str_to_chars("mudur")) || ends_with_word(
        lower,
        &str_to_chars("müdür"),
    ) || ends_with_word(lower, &str_to_chars("mı")) || ends_with_word(
        lower,
        &str_to_chars("mi"),
    ) || ends_with_word(lower, &str_to_chars("mu")) || ends_with_word(lower, &str_to_chars("mü"))
}

/// The question-particle pass. If the whitespace-trimmed text already
/// ends with `?`, the text is returned unchanged. Otherwise trailing
/// punctuation from `. ! , ; :` is stripped, and when the lowercased
/// remainder ends in a standalone question particle, a `?` is appended
/// to the stripped text; otherwise the text is returned unchanged.
pub open spec fn spec_fix_question_marks(s: Seq<char>) -> Seq<char> {
    let trimmed = spec_trim_end(s);
    if trimmed.len() > 0 && trimmed.last() == '?' {
        s
    } else {
        let stripped = spec_strip_trailing_punct(trimmed);
        if has_question_particle(lower_of(stripped)) {
            stripped.push('?')
        } else {
            s
        }
    }
}

/// Ensures text ending in a Turkish question particle ends with `?`.
pub fn fix_question_marks(text: &str) -> (r: String)
    ensures
        r@ == spec_fix_question_marks(text@),
{
    let v = str_to_chars(text);
    let trimmed = trim_end_chars(&v);
    if trimmed.len() > 0 && trimmed[trimmed.len() - 1] == '?' {
        proof {
            assert(trimmed@.last() == '?');
        }
        return String::from_str(text);
    }
    let stripped = strip_trailing_punct(&trimmed);
    let stripped_str = chars_to_string(&stripped);
    let lower = lowercase(stripped_str.as_str());
    let lower_chars = str_to_chars(lower.as_str());
    if find_question_particle(&lower_chars) {
        let mut out = stripped;
        out.push('?');
        chars_to_string(&out)
    } else {
        String::from_str(text)
    }
}

// ── Composition ─────────────────────────────────────────────────────

/// The four post-processing passes in their fixed order: substitution,
/// proper nouns, character normalization, question particle.
pub open spec fn spec_process(s: Seq<char>) -> Seq<char> {
    spec_fix_question_marks(spec_fix_turkish_chars(spec_fix_proper_nouns(spec_fix_substitutions(s))))
}

/// Applies all Turkish post-processing passes to a segment's text.
pub fn process(text: &str) -> (r: String)
    ensures
        r@ == spec_process(text@),
{
    let a = fix_substitutions(text);
    let b = fix_proper_nouns(a.as_str());
    let c = fix_turkish_chars(b.as_str());
    fix_question_marks(c.as_str())
}

/// The question-particle pass is idempotent: applied to its own
/// output it returns it unchanged, so a `?` is never stacked onto a
/// text that already carries one.
pub proof fn lemma_question_pass_idempotent(s: Seq<char>)
    ensures
        spec_fix_question_marks(spec_fix_question_marks(s)) == spec_fix_question_marks(s),
{
    let trimmed = spec_trim_end(s);
    if trimmed.len() > 0 && trimmed.last() == '?' {
    } else {
        let stripped = spec_strip_trailing_punct(trimmed);
        if has_question_particle(lower_of(stripped)) {
            let r = stripped.push('?');
            assert(r.len() > 0 && r.last() == '?');
            assert(!is_ws('?'));
            assert(spec_trim_end(r) == r);
        }
    }
}

} // verus!
