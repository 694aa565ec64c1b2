use transcriber::postprocess::{
    fix_proper_nouns, fix_question_marks, fix_substitutions, fix_turkish_chars, process,
};

#[test]
fn question_particle_appends_question_mark() {
    assert_eq!(fix_question_marks("Bu doğru mu"), "Bu doğru mu?");
    assert_eq!(fix_question_marks("Gelecek misiniz"), "Gelecek misiniz?");
    assert_eq!(fix_question_marks("Hazır mısın"), "Hazır mısın?");
}

#[test]
fn question_mark_not_duplicated() {
    assert_eq!(fix_question_marks("Bu doğru mu?"), "Bu doğru mu?");
}

#[test]
fn question_particle_replaces_period() {
    assert_eq!(fix_question_marks("Bu doğru mu."), "Bu doğru mu?");
}

#[test]
fn no_false_positive_question_mark() {
    assert_eq!(fix_question_marks("Muammer geldi"), "Muammer geldi");
    assert_eq!(fix_question_marks("Mumya bulundu"), "Mumya bulundu");
}

#[test]
fn substitution_fixes_known_garbles() {
    assert_eq!(fix_substitutions("göğlen hatalar"), "görülen hatalar");
    assert_eq!(fix_substitutions("göğünmeyen sorun"), "görünmeyen sorun");
}

#[test]
fn proper_nouns_corrected() {
    assert_eq!(
        fix_proper_nouns("Peter Dubek demiştir ki"),
        "Peter Drucker demiştir ki"
    );
}

#[test]
fn turkish_chars_fixed() {
    assert_eq!(fix_turkish_chars("hültür değişimi"), "kültür değişimi");
}

#[test]
fn full_pipeline() {
    let input = "Peter Dubek hültür değişimi hakkında mı.";
    let output = process(input);
    assert_eq!(output, "Peter Drucker kültür değişimi hakkında mı?");
}

#[test]
fn process_appends_question_mark_once() {
    assert_eq!(process("Bu doğru mu"), "Bu doğru mu?");
    assert_eq!(process("Bu doğru mu?"), "Bu doğru mu?");
    assert_eq!(process(&process("Bu doğru mu")), "Bu doğru mu?");
}

#[test]
fn process_leaves_plain_statements_alone() {
    assert_eq!(process("Muammer geldi"), "Muammer geldi");
}

#[test]
fn question_particle_found_case_insensitively() {
    // The match runs on a lowercased copy, so an upper-case particle
    // is still recognized while the text keeps its case.
    assert_eq!(fix_question_marks("Geliyor MUSUN"), "Geliyor MUSUN?");
}

#[test]
fn longer_particles_match_as_words() {
    assert_eq!(fix_question_marks("Yarın gelir misiniz!"), "Yarın gelir misiniz?");
    assert_eq!(fix_question_marks("Olur mudur"), "Olur mudur?");
}

#[test]
fn question_particle_needs_word_boundary() {
    // A word merely ending in a particle's letters is not a question.
    assert_eq!(fix_question_marks("Kurumu"), "Kurumu");
}

#[test]
fn substitutions_apply_to_all_occurrences() {
    assert_eq!(
        fix_substitutions("göğlen ve göğlen"),
        "görülen ve görülen"
    );
}

#[test]
fn trailing_whitespace_dropped_when_question_mark_added() {
    // The appended text is the trimmed, punctuation-stripped form.
    assert_eq!(fix_question_marks("Bu doğru mu  "), "Bu doğru mu?");
    // Already-answered text keeps its trailing whitespace.
    assert_eq!(fix_question_marks("Bu doğru mu?  "), "Bu doğru mu?  ");
}

#[test]
fn trailing_whitespace_is_kept_when_unchanged() {
    // No particle match: the text comes back exactly as given.
    assert_eq!(fix_question_marks("Merhaba dünya  "), "Merhaba dünya  ");
}
