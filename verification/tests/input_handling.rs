use greek_decliner::errors::DeclineError;
use greek_decliner::normalize::clean_line;
use greek_decliner::normalize::has_accent;
use greek_decliner::parse::parse_triple;
use greek_decliner::text::trim;

#[test]
fn parse_triple_splits_and_trims() {
    let (a, b, c) = parse_triple("χωρα, χωρας, ἡ").unwrap();
    assert_eq!(a, "χωρα");
    assert_eq!(b, "χωρας");
    assert_eq!(c, "ἡ");
}

#[test]
fn parse_triple_rejects_four_fields() {
    match parse_triple("χωρα, χωρας, ἡ, extra") {
        Err(DeclineError::TooManyFields { parts }) => assert_eq!(parts, 4),
        other => panic!("expected TooManyFields, got {:?}", other),
    }
}

#[test]
fn parse_triple_keeps_empty_fields() {
    let (a, b, c) = parse_triple(",χωρας,").unwrap();
    assert_eq!(a, "");
    assert_eq!(b, "χωρας");
    assert_eq!(c, "");
}

#[test]
fn trim_removes_surrounding_blanks() {
    assert_eq!(trim("  λογος\t"), "λογος");
    assert_eq!(trim("λογος"), "λογος");
    assert_eq!(trim(" \t\r\n "), "");
    assert_eq!(trim(""), "");
}

#[test]
fn clean_line_collapses_accents() {
    // Acute, grave and circumflex collapse to the bare vowel.
    assert_eq!(clean_line("χώρα"), "χωρα");
    assert_eq!(clean_line("τιμή"), "τιμη");
    assert_eq!(clean_line("σῶμα"), "σωμα");
    // A breathing mark survives; only the accent above it goes.
    assert_eq!(clean_line("ἄνθρωπος"), "ἀνθρωπος");
    assert_eq!(clean_line("ἡμέρᾱ"), "ἡμερᾱ");
    // Iota-subscript vowels keep their subscript.
    assert_eq!(clean_line("τῷ λόγῳ"), "τῳ λογῳ");
}

#[test]
fn clean_line_removes_space_before_comma() {
    assert_eq!(clean_line("χώρα , χώρας , ἡ"), "χωρα, χωρας, ἡ");
    assert_eq!(clean_line("α ,β ,γ"), "α,β,γ");
    assert_eq!(clean_line("no comma"), "no comma");
}

#[test]
fn has_accent_detects_accented_vowels() {
    assert!(has_accent("χώρα"));
    assert!(has_accent("τιμῆς"));
    assert!(!has_accent("χωρα"));
    // Bare breathings are not accents and pass the validator.
    assert!(!has_accent("ἀγορα"));
    assert!(!has_accent("ὁ ἡ το"));
    assert!(!has_accent(""));
}
