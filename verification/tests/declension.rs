use greek_decliner::batch::process_batch;
use greek_decliner::classify::get_gender;
use greek_decliner::classify::get_type;
use greek_decliner::errors::DeclineError;
use greek_decliner::noun::build;
use greek_decliner::noun::extract_stem;
use greek_decliner::noun::process_triple;
use greek_decliner::tables::Gender;
use greek_decliner::tables::NounType;

fn forms(n: &greek_decliner::noun::Noun) -> Vec<String> {
    n.declined.as_ref().unwrap().clone()
}

fn forms_w_article(n: &greek_decliner::noun::Noun) -> Vec<String> {
    n.declined_w_article.as_ref().unwrap().clone()
}

#[test]
fn chora_scenario() {
    let n = build("χωρα".to_string(), "χωρας".to_string(), Gender::Feminine).unwrap();
    assert_eq!(n.nountype, NounType::Chora);
    assert_eq!(n.stem, "χωρ");
    assert_eq!(
        forms(&n),
        vec!["χωρα", "χωραν", "χωρας", "χωρᾳ", "χωραι", "χωρας", "χωρων", "χωραις"]
    );
    assert_eq!(
        forms_w_article(&n),
        vec![
            "ἡ χωρα",
            "την χωραν",
            "της χωρας",
            "τῃ χωρᾳ",
            "αἱ χωραι",
            "τας χωρας",
            "των χωρων",
            "ταις χωραις"
        ]
    );
}

#[test]
fn phulax_scenario() {
    let n = process_triple("φυλαξ", "φυλακος", "ὁ").unwrap();
    assert_eq!(n.nountype, NounType::Phulax);
    assert_eq!(n.stem, "φυλακ");
    // Slot 0 is overridden with the original nominative; slot 2 is the plain
    // stem + ending with no cluster to simplify; slot 7 simplifies κσ to ξ.
    assert_eq!(
        forms(&n),
        vec!["φυλαξ", "φυλακα", "φυλακος", "φυλακι", "φυλακες", "φυλακας", "φυλακων", "φυλαξι"]
    );
    assert_eq!(forms_w_article(&n)[0], "ὁ φυλαξ");
}

#[test]
fn soma_scenario() {
    let n = process_triple("σωμα", "σωματος", "το").unwrap();
    assert_eq!(n.nountype, NounType::Soma);
    assert_eq!(n.stem, "σωματ");
    // Slots 0 and 1 are both overridden with the original nominative.
    assert_eq!(
        forms(&n),
        vec!["σωμα", "σωμα", "σωματος", "σωματι", "σωματα", "σωματα", "σωματων", "σωμασι"]
    );
    assert_eq!(forms_w_article(&n)[1], "το σωμα");
}

#[test]
fn classifier_rule_table() {
    let cases: Vec<(&str, &str, NounType)> = vec![
        ("τιμη", "τιμης", NounType::Time),
        ("χωρα", "χωρας", NounType::Chora),
        ("μουσα", "μουσης", NounType::Mousa),
        ("κριτης", "κριτου", NounType::Krites),
        ("νεανιας", "νεανιου", NounType::Neanias),
        ("λογος", "λογου", NounType::Logos),
        ("δωρον", "δωρου", NounType::Doron),
        ("λογοι", "λογων", NounType::Logos),
        ("γερων", "γεροντος", NounType::Geron),
        ("γιγας", "γιγαντος", NounType::Gigas),
        ("σωμα", "σωματος", NounType::Soma),
        ("σωματα", "σωματων", NounType::Soma),
        ("δωρα", "δωρων", NounType::Doron),
        ("γενος", "γενους", NounType::Genos),
        ("βασιλευς", "βασιλεως", NounType::Basileus),
        ("πολις", "πολεως", NounType::Polis),
        ("ιχθυς", "ιχθυος", NounType::Ichthus),
        ("χειμων", "χειμωνος", NounType::Cheimon),
        ("φυλαξ", "φυλακος", NounType::Phulax),
    ];
    for (ns, gs, expected) in cases {
        assert_eq!(get_type(ns, gs).unwrap(), expected, "{} / {}", ns, gs);
    }
}

#[test]
fn classifier_ignores_interior_accents() {
    // Suffix matching looks only at the trailing characters, so an accent on
    // an interior vowel does not change the class.
    assert_eq!(get_type("χώρα", "χώρας").unwrap(), NounType::Chora);
}

#[test]
fn classifier_order_is_load_bearing() {
    // A genitive in -νος must reach the nasal rule, not the broader -ος rule.
    assert_eq!(get_type("δαιμων", "δαιμονος").unwrap(), NounType::Cheimon);
    // A genitive in -υος must reach its own rule before the -ος fallback.
    assert_eq!(get_type("ιχθυς", "ιχθυος").unwrap(), NounType::Ichthus);
}

#[test]
fn classifier_rejects_unmatched_pair() {
    match get_type("abc", "def") {
        Err(DeclineError::UnrecognizedPattern { nominative, genitive }) => {
            assert_eq!(nominative, "abc");
            assert_eq!(genitive, "def");
        }
        other => panic!("expected UnrecognizedPattern, got {:?}", other),
    }
}

#[test]
fn gender_decoding() {
    assert_eq!(get_gender("ἡ").unwrap(), Gender::Feminine);
    assert_eq!(get_gender("αἱ").unwrap(), Gender::Feminine);
    assert_eq!(get_gender("ὁ").unwrap(), Gender::Masculine);
    assert_eq!(get_gender("οἱ").unwrap(), Gender::Masculine);
    assert_eq!(get_gender("το").unwrap(), Gender::Neuter);
    assert_eq!(get_gender("τα").unwrap(), Gender::Neuter);
    match get_gender("ξ") {
        Err(DeclineError::UnrecognizedGender { token }) => assert_eq!(token, "ξ"),
        other => panic!("expected UnrecognizedGender, got {:?}", other),
    }
}

#[test]
fn stem_extraction_lengths() {
    // The πόλις and γένος types remove three trailing characters, all other
    // classes remove two.
    assert_eq!(extract_stem("πολεως", &NounType::Polis).unwrap(), "πολ");
    assert_eq!(extract_stem("γενους", &NounType::Genos).unwrap(), "γεν");
    assert_eq!(extract_stem("λογου", &NounType::Logos).unwrap(), "λογ");
    assert_eq!(extract_stem("γεροντος", &NounType::Geron).unwrap(), "γεροντ");
    for (gs, class, drop) in [
        ("τιμης", NounType::Time, 2usize),
        ("πολεως", NounType::Polis, 3),
        ("γενους", NounType::Genos, 3),
        ("ιχθυος", NounType::Ichthus, 2),
    ] {
        let stem = extract_stem(gs, &class).unwrap();
        assert_eq!(stem.chars().count(), gs.chars().count() - drop);
    }
}

#[test]
fn stem_too_short_is_reported() {
    match extract_stem("ος", &NounType::Polis) {
        Err(DeclineError::StemTooShort { genitive, required }) => {
            assert_eq!(genitive, "ος");
            assert_eq!(required, 3);
        }
        other => panic!("expected StemTooShort, got {:?}", other),
    }
    match extract_stem("ο", &NounType::Logos) {
        Err(DeclineError::StemTooShort { genitive, required }) => {
            assert_eq!(genitive, "ο");
            assert_eq!(required, 2);
        }
        other => panic!("expected StemTooShort, got {:?}", other),
    }
    // A genitive exactly as long as the removal count is allowed: the stem
    // is empty and slot 0 still carries the overridden nominative.
    let n = build("γερων".to_string(), "ος".to_string(), Gender::Masculine).unwrap();
    assert_eq!(n.nountype, NounType::Phulax);
    assert_eq!(n.stem, "");
    assert_eq!(forms(&n)[0], "γερων");
}

#[test]
fn error_precedence_pattern_before_gender() {
    // A record whose suffix pair matches no rule reports the pattern error
    // even when the gender token is also unrecognised.
    match process_triple("abc", "def", "ξ") {
        Err(DeclineError::UnrecognizedPattern { .. }) => {}
        other => panic!("expected UnrecognizedPattern, got {:?}", other),
    }
    match process_triple("λογος", "λογου", "ξ") {
        Err(DeclineError::UnrecognizedGender { token }) => assert_eq!(token, "ξ"),
        other => panic!("expected UnrecognizedGender, got {:?}", other),
    }
}

#[test]
fn build_is_deterministic() {
    let a = build("γερων".to_string(), "γεροντος".to_string(), Gender::Masculine).unwrap();
    let b = build("γερων".to_string(), "γεροντος".to_string(), Gender::Masculine).unwrap();
    assert_eq!(forms(&a), forms(&b));
    assert_eq!(forms_w_article(&a), forms_w_article(&b));
}

#[test]
fn with_article_slots_align() {
    let n = build("πολις".to_string(), "πολεως".to_string(), Gender::Feminine).unwrap();
    let bare = forms(&n);
    let with = forms_w_article(&n);
    let articles = n.gender.get_article();
    for i in 0..8 {
        assert_eq!(with[i], format!("{} {}", articles[i], bare[i]));
    }
}

#[test]
fn batch_keeps_order_and_skips_failures() {
    let records = vec![
        ("λογος".to_string(), "λογου".to_string(), "ὁ".to_string()),
        ("abc".to_string(), "def".to_string(), "ὁ".to_string()),
        ("τιμη".to_string(), "τιμης".to_string(), "ἡ".to_string()),
        ("σωμα".to_string(), "σωματος".to_string(), "ξ".to_string()),
        ("πολις".to_string(), "πολεως".to_string(), "ἡ".to_string()),
    ];
    let (nouns, errs) = process_batch(&records);
    // The built records come out in input order; the failing records are
    // reported beside their input positions.
    assert_eq!(nouns.len(), 3);
    assert_eq!(nouns[0].nom_sing, "λογος");
    assert_eq!(nouns[1].nom_sing, "τιμη");
    assert_eq!(nouns[2].nom_sing, "πολις");
    assert_eq!(errs.len(), 2);
    assert_eq!(errs[0].0, 1);
    assert!(matches!(errs[0].1, DeclineError::UnrecognizedPattern { .. }));
    assert_eq!(errs[1].0, 3);
    assert!(matches!(errs[1].1, DeclineError::UnrecognizedGender { .. }));
}

#[test]
fn tables_have_eight_slots() {
    let classes = vec![
        NounType::Chora,
        NounType::Time,
        NounType::Mousa,
        NounType::Krites,
        NounType::Neanias,
        NounType::Logos,
        NounType::Doron,
        NounType::Phulax,
        NounType::Cheimon,
        NounType::Geron,
        NounType::Gigas,
        NounType::Basileus,
        NounType::Genos,
        NounType::Soma,
        NounType::Polis,
        NounType::Ichthus,
    ];
    for c in classes {
        assert_eq!(c.get_endings().len(), 8, "{:?}", c);
    }
    for g in vec![Gender::Masculine, Gender::Feminine, Gender::Neuter] {
        assert_eq!(g.get_article().len(), 8, "{:?}", g);
    }
}
