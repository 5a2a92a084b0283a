use greek_decliner::noun::Noun;
use greek_decliner::noun::build;
use greek_decliner::noun::process_triple;
use greek_decliner::tables::Gender;
use greek_decliner::tables::NounType;

fn built_forms(ns: &str, gs: &str, tok: &str) -> Vec<String> {
    process_triple(ns, gs, tok).unwrap().declined.unwrap()
}

#[test]
fn time_paradigm() {
    assert_eq!(
        built_forms("τιμη", "τιμης", "ἡ"),
        vec!["τιμη", "τιμην", "τιμης", "τιμῃ", "τιμαι", "τιμας", "τιμων", "τιμαις"]
    );
}

#[test]
fn logos_paradigm() {
    // A regular second-declension noun trusts its compositional slot 0.
    assert_eq!(
        built_forms("λογος", "λογου", "ὁ"),
        vec!["λογος", "λογον", "λογου", "λογῳ", "λογοι", "λογους", "λογων", "λογοις"]
    );
}

#[test]
fn doron_paradigm() {
    assert_eq!(
        built_forms("δωρον", "δωρου", "το"),
        vec!["δωρον", "δωρον", "δωρου", "δωρῳ", "δωρα", "δωρα", "δωρων", "δωροις"]
    );
}

#[test]
fn geron_paradigm_rewrites_dative_plural() {
    // γεροντ + σι simplifies οντσι to ουσι; slot 0 is the original nominative.
    assert_eq!(
        built_forms("γερων", "γεροντος", "ὁ"),
        vec![
            "γερων", "γεροντα", "γεροντος", "γεροντι", "γεροντες", "γεροντας", "γεροντων",
            "γερουσι"
        ]
    );
}

#[test]
fn gigas_paradigm_rewrites_dative_plural() {
    assert_eq!(
        built_forms("γιγας", "γιγαντος", "ὁ"),
        vec![
            "γιγας", "γιγαντα", "γιγαντος", "γιγαντι", "γιγαντες", "γιγαντας", "γιγαντων",
            "γιγασι"
        ]
    );
}

#[test]
fn cheimon_paradigm_simplifies_nasal_sigma() {
    assert_eq!(
        built_forms("χειμων", "χειμωνος", "ὁ"),
        vec![
            "χειμων", "χειμωνα", "χειμωνος", "χειμωνι", "χειμωνες", "χειμωνας", "χειμωνων",
            "χειμωσι"
        ]
    );
}

#[test]
fn genos_paradigm_overrides_both_neuter_slots() {
    assert_eq!(
        built_forms("γενος", "γενους", "το"),
        vec!["γενος", "γενος", "γενους", "γενει", "γενη", "γενη", "γενων", "γενεσι"]
    );
}

#[test]
fn polis_paradigm() {
    assert_eq!(
        built_forms("πολις", "πολεως", "ἡ"),
        vec!["πολις", "πολιν", "πολεως", "πολει", "πολεις", "πολεις", "πολεων", "πολεσι"]
    );
}

#[test]
fn basileus_paradigm() {
    assert_eq!(
        built_forms("βασιλευς", "βασιλεως", "ὁ"),
        vec![
            "βασιλευς", "βασιλεα", "βασιλεως", "βασιλει", "βασιλεις", "βασιλεας", "βασιλεων",
            "βασιλευσι"
        ]
    );
}

#[test]
fn ichthus_paradigm() {
    assert_eq!(
        built_forms("ιχθυς", "ιχθυος", "ὁ"),
        vec!["ιχθυς", "ιχθυν", "ιχθυος", "ιχθυι", "ιχθυεις", "ιχθυεις", "ιχθυων", "ιχθυσι"]
    );
}

#[test]
fn new_and_decline_populate_both_sequences() {
    let mut n = Noun::new(
        "μουσα".to_string(),
        "μουσης".to_string(),
        Gender::Feminine,
        NounType::Mousa,
    );
    assert!(n.declined.is_none());
    assert!(n.declined_w_article.is_none());
    n.decline();
    assert_eq!(
        n.declined.as_ref().unwrap().as_slice(),
        ["μουσα", "μουσαν", "μουσης", "μουσῃ", "μουσαι", "μουσας", "μουσων", "μουσαις"]
    );
    assert_eq!(n.declined_w_article.as_ref().unwrap()[0], "ἡ μουσα");
}

#[test]
fn joined_output_lines() {
    let n = build("δωρον".to_string(), "δωρου".to_string(), Gender::Neuter).unwrap();
    assert_eq!(
        n.joined(),
        "δωρον, δωρον, δωρου, δωρῳ, δωρα, δωρα, δωρων, δωροις"
    );
    assert_eq!(
        n.joined_with_article(),
        "το δωρον, το δωρον, του δωρου, τῳ δωρῳ, τα δωρα, τα δωρα, των δωρων, τοις δωροις"
    );
}
