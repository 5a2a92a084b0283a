//! The two static registries of the decliner: the per-class ending tables and
//! the per-gender article tables. Every table has exactly eight slots, indexed
//! positionally: [0] nominative singular, [1] accusative singular,
//! [2] genitive singular, [3] dative singular, [4] nominative plural,
//! [5] accusative plural, [6] genitive plural, [7] dative plural.

use vstd::prelude::*;

verus! {

/// The sixteen supported declension classes, each named after a canonical
/// exemplar noun of its paradigm.
#[derive(Debug, Clone, Copy, PartialEq, Eq, Structural)]
pub enum NounType {
    /// First declension feminine in -α, genitive -ας (pure alpha).
    Chora,
    /// First declension feminine in -η, genitive -ης.
    Time,
    /// First declension feminine in -α, genitive -ης (mixed alpha).
    Mousa,
    /// First declension masculine in -ης, genitive -ου.
    Krites,
    /// First declension masculine in -ας, genitive -ου.
    Neanias,
    /// Second declension masculine in -ος, genitive -ου.
    Logos,
    /// Second declension neuter in -ον, genitive -ου.
    Doron,
    /// Third declension consonant stem, default subtype.
    Phulax,
    /// Third declension consonant stem, nasal subtype.
    Cheimon,
    /// Third declension in -ων, genitive -οντος.
    Geron,
    /// Third declension in -ας, genitive -αντος.
    Gigas,
    /// Third declension in -ευς, genitive -εως.
    Basileus,
    /// Third declension neuter in -ος, genitive -ους.
    Genos,
    /// Third declension neuter in -α, genitive -ατος.
    Soma,
    /// Third declension in -ις, genitive -εως.
    Polis,
    /// Third declension in -υς, genitive -υος.
    Ichthus,
}

/// The three grammatical genders, each owning its eight article forms.
#[derive(Debug, Clone, Copy, PartialEq, Eq, Structural)]
pub enum Gender {
    Masculine,
    Feminine,
    Neuter,
}

/// The eight-slot ending table of a declension class, as character sequences.
pub open spec fn spec_endings(t: NounType) -> Seq<Seq<char>> {
    match t {
        NounType::Chora => seq!["α"@, "αν"@, "ας"@, "ᾳ"@, "αι"@, "ας"@, "ων"@, "αις"@],
        NounType::Time => seq!["η"@, "ην"@, "ης"@, "ῃ"@, "αι"@, "ας"@, "ων"@, "αις"@],
        NounType::Mousa => seq!["α"@, "αν"@, "ης"@, "ῃ"@, "αι"@, "ας"@, "ων"@, "αις"@],
        NounType::Krites => seq!["ης"@, "ην"@, "ου"@, "ῃ"@, "αι"@, "ας"@, "ων"@, "αις"@],
        NounType::Neanias => seq!["ας"@, "αν"@, "ου"@, "ᾳ"@, "αι"@, "ας"@, "ων"@, "αις"@],
        NounType::Logos => seq!["ος"@, "ον"@, "ου"@, "ῳ"@, "οι"@, "ους"@, "ων"@, "οις"@],
        NounType::Doron => seq!["ον"@, "ον"@, "ου"@, "ῳ"@, "α"@, "α"@, "ων"@, "οις"@],
        NounType::Phulax => seq![""@, "α"@, "ος"@, "ι"@, "ες"@, "ας"@, "ων"@, "σι"@],
        NounType::Cheimon => seq![""@, "α"@, "ος"@, "ι"@, "ες"@, "ας"@, "ων"@, "σι"@],
        NounType::Geron => seq![""@, "α"@, "ος"@, "ι"@, "ες"@, "ας"@, "ων"@, "σι"@],
        NounType::Gigas => seq![""@, "α"@, "ος"@, "ι"@, "ες"@, "ας"@, "ων"@, "σι"@],
        NounType::Basileus => seq!["υς"@, "α"@, "ως"@, "ι"@, "ις"@, "ας"@, "ων"@, "υσι"@],
        NounType::Genos => seq![""@, ""@, "ους"@, "ει"@, "η"@, "η"@, "ων"@, "εσι"@],
        NounType::Soma => seq![""@, ""@, "ος"@, "ι"@, "α"@, "α"@, "ων"@, "σι"@],
        NounType::Polis => seq!["ις"@, "ιν"@, "εως"@, "ει"@, "εις"@, "εις"@, "εων"@, "εσι"@],
        NounType::Ichthus => seq!["ς"@, "ν"@, "ος"@, "ι"@, "εις"@, "εις"@, "ων"@, "σι"@],
    }
}

/// The eight-slot definite-article table of a gender, as character sequences,
/// slot-aligned with the ending tables.
pub open spec fn spec_articles(g: Gender) -> Seq<Seq<char>> {
    match g {
        Gender::Masculine => seq!["ὁ"@, "τον"@, "του"@, "τῳ"@, "οἱ"@, "τους"@, "των"@, "τοις"@],
        Gender::Feminine => seq!["ἡ"@, "την"@, "της"@, "τῃ"@, "αἱ"@, "τας"@, "των"@, "ταις"@],
        Gender::Neuter => seq!["το"@, "το"@, "του"@, "τῳ"@, "τα"@, "τα"@, "των"@, "τοις"@],
    }
}

impl NounType {
    /// The class's ordered list of eight endings.
    pub fn get_endings(&self) -> (r: Vec<&'static str>)
        ensures
            r@.len() == 8,
            forall|i: int| 0 <= i < 8 ==> #[trigger] r@[i]@ == spec_endings(*self)[i],
    {
        match self {
            NounType::Chora => vec!["α", "αν", "ας", "ᾳ", "αι", "ας", "ων", "αις"],
            NounType::Time => vec!["η", "ην", "ης", "ῃ", "αι", "ας", "ων", "αις"],
            NounType::Mousa => vec!["α", "αν", "ης", "ῃ", "αι", "ας", "ων", "αις"],
            NounType::Krites => vec!["ης", "ην", "ου", "ῃ", "αι", "ας", "ων", "αις"],
            NounType::Neanias => vec!["ας", "αν", "ου", "ᾳ", "αι", "ας", "ων", "αις"],
            NounType::Logos => vec!["ος", "ον", "ου", "ῳ", "οι", "ους", "ων", "οις"],
            NounType::Doron => vec!["ον", "ον", "ου", "ῳ", "α", "α", "ων", "οις"],
            NounType::Phulax => vec!["", "α", "ος", "ι", "ες", "ας", "ων", "σι"],
            NounType::Cheimon => vec!["", "α", "ος", "ι", "ες", "ας", "ων", "σι"],
            NounType::Geron => vec!["", "α", "ος", "ι", "ες", "ας", "ων", "σι"],
            NounType::Gigas => vec!["", "α", "ος", "ι", "ες", "ας", "ων", "σι"],
            NounType::Basileus => vec!["υς", "α", "ως", "ι", "ις", "ας", "ων", "υσι"],
            NounType::Genos => vec!["", "", "ους", "ει", "η", "η", "ων", "εσι"],
            NounType::Soma => vec!["", "", "ος", "ι", "α", "α", "ων", "σι"],
            NounType::Polis => vec!["ις", "ιν", "εως", "ει", "εις", "εις", "εων", "εσι"],
            NounType::Ichthus => vec!["ς", "ν", "ος", "ι", "εις", "εις", "ων", "σι"],
        }
    }
}

impl Gender {
    /// The gender's ordered list of eight definite-article forms.
    pub fn get_article(&self) -> (r: Vec<&'static str>)
        ensures
            r@.len() == 8,
            forall|i: int| 0 <= i < 8 ==> #[trigger] r@[i]@ == spec_articles(*self)[i],
    {
        match self {
            Gender::Masculine => vec!["ὁ", "τον", "του", "τῳ", "οἱ", "τους", "των", "τοις"],
            Gender::Feminine => vec!["ἡ", "την", "της", "τῃ", "αἱ", "τας", "των", "ταις"],
            Gender::Neuter => vec!["το", "το", "του", "τῳ", "τα", "τα", "των", "τοις"],
        }
    }
}

/// Structural invariant of the registries: every ending table and every
/// article table has exactly eight slots.
pub proof fn lemma_tables_have_eight_slots(t: NounType, g: Gender)
    ensures
        spec_endings(t).len() == 8,
        spec_articles(g).len() == 8,
{
}

} // verus!
