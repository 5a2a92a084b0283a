//! The ordered-predicate classifier and the gender decoder.
//!
//! Classification tests an ordered list of suffix-pair predicates against the
//! (nominative singular, genitive singular) forms and returns the class of the
//! first predicate that matches. The order is load-bearing: broad rules (a
//! genitive in -ος) stand after narrower ones (a genitive in -νος), so the
//! rules must not be re-sorted.

use vstd::prelude::*;

use crate::errors::DeclineError;
use crate::tables::Gender;
use crate::tables::NounType;
use crate::text::seq_ends_with;
use crate::text::str_ends_with;
use crate::text::str_eq;

verus! {

/// The ordered classification rule table, first match wins: the class of a
/// noun with the given nominative and genitive singular characters, or `None`
/// when no rule matches.
pub open spec fn spec_classify(ns: Seq<char>, gs: Seq<char>) -> Option<NounType> {
    if seq_ends_with(ns, "η"@) && seq_ends_with(gs, "ης"@) {
        Some(NounType::Time)
    } else if seq_ends_with(ns, "α"@) && seq_ends_with(gs, "ας"@) {
        Some(NounType::Chora)
    } else if seq_ends_with(ns, "α"@) && seq_ends_with(gs, "ης"@) {
        Some(NounType::Mousa)
    } else if seq_ends_with(ns, "ης"@) && seq_ends_with(gs, "ου"@) {
        Some(NounType::Krites)
    } else if seq_ends_with(ns, "ας"@) && seq_ends_with(gs, "ου"@) {
        Some(NounType::Neanias)
    } else if seq_ends_with(ns, "ος"@) && seq_ends_with(gs, "ου"@) {
        Some(NounType::Logos)
    } else if seq_ends_with(ns, "ον"@) && seq_ends_with(gs, "ου"@) {
        Some(NounType::Doron)
    } else if seq_ends_with(ns, "οι"@) && seq_ends_with(gs, "ων"@) {
        Some(NounType::Logos)
    } else if seq_ends_with(ns, "ων"@) && seq_ends_with(gs, "οντος"@) {
        Some(NounType::Geron)
    } else if seq_ends_with(ns, "ας"@) && seq_ends_with(gs, "αντος"@) {
        Some(NounType::Gigas)
    } else if seq_ends_with(ns, "α"@) && seq_ends_with(gs, "ατος"@) {
        Some(NounType::Soma)
    } else if seq_ends_with(ns, "τα"@) && seq_ends_with(gs, "ατων"@) {
        Some(NounType::Soma)
    } else if seq_ends_with(ns, "α"@) && seq_ends_with(gs, "ων"@) {
        Some(NounType::Doron)
    } else if seq_ends_with(ns, "ος"@) && seq_ends_with(gs, "ους"@) {
        Some(NounType::Genos)
    } else if seq_ends_with(ns, "ευς"@) && seq_ends_with(gs, "εως"@) {
        Some(NounType::Basileus)
    } else if seq_ends_with(ns, "ις"@) && seq_ends_with(gs, "εως"@) {
        Some(NounType::Polis)
    } else if seq_ends_with(ns, "υς"@) && seq_ends_with(gs, "υος"@) {
        Some(NounType::Ichthus)
    } else if seq_ends_with(gs, "νος"@) {
        Some(NounType::Cheimon)
    } else if seq_ends_with(gs, "ος"@) {
        Some(NounType::Phulax)
    } else {
        None
    }
}

/// Classifies a noun by its nominative and genitive singular forms, which the
/// caller supplies already trimmed and accent-free. Returns the class of the
/// first matching rule, or `UnrecognizedPattern` carrying both forms when no
/// rule matches.
pub fn get_type(ns: &str, gs: &str) -> (r: Result<NounType, DeclineError>)
    ensures
        match r {
            Ok(t) => spec_classify(ns@, gs@) == Some(t),
            Err(e) => spec_classify(ns@, gs@) is None
                && (e matches DeclineError::UnrecognizedPattern { nominative, genitive }
                && nominative@ == ns@ && genitive@ == gs@),
        },
{
    if str_ends_with(ns, "η") && str_ends_with(gs, "ης") {
        Ok(NounType::Time)
    } else if str_ends_with(ns, "α") && str_ends_with(gs, "ας") {
        Ok(NounType::Chora)
    } else if str_ends_with(ns, "α") && str_ends_with(gs, "ης") {
        Ok(NounType::Mousa)
    } else if str_ends_with(ns, "ης") && str_ends_with(gs, "ου") {
        Ok(NounType::Krites)
    } else if str_ends_with(ns, "ας") && str_ends_with(gs, "ου") {
        Ok(NounType::Neanias)
    } else if str_ends_with(ns, "ος") && str_ends_with(gs, "ου") {
        Ok(NounType::Logos)
    } else if str_ends_with(ns, "ον") && str_ends_with(gs, "ου") {
        Ok(NounType::Doron)
    } else if str_ends_with(ns, "οι") && str_ends_with(gs, "ων") {
        Ok(NounType::Logos)
    } else if str_ends_with(ns, "ων") && str_ends_with(gs, "οντος") {
        Ok(NounType::Geron)
    } else if str_ends_with(ns, "ας") && str_ends_with(gs, "αντος") {
        Ok(NounType::Gigas)
    } else if str_ends_with(ns, "α") && str_ends_with(gs, "ατος") {
        Ok(NounType::Soma)
    } else if str_ends_with(ns, "τα") && str_ends_with(gs, "ατων") {
        Ok(NounType::Soma)
    } else if str_ends_with(ns, "α") && str_ends_with(gs, "ων") {
        Ok(NounType::Doron)
    } else if str_ends_with(ns, "ος") && str_ends_with(gs, "ους") {
        Ok(NounType::Genos)
    } else if str_ends_with(ns, "ευς") && str_ends_with(gs, "εως") {
        Ok(NounType::Basileus)
    } else if str_ends_with(ns, "ις") && str_ends_with(gs, "εως") {
        Ok(NounType::Polis)
    } else if str_ends_with(ns, "υς") && str_ends_with(gs, "υος") {
        Ok(NounType::Ichthus)
    } else if str_ends_with(gs, "νος") {
        Ok(NounType::Cheimon)
    } else if str_ends_with(gs, "ος") {
        Ok(NounType::Phulax)
    } else {
        Err(DeclineError::UnrecognizedPattern {
            nominative: String::from_str(ns),
            genitive: String::from_str(gs),
        })
    }
}

/// The gender named by an article token: the feminine articles first, then
/// the masculine, then the neuter; `None` for any other token.
pub open spec fn spec_gender(s: Seq<char>) -> Option<Gender> {
    if s == "ἡ"@ || s == "αἱ"@ {
        Some(Gender::Feminine)
    } else if s == "ὁ"@ || s == "οἱ"@ {
        Some(Gender::Masculine)
    } else if s == "το"@ || s == "τα"@ {
        Some(Gender::Neuter)
    } else {
        None
    }
}

/// Decodes a gender marker, one of the six literal article tokens, supplied
/// already trimmed. Any other token fails with `UnrecognizedGender` carrying
/// the token.
pub fn get_gender(s: &str) -> (r: Result<Gender, DeclineError>)
    ensures
        match r {
            Ok(g) => spec_gender(s@) == Some(g),
            Err(e) => spec_gender(s@) is None
                && (e matches DeclineError::UnrecognizedGender { token } && token@ == s@),
        },
{
    if str_eq(s, "ἡ") || str_eq(s, "αἱ") {
        Ok(Gender::Feminine)
    } else if str_eq(s, "ὁ") || str_eq(s, "οἱ") {
        Ok(Gender::Masculine)
    } else if str_eq(s, "το") || str_eq(s, "τα") {
        Ok(Gender::Neuter)
    } else {
        Err(DeclineError::UnrecognizedGender { token: String::from_str(s) })
    }
}

} // verus!
