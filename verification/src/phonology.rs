//! The phonologically-conditioned rewrite of candidate forms. A few classes
//! simplify consonant clusters at the stem-ending boundary; the substitutions
//! are literal, fixed per class, and applied to the leftmost occurrence at
//! most once each, in the listed order. All other classes leave the candidate
//! untouched.

use vstd::prelude::*;

use crate::tables::NounType;
use crate::text::replace_first;
use crate::text::replace_first_spec;

verus! {

/// The class-conditioned rewrite of a candidate form.
pub open spec fn spec_rewrite(t: NounType, s: Seq<char>) -> Seq<char> {
    match t {
        NounType::Phulax => replace_first_spec(
            replace_first_spec(
                replace_first_spec(replace_first_spec(s, "κσ"@, "ξ"@), "κτσ"@, "ξ"@),
                "δσ"@,
                "σ"@,
            ),
            "τσ"@,
            "σ"@,
        ),
        NounType::Cheimon => replace_first_spec(s, "νσ"@, "σ"@),
        NounType::Geron => replace_first_spec(s, "οντσι"@, "ουσι"@),
        NounType::Gigas => replace_first_spec(s, "αντσι"@, "ασι"@),
        NounType::Soma => replace_first_spec(s, "ατσι"@, "ασι"@),
        _ => s,
    }
}

/// Applies the class's ordered substitutions to a candidate form.
pub fn rewrite(class: &NounType, candidate: String) -> (r: String)
    ensures
        r@ == spec_rewrite(*class, candidate@),
{
    match class {
        NounType::Phulax => {
            let r = replace_first(candidate, "κσ", "ξ");
            let r = replace_first(r, "κτσ", "ξ");
            let r = replace_first(r, "δσ", "σ");
            replace_first(r, "τσ", "σ")
        },
        NounType::Cheimon => replace_first(candidate, "νσ", "σ"),
        NounType::Geron => replace_first(candidate, "οντσι", "ουσι"),
        NounType::Gigas => replace_first(candidate, "αντσι", "ασι"),
        NounType::Soma => replace_first(candidate, "ατσι", "ασι"),
        _ => candidate,
    }
}

} // verus!
