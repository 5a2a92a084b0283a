//! The failure cases of the decliner. Classification and gender decoding can
//! fail per record; stem extraction fails when the genitive is too short; and
//! single-triple input fails when it carries too many fields.

use vstd::prelude::*;

verus! {

/// Why classifying, decoding or building a noun record failed.
#[derive(Debug, Clone, PartialEq, Eq)]
pub enum DeclineError {
    /// No classification rule matched; carries both offending forms.
    UnrecognizedPattern { nominative: String, genitive: String },
    /// The gender token is not one of the six recognised article forms.
    UnrecognizedGender { token: String },
    /// The genitive has fewer characters than the class requires removing.
    StemTooShort { genitive: String, required: usize },
    /// A single-triple input held more than three comma-separated fields.
    TooManyFields { parts: usize },
}

} // verus!
