//! A verified decliner for Ancient Greek nouns.
//!
//! Given a noun's nominative singular, genitive singular and gender, the
//! library classifies it into one of sixteen declension classes, extracts its
//! stem, and generates the full eight-slot case/number paradigm, bare and with
//! the matching definite article. Every function carries a contract proved by
//! Verus; the inflection tables, the ordered classification rules and the
//! phonological rewrite rules are stated as specification functions that the
//! executable code is verified against.

pub mod batch;
pub mod classify;
pub mod errors;
pub mod laws;
pub mod normalize;
pub mod noun;
pub mod parse;
pub mod phonology;
pub mod tables;
pub mod text;

pub use classify::get_gender;
pub use classify::get_type;
pub use errors::DeclineError;
pub use noun::Noun;
pub use noun::build;
pub use noun::extract_stem;
pub use noun::process_triple;
pub use tables::Gender;
pub use tables::NounType;
