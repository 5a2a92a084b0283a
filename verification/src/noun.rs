//! The noun record and the paradigm builder: stem extraction, the eight-slot
//! candidate forms, the irregular-slot overrides, and the article-prefixed
//! variant of each form.

use vstd::pervasive::unreached;
use vstd::prelude::*;

use crate::classify::get_gender;
use crate::classify::get_type;
use crate::classify::spec_classify;
use crate::classify::spec_gender;
use crate::errors::DeclineError;
use crate::phonology::rewrite;
use crate::phonology::spec_rewrite;
use crate::tables::Gender;
use crate::tables::NounType;
use crate::tables::spec_articles;
use crate::tables::spec_endings;
use crate::text::join_comma_space;
use crate::text::join_with_comma;
use crate::text::seq_views;

verus! {

/// How many trailing characters the class removes from the genitive singular
/// to obtain the stem: three for the πόλις and γένος types, two otherwise.
pub open spec fn stem_drop(t: NounType) -> nat {
    if t == NounType::Polis || t == NounType::Genos {
        3
    } else {
        2
    }
}

/// The stem: the genitive singular without its class-dependent tail.
pub open spec fn spec_stem(t: NounType, gs: Seq<char>) -> Seq<char>
    recommends
        gs.len() >= stem_drop(t),
{
    gs.take(gs.len() - stem_drop(t))
}

/// The classes whose compositional nominative singular is unreliable: slot 0
/// is overwritten with the original nominative.
pub open spec fn overrides_slot0(t: NounType) -> bool {
    t == NounType::Phulax || t == NounType::Cheimon || t == NounType::Geron || t
        == NounType::Gigas
}

/// The neuter classes whose nominative and accusative singular coincide:
/// slots 0 and 1 are both overwritten with the original nominative.
pub open spec fn overrides_slot01(t: NounType) -> bool {
    t == NounType::Soma || t == NounType::Genos
}

/// The compositional candidate of slot `i`: stem + ending, run through the
/// class's phonological rewrite.
pub open spec fn spec_candidate(t: NounType, stem: Seq<char>, i: int) -> Seq<char> {
    spec_rewrite(t, stem + spec_endings(t)[i])
}

/// The final form of slot `i`, after the irregular-slot overrides.
pub open spec fn spec_form(t: NounType, stem: Seq<char>, nom: Seq<char>, i: int) -> Seq<char> {
    if (overrides_slot0(t) && i == 0) || (overrides_slot01(t) && (i == 0 || i == 1)) {
        nom
    } else {
        spec_candidate(t, stem, i)
    }
}

/// All eight final bare forms in slot order.
pub open spec fn spec_forms(t: NounType, stem: Seq<char>, nom: Seq<char>) -> Seq<Seq<char>> {
    Seq::new(8, |i: int| spec_form(t, stem, nom, i))
}

/// All eight article-prefixed forms in slot order: article, space, bare form.
pub open spec fn spec_forms_with_article(
    g: Gender,
    t: NounType,
    stem: Seq<char>,
    nom: Seq<char>,
) -> Seq<Seq<char>> {
    Seq::new(8, |i: int| spec_articles(g)[i] + " "@ + spec_form(t, stem, nom, i))
}

/// An optional built sequence holds exactly the expected forms.
pub open spec fn forms_match(ov: Option<Vec<String>>, expected: Seq<Seq<char>>) -> bool {
    &&& ov is Some
    &&& ov->0@.len() == expected.len()
    &&& forall|i: int| 0 <= i < expected.len() ==> #[trigger] ov->0@[i]@ == expected[i]
}

/// Removes the class-dependent number of trailing characters from the
/// genitive singular. Fails with `StemTooShort`, carrying the genitive and
/// the required count, when the genitive has fewer characters than the class
/// requires removing.
pub fn extract_stem(genitive: &str, class: &NounType) -> (r: Result<String, DeclineError>)
    ensures
        genitive@.len() >= stem_drop(*class) ==> (r matches Ok(stem) && stem@ == spec_stem(
            *class,
            genitive@,
        ) && stem@.len() == genitive@.len() - stem_drop(*class)),
        genitive@.len() < stem_drop(*class) ==> (r matches Err(e) && (e
            matches DeclineError::StemTooShort { genitive: g, required } && g@ == genitive@
            && required == stem_drop(*class))),
{
    let n = genitive.unicode_len();
    let d: usize = match class {
        NounType::Polis | NounType::Genos => 3,
        _ => 2,
    };
    if n < d {
        Err(DeclineError::StemTooShort { genitive: String::from_str(genitive), required: d })
    } else {
        let stem = String::from_str(genitive.substring_char(0, n - d));
        proof {
            assert(genitive@.subrange(0, n - d) =~= spec_stem(*class, genitive@));
        }
        Ok(stem)
    }
}

/// One noun to be declined: the caller-supplied fields, the derived class and
/// stem, and, once `decline` has run, the two derived form sequences.
#[derive(Debug, Clone)]
pub struct Noun {
    pub nom_sing: String,
    pub gen_sing: String,
    pub stem: String,
    pub gender: Gender,
    pub nountype: NounType,
    pub declined: Option<Vec<String>>,
    pub declined_w_article: Option<Vec<String>>,
}

impl Noun {
    /// The derived stem is consistent with the genitive and the class.
    pub open spec fn wf(self) -> bool {
        &&& self.gen_sing@.len() >= stem_drop(self.nountype)
        &&& self.stem@ == spec_stem(self.nountype, self.gen_sing@)
    }

    /// Both form sequences are built and hold exactly the slot forms derived
    /// from the record's class, stem, nominative and gender.
    pub open spec fn built(self) -> bool {
        &&& forms_match(self.declined, spec_forms(self.nountype, self.stem@, self.nom_sing@))
        &&& forms_match(
            self.declined_w_article,
            spec_forms_with_article(self.gender, self.nountype, self.stem@, self.nom_sing@),
        )
    }

    /// Constructs a record and derives its stem. The genitive must be at
    /// least as long as the class's removal count; `extract_stem` reports the
    /// short case as an error instead.
    pub fn new(ns: String, gs: String, g: Gender, n: NounType) -> (r: Noun)
        requires
            gs@.len() >= stem_drop(n),
        ensures
            r.nom_sing@ == ns@,
            r.gen_sing@ == gs@,
            r.gender == g,
            r.nountype == n,
            r.stem@ == spec_stem(n, gs@),
            r.declined is None,
            r.declined_w_article is None,
            r.wf(),
    {
        let len = gs.as_str().unicode_len();
        let d: usize = match n {
            NounType::Polis | NounType::Genos => 3,
            _ => 2,
        };
        let stem = String::from_str(gs.as_str().substring_char(0, len - d));
        proof {
            assert(gs@.subrange(0, len - d) =~= spec_stem(n, gs@));
        }
        Noun {
            nom_sing: ns,
            gen_sing: gs,
            stem,
            gender: g,
            nountype: n,
            declined: None,
            declined_w_article: None,
        }
    }

    /// Populates the two derived sequences: for each slot the rewritten
    /// stem + ending candidate, then the irregular-slot overrides, and the
    /// article-prefixed variant of every slot.
    pub fn decline(&mut self)
        ensures
            final(self).nom_sing@ == old(self).nom_sing@,
            final(self).gen_sing@ == old(self).gen_sing@,
            final(self).stem@ == old(self).stem@,
            final(self).gender == old(self).gender,
            final(self).nountype == old(self).nountype,
            final(self).built(),
    {
        let endings = self.nountype.get_endings();
        let articles = self.gender.get_article();
        let mut declined: Vec<String> = Vec::new();
        let mut declined_w_article: Vec<String> = Vec::new();
        let ghost t = self.nountype;
        let ghost stem_v = self.stem@;
        let ghost nom_v = self.nom_sing@;
        let ghost g = self.gender;
        let mut i: usize = 0;
        while i < 8
            invariant
                i <= 8,
                declined@.len() == i,
                declined_w_article@.len() == i,
                endings@.len() == 8,
                articles@.len() == 8,
                forall|k: int| 0 <= k < 8 ==> #[trigger] endings@[k]@ == spec_endings(t)[k],
                forall|k: int| 0 <= k < 8 ==> #[trigger] articles@[k]@ == spec_articles(g)[k],
                t == self.nountype,
                stem_v == self.stem@,
                nom_v == self.nom_sing@,
                g == self.gender,
                forall|k: int|
                    0 <= k < i ==> #[trigger] declined@[k]@ == spec_form(t, stem_v, nom_v, k),
                forall|k: int|
                    0 <= k < i ==> #[trigger] declined_w_article@[k]@ == spec_articles(g)[k] + " "@
                        + spec_form(t, stem_v, nom_v, k),
            decreases 8 - i,
        {
            let candidate = String::from_str(self.stem.as_str()).concat(endings[i]);
            let rewritten = rewrite(&self.nountype, candidate);
            let slot_overridden: bool = match self.nountype {
                NounType::Phulax | NounType::Cheimon | NounType::Geron | NounType::Gigas => i == 0,
                NounType::Soma | NounType::Genos => i == 0 || i == 1,
                _ => false,
            };
            let form = if slot_overridden {
                self.nom_sing.clone()
            } else {
                rewritten
            };
            let with_article = String::from_str(articles[i]).concat(" ").concat(form.as_str());
            proof {
                assert(form@ == spec_form(t, stem_v, nom_v, i as int));
            }
            declined.push(form);
            declined_w_article.push(with_article);
            i += 1;
        }
        self.declined = Some(declined);
        self.declined_w_article = Some(declined_w_article);
    }

    /// The eight bare forms joined with ", " in slot order.
    pub fn joined(&self) -> (r: String)
        requires
            self.declined is Some,
        ensures
            r@ == join_comma_space(seq_views(self.declined->0@)),
    {
        if let Some(v) = &self.declined {
            join_with_comma(v)
        } else {
            unreached()
        }
    }

    /// The eight article-prefixed forms joined with ", " in slot order.
    pub fn joined_with_article(&self) -> (r: String)
        requires
            self.declined_w_article is Some,
        ensures
            r@ == join_comma_space(seq_views(self.declined_w_article->0@)),
    {
        if let Some(v) = &self.declined_w_article {
            join_with_comma(v)
        } else {
            unreached()
        }
    }
}

/// What building a record from these inputs must return: the declined record
/// when a rule matches and the genitive is long enough, and otherwise exactly
/// the error the failing step reports.
pub open spec fn spec_build_outcome(
    ns: Seq<char>,
    gs: Seq<char>,
    g: Gender,
    r: Result<Noun, DeclineError>,
) -> bool {
    match spec_classify(ns, gs) {
        Some(t) => if gs.len() >= stem_drop(t) {
            r matches Ok(n) && n.nom_sing@ == ns && n.gen_sing@ == gs && n.gender == g
                && n.nountype == t && n.wf() && n.built()
        } else {
            r matches Err(e) && (e matches DeclineError::StemTooShort { genitive, required }
                && genitive@ == gs && required == stem_drop(t))
        },
        None => r matches Err(e) && (e matches DeclineError::UnrecognizedPattern {
            nominative,
            genitive,
        } && nominative@ == ns && genitive@ == gs),
    }
}

/// Classifies the noun, extracts its stem and declines it, all in one step.
/// Fails by propagating `UnrecognizedPattern` from the classifier or
/// `StemTooShort` from stem extraction.
pub fn build(nominative: String, genitive: String, gender: Gender) -> (r: Result<
    Noun,
    DeclineError,
>)
    ensures
        spec_build_outcome(nominative@, genitive@, gender, r),
{
    let nountype = match get_type(nominative.as_str(), genitive.as_str()) {
        Ok(t) => t,
        Err(e) => {
            return Err(e);
        },
    };
    match extract_stem(genitive.as_str(), &nountype) {
        Err(e) => Err(e),
        Ok(_stem) => {
            let mut noun = Noun::new(nominative, genitive, gender, nountype);
            noun.decline();
            Ok(noun)
        },
    }
}

/// What processing one record from its three raw fields must return:
/// classification is tried first, then gender decoding, then building.
pub open spec fn spec_process_outcome(
    ns: Seq<char>,
    gs: Seq<char>,
    tok: Seq<char>,
    r: Result<Noun, DeclineError>,
) -> bool {
    match spec_classify(ns, gs) {
        None => r matches Err(e) && (e matches DeclineError::UnrecognizedPattern {
            nominative: nt,
            genitive: gt,
        } && nt@ == ns && gt@ == gs),
        Some(t) => match spec_gender(tok) {
            None => r matches Err(e) && (e matches DeclineError::UnrecognizedGender { token }
                && token@ == tok),
            Some(g) => spec_build_outcome(ns, gs, g, r),
        },
    }
}

/// Processes one input record: classification first, then gender decoding,
/// then building, so a record with an unrecognised suffix pair reports the
/// pattern error even when its gender token is also bad.
pub fn process_triple(nominative: &str, genitive: &str, gender_token: &str) -> (r: Result<
    Noun,
    DeclineError,
>)
    ensures
        spec_process_outcome(nominative@, genitive@, gender_token@, r),
{
    let nountype = match get_type(nominative, genitive) {
        Ok(t) => t,
        Err(e) => {
            return Err(e);
        },
    };
    let gender = match get_gender(gender_token) {
        Ok(g) => g,
        Err(e) => {
            return Err(e);
        },
    };
    build(String::from_str(nominative), String::from_str(genitive), gender)
}

} // verus!
