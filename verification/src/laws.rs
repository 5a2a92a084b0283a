//! Library-wide laws of the paradigm builder, proved once and for all built
//! records: determinism of building, the slot alignment between bare and
//! article-prefixed forms, and the irregular-slot override invariant. The
//! structural eight-slot invariant of the tables stands beside the tables
//! themselves.

use vstd::prelude::*;

use crate::noun::Noun;
use crate::noun::overrides_slot0;
use crate::noun::overrides_slot01;
use crate::noun::spec_forms;
use crate::noun::spec_forms_with_article;
use crate::noun::spec_stem;
use crate::noun::stem_drop;
use crate::tables::NounType;
use crate::tables::spec_articles;
use crate::text::seq_views;

verus! {

/// Paradigm building is deterministic: two built records with equal class,
/// gender, nominative and stem hold identical bare forms and identical
/// article-prefixed forms.
pub proof fn lemma_decline_deterministic(a: Noun, b: Noun)
    requires
        a.built(),
        b.built(),
        a.nountype == b.nountype,
        a.gender == b.gender,
        a.nom_sing@ == b.nom_sing@,
        a.stem@ == b.stem@,
    ensures
        seq_views(a.declined->0@) == seq_views(b.declined->0@),
        seq_views(a.declined_w_article->0@) == seq_views(b.declined_w_article->0@),
{
    let fa = spec_forms(a.nountype, a.stem@, a.nom_sing@);
    let wa = spec_forms_with_article(a.gender, a.nountype, a.stem@, a.nom_sing@);
    assert forall|i: int| 0 <= i < 8 implies seq_views(a.declined->0@)[i] == seq_views(
        b.declined->0@,
    )[i] by {
        assert(a.declined->0@[i]@ == fa[i]);
        assert(b.declined->0@[i]@ == fa[i]);
    }
    assert forall|i: int| 0 <= i < 8 implies seq_views(a.declined_w_article->0@)[i] == seq_views(
        b.declined_w_article->0@,
    )[i] by {
        assert(a.declined_w_article->0@[i]@ == wa[i]);
        assert(b.declined_w_article->0@[i]@ == wa[i]);
    }
    assert(seq_views(a.declined->0@) =~= seq_views(b.declined->0@));
    assert(seq_views(a.declined_w_article->0@) =~= seq_views(b.declined_w_article->0@));
}

/// Slot alignment: in every built record, the article-prefixed form of every
/// slot is the gender's article for that slot, a space, and the bare form of
/// the same slot.
pub proof fn lemma_article_alignment(n: Noun, i: int)
    requires
        n.built(),
        0 <= i < 8,
    ensures
        n.declined_w_article->0@[i]@ == spec_articles(n.gender)[i] + " "@ + n.declined->0@[i]@,
{
    assert(n.declined->0@[i]@ == spec_forms(n.nountype, n.stem@, n.nom_sing@)[i]);
    assert(n.declined_w_article->0@[i]@ == spec_forms_with_article(
        n.gender,
        n.nountype,
        n.stem@,
        n.nom_sing@,
    )[i]);
}

/// The irregular-override invariant: for the classes that overwrite slot 0
/// the built nominative slot is exactly the original nominative, and for the
/// classes that overwrite slots 0 and 1 both slots are exactly the original
/// nominative.
pub proof fn lemma_irregular_overrides(n: Noun)
    requires
        n.built(),
    ensures
        overrides_slot0(n.nountype) ==> n.declined->0@[0]@ == n.nom_sing@,
        overrides_slot01(n.nountype) ==> n.declined->0@[0]@ == n.nom_sing@
            && n.declined->0@[1]@ == n.nom_sing@,
{
    assert(n.declined->0@[0]@ == spec_forms(n.nountype, n.stem@, n.nom_sing@)[0]);
    assert(n.declined->0@[1]@ == spec_forms(n.nountype, n.stem@, n.nom_sing@)[1]);
}

/// Stem extraction removes exactly the class-dependent count: the stem of a
/// long-enough genitive is shorter than it by exactly the removal count.
pub proof fn lemma_stem_length(t: NounType, gs: Seq<char>)
    requires
        gs.len() >= stem_drop(t),
    ensures
        spec_stem(t, gs).len() == gs.len() - stem_drop(t),
{
}

} // verus!
