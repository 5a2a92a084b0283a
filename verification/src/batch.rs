//! Batch processing of records. Records are independent of one another, but
//! the output order is a contract: the built records come out in exactly the
//! order their inputs came in. A record that fails classification or gender
//! decoding is skipped with its error kept beside its position; it does not
//! abort the batch.

use vstd::prelude::*;

use crate::classify::spec_classify;
use crate::classify::spec_gender;
use crate::errors::DeclineError;
use crate::noun::Noun;
use crate::noun::process_triple;
use crate::noun::spec_process_outcome;
use crate::noun::stem_drop;

verus! {

/// A record on which every processing step succeeds: a classification rule
/// matches, the gender token decodes, and the genitive is long enough for
/// the class's removal count.
pub open spec fn record_ok(t: (String, String, String)) -> bool {
    &&& spec_classify(t.0@, t.1@) is Some
    &&& spec_gender(t.2@) is Some
    &&& t.1@.len() >= stem_drop(spec_classify(t.0@, t.1@)->0)
}

/// The records of a batch that process successfully, in input order.
pub open spec fn kept_records(records: Seq<(String, String, String)>) -> Seq<
    (String, String, String),
> {
    records.filter(|t: (String, String, String)| record_ok(t))
}

/// Every built record of a batch result corresponds, field by field, to the
/// successful input record in the same position of the kept subsequence.
pub open spec fn batch_nouns_match(
    records: Seq<(String, String, String)>,
    nouns: Seq<Noun>,
) -> bool {
    &&& nouns.len() == kept_records(records).len()
    &&& forall|k: int|
        0 <= k < nouns.len() ==> {
            let t = kept_records(records)[k];
            &&& (#[trigger] nouns[k]).nom_sing@ == t.0@
            &&& nouns[k].gen_sing@ == t.1@
            &&& spec_classify(t.0@, t.1@) == Some(nouns[k].nountype)
            &&& spec_gender(t.2@) == Some(nouns[k].gender)
            &&& nouns[k].wf()
            &&& nouns[k].built()
        }
}

/// Every reported failure of a batch result names a failing input record by
/// its position, carries exactly the error that record's processing yields,
/// and the positions come in strictly increasing input order.
pub open spec fn batch_errors_match(
    records: Seq<(String, String, String)>,
    errs: Seq<(usize, DeclineError)>,
) -> bool {
    &&& errs.len() == records.len() - kept_records(records).len()
    &&& forall|k: int|
        0 <= k < errs.len() ==> {
            let idx = (#[trigger] errs[k]).0 as int;
            &&& 0 <= idx < records.len()
            &&& !record_ok(records[idx])
            &&& spec_process_outcome(
                records[idx].0@,
                records[idx].1@,
                records[idx].2@,
                Err(errs[k].1),
            )
        }
    &&& forall|k1: int, k2: int|
        0 <= k1 < k2 < errs.len() ==> (#[trigger] errs[k1]).0 < (#[trigger] errs[k2]).0
}

/// Processes a batch of records in input order: the records that build come
/// out as declined nouns in exactly the order supplied, and each failing
/// record is skipped and reported beside its position without aborting the
/// rest.
pub fn process_batch(records: &Vec<(String, String, String)>) -> (r: (
    Vec<Noun>,
    Vec<(usize, DeclineError)>,
))
    ensures
        batch_nouns_match(records@, r.0@),
        batch_errors_match(records@, r.1@),
{
    let mut nouns: Vec<Noun> = Vec::new();
    let mut errs: Vec<(usize, DeclineError)> = Vec::new();
    let mut i: usize = 0;
    proof {
        assert(records@.take(0) =~= Seq::<(String, String, String)>::empty());
        reveal(Seq::filter);
    }
    while i < records.len()
        invariant
            i <= records@.len(),
            batch_nouns_match(records@.take(i as int), nouns@),
            batch_errors_match(records@.take(i as int), errs@),
            forall|k: int| 0 <= k < errs@.len() ==> (#[trigger] errs@[k]).0 < i,
            errs@.len() <= i,
        decreases records@.len() - i,
    {
        let ghost prefix = records@.take(i as int);
        let ghost prefix1 = records@.take(i + 1);
        let t = &records[i];
        let outcome = process_triple(t.0.as_str(), t.1.as_str(), t.2.as_str());
        proof {
            assert(prefix1.drop_last() =~= prefix);
            assert(prefix1.last() == records@[i as int]);
            reveal(Seq::filter);
            assert(kept_records(prefix1) == if record_ok(records@[i as int]) {
                kept_records(prefix).push(records@[i as int])
            } else {
                kept_records(prefix)
            });
        }
        match outcome {
            Ok(n) => {
                proof {
                    assert(record_ok(records@[i as int]));
                }
                nouns.push(n);
            },
            Err(e) => {
                proof {
                    assert(!record_ok(records@[i as int]));
                }
                errs.push((i, e));
            },
        }
        i += 1;
    }
    proof {
        assert(records@.take(records@.len() as int) =~= records@);
    }
    (nouns, errs)
}

} // verus!
