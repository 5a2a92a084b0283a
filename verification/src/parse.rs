//! Parsing of a single-triple input line: three comma-separated fields,
//! each trimmed. Supplying more than three fields is a usage error; the
//! record source owes at least three.

use vstd::pervasive::unreached;
use vstd::prelude::*;

use crate::errors::DeclineError;
use crate::text::count_char;
use crate::text::count_char_exec;
use crate::text::find_char;
use crate::text::find_from;
use crate::text::lemma_count_pos_find;
use crate::text::lemma_find_count;
use crate::text::trim;
use crate::text::trim_spec;

verus! {

/// Splits a single-triple input on its commas and trims the three fields.
/// With more than two commas the input carries more than three fields, which
/// fails with `TooManyFields` naming the count. The caller owes an input of
/// at least three fields.
pub fn parse_triple(input: &str) -> (r: Result<(String, String, String), DeclineError>)
    requires
        count_char(input@, ',') >= 2,
        input@.len() < usize::MAX,
    ensures
        count_char(input@, ',') > 2 ==> (r matches Err(e) && (e
            matches DeclineError::TooManyFields { parts } && parts == count_char(input@, ',')
            + 1)),
        count_char(input@, ',') == 2 ==> (r matches Ok(fields) && {
            let i = find_from(input@, ',', 0);
            let j = find_from(input@, ',', i + 1);
            &&& fields.0@ == trim_spec(input@.subrange(0, i))
            &&& fields.1@ == trim_spec(input@.subrange(i + 1, j))
            &&& fields.2@ == trim_spec(input@.subrange(j + 1, input@.len() as int))
        }),
{
    let n = input.unicode_len();
    let commas = count_char_exec(input, ',');
    if commas > 2 {
        return Err(DeclineError::TooManyFields { parts: commas + 1 });
    }
    let i = match find_char(input, ',', 0) {
        Some(i) => i,
        None => {
            proof {
                lemma_count_pos_find(input@, ',', 0);
            }
            unreached()
        },
    };
    proof {
        lemma_find_count(input@, ',', 0);
        lemma_count_pos_find(input@, ',', i + 1);
    }
    let j = match find_char(input, ',', i + 1) {
        Some(j) => j,
        None => unreached(),
    };
    let a = trim(input.substring_char(0, i));
    let b = trim(input.substring_char(i + 1, j));
    let c = trim(input.substring_char(j + 1, n));
    Ok((a, b, c))
}

} // verus!
