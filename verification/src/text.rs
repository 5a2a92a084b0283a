//! Verified character-level text utilities. All executable functions here are
//! specified exactly against specification functions over `Seq<char>` views,
//! so the callers' contracts can speak of suffixes, substrings, replacements
//! and joins in mathematical terms.

use vstd::prelude::*;

verus! {

/// `suffix` stands at the end of `s`.
pub open spec fn seq_ends_with(s: Seq<char>, suffix: Seq<char>) -> bool {
    suffix.len() <= s.len() && s.subrange(s.len() - suffix.len(), s.len() as int) == suffix
}

/// Whether the characters of `s` end with the characters of `suffix`.
pub fn str_ends_with(s: &str, suffix: &str) -> (r: bool)
    ensures
        r == seq_ends_with(s@, suffix@),
{
    let n = s.unicode_len();
    let m = suffix.unicode_len();
    if m > n {
        return false;
    }
    let mut j: usize = 0;
    while j < m
        invariant
            n == s@.len(),
            m == suffix@.len(),
            m <= n,
            j <= m,
            forall|k: int| 0 <= k < j ==> s@[n - m + k] == suffix@[k],
        decreases m - j,
    {
        if s.get_char(n - m + j) != suffix.get_char(j) {
            proof {
                assert(s@.subrange(n - m, n as int)[j as int] == s@[n - m + j]);
            }
            return false;
        }
        j += 1;
    }
    proof {
        assert(s@.subrange(n - m, n as int) =~= suffix@);
    }
    true
}

/// Whether the characters of `a` equal the characters of `b`.
pub fn str_eq(a: &str, b: &str) -> (r: bool)
    ensures
        r == (a@ == b@),
{
    let n = a.unicode_len();
    let m = b.unicode_len();
    if n != m {
        return false;
    }
    let mut i: usize = 0;
    while i < n
        invariant
            n == a@.len(),
            n == b@.len(),
            i <= n,
            forall|k: int| 0 <= k < i ==> a@[k] == b@[k],
        decreases n - i,
    {
        if a.get_char(i) != b.get_char(i) {
            return false;
        }
        i += 1;
    }
    proof {
        assert(a@ =~= b@);
    }
    true
}

/// `pat` stands in `s` starting at position `i`.
pub open spec fn matches_at(s: Seq<char>, pat: Seq<char>, i: int) -> bool {
    0 <= i && i + pat.len() <= s.len() && s.subrange(i, i + pat.len()) == pat
}

/// The position of the first occurrence of `pat` in `s` at or after `from`,
/// or -1 when there is none.
pub open spec fn find_first(s: Seq<char>, pat: Seq<char>, from: int) -> int
    decreases s.len() - from,
{
    if from < 0 || from + pat.len() > s.len() {
        -1
    } else if pat.len() == 0 {
        from
    } else if matches_at(s, pat, from) {
        from
    } else {
        find_first(s, pat, from + 1)
    }
}

/// `s` with its leftmost occurrence of `pat`, if any, replaced by `rep`.
pub open spec fn replace_first_spec(s: Seq<char>, pat: Seq<char>, rep: Seq<char>) -> Seq<char> {
    let i = find_first(s, pat, 0);
    if i < 0 {
        s
    } else {
        s.subrange(0, i) + rep + s.subrange(i + pat.len(), s.len() as int)
    }
}

fn matches_at_exec(s: &str, pat: &str, i: usize) -> (b: bool)
    requires
        i + pat@.len() <= s@.len(),
    ensures
        b == matches_at(s@, pat@, i as int),
{
    let n = s.unicode_len();
    let m = pat.unicode_len();
    let mut j: usize = 0;
    while j < m
        invariant
            n == s@.len(),
            m == pat@.len(),
            i + m <= n,
            j <= m,
            forall|k: int| 0 <= k < j ==> s@[i + k] == pat@[k],
        decreases m - j,
    {
        if s.get_char(i + j) != pat.get_char(j) {
            proof {
                assert(s@.subrange(i as int, i + m)[j as int] == s@[i + j]);
            }
            return false;
        }
        j += 1;
    }
    proof {
        assert(s@.subrange(i as int, i + m) =~= pat@);
    }
    true
}

/// Replaces the leftmost occurrence of `pat` in `s` with `rep`; returns `s`
/// unchanged when `pat` does not occur in it.
pub fn replace_first(s: String, pat: &str, rep: &str) -> (r: String)
    ensures
        r@ == replace_first_spec(s@, pat@, rep@),
{
    let n = s.as_str().unicode_len();
    let m = pat.unicode_len();
    if m > n {
        return s;
    }
    if m == 0 {
        proof {
            assert(s@.subrange(0, 0) =~= pat@);
            assert(matches_at(s@, pat@, 0));
        }
        let r = String::from_str(rep).concat(s.as_str());
        proof {
            assert(r@ =~= replace_first_spec(s@, pat@, rep@));
        }
        return r;
    }
    let mut i: usize = 0;
    while i <= n - m
        invariant
            n == s@.len(),
            m == pat@.len(),
            0 < m <= n,
            i <= n - m + 1,
            find_first(s@, pat@, 0) == find_first(s@, pat@, i as int),
        decreases n - i,
    {
        if matches_at_exec(s.as_str(), pat, i) {
            proof {
                assert(find_first(s@, pat@, i as int) == i);
            }
            let prefix = s.as_str().substring_char(0, i);
            let suffix = s.as_str().substring_char(i + m, n);
            let r = String::from_str(prefix).concat(rep).concat(suffix);
            proof {
                assert(r@ =~= replace_first_spec(s@, pat@, rep@));
            }
            return r;
        }
        proof {
            assert(find_first(s@, pat@, i as int) == find_first(s@, pat@, i + 1));
        }
        i += 1;
    }
    proof {
        assert(find_first(s@, pat@, i as int) == -1);
    }
    s
}

/// How many times `c` occurs in `s` at or after `from`.
pub open spec fn count_from(s: Seq<char>, c: char, from: int) -> nat
    decreases s.len() - from,
{
    if from < 0 || from >= s.len() {
        0
    } else {
        (if s[from] == c {
            1nat
        } else {
            0nat
        }) + count_from(s, c, from + 1)
    }
}

/// How many times `c` occurs in `s`.
pub open spec fn count_char(s: Seq<char>, c: char) -> nat {
    count_from(s, c, 0)
}

/// Counts the occurrences of `c` among the characters of `s`.
pub fn count_char_exec(s: &str, c: char) -> (r: usize)
    ensures
        r == count_char(s@, c),
        r <= s@.len(),
{
    let n = s.unicode_len();
    let mut cnt: usize = 0;
    let mut i: usize = 0;
    while i < n
        invariant
            n == s@.len(),
            i <= n,
            cnt <= i,
            count_char(s@, c) == cnt + count_from(s@, c, i as int),
        decreases n - i,
    {
        proof {
            assert(count_from(s@, c, i as int) == (if s@[i as int] == c {
                1nat
            } else {
                0nat
            }) + count_from(s@, c, i + 1));
        }
        if s.get_char(i) == c {
            cnt += 1;
        }
        i += 1;
    }
    cnt
}

/// The position of the first occurrence of `c` in `s` at or after `from`, or
/// -1 when there is none.
pub open spec fn find_from(s: Seq<char>, c: char, from: int) -> int
    decreases s.len() - from,
{
    if from < 0 || from >= s.len() {
        -1
    } else if s[from] == c {
        from
    } else {
        find_from(s, c, from + 1)
    }
}

/// Finds the first occurrence of `c` in `s` at or after position `from`.
pub fn find_char(s: &str, c: char, from: usize) -> (r: Option<usize>)
    ensures
        match r {
            Some(i) => find_from(s@, c, from as int) == i && from <= i < s@.len()
                && s@[i as int] == c,
            None => find_from(s@, c, from as int) == -1,
        },
{
    let n = s.unicode_len();
    let mut i: usize = from;
    while i < n
        invariant
            n == s@.len(),
            from <= i,
            find_from(s@, c, from as int) == find_from(s@, c, i as int),
        decreases n - i,
    {
        if s.get_char(i) == c {
            return Some(i);
        }
        i += 1;
    }
    None
}

/// A occurrence of `c` somewhere at or after `from` makes `find_from` land on
/// a real position.
pub proof fn lemma_count_pos_find(s: Seq<char>, c: char, from: int)
    requires
        count_from(s, c, from) >= 1,
    ensures
        from <= find_from(s, c, from) < s.len(),
        s[find_from(s, c, from)] == c,
    decreases s.len() - from,
{
    if from < 0 || from >= s.len() {
    } else if s[from] == c {
    } else {
        lemma_count_pos_find(s, c, from + 1);
    }
}

/// Splitting at the first occurrence found accounts for exactly one of the
/// counted occurrences.
pub proof fn lemma_find_count(s: Seq<char>, c: char, from: int)
    requires
        0 <= from,
        0 <= find_from(s, c, from),
    ensures
        count_from(s, c, from) == 1 + count_from(s, c, find_from(s, c, from) + 1),
    decreases s.len() - from,
{
    if from >= s.len() {
    } else if s[from] == c {
    } else {
        lemma_find_count(s, c, from + 1);
    }
}

/// The characters treated as removable whitespace around a field.
pub open spec fn is_blank(c: char) -> bool {
    c == ' ' || c == '\t' || c == '\n' || c == '\r'
}

/// The position of the first non-blank character at or after `from`, or the
/// length of `s` when everything from `from` on is blank.
pub open spec fn skip_blanks(s: Seq<char>, from: int) -> int
    decreases s.len() - from,
{
    if from < 0 || from >= s.len() {
        s.len() as int
    } else if is_blank(s[from]) {
        skip_blanks(s, from + 1)
    } else {
        from
    }
}

/// The position after the last non-blank character before `upto`, or 0 when
/// everything before `upto` is blank.
pub open spec fn rskip_blanks(s: Seq<char>, upto: int) -> int
    decreases upto,
{
    if upto <= 0 || upto > s.len() {
        0
    } else if is_blank(s[upto - 1]) {
        rskip_blanks(s, upto - 1)
    } else {
        upto
    }
}

pub proof fn lemma_skip_blanks_range(s: Seq<char>, from: int)
    requires
        0 <= from <= s.len(),
    ensures
        from <= skip_blanks(s, from) <= s.len(),
    decreases s.len() - from,
{
    if from < s.len() && is_blank(s[from]) {
        lemma_skip_blanks_range(s, from + 1);
    }
}

pub proof fn lemma_rskip_blanks_range(s: Seq<char>, upto: int)
    requires
        0 <= upto <= s.len(),
    ensures
        0 <= rskip_blanks(s, upto) <= upto,
    decreases upto,
{
    if upto > 0 && is_blank(s[upto - 1]) {
        lemma_rskip_blanks_range(s, upto - 1);
    }
}

/// `s` without its leading and trailing blanks.
pub open spec fn trim_spec(s: Seq<char>) -> Seq<char> {
    let a = skip_blanks(s, 0);
    let b = rskip_blanks(s, s.len() as int);
    if a < b {
        s.subrange(a, b)
    } else {
        Seq::empty()
    }
}

fn is_blank_exec(c: char) -> (r: bool)
    ensures
        r == is_blank(c),
{
    c == ' ' || c == '\t' || c == '\n' || c == '\r'
}

/// Removes leading and trailing blanks from `s`.
pub fn trim(s: &str) -> (r: String)
    ensures
        r@ == trim_spec(s@),
{
    let n = s.unicode_len();
    let mut a: usize = 0;
    while a < n && is_blank_exec(s.get_char(a))
        invariant
            n == s@.len(),
            a <= n,
            skip_blanks(s@, 0) == skip_blanks(s@, a as int),
        decreases n - a,
    {
        a += 1;
    }
    let mut b: usize = n;
    while b > a && is_blank_exec(s.get_char(b - 1))
        invariant
            n == s@.len(),
            a <= b <= n,
            rskip_blanks(s@, n as int) == rskip_blanks(s@, b as int),
        decreases b,
    {
        b -= 1;
    }
    if a < b {
        proof {
            assert(skip_blanks(s@, a as int) == a);
            assert(rskip_blanks(s@, b as int) == b);
        }
        String::from_str(s.substring_char(a, b))
    } else {
        proof {
            lemma_rskip_blanks_range(s@, b as int);
            assert(rskip_blanks(s@, s@.len() as int) <= a);
            lemma_skip_blanks_range(s@, a as int);
        }
        String::new()
    }
}

/// The views of a sequence of strings.
pub open spec fn seq_views(parts: Seq<String>) -> Seq<Seq<char>> {
    parts.map_values(|p: String| p@)
}

/// The tail of a comma-space join: `", " + parts[i] + ", " + parts[i+1] + ...`.
pub open spec fn join_tail(parts: Seq<Seq<char>>, i: int) -> Seq<char>
    decreases parts.len() - i,
{
    if i < 0 || i >= parts.len() {
        Seq::empty()
    } else {
        ", "@ + parts[i] + join_tail(parts, i + 1)
    }
}

/// All the parts joined with `", "` between neighbours, in order.
pub open spec fn join_comma_space(parts: Seq<Seq<char>>) -> Seq<char> {
    if parts.len() == 0 {
        Seq::empty()
    } else {
        parts[0] + join_tail(parts, 1)
    }
}

/// Joins the strings of `parts` with `", "` between neighbours.
pub fn join_with_comma(parts: &Vec<String>) -> (r: String)
    ensures
        r@ == join_comma_space(seq_views(parts@)),
{
    if parts.len() == 0 {
        return String::new();
    }
    let mut r = String::from_str(parts[0].as_str());
    let mut i: usize = 1;
    proof {
        assert(seq_views(parts@)[0] == parts@[0]@);
    }
    while i < parts.len()
        invariant
            1 <= i <= parts@.len(),
            r@ + join_tail(seq_views(parts@), i as int) == join_comma_space(seq_views(parts@)),
        decreases parts@.len() - i,
    {
        let ghost prev = r@;
        let ghost sv = seq_views(parts@);
        r.append(", ");
        r.append(parts[i].as_str());
        proof {
            assert(sv[i as int] == parts@[i as int]@);
            assert(join_tail(sv, i as int) == ", "@ + sv[i as int] + join_tail(sv, i + 1));
            assert(r@ + join_tail(sv, i + 1) =~= prev + join_tail(sv, i as int));
        }
        i += 1;
    }
    proof {
        assert(join_tail(seq_views(parts@), i as int) =~= Seq::<char>::empty());
        assert(r@ + Seq::<char>::empty() =~= r@);
    }
    r
}

} // verus!
