//! The accent normalizer and validator at the decliner's boundary. The
//! normalizer collapses each accented or accented-and-breathed Greek vowel
//! codepoint to its bare or breathing-only counterpart and removes a stray
//! space before a comma; the validator reports whether a block of text still
//! holds any accented-vowel codepoint, so that a caller can refuse it.

use vstd::prelude::*;

verus! {

/// The bare or breathing-only counterpart of an accented Greek vowel;
/// any character outside the accent table is left unchanged.
pub open spec fn norm_char(c: char) -> char {
    if c == 'ά' || c == 'ὰ' || c == 'ᾶ' {
        'α'
    } else if c == 'ᾴ' || c == 'ᾲ' || c == 'ᾷ' {
        'ᾳ'
    } else if c == 'ἄ' || c == 'ἂ' || c == 'ἆ' {
        'ἀ'
    } else if c == 'ᾄ' || c == 'ᾂ' || c == 'ᾆ' {
        'ᾀ'
    } else if c == 'ἅ' || c == 'ἃ' || c == 'ἇ' {
        'ἁ'
    } else if c == 'ᾅ' || c == 'ᾃ' || c == 'ᾇ' {
        'ᾁ'
    } else if c == 'έ' || c == 'ὲ' {
        'ε'
    } else if c == 'ἔ' || c == 'ἒ' {
        'ἐ'
    } else if c == 'ἕ' || c == 'ἓ' {
        'ἑ'
    } else if c == 'ή' || c == 'ὴ' || c == 'ῆ' {
        'η'
    } else if c == 'ῄ' || c == 'ῂ' || c == 'ῇ' {
        'ῃ'
    } else if c == 'ἤ' || c == 'ἢ' || c == 'ἦ' {
        'ἠ'
    } else if c == 'ᾔ' || c == 'ᾒ' || c == 'ᾖ' {
        'ᾐ'
    } else if c == 'ἥ' || c == 'ἣ' || c == 'ἧ' {
        'ἡ'
    } else if c == 'ᾕ' || c == 'ᾓ' || c == 'ᾗ' {
        'ᾑ'
    } else if c == 'ί' || c == 'ὶ' || c == 'ῖ' {
        'ι'
    } else if c == 'ἴ' || c == 'ἲ' || c == 'ἶ' {
        'ἰ'
    } else if c == 'ἵ' || c == 'ἳ' || c == 'ἷ' {
        'ἱ'
    } else if c == 'ό' || c == 'ὸ' {
        'ο'
    } else if c == 'ὄ' || c == 'ὂ' {
        'ὀ'
    } else if c == 'ὅ' || c == 'ὃ' {
        'ὁ'
    } else if c == 'ώ' || c == 'ὼ' || c == 'ῶ' {
        'ω'
    } else if c == 'ῴ' || c == 'ῲ' || c == 'ῷ' {
        'ῳ'
    } else if c == 'ὤ' || c == 'ὢ' || c == 'ὦ' {
        'ὠ'
    } else if c == 'ᾤ' || c == 'ᾢ' || c == 'ᾦ' {
        'ᾠ'
    } else if c == 'ὥ' || c == 'ὣ' || c == 'ὧ' {
        'ὡ'
    } else if c == 'ᾥ' || c == 'ᾣ' || c == 'ᾧ' {
        'ᾡ'
    } else if c == 'ύ' || c == 'ὺ' || c == 'ῦ' {
        'υ'
    } else if c == 'ὔ' || c == 'ὒ' || c == 'ὖ' {
        'ὐ'
    } else if c == 'ὕ' || c == 'ὓ' || c == 'ὗ' {
        'ὑ'
    } else {
        c
    }
}

fn norm_char_replacement(c: char) -> (r: Option<&'static str>)
    ensures
        match r {
            Some(t) => t@ == seq![norm_char(c)],
            None => norm_char(c) == c,
        },
{
    proof {
        reveal_strlit("α");
        reveal_strlit("ᾳ");
        reveal_strlit("ἀ");
        reveal_strlit("ᾀ");
        reveal_strlit("ἁ");
        reveal_strlit("ᾁ");
        reveal_strlit("ε");
        reveal_strlit("ἐ");
        reveal_strlit("ἑ");
        reveal_strlit("η");
        reveal_strlit("ῃ");
        reveal_strlit("ἠ");
        reveal_strlit("ᾐ");
        reveal_strlit("ἡ");
        reveal_strlit("ᾑ");
        reveal_strlit("ι");
        reveal_strlit("ἰ");
        reveal_strlit("ἱ");
        reveal_strlit("ο");
        reveal_strlit("ὀ");
        reveal_strlit("ὁ");
        reveal_strlit("ω");
        reveal_strlit("ῳ");
        reveal_strlit("ὠ");
        reveal_strlit("ᾠ");
        reveal_strlit("ὡ");
        reveal_strlit("ᾡ");
        reveal_strlit("υ");
        reveal_strlit("ὐ");
        reveal_strlit("ὑ");
        assert("α"@ =~= seq!['α']);
        assert("ᾳ"@ =~= seq!['ᾳ']);
        assert("ἀ"@ =~= seq!['ἀ']);
        assert("ᾀ"@ =~= seq!['ᾀ']);
        assert("ἁ"@ =~= seq!['ἁ']);
        assert("ᾁ"@ =~= seq!['ᾁ']);
        assert("ε"@ =~= seq!['ε']);
        assert("ἐ"@ =~= seq!['ἐ']);
        assert("ἑ"@ =~= seq!['ἑ']);
        assert("η"@ =~= seq!['η']);
        assert("ῃ"@ =~= seq!['ῃ']);
        assert("ἠ"@ =~= seq!['ἠ']);
        assert("ᾐ"@ =~= seq!['ᾐ']);
        assert("ἡ"@ =~= seq!['ἡ']);
        assert("ᾑ"@ =~= seq!['ᾑ']);
        assert("ι"@ =~= seq!['ι']);
        assert("ἰ"@ =~= seq!['ἰ']);
        assert("ἱ"@ =~= seq!['ἱ']);
        assert("ο"@ =~= seq!['ο']);
        assert("ὀ"@ =~= seq!['ὀ']);
        assert("ὁ"@ =~= seq!['ὁ']);
        assert("ω"@ =~= seq!['ω']);
        assert("ῳ"@ =~= seq!['ῳ']);
        assert("ὠ"@ =~= seq!['ὠ']);
        assert("ᾠ"@ =~= seq!['ᾠ']);
        assert("ὡ"@ =~= seq!['ὡ']);
        assert("ᾡ"@ =~= seq!['ᾡ']);
        assert("υ"@ =~= seq!['υ']);
        assert("ὐ"@ =~= seq!['ὐ']);
        assert("ὑ"@ =~= seq!['ὑ']);
    }
    match c {
        'ά' | 'ὰ' | 'ᾶ' => Some("α"),
        'ᾴ' | 'ᾲ' | 'ᾷ' => Some("ᾳ"),
        'ἄ' | 'ἂ' | 'ἆ' => Some("ἀ"),
        'ᾄ' | 'ᾂ' | 'ᾆ' => Some("ᾀ"),
        'ἅ' | 'ἃ' | 'ἇ' => Some("ἁ"),
        'ᾅ' | 'ᾃ' | 'ᾇ' => Some("ᾁ"),
        'έ' | 'ὲ' => Some("ε"),
        'ἔ' | 'ἒ' => Some("ἐ"),
        'ἕ' | 'ἓ' => Some("ἑ"),
        'ή' | 'ὴ' | 'ῆ' => Some("η"),
        'ῄ' | 'ῂ' | 'ῇ' => Some("ῃ"),
        'ἤ' | 'ἢ' | 'ἦ' => Some("ἠ"),
        'ᾔ' | 'ᾒ' | 'ᾖ' => Some("ᾐ"),
        'ἥ' | 'ἣ' | 'ἧ' => Some("ἡ"),
        'ᾕ' | 'ᾓ' | 'ᾗ' => Some("ᾑ"),
        'ί' | 'ὶ' | 'ῖ' => Some("ι"),
        'ἴ' | 'ἲ' | 'ἶ' => Some("ἰ"),
        'ἵ' | 'ἳ' | 'ἷ' => Some("ἱ"),
        'ό' | 'ὸ' => Some("ο"),
        'ὄ' | 'ὂ' => Some("ὀ"),
        'ὅ' | 'ὃ' => Some("ὁ"),
        'ώ' | 'ὼ' | 'ῶ' => Some("ω"),
        'ῴ' | 'ῲ' | 'ῷ' => Some("ῳ"),
        'ὤ' | 'ὢ' | 'ὦ' => Some("ὠ"),
        'ᾤ' | 'ᾢ' | 'ᾦ' => Some("ᾠ"),
        'ὥ' | 'ὣ' | 'ὧ' => Some("ὡ"),
        'ᾥ' | 'ᾣ' | 'ᾧ' => Some("ᾡ"),
        'ύ' | 'ὺ' | 'ῦ' => Some("υ"),
        'ὔ' | 'ὒ' | 'ὖ' => Some("ὐ"),
        'ὕ' | 'ὓ' | 'ὗ' => Some("ὑ"),
        _ => None,
    }
}

/// Every character mapped through the accent table.
pub open spec fn normalized(s: Seq<char>) -> Seq<char> {
    s.map_values(|c: char| norm_char(c))
}

/// The space-before-comma pattern collapsed to a bare comma, scanning left to
/// right without overlap.
pub open spec fn despace(s: Seq<char>) -> Seq<char>
    decreases s.len(),
{
    if s.len() >= 2 && s[0] == ' ' && s[1] == ',' {
        seq![','] + despace(s.skip(2))
    } else if s.len() >= 1 {
        seq![s[0]] + despace(s.skip(1))
    } else {
        Seq::empty()
    }
}

/// A cleaned line: accents collapsed to bare vowels, then every space
/// standing before a comma removed.
pub open spec fn clean_line_spec(s: Seq<char>) -> Seq<char> {
    despace(normalized(s))
}

fn normalize_chars(s: &str) -> (r: String)
    ensures
        r@ == normalized(s@),
{
    let n = s.unicode_len();
    let mut out = String::new();
    let mut i: usize = 0;
    while i < n
        invariant
            n == s@.len(),
            i <= n,
            out@ == normalized(s@).take(i as int),
        decreases n - i,
    {
        let c = s.get_char(i);
        match norm_char_replacement(c) {
            Some(t) => out.append(t),
            None => out.append(s.substring_char(i, i + 1)),
        }
        proof {
            assert(s@.subrange(i as int, i + 1) =~= seq![s@[i as int]]);
            assert(normalized(s@)[i as int] == norm_char(s@[i as int]));
            assert(normalized(s@).take(i + 1) =~= normalized(s@).take(i as int) + seq![
                norm_char(s@[i as int]),
            ]);
        }
        i += 1;
    }
    proof {
        assert(normalized(s@).take(n as int) =~= normalized(s@));
    }
    out
}

fn collapse_space_comma(s: &str) -> (r: String)
    ensures
        r@ == despace(s@),
{
    let n = s.unicode_len();
    let mut out = String::new();
    let mut i: usize = 0;
    proof {
        assert(s@.skip(0) =~= s@);
        assert(Seq::<char>::empty() + despace(s@) =~= despace(s@));
    }
    while i < n
        invariant
            n == s@.len(),
            i <= n,
            despace(s@) == out@ + despace(s@.skip(i as int)),
        decreases n - i,
    {
        let ghost prev = out@;
        let ghost tail = s@.skip(i as int);
        if i + 1 < n && s.get_char(i) == ' ' && s.get_char(i + 1) == ',' {
            out.append(",");
            proof {
                reveal_strlit(",");
                assert(","@ =~= seq![',']);
                assert(tail[0] == ' ' && tail[1] == ',');
                assert(tail.skip(2) =~= s@.skip(i + 2));
                assert(despace(tail) == seq![','] + despace(s@.skip(i + 2)));
                assert(prev + despace(tail) =~= out@ + despace(s@.skip(i + 2)));
            }
            i += 2;
        } else {
            out.append(s.substring_char(i, i + 1));
            proof {
                assert(s@.subrange(i as int, i + 1) =~= seq![s@[i as int]]);
                assert(tail[0] == s@[i as int]);
                assert(tail.skip(1) =~= s@.skip(i + 1));
                if tail.len() >= 2 {
                    assert(tail[1] == s@[i + 1]);
                }
                assert(despace(tail) == seq![s@[i as int]] + despace(s@.skip(i + 1)));
                assert(prev + despace(tail) =~= out@ + despace(s@.skip(i + 1)));
            }
            i += 1;
        }
    }
    proof {
        assert(s@.skip(n as int) =~= Seq::<char>::empty());
        assert(despace(s@.skip(n as int)) == Seq::<char>::empty());
        assert(out@ + Seq::<char>::empty() =~= out@);
    }
    out
}

/// Cleans one line of input: collapses every accented vowel codepoint of the
/// table to its bare counterpart and removes any space standing before a
/// comma.
pub fn clean_line(s: &str) -> (r: String)
    ensures
        r@ == clean_line_spec(s@),
{
    let mapped = normalize_chars(s);
    collapse_space_comma(mapped.as_str())
}

/// The accented-vowel codepoints that the validator rejects.
pub open spec fn is_accented(c: char) -> bool {
    c == 'ά' || c == 'ἄ' || c == 'ἅ' || c == 'ὰ' || c == 'ἂ' || c == 'ἃ' ||
        c == 'ᾴ' || c == 'ᾲ' || c == 'ᾷ' || c == 'ᾶ' || c == 'έ' || c == 'ὲ' ||
        c == 'ἔ' || c == 'ἒ' || c == 'ἕ' || c == 'ἓ' || c == 'ή' || c == 'ἤ' ||
        c == 'ἥ' || c == 'ὴ' || c == 'ἢ' || c == 'ἣ' || c == 'ῆ' || c == 'ῄ' ||
        c == 'ῂ' || c == 'ῇ' || c == 'ί' || c == 'ἴ' || c == 'ἵ' || c == 'ὶ' ||
        c == 'ἲ' || c == 'ἳ' || c == 'ό' || c == 'ὄ' || c == 'ὅ' || c == 'ὸ' ||
        c == 'ὂ' || c == 'ὃ' || c == 'ώ' || c == 'ὤ' || c == 'ὥ' || c == 'ὼ' ||
        c == 'ὣ' || c == 'ὢ' || c == 'ῶ' || c == 'ῴ' || c == 'ῲ' || c == 'ῷ' ||
        c == 'ύ' || c == 'ὔ' || c == 'ὕ' || c == 'ὺ' || c == 'ὒ' || c == 'ὓ'
}

fn is_accented_exec(c: char) -> (r: bool)
    ensures
        r == is_accented(c),
{
    match c {
        'ά' | 'ἄ' | 'ἅ' | 'ὰ' | 'ἂ' | 'ἃ' | 'ᾴ' | 'ᾲ' | 'ᾷ' | 'ᾶ' | 'έ' | 'ὲ' | 'ἔ' | 'ἒ' | 'ἕ'
        | 'ἓ' | 'ή' | 'ἤ' | 'ἥ' | 'ὴ' | 'ἢ' | 'ἣ' | 'ῆ' | 'ῄ' | 'ῂ' | 'ῇ' | 'ί' | 'ἴ' | 'ἵ' |
        'ὶ' | 'ἲ' | 'ἳ' | 'ό' | 'ὄ' | 'ὅ' | 'ὸ' | 'ὂ' | 'ὃ' | 'ώ' | 'ὤ' | 'ὥ' | 'ὼ' | 'ὣ' | 'ὢ'
        | 'ῶ' | 'ῴ' | 'ῲ' | 'ῷ' | 'ύ' | 'ὔ' | 'ὕ' | 'ὺ' | 'ὒ' | 'ὓ' => true,
        _ => false,
    }
}

/// Whether the text holds any accented-vowel codepoint of the table: the
/// validator's rejection test.
pub fn has_accent(s: &str) -> (r: bool)
    ensures
        r == (exists|i: int| 0 <= i < s@.len() && is_accented(s@[i])),
{
    let n = s.unicode_len();
    let mut i: usize = 0;
    while i < n
        invariant
            n == s@.len(),
            i <= n,
            forall|k: int| 0 <= k < i ==> !is_accented(s@[k]),
        decreases n - i,
    {
        if is_accented_exec(s.get_char(i)) {
            return true;
        }
        i += 1;
    }
    false
}

} // verus!
