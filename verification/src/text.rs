//! Strings as the commands use them: compared with or without case, measured in characters.

use vstd::prelude::*;
use vstd::std_specs::iter::IteratorSpec;

verus! {

/// The code point of `c`, with the ASCII upper case letters moved onto the lower case ones.
pub open spec fn ascii_folded(c: char) -> u32 {
    if 'A' <= c && c <= 'Z' {
        (c as u32 + 32) as u32
    } else {
        c as u32
    }
}

/// Whether `a` and `b` are the same text up to the case of ASCII letters.
pub open spec fn same_ignoring_ascii_case(a: Seq<char>, b: Seq<char>) -> bool {
    &&& a.len() == b.len()
    &&& forall|i: int| 0 <= i < a.len() ==> ascii_folded(#[trigger] a[i]) == ascii_folded(b[i])
}

/// Whether `a` and `b` name the same thing.
pub open spec fn same_text(a: Seq<char>, b: Seq<char>, case_insensitive: bool) -> bool {
    if case_insensitive {
        same_ignoring_ascii_case(a, b)
    } else {
        a == b
    }
}

/// The texts of a list of strings.
pub open spec fn texts(v: Seq<String>) -> Seq<Seq<char>> {
    v.map_values(|s: String| s@)
}

/// The texts of a list of borrowed strings.
pub open spec fn ref_texts(v: Seq<&String>) -> Seq<Seq<char>> {
    v.map_values(|s: &String| s@)
}

/// The text of an optional string.
pub open spec fn opt_text(s: Option<String>) -> Option<Seq<char>> {
    match s {
        Some(s) => Some(s@),
        None => None,
    }
}

/// The locales and texts of a list of localizations.
pub open spec fn localized(v: Seq<(String, String)>) -> Seq<(Seq<char>, Seq<char>)> {
    v.map_values(|p: (String, String)| (p.0@, p.1@))
}

fn fold_ascii(c: char) -> (r: u32)
    ensures
        r == ascii_folded(c),
{
    if 'A' <= c && c <= 'Z' {
        c as u32 + 32
    } else {
        c as u32
    }
}

/// Compares two strings, ignoring the case of ASCII letters.
pub fn eq_ignore_ascii_case(a: &str, b: &str) -> (r: bool)
    ensures
        r == same_ignoring_ascii_case(a@, b@),
{
    let n = a.unicode_len();
    if n != b.unicode_len() {
        return false;
    }
    let mut ca = a.chars();
    let mut cb = b.chars();
    let mut i: usize = 0;
    while i < n
        invariant
            n == a@.len(),
            n == b@.len(),
            i <= n,
            ca.obeys_prophetic_iter_laws(),
            cb.obeys_prophetic_iter_laws(),
            ca.remaining() == a@.skip(i as int),
            cb.remaining() == b@.skip(i as int),
            forall|j: int| 0 <= j < i ==> ascii_folded(#[trigger] a@[j]) == ascii_folded(b@[j]),
        decreases n - i,
    {
        match (ca.next(), cb.next()) {
            (Some(x), Some(y)) => {
                if fold_ascii(x) != fold_ascii(y) {
                    assert(ascii_folded(a@[i as int]) != ascii_folded(b@[i as int]));
                    return false;
                }
            },
            _ => {
                return false;
            },
        }
        proof {
            assert(a@.skip(i as int).drop_first() =~= a@.skip(i + 1));
            assert(b@.skip(i as int).drop_first() =~= b@.skip(i + 1));
        }
        i = i + 1;
    }
    true
}

/// Compares two strings, ignoring the case of ASCII letters if `case_insensitive` is set.
pub fn text_equal(a: &String, b: &String, case_insensitive: bool) -> (r: bool)
    ensures
        r == same_text(a@, b@, case_insensitive),
{
    if case_insensitive {
        eq_ignore_ascii_case(a.as_str(), b.as_str())
    } else {
        *a == *b
    }
}

/// `same_text` does not depend on the order of its arguments.
pub proof fn lemma_same_text_symmetric(a: Seq<char>, b: Seq<char>, case_insensitive: bool)
    ensures
        same_text(a, b, case_insensitive) == same_text(b, a, case_insensitive),
{
    if case_insensitive {
        if same_ignoring_ascii_case(a, b) {
            assert forall|i: int| 0 <= i < b.len() implies ascii_folded(#[trigger] b[i])
                == ascii_folded(a[i]) by {
                assert(ascii_folded(a[i]) == ascii_folded(b[i]));
            }
        }
        if same_ignoring_ascii_case(b, a) {
            assert forall|i: int| 0 <= i < a.len() implies ascii_folded(#[trigger] a[i])
                == ascii_folded(b[i]) by {
                assert(ascii_folded(b[i]) == ascii_folded(a[i]));
            }
        }
    }
}

} // verus!
