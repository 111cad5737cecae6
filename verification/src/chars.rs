//! Character classification: the vowel and consonant inventories consulted by
//! the phonological adjustment passes.

use vstd::prelude::*;
use vstd::string::StrSliceExecFns;

verus! {

/// Whether `c` is a vowel of the language (plain or accented).
pub open spec fn is_vowel(c: char) -> bool {
    ||| c == 'a'
    ||| c == 'e'
    ||| c == 'i'
    ||| c == 'u'
    ||| c == 'è'
    ||| c == 'é'
    ||| c == 'á'
    ||| c == 'ā'
    ||| c == 'ē'
    ||| c == 'ī'
    ||| c == 'ū'
}

/// Whether `c` is a consonant of the language.
pub open spec fn is_consonant(c: char) -> bool {
    ||| c == 'b'
    ||| c == 'd'
    ||| c == 'f'
    ||| c == 'g'
    ||| c == 'ĝ'
    ||| c == 'h'
    ||| c == 'k'
    ||| c == 'l'
    ||| c == 'm'
    ||| c == 'n'
    ||| c == 'r'
    ||| c == 'ř'
    ||| c == 's'
    ||| c == 'š'
    ||| c == 't'
    ||| c == 'z'
}

/// Whether the non-empty sequence `s` ends in the character `c`.
pub open spec fn ends_in(s: Seq<char>, c: char) -> bool {
    s.len() > 0 && s.last() == c
}

/// Whether the non-empty sequence `s` begins with the character `c`.
pub open spec fn begins_in(s: Seq<char>, c: char) -> bool {
    s.len() > 0 && s.first() == c
}

/// Whether the non-empty sequence `s` ends in a vowel.
pub open spec fn seq_ends_with_vowel(s: Seq<char>) -> bool {
    s.len() > 0 && is_vowel(s.last())
}

/// Whether the non-empty sequence `s` begins with a consonant.
pub open spec fn seq_starts_with_consonant(s: Seq<char>) -> bool {
    s.len() > 0 && is_consonant(s.first())
}

/// Executable vowel membership test.
pub fn vowel(c: char) -> (r: bool)
    ensures
        r == is_vowel(c),
{
    c == 'a' || c == 'e' || c == 'i' || c == 'u' || c == 'è' || c == 'é' || c == 'á' || c == 'ā'
        || c == 'ē' || c == 'ī' || c == 'ū'
}

/// Executable consonant membership test.
pub fn consonant(c: char) -> (r: bool)
    ensures
        r == is_consonant(c),
{
    c == 'b' || c == 'd' || c == 'f' || c == 'g' || c == 'ĝ' || c == 'h' || c == 'k' || c == 'l'
        || c == 'm' || c == 'n' || c == 'r' || c == 'ř' || c == 's' || c == 'š' || c == 't'
        || c == 'z'
}

/// The last character of `s`, or `None` when `s` is empty.
pub fn last_char(s: &str) -> (r: Option<char>)
    ensures
        match r {
            Some(c) => s@.len() > 0 && c == s@.last(),
            None => s@.len() == 0,
        },
{
    let n = s.unicode_len();
    if n == 0 {
        None
    } else {
        Some(s.get_char(n - 1))
    }
}

/// The first character of `s`, or `None` when `s` is empty.
pub fn first_char(s: &str) -> (r: Option<char>)
    ensures
        match r {
            Some(c) => s@.len() > 0 && c == s@.first(),
            None => s@.len() == 0,
        },
{
    let n = s.unicode_len();
    if n == 0 {
        None
    } else {
        Some(s.get_char(0))
    }
}

/// Whether `s` ends in the single character `c`.
pub fn str_ends_in(s: &str, c: char) -> (r: bool)
    ensures
        r == ends_in(s@, c),
{
    match last_char(s) {
        Some(d) => d == c,
        None => false,
    }
}

/// Whether `s` begins with the single character `c`.
pub fn str_begins_in(s: &str, c: char) -> (r: bool)
    ensures
        r == begins_in(s@, c),
{
    match first_char(s) {
        Some(d) => d == c,
        None => false,
    }
}

/// Whether the last character of `s` is a vowel; `false` for the empty string.
pub fn ends_with_vowel(s: &str) -> (r: bool)
    ensures
        r == seq_ends_with_vowel(s@),
{
    match last_char(s) {
        Some(c) => vowel(c),
        None => false,
    }
}

/// Whether the first character of `s` is a consonant; `false` for the empty
/// string.
pub fn starts_with_consonant(s: &str) -> (r: bool)
    ensures
        r == seq_starts_with_consonant(s@),
{
    match first_char(s) {
        Some(c) => consonant(c),
        None => false,
    }
}

/// Whether `a` and `b` hold the same characters.
pub fn str_eq(a: &str, b: &str) -> (r: bool)
    ensures
        r == (a@ == b@),
{
    let n = a.unicode_len();
    let m = b.unicode_len();
    if n != m {
        return false;
    }
    let mut i: usize = 0;
    while i < n
        invariant
            n == a@.len(),
            n == b@.len(),
            i <= n,
            forall|j: int| 0 <= j < i ==> a@[j] == b@[j],
        decreases n - i,
    {
        if a.get_char(i) != b.get_char(i) {
            return false;
        }
        i = i + 1;
    }
    proof {
        assert(a@ =~= b@);
    }
    true
}

} // verus!
