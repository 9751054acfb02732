//! ASCII case folding.
//!
//! Recognizers match text case-insensitively. ASCII folding is sufficient
//! for every built-in table, and locale-specific case folding is an
//! explicit non-goal, so the fold maps `'A'..='Z'` to `'a'..='z'` and
//! leaves every other character alone.

use vstd::prelude::*;

verus! {

/// ASCII lower-casing of one character.
pub open spec fn lower_char(c: char) -> char {
    if 'A' <= c && c <= 'Z' {
        ((c as int) + 32) as char
    } else {
        c
    }
}

/// ASCII lower-casing of a whole text.
pub open spec fn lower_seq(s: Seq<char>) -> Seq<char> {
    s.map_values(|c: char| lower_char(c))
}

/// ASCII lower-casing of one character.
fn lower_char_exec(c: char) -> (r: char)
    ensures
        r == lower_char(c),
{
    if 'A' <= c && c <= 'Z' {
        ((c as u8) + 32) as char
    } else {
        c
    }
}

/// Whether `text`, ASCII-lower-cased, reads exactly as `key`.
///
/// `key` is compared as it stands, so a key that holds an upper-case
/// character is matched by no text at all.
pub fn lower_eq(text: &str, key: &str) -> (r: bool)
    ensures
        r == (lower_seq(text@) == key@),
{
    let n = text.unicode_len();
    let m = key.unicode_len();
    if n != m {
        return false;
    }
    let mut i: usize = 0;
    while i < n
        invariant
            0 <= i <= n,
            n == text@.len(),
            n == key@.len(),
            forall|j: int| 0 <= j < i ==> lower_char(text@[j]) == key@[j],
        decreases n - i,
    {
        let c = lower_char_exec(text.get_char(i));
        let k = key.get_char(i);
        if c != k {
            assert(lower_seq(text@)[i as int] != key@[i as int]);
            return false;
        }
        i += 1;
    }
    assert(lower_seq(text@) =~= key@);
    true
}

} // verus!
