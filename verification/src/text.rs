//! Texts as sequences of characters: comparing them, finding a token at a
//! position, and replacing every occurrence of one token.

use vstd::prelude::*;
use vstd::string::*;

verus! {

/// The characters of an optional text.
pub open spec fn text_of(value: Option<&str>) -> Option<Seq<char>> {
    match value {
        Some(s) => Some(s@),
        None => None,
    }
}

/// The characters of an optional owned text.
pub open spec fn owned_text(value: Option<String>) -> Option<Seq<char>> {
    match value {
        Some(s) => Some(s@),
        None => None,
    }
}

/// `token` stands at the very start of `text`.
pub open spec fn starts_with(text: Seq<char>, token: Seq<char>) -> bool {
    token.len() <= text.len() && text.subrange(0, token.len() as int) =~= token
}

/// `text` with every occurrence of `token` replaced by `value`, scanning from
/// the left and never looking again at what was already replaced. An empty
/// token occurs nowhere.
pub open spec fn replace_all(text: Seq<char>, token: Seq<char>, value: Seq<char>) -> Seq<char>
    decreases text.len(),
{
    if token.len() == 0 || text.len() == 0 {
        text
    } else if starts_with(text, token) {
        value + replace_all(text.skip(token.len() as int), token, value)
    } else {
        seq![text[0]] + replace_all(text.skip(1), token, value)
    }
}

/// `token` occurs somewhere in `text`.
pub open spec fn occurs_in(text: Seq<char>, token: Seq<char>) -> bool {
    exists|i: int| 0 <= i <= text.len() && #[trigger] starts_with(text.skip(i), token)
}

/// Compares two texts character by character.
pub fn text_eq(a: &str, b: &str) -> (same: bool)
    ensures
        same == (a@ == b@),
{
    let n = a.unicode_len();
    if b.unicode_len() != n {
        return false;
    }
    let mut i: usize = 0;
    while i < n
        invariant
            i <= n,
            n == a@.len(),
            n == b@.len(),
            forall|k: int| 0 <= k < i ==> a@[k] == b@[k],
        decreases n - i,
    {
        if a.get_char(i) != b.get_char(i) {
            return false;
        }
        i = i + 1;
    }
    assert(a@ =~= b@);
    true
}

/// Tells whether `token` stands in `text` at character position `at`.
pub fn matches_at(text: &str, at: usize, token: &str) -> (found: bool)
    requires
        at <= text@.len(),
    ensures
        found == starts_with(text@.skip(at as int), token@),
{
    let n = text.unicode_len();
    let m = token.unicode_len();
    if m > n - at {
        return false;
    }
    let ghost rest = text@.skip(at as int);
    let mut j: usize = 0;
    while j < m
        invariant
            j <= m,
            at + m <= n,
            n == text@.len(),
            m == token@.len(),
            rest == text@.skip(at as int),
            forall|k: int| 0 <= k < j ==> rest[k] == token@[k],
        decreases m - j,
    {
        if text.get_char(at + j) != token.get_char(j) {
            assert(rest.subrange(0, m as int)[j as int] != token@[j as int]);
            return false;
        }
        j = j + 1;
    }
    assert(rest.subrange(0, m as int) =~= token@);
    true
}

/// Replaces every occurrence of `token` in `text` by `value`, from left to
/// right; what was put in is not scanned again.
pub fn substitute(text: &str, token: &str, value: &str) -> (out: String)
    ensures
        out@ == replace_all(text@, token@, value@),
{
    let n = text.unicode_len();
    let m = token.unicode_len();
    if m == 0 {
        return String::from_str(text);
    }
    let mut out = String::new();
    let mut i: usize = 0;
    assert(text@.skip(0) =~= text@);
    while i < n
        invariant
            i <= n,
            n == text@.len(),
            m == token@.len(),
            m > 0,
            out@ + replace_all(text@.skip(i as int), token@, value@) == replace_all(
                text@,
                token@,
                value@,
            ),
        decreases n - i,
    {
        let ghost rest = text@.skip(i as int);
        let ghost before = out@;
        if matches_at(text, i, token) {
            out.append(value);
            proof {
                assert(rest.skip(m as int) =~= text@.skip(i + m));
                assert((before + value@) + replace_all(rest.skip(m as int), token@, value@)
                    =~= before + (value@ + replace_all(rest.skip(m as int), token@, value@)));
            }
            i = i + m;
        } else {
            let one = text.substring_char(i, i + 1);
            out.append(one);
            proof {
                assert(one@ =~= seq![rest[0]]);
                assert(rest.skip(1) =~= text@.skip(i + 1));
                assert((before + one@) + replace_all(rest.skip(1), token@, value@) =~= before + (
                seq![rest[0]] + replace_all(rest.skip(1), token@, value@)));
            }
            i = i + 1;
        }
    }
    assert(text@.skip(n as int).len() == 0);
    assert(out@ + text@.skip(n as int) =~= out@);
    out
}

} // verus!
