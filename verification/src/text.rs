//! Character-level string helpers shared by the selector and the signer.
//!
//! All string logic in this crate works on `Vec<char>` values whose views
//! are `Seq<char>`; these helpers move between `String` / `&str` and that
//! representation.

use vstd::prelude::*;
use vstd::string::StrSliceExecFns;

verus! {

/// Relies on `String::push` from std: appends the given character to the
/// end of the string.
#[verifier::external_body]
pub(crate) fn push_char(s: &mut String, c: char)
    ensures
        final(s)@ == old(s)@.push(c),
{
    s.push(c);
}

/// Collects the characters of `v` into a `String` with the same view.
pub fn chars_to_string(v: &Vec<char>) -> (r: String)
    ensures
        r@ == v@,
{
    let mut r = String::new();
    let mut i: usize = 0;
    while i < v.len()
        invariant
            i <= v.len(),
            r@ == v@.take(i as int),
        decreases v.len() - i,
    {
        push_char(&mut r, v[i]);
        proof {
            assert(v@.take(i + 1 as int) =~= v@.take(i as int).push(v@[i as int]));
        }
        i = i + 1;
    }
    proof {
        assert(v@.take(v.len() as int) =~= v@);
    }
    r
}

/// Collects the characters of `s` into a `Vec<char>` with the same view.
pub fn str_chars(s: &str) -> (r: Vec<char>)
    ensures
        r@ == s@,
{
    let n = s.unicode_len();
    let mut r: Vec<char> = Vec::new();
    let mut i: usize = 0;
    while i < n
        invariant
            i <= n,
            n == s@.len(),
            r@ == s@.take(i as int),
        decreases n - i,
    {
        let c = s.get_char(i);
        r.push(c);
        proof {
            assert(s@.take(i + 1 as int) =~= s@.take(i as int).push(s@[i as int]));
        }
        i = i + 1;
    }
    proof {
        assert(s@.take(n as int) =~= s@);
    }
    r
}

/// The first index at or after `i` where `s` holds `c`, or `s.len()` if
/// there is none.
pub open spec fn find_from(s: Seq<char>, i: int, c: char) -> int
    decreases s.len() - i,
{
    if i < 0 || i >= s.len() {
        s.len() as int
    } else if s[i] == c {
        i
    } else {
        find_from(s, i + 1, c)
    }
}

/// Bounds of `find_from`: the result never passes the end, and a hit
/// lies at or after the start and holds `c`.
pub proof fn lemma_find_from_bounds(s: Seq<char>, i: int, c: char)
    ensures
        find_from(s, i, c) <= s.len(),
        find_from(s, i, c) < s.len() ==> i <= find_from(s, i, c) && s[find_from(s, i, c)] == c,
    decreases s.len() - i,
{
    if i < 0 || i >= s.len() {
    } else if s[i] == c {
    } else {
        lemma_find_from_bounds(s, i + 1, c);
    }
}

/// `find_from` returns exactly the first occurrence: if `c` is absent
/// from `s[i..j)` and stands at `j`, the search from `i` ends at `j`.
pub proof fn lemma_find_from_at(s: Seq<char>, i: int, c: char, j: int)
    requires
        0 <= i <= j < s.len(),
        forall|k: int| i <= k < j ==> s[k] != c,
        s[j] == c,
    ensures
        find_from(s, i, c) == j,
    decreases j - i,
{
    if i < j {
        lemma_find_from_at(s, i + 1, c, j);
    }
}

/// The first index at or after `start` where `v` holds `c`, or `v.len()`.
pub(crate) fn find_char(v: &Vec<char>, start: usize, c: char) -> (j: usize)
    requires
        start <= v@.len(),
    ensures
        j == find_from(v@, start as int, c),
        start <= j <= v@.len(),
        j < v@.len() ==> v@[j as int] == c,
{
    let mut j = start;
    while j < v.len()
        invariant
            start <= j <= v@.len(),
            find_from(v@, start as int, c) == find_from(v@, j as int, c),
        decreases v@.len() - j,
    {
        if v[j] == c {
            return j;
        }
        j = j + 1;
    }
    j
}

/// Character-for-character string equality, the comparison used for
/// origin-table keys and for the HTTP method check.
pub fn str_eq(a: &str, b: &str) -> (r: bool)
    ensures
        r == (a@ == b@),
{
    let na = a.unicode_len();
    let nb = b.unicode_len();
    if na != nb {
        return false;
    }
    let mut i: usize = 0;
    while i < na
        invariant
            i <= na,
            na == a@.len(),
            na == b@.len(),
            forall|k: int| 0 <= k < i ==> a@[k] == b@[k],
        decreases na - i,
    {
        if a.get_char(i) != b.get_char(i) {
            return false;
        }
        i = i + 1;
    }
    proof {
        assert(a@ =~= b@);
    }
    true
}

} // verus!
