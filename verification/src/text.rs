//! Verified text utilities: substring search, whitespace handling, and
//! character-level string comparison.
//!
//! These back the config-store rewriting and the header handling. Whether a
//! character counts as whitespace is delegated to the standard library.

use vstd::prelude::*;

verus! {

/// Whether character `c` has the Unicode `White_Space` property.
pub uninterp spec fn char_is_ws(c: char) -> bool;

/// Relies on char::is_whitespace of std: the answer depends on the character
/// alone; space, tab, line feed and carriage return all have the property.
#[verifier::external_body]
pub(crate) fn is_ws_char(c: char) -> (r: bool)
    ensures
        r == char_is_ws(c),
        c == ' ' ==> r,
        c == '\t' ==> r,
        c == '\n' ==> r,
        c == '\r' ==> r,
{
    c.is_whitespace()
}

/// The pattern `pat` occurs in `s` starting at index `i`.
pub open spec fn contains_at(s: Seq<char>, i: int, pat: Seq<char>) -> bool {
    &&& 0 <= i
    &&& i + pat.len() <= s.len()
    &&& forall|k: int| 0 <= k < pat.len() ==> s[i + k] == pat[k]
}

/// The pattern `pat` occurs somewhere in `s`.
pub open spec fn contains_sub(s: Seq<char>, pat: Seq<char>) -> bool {
    exists|i: int| contains_at(s, i, pat)
}

/// String equality, character by character.
pub fn str_eq(a: &str, b: &str) -> (r: bool)
    ensures
        r == (a@ == b@),
{
    let n = a.unicode_len();
    if n != b.unicode_len() {
        assert(a@ != b@) by {
            assert(a@.len() != b@.len());
        }
        return false;
    }
    let mut i: usize = 0;
    while i < n
        invariant
            n == a@.len(),
            n == b@.len(),
            0 <= i <= n,
            forall|k: int| 0 <= k < i ==> a@[k] == b@[k],
        decreases n - i,
    {
        if a.get_char(i) != b.get_char(i) {
            return false;
        }
        i = i + 1;
    }
    proof {
        assert(a@ =~= b@);
    }
    true
}

/// Tests whether `pat` occurs in `s` at exactly position `i`.
fn matches_at(s: &str, pat: &str, i: usize) -> (r: bool)
    requires
        i + pat@.len() <= s@.len(),
    ensures
        r == contains_at(s@, i as int, pat@),
{
    let n = s.unicode_len();
    let m = pat.unicode_len();
    let mut k: usize = 0;
    while k < m
        invariant
            n == s@.len(),
            m == pat@.len(),
            i + m <= n,
            0 <= k <= m,
            forall|t: int| 0 <= t < k ==> s@[i + t] == pat@[t],
        decreases m - k,
    {
        if s.get_char(i + k) != pat.get_char(k) {
            assert(!contains_at(s@, i as int, pat@));
            return false;
        }
        k = k + 1;
    }
    true
}

/// Finds the first occurrence of `pat` in `s` at or after `from`.
pub fn find_sub_from(s: &str, pat: &str, from: usize) -> (r: Option<usize>)
    requires
        from <= s@.len(),
    ensures
        match r {
            Some(i) => {
                &&& from <= i
                &&& contains_at(s@, i as int, pat@)
                &&& forall|j: int| from <= j < i ==> !contains_at(s@, j, pat@)
            },
            None => forall|j: int| from <= j ==> !contains_at(s@, j, pat@),
        },
{
    let n = s.unicode_len();
    let m = pat.unicode_len();
    if m > n - from {
        assert forall|j: int| from <= j implies !contains_at(s@, j, pat@) by {
            assert(j + pat@.len() > s@.len());
        }
        return None;
    }
    let mut i: usize = from;
    while i <= n - m
        invariant
            n == s@.len(),
            m == pat@.len(),
            m <= n,
            from <= i,
            i <= n - m + 1,
            forall|j: int| from <= j < i ==> !contains_at(s@, j, pat@),
        decreases n - m + 1 - i,
    {
        if matches_at(s, pat, i) {
            return Some(i);
        }
        i = i + 1;
    }
    assert forall|j: int| from <= j implies !contains_at(s@, j, pat@) by {
        if i <= j {
            assert(j + pat@.len() > s@.len());
        }
    }
    None
}

/// Whether `pat` occurs anywhere in `s`.
pub fn str_contains(s: &str, pat: &str) -> (r: bool)
    ensures
        r == contains_sub(s@, pat@),
{
    let r = find_sub_from(s, pat, 0);
    match r {
        Some(i) => {
            assert(contains_sub(s@, pat@));
            true
        },
        None => {
            proof {
                if contains_sub(s@, pat@) {
                    let i = choose|i: int| contains_at(s@, i, pat@);
                    assert(!contains_at(s@, i, pat@));
                }
            }
            false
        },
    }
}

/// A copy of a vector of strings, element by element.
pub fn clone_strings(v: &Vec<String>) -> (r: Vec<String>)
    ensures
        r@ =~= v@,
{
    let n = v.len();
    let mut out: Vec<String> = Vec::new();
    let mut i: usize = 0;
    while i < n
        invariant
            n == v@.len(),
            0 <= i <= n,
            out@.len() == i,
            forall|k: int| 0 <= k < i ==> out@[k] == v@[k],
        decreases n - i,
    {
        out.push(v[i].clone());
        i = i + 1;
    }
    out
}

/// Whether `s` begins with `pat`.
pub fn has_prefix(s: &str, pat: &str) -> (r: bool)
    ensures
        r == contains_at(s@, 0, pat@),
{
    let n = s.unicode_len();
    let m = pat.unicode_len();
    if m > n {
        assert(!contains_at(s@, 0, pat@));
        false
    } else {
        matches_at(s, pat, 0)
    }
}

/// Whether characters `a` and `b` are equal up to ASCII case.
pub open spec fn chars_eq_ic(a: char, b: char) -> bool {
    ||| a == b
    ||| (65 <= a as u32 <= 90 && a as u32 + 32 == b as u32)
    ||| (65 <= b as u32 <= 90 && b as u32 + 32 == a as u32)
}

/// Whether `a` and `b` are equal up to ASCII case, character by character.
pub open spec fn str_eq_ic(a: Seq<char>, b: Seq<char>) -> bool {
    a.len() == b.len() && forall|i: int| 0 <= i < a.len() ==> chars_eq_ic(a[i], b[i])
}

/// String comparison that ignores ASCII case.
pub fn eq_ignore_ascii_case(a: &str, b: &str) -> (r: bool)
    ensures
        r == str_eq_ic(a@, b@),
{
    let n = a.unicode_len();
    if n != b.unicode_len() {
        return false;
    }
    let mut i: usize = 0;
    while i < n
        invariant
            n == a@.len(),
            n == b@.len(),
            0 <= i <= n,
            forall|k: int| 0 <= k < i ==> chars_eq_ic(a@[k], b@[k]),
        decreases n - i,
    {
        let x = a.get_char(i) as u32;
        let y = b.get_char(i) as u32;
        let same = x == y || (65 <= x && x <= 90 && x + 32 == y) || (65 <= y && y <= 90 && y + 32
            == x);
        if !same {
            assert(!chars_eq_ic(a@[i as int], b@[i as int]));
            return false;
        }
        i = i + 1;
    }
    true
}

/// Number of leading whitespace characters of `l`.
pub open spec fn ws_prefix_len(l: Seq<char>) -> int
    decreases l.len(),
{
    if l.len() == 0 || !char_is_ws(l[0]) {
        0
    } else {
        1 + ws_prefix_len(l.drop_first())
    }
}

/// The leading-whitespace count is characterised by: every character before
/// it is whitespace, and the character at it (if any) is not.
pub proof fn lemma_ws_prefix(l: Seq<char>)
    ensures
        0 <= ws_prefix_len(l) <= l.len(),
        forall|k: int| 0 <= k < ws_prefix_len(l) ==> char_is_ws(l[k]),
        ws_prefix_len(l) < l.len() ==> !char_is_ws(l[ws_prefix_len(l)]),
    decreases l.len(),
{
    if l.len() == 0 || !char_is_ws(l[0]) {
    } else {
        lemma_ws_prefix(l.drop_first());
        assert forall|k: int| 0 <= k < ws_prefix_len(l) implies char_is_ws(l[k]) by {
            if k > 0 {
                assert(l.drop_first()[k - 1] == l[k]);
            }
        }
        if ws_prefix_len(l) < l.len() {
            assert(l.drop_first()[ws_prefix_len(l) - 1] == l[ws_prefix_len(l)]);
        }
    }
}

/// Conversely, a position with only whitespace before it and a non-whitespace
/// character (or the end) at it is the leading-whitespace count.
pub proof fn lemma_ws_prefix_exact(l: Seq<char>, i: int)
    requires
        0 <= i <= l.len(),
        forall|k: int| 0 <= k < i ==> char_is_ws(l[k]),
        i < l.len() ==> !char_is_ws(l[i]),
    ensures
        ws_prefix_len(l) == i,
    decreases l.len(),
{
    if l.len() == 0 {
    } else if i == 0 {
        lemma_ws_prefix(l);
    } else {
        assert(char_is_ws(l[0]));
        assert(forall|k: int| 0 <= k < i - 1 ==> l.drop_first()[k] == l[k + 1]);
        lemma_ws_prefix_exact(l.drop_first(), i - 1);
    }
}

/// Finds the number of leading whitespace characters of `s`.
pub fn ws_prefix(s: &str) -> (r: usize)
    ensures
        r == ws_prefix_len(s@),
{
    let n = s.unicode_len();
    let mut i: usize = 0;
    while i < n && is_ws_char(s.get_char(i))
        invariant
            n == s@.len(),
            0 <= i <= n,
            forall|k: int| 0 <= k < i ==> char_is_ws(s@[k]),
        decreases n - i,
    {
        i = i + 1;
    }
    proof {
        lemma_ws_prefix_exact(s@, i as int);
    }
    i
}

/// A string is blank when it consists of whitespace alone.
pub open spec fn spec_blank(s: Seq<char>) -> bool {
    ws_prefix_len(s) == s.len()
}

/// Whether `s` is empty or all whitespace (what trimming would empty).
pub fn is_blank(s: &str) -> (r: bool)
    ensures
        r == spec_blank(s@),
{
    let p = ws_prefix(s);
    p == s.unicode_len()
}

/// Number of trailing whitespace characters of `l`.
pub open spec fn ws_suffix_len(l: Seq<char>) -> int
    decreases l.len(),
{
    if l.len() == 0 || !char_is_ws(l.last()) {
        0
    } else {
        1 + ws_suffix_len(l.drop_last())
    }
}

/// The trailing-whitespace count is characterised by: every character from it
/// on is whitespace, and the character just before it (if any) is not.
pub proof fn lemma_ws_suffix(l: Seq<char>)
    ensures
        0 <= ws_suffix_len(l) <= l.len(),
        forall|k: int| l.len() - ws_suffix_len(l) <= k < l.len() ==> char_is_ws(l[k]),
        ws_suffix_len(l) < l.len() ==> !char_is_ws(l[l.len() - ws_suffix_len(l) - 1]),
    decreases l.len(),
{
    if l.len() == 0 || !char_is_ws(l.last()) {
    } else {
        lemma_ws_suffix(l.drop_last());
        assert forall|k: int| l.len() - ws_suffix_len(l) <= k < l.len() implies char_is_ws(
            l[k],
        ) by {
            if k < l.len() - 1 {
                assert(l.drop_last()[k] == l[k]);
            }
        }
        if ws_suffix_len(l) < l.len() {
            assert(l.drop_last()[l.len() - ws_suffix_len(l) - 1] == l[l.len() - ws_suffix_len(l)
                - 1]);
        }
    }
}

/// Conversely, a position bounding only-whitespace at the end determines the
/// trailing-whitespace count.
pub proof fn lemma_ws_suffix_exact(l: Seq<char>, j: int)
    requires
        0 <= j <= l.len(),
        forall|k: int| j <= k < l.len() ==> char_is_ws(l[k]),
        j > 0 ==> !char_is_ws(l[j - 1]),
    ensures
        ws_suffix_len(l) == l.len() - j,
    decreases l.len(),
{
    if l.len() == 0 {
    } else if j == l.len() as int {
        lemma_ws_suffix(l);
    } else {
        assert(char_is_ws(l.last()));
        assert(forall|k: int| j <= k < l.len() - 1 ==> l.drop_last()[k] == l[k]);
        lemma_ws_suffix_exact(l.drop_last(), j);
    }
}

/// What trimming leading and trailing whitespace leaves of `l`.
pub open spec fn spec_trim(l: Seq<char>) -> Seq<char> {
    if spec_blank(l) {
        Seq::empty()
    } else {
        l.subrange(ws_prefix_len(l), l.len() - ws_suffix_len(l))
    }
}

/// Trims leading and trailing whitespace.
pub fn trim_str(s: &str) -> (r: String)
    ensures
        r@ == spec_trim(s@),
{
    let n = s.unicode_len();
    let p = ws_prefix(s);
    if p == n {
        let r = String::new();
        assert(r@ =~= spec_trim(s@));
        return r;
    }
    proof {
        lemma_ws_prefix(s@);
    }
    let mut j: usize = n;
    while j > p && is_ws_char(s.get_char(j - 1))
        invariant
            n == s@.len(),
            0 <= p < n,
            p <= j <= n,
            !char_is_ws(s@[p as int]),
            forall|k: int| j <= k < n ==> char_is_ws(s@[k]),
        decreases j,
    {
        j = j - 1;
    }
    proof {
        if j == p {
            assert(!char_is_ws(s@[p as int]));
            assert(false);
        }
        lemma_ws_suffix_exact(s@, j as int);
    }
    let piece = s.substring_char(p, j);
    let r = piece.to_owned();
    assert(r@ =~= spec_trim(s@));
    r
}

} // verus!
