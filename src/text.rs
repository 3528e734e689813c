//! Character-level helpers used by the credentials file grammar.

use vstd::prelude::*;

verus! {

/// `c` equals the lowercase letter `p`, or is its ASCII uppercase form.
pub open spec fn same_ignoring_case(c: char, p: char) -> bool {
    c == p || ('A' <= c && c <= 'Z' && (c as u32) + 32 == (p as u32))
}

/// `pat` occurs at position `i` of `s`, ignoring ASCII case in `s`.
pub open spec fn matches_at(s: Seq<char>, pat: Seq<char>, i: int) -> bool {
    &&& 0 <= i
    &&& i + pat.len() <= s.len()
    &&& forall|j: int| 0 <= j < pat.len() ==> same_ignoring_case(s[i + j], #[trigger] pat[j])
}

/// `pat` occurs in `s` at some position `i` or later, ignoring ASCII case in `s`.
pub open spec fn occurs_from(s: Seq<char>, pat: Seq<char>, i: int) -> bool
    decreases s.len() - i,
{
    if i < 0 || i + pat.len() > s.len() {
        false
    } else {
        matches_at(s, pat, i) || occurs_from(s, pat, i + 1)
    }
}

/// The lowercase `pat` is a substring of `s`, ignoring ASCII case in `s`.
pub open spec fn contains_lowered(s: Seq<char>, pat: Seq<char>) -> bool {
    occurs_from(s, pat, 0)
}

fn same_ignoring_case_exec(c: char, p: char) -> (r: bool)
    ensures
        r == same_ignoring_case(c, p),
{
    c == p || ('A' <= c && c <= 'Z' && (c as u32) + 32 == (p as u32))
}

/// Position of the first `c` in `s` at index `i` or later, or -1 if there is none.
pub open spec fn find_from(s: Seq<char>, c: char, i: int) -> int
    decreases s.len() - i,
{
    if i < 0 || i >= s.len() {
        -1
    } else if s[i] == c {
        i
    } else {
        find_from(s, c, i + 1)
    }
}

/// First index at or after `i` that does not hold a space (or `s.len()`).
pub open spec fn skip_spaces(s: Seq<char>, i: int) -> int
    decreases s.len() - i,
{
    if 0 <= i < s.len() && s[i] == ' ' {
        skip_spaces(s, i + 1)
    } else {
        i
    }
}

/// Going back from `j`, the first end position above `lo` not preceded by a space.
pub open spec fn back_spaces(s: Seq<char>, lo: int, j: int) -> int
    decreases j - lo,
{
    if lo < j <= s.len() && s[j - 1] == ' ' {
        back_spaces(s, lo, j - 1)
    } else {
        j
    }
}

/// `s` without its leading and trailing spaces.
pub open spec fn trimmed(s: Seq<char>) -> Seq<char> {
    let lo = skip_spaces(s, 0);
    s.subrange(lo, back_spaces(s, lo, s.len() as int))
}

/// The text after the first `=` of a line, trimmed of spaces; `None` without a `=`.
pub open spec fn value_after_equals(line: Seq<char>) -> Option<Seq<char>> {
    let k = find_from(line, '=', 0);
    if k < 0 {
        None
    } else {
        Some(trimmed(line.subrange(k + 1, line.len() as int)))
    }
}

proof fn lemma_find_from_bounds(s: Seq<char>, c: char, i: int)
    requires
        0 <= i,
    ensures
        find_from(s, c, i) == -1 || (i <= find_from(s, c, i) < s.len() && s[find_from(s, c, i)] == c),
    decreases s.len() - i,
{
    if i < s.len() && s[i] != c {
        lemma_find_from_bounds(s, c, i + 1);
    }
}

fn matches_at_exec(s: &str, n: usize, pat: &str, m: usize, i: usize) -> (r: bool)
    requires
        n == s@.len(),
        m == pat@.len(),
        i + m <= n,
    ensures
        r == matches_at(s@, pat@, i as int),
{
    let mut j: usize = 0;
    while j < m
        invariant
            n == s@.len(),
            m == pat@.len(),
            i + m <= n,
            j <= m,
            forall|k: int| 0 <= k < j ==> same_ignoring_case(s@[i + k], #[trigger] pat@[k]),
        decreases m - j,
    {
        if !same_ignoring_case_exec(s.get_char(i + j), pat.get_char(j)) {
            assert(!same_ignoring_case(s@[i + j as int], pat@[j as int]));
            return false;
        }
        j = j + 1;
    }
    true
}

/// Whether `pat` occurs in `s` once `s` is put in ASCII lowercase.
pub fn contains_lowered_exec(s: &str, pat: &str) -> (r: bool)
    ensures
        r == contains_lowered(s@, pat@),
{
    let n = s.unicode_len();
    let m = pat.unicode_len();
    let mut i: usize = 0;
    while i <= n && m <= n - i
        invariant
            n == s@.len(),
            m == pat@.len(),
            i <= n,
            occurs_from(s@, pat@, 0) == occurs_from(s@, pat@, i as int),
        decreases n - i,
    {
        if matches_at_exec(s, n, pat, m, i) {
            return true;
        }
        i = i + 1;
    }
    false
}

/// Index of the first `c` in `s`, or `None`.
fn find_char(s: &str, c: char) -> (r: Option<usize>)
    ensures
        match r {
            Some(k) => find_from(s@, c, 0) == k as int,
            None => find_from(s@, c, 0) == -1,
        },
{
    let n = s.unicode_len();
    let mut i: usize = 0;
    while i < n
        invariant
            n == s@.len(),
            i <= n,
            find_from(s@, c, 0) == find_from(s@, c, i as int),
        decreases n - i,
    {
        if s.get_char(i) == c {
            return Some(i);
        }
        i = i + 1;
    }
    None
}

/// `s` with its leading and trailing spaces removed.
pub fn trim_spaces(s: &str) -> (r: String)
    ensures
        r@ == trimmed(s@),
{
    let n = s.unicode_len();
    let mut lo: usize = 0;
    while lo < n && s.get_char(lo) == ' '
        invariant
            n == s@.len(),
            lo <= n,
            skip_spaces(s@, 0) == skip_spaces(s@, lo as int),
        decreases n - lo,
    {
        lo = lo + 1;
    }
    let mut hi: usize = n;
    while hi > lo && s.get_char(hi - 1) == ' '
        invariant
            n == s@.len(),
            lo <= hi <= n,
            lo == skip_spaces(s@, 0),
            back_spaces(s@, lo as int, n as int) == back_spaces(s@, lo as int, hi as int),
        decreases hi - lo,
    {
        hi = hi - 1;
    }
    String::from_str(s.substring_char(lo, hi))
}

/// The text after the first `=` of `line`, trimmed of spaces, or `None` without a `=`.
pub fn value_after_equals_exec(line: &str) -> (r: Option<String>)
    ensures
        match r {
            Some(v) => value_after_equals(line@) == Some(v@),
            None => value_after_equals(line@) is None,
        },
{
    match find_char(line, '=') {
        None => None,
        Some(k) => {
            proof {
                lemma_find_from_bounds(line@, '=', 0);
            }
            let n = line.unicode_len();
            let rest = line.substring_char(k + 1, n);
            Some(trim_spaces(rest))
        },
    }
}

} // verus!
