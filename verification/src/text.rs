//! Character and substring utilities shared by the scrapers and parsers.
//!
//! The remote pages are matched case-insensitively, so everything here is
//! built on an ASCII lowering of single characters.

use vstd::prelude::*;

verus! {

/// ASCII lowering of a character's scalar value; values outside `A`..`Z`
/// are kept as they are.
pub open spec fn lower_scalar(u: u32) -> u32 {
    if 65 <= u && u <= 90 {
        (u + 32) as u32
    } else {
        u
    }
}

/// Case-insensitive character equality, the building block of every match.
pub open spec fn char_eq_ci(a: char, b: char) -> bool {
    lower_scalar(a as u32) == lower_scalar(b as u32)
}

/// The pattern `pat` occurs in `s` at position `i`, up to ASCII case.
pub open spec fn ci_match_at(s: Seq<char>, pat: Seq<char>, i: int) -> bool {
    &&& 0 <= i
    &&& i + pat.len() <= s.len()
    &&& forall|j: int| 0 <= j < pat.len() ==> char_eq_ci(s[i + j], pat[j])
}

/// The least position at or after `from` where `pat` occurs in `s`, up to
/// ASCII case.
pub open spec fn find_ci_from(s: Seq<char>, pat: Seq<char>, from: int) -> Option<int>
    decreases s.len() - from,
{
    if from < 0 || from + pat.len() > s.len() {
        None
    } else if ci_match_at(s, pat, from) {
        Some(from)
    } else {
        find_ci_from(s, pat, from + 1)
    }
}

/// What `find_ci_from` finds is the least occurrence at or after `from`.
pub proof fn lemma_find_ci_from(s: Seq<char>, pat: Seq<char>, from: int)
    requires
        0 <= from,
    ensures
        match find_ci_from(s, pat, from) {
            Some(i) => from <= i && ci_match_at(s, pat, i) && forall|j: int|
                from <= j < i ==> !ci_match_at(s, pat, j),
            None => forall|j: int| from <= j ==> !ci_match_at(s, pat, j),
        },
    decreases s.len() - from,
{
    if from + pat.len() > s.len() {
    } else if ci_match_at(s, pat, from) {
    } else {
        lemma_find_ci_from(s, pat, from + 1);
    }
}

/// Checks whether `pat` occurs at position `i` of `s`, up to ASCII case.
pub fn match_at(s: &str, pat: &str, i: usize) -> (r: bool)
    ensures
        r == ci_match_at(s@, pat@, i as int),
{
    let n = s.unicode_len();
    let m = pat.unicode_len();
    if m > n || i > n - m {
        return false;
    }
    let mut j: usize = 0;
    while j < m
        invariant
            m <= n,
            i <= n - m,
            j <= m,
            n == s@.len(),
            m == pat@.len(),
            forall|k: int| 0 <= k < j ==> char_eq_ci(s@[i + k], pat@[k]),
        decreases m - j,
    {
        let a = s.get_char(i + j);
        let b = pat.get_char(j);
        if !chars_eq_ci(a, b) {
            return false;
        }
        j = j + 1;
    }
    true
}

/// Finds the least occurrence of `pat` in `s` at or after `from`, up to
/// ASCII case.
pub fn find_ci(s: &str, pat: &str, from: usize) -> (r: Option<usize>)
    ensures
        match r {
            Some(i) => find_ci_from(s@, pat@, from as int) == Some(i as int),
            None => find_ci_from(s@, pat@, from as int) is None,
        },
{
    let n = s.unicode_len();
    let m = pat.unicode_len();
    let mut i: usize = from;
    while m <= n && i <= n - m
        invariant
            n == s@.len(),
            m == pat@.len(),
            from <= i,
            find_ci_from(s@, pat@, from as int) == find_ci_from(s@, pat@, i as int),
        decreases n - i,
    {
        if match_at(s, pat, i) {
            return Some(i);
        }
        i = i + 1;
    }
    None
}

/// Compares two characters up to ASCII case.
pub fn chars_eq_ci(a: char, b: char) -> (r: bool)
    ensures
        r == char_eq_ci(a, b),
{
    let ua = a as u32;
    let ub = b as u32;
    let la: u32 = if 65 <= ua && ua <= 90 {
        ua + 32
    } else {
        ua
    };
    let lb: u32 = if 65 <= ub && ub <= 90 {
        ub + 32
    } else {
        ub
    };
    la == lb
}

/// Exact (case-sensitive) string equality.
pub fn str_eq(a: &str, b: &str) -> (r: bool)
    ensures
        r == (a@ == b@),
{
    let n = a.unicode_len();
    if n != b.unicode_len() {
        return false;
    }
    let mut i: usize = 0;
    while i < n
        invariant
            n == a@.len(),
            n == b@.len(),
            i <= n,
            forall|k: int| 0 <= k < i ==> a@[k] == b@[k],
        decreases n - i,
    {
        if a.get_char(i) != b.get_char(i) {
            return false;
        }
        i = i + 1;
    }
    proof {
        assert(a@ =~= b@);
    }
    true
}

/// Whole-string equality up to ASCII case.
pub open spec fn seq_eq_ci(a: Seq<char>, b: Seq<char>) -> bool {
    &&& a.len() == b.len()
    &&& forall|i: int| 0 <= i < a.len() ==> char_eq_ci(a[i], b[i])
}

/// Compares two strings up to ASCII case.
pub fn str_eq_ci(a: &str, b: &str) -> (r: bool)
    ensures
        r == seq_eq_ci(a@, b@),
{
    let n = a.unicode_len();
    if n != b.unicode_len() {
        return false;
    }
    let mut i: usize = 0;
    while i < n
        invariant
            n == a@.len(),
            n == b@.len(),
            i <= n,
            forall|k: int| 0 <= k < i ==> char_eq_ci(a@[k], b@[k]),
        decreases n - i,
    {
        if !chars_eq_ci(a.get_char(i), b.get_char(i)) {
            return false;
        }
        i = i + 1;
    }
    true
}

/// ASCII whitespace, the characters stripped from both ends of
/// user-supplied words before they are interpreted.
pub open spec fn is_ws(c: char) -> bool {
    c as u32 == 32 || (9 <= c as u32 && c as u32 <= 13)
}

/// `s` with its leading whitespace removed.
pub open spec fn trim_front(s: Seq<char>) -> Seq<char>
    decreases s.len(),
{
    if s.len() > 0 && is_ws(s[0]) {
        trim_front(s.drop_first())
    } else {
        s
    }
}

/// `s` with its trailing whitespace removed.
pub open spec fn trim_back(s: Seq<char>) -> Seq<char>
    decreases s.len(),
{
    if s.len() > 0 && is_ws(s.last()) {
        trim_back(s.drop_last())
    } else {
        s
    }
}

/// `s` with whitespace removed from both ends.
pub open spec fn trimmed(s: Seq<char>) -> Seq<char> {
    trim_back(trim_front(s))
}

proof fn lemma_trim_front_range(s: Seq<char>, lo: int)
    requires
        0 <= lo <= s.len(),
        forall|i: int| 0 <= i < lo ==> is_ws(s[i]),
        lo < s.len() ==> !is_ws(s[lo]),
    ensures
        trim_front(s) =~= s.subrange(lo, s.len() as int),
    decreases lo,
{
    if lo == 0 {
        if s.len() > 0 && is_ws(s[0]) {
            assert(false);
        }
    } else {
        let t = s.drop_first();
        assert(forall|i: int| 0 <= i < lo - 1 ==> is_ws(t[i]));
        lemma_trim_front_range(t, lo - 1);
    }
}

proof fn lemma_trim_back_range(s: Seq<char>, hi: int)
    requires
        0 <= hi <= s.len(),
        forall|i: int| hi <= i < s.len() ==> is_ws(s[i]),
        hi > 0 ==> !is_ws(s[hi - 1]),
    ensures
        trim_back(s) =~= s.subrange(0, hi),
    decreases s.len(),
{
    if hi == s.len() {
        if s.len() > 0 && is_ws(s.last()) {
            assert(false);
        }
    } else {
        let t = s.drop_last();
        lemma_trim_back_range(t, hi);
    }
}

/// The bounds of the whitespace-trimmed region of `s`: the trimmed text
/// is exactly `s@.subrange(lo, hi)`.
pub fn trim_bounds(s: &str) -> (r: (usize, usize))
    ensures
        r.0 <= r.1 <= s@.len(),
        trimmed(s@) =~= s@.subrange(r.0 as int, r.1 as int),
{
    let n = s.unicode_len();
    let mut lo: usize = 0;
    while lo < n && is_ws_char(s.get_char(lo))
        invariant
            n == s@.len(),
            lo <= n,
            forall|i: int| 0 <= i < lo ==> is_ws(s@[i]),
        decreases n - lo,
    {
        lo = lo + 1;
    }
    let mut hi: usize = n;
    while hi > lo && is_ws_char(s.get_char(hi - 1))
        invariant
            n == s@.len(),
            lo <= hi <= n,
            forall|i: int| hi <= i < n ==> is_ws(s@[i]),
            lo < n ==> !is_ws(s@[lo as int]),
        decreases hi,
    {
        hi = hi - 1;
    }
    proof {
        lemma_trim_front_range(s@, lo as int);
        let f = s@.subrange(lo as int, s@.len() as int);
        assert(forall|i: int| hi - lo <= i < f.len() ==> is_ws(f[i]));
        lemma_trim_back_range(f, hi - lo);
        assert(f.subrange(0, hi - lo) =~= s@.subrange(lo as int, hi as int));
    }
    (lo, hi)
}

/// Checks one character for ASCII whitespace.
pub fn is_ws_char(c: char) -> (r: bool)
    ensures
        r == is_ws(c),
{
    let u = c as u32;
    u == 32 || (9 <= u && u <= 13)
}

/// The trimmed region of `s` equals `kw` up to ASCII case.
pub open spec fn keyword_match(s: Seq<char>, kw: Seq<char>) -> bool {
    &&& trimmed(s).len() == kw.len()
    &&& forall|j: int| 0 <= j < kw.len() ==> char_eq_ci(trimmed(s)[j], kw[j])
}

/// Checks whether `s`, ignoring surrounding whitespace and ASCII case,
/// reads as the keyword `kw`.
pub fn matches_keyword(s: &str, kw: &str) -> (r: bool)
    ensures
        r == keyword_match(s@, kw@),
{
    let (lo, hi) = trim_bounds(s);
    let m = kw.unicode_len();
    if hi - lo != m {
        return false;
    }
    let mut j: usize = 0;
    while j < m
        invariant
            m == kw@.len(),
            lo <= hi <= s@.len(),
            hi - lo == m,
            j <= m,
            trimmed(s@) =~= s@.subrange(lo as int, hi as int),
            forall|k: int| 0 <= k < j ==> char_eq_ci(trimmed(s@)[k], kw@[k]),
        decreases m - j,
    {
        let a = s.get_char(lo + j);
        let b = kw.get_char(j);
        proof {
            assert(trimmed(s@)[j as int] == s@[lo + j]);
        }
        if !chars_eq_ci(a, b) {
            return false;
        }
        j = j + 1;
    }
    true
}

} // verus!
