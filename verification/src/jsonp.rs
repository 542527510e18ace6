//! Stripping the JSONP envelope off a response body.
//!
//! Every response of the service arrives as `jQuery<digits>_<digits>(`
//! around the JSON payload, closed by `)`.  The digits vary per call, so
//! the envelope is recognised by shape alone.  A body without the
//! envelope is passed through unchanged: the JSON parser downstream is
//! the authoritative validator.

use vstd::prelude::*;

use crate::numbers::is_digit;
use crate::numbers::is_digit_char;
use crate::text::ci_match_at;
use crate::text::match_at;

verus! {

/// The first position at or after `from` holding no decimal digit, or
/// the length of `s`.
pub open spec fn digits_end(s: Seq<char>, from: int) -> int
    decreases s.len() - from,
{
    if from < 0 || from >= s.len() {
        s.len() as int
    } else if is_digit(s[from]) {
        digits_end(s, from + 1)
    } else {
        from
    }
}

proof fn lemma_digits_end_at(s: Seq<char>, from: int, i: int)
    requires
        0 <= from <= i <= s.len(),
        forall|j: int| from <= j < i ==> is_digit(s[j]),
        i < s.len() ==> !is_digit(s[i]),
    ensures
        digits_end(s, from) == i,
    decreases i - from,
{
    if from < i {
        lemma_digits_end_at(s, from + 1, i);
    }
}

/// The payload inside a JSONP envelope, when the body has the envelope's
/// exact shape: `jquery` (ignoring ASCII case), one or more digits, an
/// underscore, one or more digits, an opening parenthesis, the payload,
/// and a closing parenthesis at the very end.
pub open spec fn jsonp_inner(s: Seq<char>) -> Option<Seq<char>> {
    if !ci_match_at(s, "jquery"@, 0) {
        None
    } else {
        let d1 = digits_end(s, 6);
        if d1 == 6 || d1 >= s.len() || s[d1] != '_' {
            None
        } else {
            let d2 = digits_end(s, d1 + 1);
            if d2 == d1 + 1 || d2 >= s.len() || s[d2] != '(' {
                None
            } else if d2 < s.len() - 1 && s[s.len() - 1] == ')' {
                Some(s.subrange(d2 + 1, s.len() - 1))
            } else {
                None
            }
        }
    }
}

/// Strips the JSONP envelope off a response body, or returns the body
/// unchanged when the envelope's shape is absent.
pub fn parse_response(html: String) -> (r: String)
    ensures
        match jsonp_inner(html@) {
            Some(inner) => r@ == inner,
            None => r@ == html@,
        },
{
    let s = html.as_str();
    let n = s.unicode_len();
    proof {
        reveal_strlit("jquery");
    }
    if !match_at(s, "jquery", 0) {
        return html;
    }
    let mut d1: usize = 6;
    while d1 < n && is_digit_char(s.get_char(d1))
        invariant
            n == s@.len(),
            6 <= d1 <= n,
            forall|j: int| 6 <= j < d1 ==> is_digit(s@[j]),
        decreases n - d1,
    {
        d1 = d1 + 1;
    }
    proof {
        lemma_digits_end_at(s@, 6, d1 as int);
    }
    if d1 == 6 || d1 >= n || s.get_char(d1) != '_' {
        return html;
    }
    let mut d2: usize = d1 + 1;
    while d2 < n && is_digit_char(s.get_char(d2))
        invariant
            n == s@.len(),
            d1 + 1 <= d2 <= n,
            forall|j: int| d1 + 1 <= j < d2 ==> is_digit(s@[j]),
        decreases n - d2,
    {
        d2 = d2 + 1;
    }
    proof {
        lemma_digits_end_at(s@, d1 + 1, d2 as int);
    }
    if d2 == d1 + 1 || d2 >= n || s.get_char(d2) != '(' {
        return html;
    }
    if d2 < n - 1 && s.get_char(n - 1) == ')' {
        let inner = s.substring_char(d2 + 1, n - 1);
        String::from_str(inner)
    } else {
        html
    }
}

} // verus!
