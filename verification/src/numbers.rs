//! Verified decimal parsing and formatting.
//!
//! Every counter the remote service reports (step, session, signature)
//! travels as a decimal string, and the progression travels as a decimal
//! fraction.  This module decodes them into typed values at the protocol
//! boundary and renders request parameters back into decimal text.

use vstd::prelude::*;

verus! {

/// ASCII decimal digit.
pub open spec fn is_digit(c: char) -> bool {
    48 <= c as u32 && c as u32 <= 57
}

/// Numeric value of a digit character.
pub open spec fn digit_val(c: char) -> nat {
    (c as u32 - 48) as nat
}

/// Every character of `s` is a decimal digit.
pub open spec fn all_digits(s: Seq<char>) -> bool {
    forall|i: int| 0 <= i < s.len() ==> is_digit(s[i])
}

/// The number a digit string denotes, most significant digit first.
pub open spec fn digits_val(s: Seq<char>) -> nat
    decreases s.len(),
{
    if s.len() == 0 {
        0
    } else {
        digits_val(s.drop_last()) * 10 + digit_val(s.last())
    }
}

/// The digit character for a value below ten.
pub open spec fn digit_char(d: nat) -> char {
    if d == 0 {
        '0'
    } else if d == 1 {
        '1'
    } else if d == 2 {
        '2'
    } else if d == 3 {
        '3'
    } else if d == 4 {
        '4'
    } else if d == 5 {
        '5'
    } else if d == 6 {
        '6'
    } else if d == 7 {
        '7'
    } else if d == 8 {
        '8'
    } else {
        '9'
    }
}

/// The decimal rendering of a number, without leading zeros (except for
/// the number zero itself).
pub open spec fn dec_digits(n: nat) -> Seq<char>
    decreases n,
{
    if n < 10 {
        seq![digit_char(n)]
    } else {
        dec_digits(n / 10).push(digit_char(n % 10))
    }
}

/// A longer digit prefix never denotes a smaller number.
proof fn lemma_digits_val_prefix_le(s: Seq<char>, j: int, k: int)
    requires
        0 <= j <= k <= s.len(),
    ensures
        digits_val(s.subrange(0, j)) <= digits_val(s.subrange(0, k)),
    decreases k - j,
{
    if j < k {
        lemma_digits_val_prefix_le(s, j, k - 1);
        assert(s.subrange(0, k).drop_last() =~= s.subrange(0, k - 1));
    }
}

/// The strings on which `parse_u64` succeeds.
pub open spec fn int_ok(s: Seq<char>) -> bool {
    &&& s.len() > 0
    &&& all_digits(s)
    &&& digits_val(s) <= u64::MAX
}

/// The strings on which `parse_decimal` succeeds.
pub open spec fn dec_ok(s: Seq<char>) -> bool {
    &&& decimal_wf(s)
    &&& digits_val(decimal_digits(s)) <= u64::MAX
    &&& decimal_scale_of(s) <= u32::MAX
}

/// Checks one character for being a decimal digit.
pub fn is_digit_char(c: char) -> (r: bool)
    ensures
        r == is_digit(c),
{
    let u = c as u32;
    48 <= u && u <= 57
}

/// Parses an unsigned decimal number.  Succeeds exactly on nonempty
/// all-digit strings whose value fits in a `u64`.
pub fn parse_u64(s: &str) -> (r: Option<u64>)
    ensures
        match r {
            Some(v) => s@.len() > 0 && all_digits(s@) && v as nat == digits_val(s@),
            None => s@.len() == 0 || !all_digits(s@) || digits_val(s@) > u64::MAX,
        },
{
    let n = s.unicode_len();
    if n == 0 {
        return None;
    }
    let mut acc: u64 = 0;
    let mut i: usize = 0;
    while i < n
        invariant
            n == s@.len(),
            i <= n,
            all_digits(s@.subrange(0, i as int)),
            acc as nat == digits_val(s@.subrange(0, i as int)),
        decreases n - i,
    {
        let c = s.get_char(i);
        if !is_digit_char(c) {
            return None;
        }
        let d: u64 = (c as u32 - 48) as u64;
        proof {
            assert(s@.subrange(0, i + 1).drop_last() =~= s@.subrange(0, i as int));
            assert(s@.subrange(0, i + 1).last() == s@[i as int]);
        }
        if acc > (u64::MAX - d) / 10 {
            proof {
                lemma_digits_val_prefix_le(s@, i + 1, n as int);
                assert(s@.subrange(0, n as int) =~= s@);
            }
            return None;
        }
        acc = acc * 10 + d;
        i = i + 1;
    }
    proof {
        assert(s@.subrange(0, n as int) =~= s@);
    }
    Some(acc)
}

/// The one-character string for a digit value.
fn digit_str(d: u64) -> (r: &'static str)
    requires
        d < 10,
    ensures
        r@ =~= seq![digit_char(d as nat)],
{
    match d {
        0 => {
            proof {
                reveal_strlit("0");
            }
            "0"
        },
        1 => {
            proof {
                reveal_strlit("1");
            }
            "1"
        },
        2 => {
            proof {
                reveal_strlit("2");
            }
            "2"
        },
        3 => {
            proof {
                reveal_strlit("3");
            }
            "3"
        },
        4 => {
            proof {
                reveal_strlit("4");
            }
            "4"
        },
        5 => {
            proof {
                reveal_strlit("5");
            }
            "5"
        },
        6 => {
            proof {
                reveal_strlit("6");
            }
            "6"
        },
        7 => {
            proof {
                reveal_strlit("7");
            }
            "7"
        },
        8 => {
            proof {
                reveal_strlit("8");
            }
            "8"
        },
        _ => {
            proof {
                reveal_strlit("9");
            }
            "9"
        },
    }
}

/// Renders a number as decimal text.
pub fn format_u64(n: u64) -> (r: String)
    ensures
        r@ == dec_digits(n as nat),
    decreases n,
{
    if n < 10 {
        let r = String::from_str(digit_str(n));
        proof {
            assert(r@ =~= dec_digits(n as nat));
        }
        r
    } else {
        let mut r = format_u64(n / 10);
        r.append(digit_str(n % 10));
        proof {
            assert(r@ =~= dec_digits(n as nat));
        }
        r
    }
}

/// A non-negative decimal fraction: `mantissa / 10^scale`.
///
/// The progression the service reports is held this way, decoded from
/// its wire form without rounding.
#[derive(Clone, Copy, Debug, PartialEq, Eq, Structural)]
pub struct Decimal {
    /// All digits of the number, read as an integer.
    pub mantissa: u64,
    /// How many of the mantissa's trailing digits lie behind the point.
    pub scale: u32,
}

/// The first position of a dot in `s` at or after `from`, or -1.
pub open spec fn first_dot(s: Seq<char>, from: int) -> int
    decreases s.len() - from,
{
    if from < 0 || from >= s.len() {
        -1
    } else if s[from] == '.' {
        from
    } else {
        first_dot(s, from + 1)
    }
}

/// Well-formed decimal text: digits, or digits dot digits.
pub open spec fn decimal_wf(s: Seq<char>) -> bool {
    let k = first_dot(s, 0);
    if k < 0 {
        s.len() > 0 && all_digits(s)
    } else {
        &&& 0 < k
        &&& k < s.len() - 1
        &&& all_digits(s.subrange(0, k))
        &&& all_digits(s.subrange(k + 1, s.len() as int))
    }
}

/// The digits of a well-formed decimal string with the dot removed.
pub open spec fn decimal_digits(s: Seq<char>) -> Seq<char> {
    let k = first_dot(s, 0);
    if k < 0 {
        s
    } else {
        s.subrange(0, k) + s.subrange(k + 1, s.len() as int)
    }
}

/// The number of fractional digits of a well-formed decimal string.
pub open spec fn decimal_scale_of(s: Seq<char>) -> nat {
    let k = first_dot(s, 0);
    if k < 0 {
        0nat
    } else {
        (s.len() - k - 1) as nat
    }
}

proof fn lemma_first_dot_step(s: Seq<char>, from: int, i: int)
    requires
        0 <= from <= i <= s.len(),
        forall|j: int| from <= j < i ==> s[j] != '.',
    ensures
        first_dot(s, from) == first_dot(s, i),
    decreases i - from,
{
    if from < i {
        lemma_first_dot_step(s, from + 1, i);
    }
}

/// Parses decimal-fraction text.  Succeeds exactly on well-formed
/// decimal strings whose digits fit in a `u64` (and whose fractional
/// part is of representable length).
pub fn parse_decimal(s: &str) -> (r: Option<Decimal>)
    ensures
        match r {
            Some(d) => decimal_wf(s@) && d.mantissa as nat == digits_val(decimal_digits(s@))
                && d.scale as nat == decimal_scale_of(s@),
            None => !decimal_wf(s@) || digits_val(decimal_digits(s@)) > u64::MAX
                || decimal_scale_of(s@) > u32::MAX,
        },
{
    let n = s.unicode_len();
    // locate the first dot
    let mut k: usize = 0;
    while k < n && s.get_char(k) != '.'
        invariant
            n == s@.len(),
            k <= n,
            forall|j: int| 0 <= j < k ==> s@[j] != '.',
        decreases n - k,
    {
        k = k + 1;
    }
    proof {
        lemma_first_dot_step(s@, 0, k as int);
    }
    if k == n {
        // no dot: plain digits
        match parse_u64(s) {
            Some(v) => Some(Decimal { mantissa: v, scale: 0 }),
            None => None,
        }
    } else {
        if k == 0 || k + 1 == n {
            return None;
        }
        if n - k - 1 > u32::MAX as usize {
            return None;
        }
        let ghost dd = decimal_digits(s@);
        proof {
            assert(first_dot(s@, 0) == k as int);
        }
        let mut acc: u64 = 0;
        let mut i: usize = 0;
        while i < n
            invariant
                n == s@.len(),
                i <= n,
                0 < k < n - 1,
                first_dot(s@, 0) == k as int,
                s@[k as int] == '.',
                dd == decimal_digits(s@),
                dd.len() == n - 1,
                forall|j: int| 0 <= j < k ==> dd[j] == s@[j],
                forall|j: int| k <= j < n - 1 ==> dd[j] == s@[j + 1],
                ({
                    let cnt = if i <= k {
                        i as int
                    } else {
                        i - 1
                    };
                    &&& all_digits(dd.subrange(0, cnt))
                    &&& acc as nat == digits_val(dd.subrange(0, cnt))
                }),
            decreases n - i,
        {
            if i == k {
                i = i + 1;
                continue;
            }
            let ghost cnt = if i <= k as int {
                i as int
            } else {
                i - 1
            };
            let c = s.get_char(i);
            proof {
                assert(dd[cnt] == s@[i as int]);
            }
            if !is_digit_char(c) {
                proof {
                    if i < k {
                        assert(s@.subrange(0, k as int)[i as int] == s@[i as int]);
                        assert(!all_digits(s@.subrange(0, k as int)));
                    } else {
                        assert(s@.subrange(k + 1, n as int)[i - k - 1] == s@[i as int]);
                        assert(!all_digits(s@.subrange(k + 1, n as int)));
                    }
                }
                return None;
            }
            let d: u64 = (c as u32 - 48) as u64;
            proof {
                assert(dd.subrange(0, cnt + 1).drop_last() =~= dd.subrange(0, cnt));
                assert(dd.subrange(0, cnt + 1).last() == dd[cnt]);
            }
            if acc > (u64::MAX - d) / 10 {
                proof {
                    lemma_digits_val_prefix_le(dd, cnt + 1, dd.len() as int);
                    assert(dd.subrange(0, dd.len() as int) =~= dd);
                }
                return None;
            }
            acc = acc * 10 + d;
            i = i + 1;
        }
        proof {
            assert(dd.subrange(0, dd.len() as int) =~= dd);
            assert forall|j: int| 0 <= j < k implies is_digit(s@.subrange(0, k as int)[j]) by {
                assert(dd[j] == s@[j]);
            }
            assert forall|j: int| 0 <= j < n - k - 1 implies #[trigger] is_digit(
                s@.subrange(k + 1, n as int)[j],
            ) by {
                assert(dd[j + k] == s@[j + k + 1]);
            }
        }
        Some(Decimal { mantissa: acc, scale: (n - k - 1) as u32 })
    }
}

} // verus!
