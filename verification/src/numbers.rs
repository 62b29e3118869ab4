//! Decimal formatting and parsing of integers, as Rust's `Display` and
//! `FromStr` for `i64` do it.

use vstd::prelude::*;

verus! {

/// The ASCII character of the decimal digit `d` (for `0 <= d < 10`).
pub open spec fn digit_char(d: int) -> char {
    if d == 0 {
        '0'
    } else if d == 1 {
        '1'
    } else if d == 2 {
        '2'
    } else if d == 3 {
        '3'
    } else if d == 4 {
        '4'
    } else if d == 5 {
        '5'
    } else if d == 6 {
        '6'
    } else if d == 7 {
        '7'
    } else if d == 8 {
        '8'
    } else {
        '9'
    }
}

/// The decimal digits of `n`, most significant first, without leading zeros.
pub open spec fn decimal_digits(n: nat) -> Seq<char>
    decreases n,
{
    if n < 10 {
        seq![digit_char(n as int)]
    } else {
        decimal_digits(n / 10).push(digit_char((n % 10) as int))
    }
}

/// The text that `Display` writes for the integer `n`: a `-` for negative
/// numbers, then the decimal digits of its magnitude.
pub open spec fn decimal_text(n: int) -> Seq<char> {
    if n < 0 {
        seq!['-'] + decimal_digits((-n) as nat)
    } else {
        decimal_digits(n as nat)
    }
}

pub open spec fn is_ascii_digit(c: char) -> bool {
    '0' <= c && c <= '9'
}

pub open spec fn all_ascii_digits(s: Seq<char>) -> bool {
    forall|i: int| 0 <= i < s.len() ==> is_ascii_digit(#[trigger] s[i])
}

/// The number that a string of ASCII digits denotes in base ten.
pub open spec fn digits_value(s: Seq<char>) -> int
    decreases s.len(),
{
    if s.len() == 0 {
        0
    } else {
        digits_value(s.drop_last()) * 10 + (s.last() as int - '0' as int)
    }
}

/// The integer that `s` denotes as an optionally signed decimal numeral:
/// an optional `+` or `-`, then one or more ASCII digits, nothing else.
pub open spec fn signed_decimal_value(s: Seq<char>) -> Option<int> {
    if s.len() > 0 && (s[0] == '-' || s[0] == '+') {
        let d = s.drop_first();
        if d.len() > 0 && all_ascii_digits(d) {
            Some(
                if s[0] == '-' {
                    -digits_value(d)
                } else {
                    digits_value(d)
                },
            )
        } else {
            None
        }
    } else if s.len() > 0 && all_ascii_digits(s) {
        Some(digits_value(s))
    } else {
        None
    }
}

/// What `i64::from_str` gives for `s`, with the error as `None`: the value of
/// the numeral when `s` is one and the value fits in an `i64`.
pub open spec fn parsed_i64(s: Seq<char>) -> Option<i64> {
    match signed_decimal_value(s) {
        Some(v) => if i64::MIN <= v <= i64::MAX {
            Some(v as i64)
        } else {
            None
        },
        None => None,
    }
}

fn digit_text(d: u64) -> (t: &'static str)
    requires
        d < 10,
    ensures
        t@ == seq![digit_char(d as int)],
{
    if d == 0 {
        proof {
            reveal_strlit("0");
        }
        "0"
    } else if d == 1 {
        proof {
            reveal_strlit("1");
        }
        "1"
    } else if d == 2 {
        proof {
            reveal_strlit("2");
        }
        "2"
    } else if d == 3 {
        proof {
            reveal_strlit("3");
        }
        "3"
    } else if d == 4 {
        proof {
            reveal_strlit("4");
        }
        "4"
    } else if d == 5 {
        proof {
            reveal_strlit("5");
        }
        "5"
    } else if d == 6 {
        proof {
            reveal_strlit("6");
        }
        "6"
    } else if d == 7 {
        proof {
            reveal_strlit("7");
        }
        "7"
    } else if d == 8 {
        proof {
            reveal_strlit("8");
        }
        "8"
    } else {
        proof {
            reveal_strlit("9");
        }
        "9"
    }
}

/// Formats a non-negative integer in decimal, as `n.to_string()` does.
pub fn format_u64(n: u64) -> (s: String)
    ensures
        s@ == decimal_digits(n as nat),
{
    let mut m = n;
    let mut acc = String::new();
    while m >= 10
        invariant
            decimal_digits(n as nat) == decimal_digits(m as nat) + acc@,
        decreases m,
    {
        let d = m % 10;
        let ghost old_acc = acc@;
        let head = String::from_str(digit_text(d));
        acc = head.concat(acc.as_str());
        proof {
            let dm = decimal_digits((m / 10) as nat);
            assert(decimal_digits(m as nat) == dm.push(digit_char(d as int)));
            assert(dm.push(digit_char(d as int)) + old_acc =~= dm + acc@);
        }
        m = m / 10;
    }
    let head = String::from_str(digit_text(m));
    head.concat(acc.as_str())
}

/// Formats an integer in decimal, as `n.to_string()` does.
pub fn format_i64(n: i64) -> (s: String)
    ensures
        s@ == decimal_text(n as int),
{
    if n < 0 {
        let magnitude: u64 = (-(n as i128)) as u64;
        let digits = format_u64(magnitude);
        let sign = String::from_str("-");
        proof {
            reveal_strlit("-");
        }
        sign.concat(digits.as_str())
    } else {
        format_u64(n as u64)
    }
}


proof fn lemma_digits_value_nonneg(s: Seq<char>)
    requires
        all_ascii_digits(s),
    ensures
        digits_value(s) >= 0,
    decreases s.len(),
{
    if s.len() > 0 {
        assert(is_ascii_digit(s[s.len() - 1]));
        lemma_digits_value_nonneg(s.drop_last());
    }
}

/// The largest magnitude that the scan below tells apart: anything at or above
/// it is out of range for an `i64` with either sign.
const MAGNITUDE_CAP: u128 = 9223372036854775809;

/// Parses an optionally signed decimal numeral, as `i64::from_str(s).ok()`
/// does: `None` for an empty string, a lone sign, any character that is not an
/// ASCII digit after the sign, or a value outside the range of `i64`.
pub fn parse_i64(s: &str) -> (r: Option<i64>)
    ensures
        r == parsed_i64(s@),
{
    let n = s.unicode_len();
    if n == 0 {
        return None;
    }
    let first = s.get_char(0);
    let negative = first == '-';
    let start: usize = if first == '-' || first == '+' {
        1
    } else {
        0
    };
    if start == n {
        return None;
    }
    let ghost body = s@.subrange(start as int, n as int);
    let mut acc: u128 = 0;
    let mut i: usize = start;
    while i < n
        invariant
            start <= i <= n,
            start < n,
            n == s@.len(),
            start == 0 || start == 1,
            start == 1 <==> (s@[0] == '-' || s@[0] == '+'),
            negative == (s@[0] == '-'),
            body == s@.subrange(start as int, n as int),
            all_ascii_digits(s@.subrange(start as int, i as int)),
            acc == (if digits_value(s@.subrange(start as int, i as int)) >= MAGNITUDE_CAP {
                MAGNITUDE_CAP as int
            } else {
                digits_value(s@.subrange(start as int, i as int))
            }),
        decreases n - i,
    {
        let c = s.get_char(i);
        if !('0' <= c && c <= '9') {
            proof {
                assert(body[i - start] == c);
                assert(!all_ascii_digits(body));
                if start == 0 {
                    assert(body =~= s@);
                } else {
                    assert(body =~= s@.drop_first());
                }
            }
            return None;
        }
        let d: u128 = (c as u32 - '0' as u32) as u128;
        let ghost prev = s@.subrange(start as int, i as int);
        let ghost next = s@.subrange(start as int, i + 1);
        proof {
            assert(next.drop_last() =~= prev);
            assert(next.last() == c);
            lemma_digits_value_nonneg(prev);
            assert(all_ascii_digits(next));
        }
        let grown = acc * 10 + d;
        acc = if grown >= MAGNITUDE_CAP {
            MAGNITUDE_CAP
        } else {
            grown
        };
        i = i + 1;
    }
    proof {
        assert(s@.subrange(start as int, n as int) == body);
        if start == 0 {
            assert(body =~= s@);
            assert(s@[0] != '-' && s@[0] != '+');
        } else {
            assert(body =~= s@.drop_first());
        }
        lemma_digits_value_nonneg(body);
    }
    if negative {
        if acc <= 9223372036854775808 {
            Some((-(acc as i128)) as i64)
        } else {
            None
        }
    } else {
        if acc <= 9223372036854775807 {
            Some(acc as i64)
        } else {
            None
        }
    }
}


proof fn lemma_digit_char_value(d: int)
    requires
        0 <= d < 10,
    ensures
        is_ascii_digit(digit_char(d)),
        digit_char(d) as int - '0' as int == d,
{
}

pub proof fn lemma_decimal_digits_denote(m: nat)
    ensures
        decimal_digits(m).len() > 0,
        all_ascii_digits(decimal_digits(m)),
        digits_value(decimal_digits(m)) == m,
    decreases m,
{
    if m < 10 {
        lemma_digit_char_value(m as int);
        assert(decimal_digits(m).drop_last() =~= Seq::<char>::empty());
        assert(digits_value(Seq::<char>::empty()) == 0);
    } else {
        lemma_decimal_digits_denote(m / 10);
        lemma_digit_char_value((m % 10) as int);
        let ds = decimal_digits(m);
        assert(ds.drop_last() =~= decimal_digits(m / 10));
        assert(ds.last() == digit_char((m % 10) as int));
        assert(m == (m / 10) * 10 + m % 10) by (nonlinear_arith);
        assert(digits_value(ds) == digits_value(decimal_digits(m / 10)) * 10 + (m % 10));
    }
}

/// Parsing gives back what formatting wrote: for every `i64` value `n`,
/// `i64::from_str(&n.to_string())` is `Ok(n)`.
pub proof fn law_parse_after_format(n: i64)
    ensures
        parsed_i64(decimal_text(n as int)) == Some(n),
{
    if n < 0 {
        let ds = decimal_digits((-n) as nat);
        lemma_decimal_digits_denote((-n) as nat);
        let t = decimal_text(n as int);
        assert(t.drop_first() =~= ds);
        assert(t[0] == '-');
    } else {
        let ds = decimal_digits(n as nat);
        lemma_decimal_digits_denote(n as nat);
        assert(is_ascii_digit(ds[0]));
    }
}

} // verus!
