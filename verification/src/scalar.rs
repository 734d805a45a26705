//! Reading a text as a boolean or as an integer.
//!
//! The hub often reports a measurement as a JSON string. These readers decide
//! whether such a text is a boolean or an integer in disguise, by the rules
//! that Rust's own `FromStr` follows for `bool` and `i64`.

use vstd::prelude::*;
use crate::text::str_eq;

verus! {

/// Whether `c` is one of the ten ASCII digits.
pub open spec fn is_digit(c: char) -> bool {
    '0' <= c <= '9'
}

/// The number that an ASCII digit stands for.
pub open spec fn digit_value(c: char) -> int {
    c as int - 48
}

/// Whether every character of `s` is an ASCII digit.
pub open spec fn all_digits(s: Seq<char>) -> bool {
    forall|i: int| 0 <= i < s.len() ==> is_digit(#[trigger] s[i])
}

/// The number that a run of digits stands for in base ten.
pub open spec fn digits_value(s: Seq<char>) -> int
    decreases s.len(),
{
    if s.len() == 0 {
        0
    } else {
        digits_value(s.drop_last()) * 10 + digit_value(s.last())
    }
}

/// The integer that a text stands for: an optional `+` or `-`, then one or
/// more digits and nothing else. `None` for every other text.
pub open spec fn integer_value(s: Seq<char>) -> Option<int> {
    if s.len() > 0 && (s[0] == '-' || s[0] == '+') {
        let digits = s.skip(1);
        if digits.len() > 0 && all_digits(digits) {
            Some(
                if s[0] == '-' {
                    -digits_value(digits)
                } else {
                    digits_value(digits)
                },
            )
        } else {
            None
        }
    } else if s.len() > 0 && all_digits(s) {
        Some(digits_value(s))
    } else {
        None
    }
}

/// The signed 64-bit integer that a text stands for; `None` where the text
/// is no integer or its value does not fit.
pub open spec fn parsed_i64(s: Seq<char>) -> Option<i64> {
    match integer_value(s) {
        Some(v) => if i64::MIN <= v <= i64::MAX {
            Some(v as i64)
        } else {
            None
        },
        None => None,
    }
}

/// The boolean that a text stands for: `true` or `false`, written exactly so.
pub open spec fn parsed_bool(s: Seq<char>) -> Option<bool> {
    if s == "true"@ {
        Some(true)
    } else if s == "false"@ {
        Some(false)
    } else {
        None
    }
}

/// The ASCII digit for a number from zero to nine.
pub open spec fn digit_char(d: int) -> char {
    if d == 0 {
        '0'
    } else if d == 1 {
        '1'
    } else if d == 2 {
        '2'
    } else if d == 3 {
        '3'
    } else if d == 4 {
        '4'
    } else if d == 5 {
        '5'
    } else if d == 6 {
        '6'
    } else if d == 7 {
        '7'
    } else if d == 8 {
        '8'
    } else {
        '9'
    }
}

/// The digits of a natural number in base ten, without leading zeros.
pub open spec fn digits_of(v: nat) -> Seq<char>
    decreases v,
{
    if v < 10 {
        seq![digit_char(v as int)]
    } else {
        digits_of(v / 10).push(digit_char((v % 10) as int))
    }
}

/// An integer as it is usually written in base ten: its digits, after a `-`
/// where it is negative.
pub open spec fn decimal_text(n: int) -> Seq<char> {
    if n < 0 {
        seq!['-'] + digits_of((-n) as nat)
    } else {
        digits_of(n as nat)
    }
}

/// The digits of a number are digits, at least one, and stand for the number.
pub proof fn lemma_digits_of(v: nat)
    ensures
        all_digits(digits_of(v)),
        digits_of(v).len() > 0,
        digits_value(digits_of(v)) == v,
    decreases v,
{
    if v < 10 {
        let s = digits_of(v);
        assert(digits_value(s.drop_last()) == 0);
    } else {
        lemma_digits_of(v / 10);
        let s = digits_of(v);
        let front = digits_of(v / 10);
        assert(s.drop_last() =~= front);
        assert forall|i: int| 0 <= i < s.len() implies is_digit(#[trigger] s[i]) by {
        }
    }
}

/// Every signed 64-bit integer is read back from its decimal text, and that
/// text is no boolean.
pub proof fn lemma_decimal_text_parses(n: i64)
    ensures
        parsed_i64(decimal_text(n as int)) == Some(n),
        parsed_bool(decimal_text(n as int)) is None,
{
    reveal_strlit("true");
    reveal_strlit("false");
    let text = decimal_text(n as int);
    if n < 0 {
        let digits = digits_of((-n) as nat);
        lemma_digits_of((-n) as nat);
        assert(text.skip(1) =~= digits);
    } else {
        lemma_digits_of(n as nat);
    }
}

/// A run of digits stands for no less than any of its prefixes, and for
/// nothing negative.
pub proof fn lemma_digits_value_prefix(s: Seq<char>, k: int)
    requires
        all_digits(s),
        0 <= k <= s.len(),
    ensures
        0 <= digits_value(s.take(k)) <= digits_value(s),
    decreases s.len(),
{
    if s.len() > 0 && k == s.len() {
        assert(s.take(k) =~= s);
        lemma_digits_value_prefix(s.drop_last(), k - 1);
    } else if s.len() > 0 {
        lemma_digits_value_prefix(s.drop_last(), k);
        assert(s.drop_last().take(k) =~= s.take(k));
    }
}

fn digit_str(d: u64) -> (r: &'static str)
    requires
        d < 10,
    ensures
        r@ == seq![digit_char(d as int)],
{
    proof {
        reveal_strlit("0");
        reveal_strlit("1");
        reveal_strlit("2");
        reveal_strlit("3");
        reveal_strlit("4");
        reveal_strlit("5");
        reveal_strlit("6");
        reveal_strlit("7");
        reveal_strlit("8");
        reveal_strlit("9");
    }
    let r = if d == 0 {
        "0"
    } else if d == 1 {
        "1"
    } else if d == 2 {
        "2"
    } else if d == 3 {
        "3"
    } else if d == 4 {
        "4"
    } else if d == 5 {
        "5"
    } else if d == 6 {
        "6"
    } else if d == 7 {
        "7"
    } else if d == 8 {
        "8"
    } else {
        "9"
    };
    r
}

/// Writes a number in base ten, without leading zeros.
pub fn decimal_string(v: u64) -> (r: String)
    ensures
        r@ == digits_of(v as nat),
    decreases v,
{
    if v < 10 {
        String::from_str(digit_str(v))
    } else {
        let mut out = decimal_string(v / 10);
        out.append(digit_str(v % 10));
        out
    }
}

/// Reads `true` or `false`.
pub fn parse_bool(text: &str) -> (r: Option<bool>)
    ensures
        r == parsed_bool(text@),
{
    if str_eq(text, "true") {
        Some(true)
    } else if str_eq(text, "false") {
        Some(false)
    } else {
        None
    }
}

/// Reads a signed 64-bit integer in base ten: an optional sign, then digits.
/// A text with anything else in it, without a digit, or with a value that
/// does not fit, is refused.
pub fn parse_i64(text: &str) -> (r: Option<i64>)
    ensures
        r == parsed_i64(text@),
{
    let ghost s = text@;
    if !text.is_ascii() {
        proof {
            let i = choose|i: int| 0 <= i < s.len() && !('\0' <= #[trigger] s[i] <= '\u{7f}');
            if i > 0 {
                assert(s.skip(1)[i - 1] == s[i]);
            }
        }
        return None;
    }
    let n = text.unicode_len();
    if n == 0 {
        return None;
    }
    let first = text.get_ascii(0);
    let negative = first == 45u8;
    let start: usize = if first == 45u8 || first == 43u8 {
        1
    } else {
        0
    };
    let ghost digits = s.skip(start as int);
    if start == n {
        return None;
    }
    let mut acc: i64 = 0;
    let mut i: usize = start;
    while i < n
        invariant
            s == text@,
            text.is_ascii(),
            n == s.len(),
            start <= i <= n,
            start < n,
            start == 0 || start == 1,
            start == 1 <==> (s[0] == '-' || s[0] == '+'),
            negative <==> s[0] == '-',
            start == 0 ==> digits == s,
            digits == s.skip(start as int),
            all_digits(digits.take(i - start)),
            acc == if negative {
                -digits_value(digits.take(i - start))
            } else {
                digits_value(digits.take(i - start))
            },
        decreases n - i,
    {
        let b = text.get_ascii(i);
        let ghost k = i - start;
        let ghost prefix = digits.take(k);
        let ghost next = digits.take(k + 1);
        proof {
            assert(next.drop_last() =~= prefix);
            lemma_digits_value_prefix(prefix, k);
        }
        if b < 48u8 || b > 57u8 {
            proof {
                assert(!is_digit(digits[k]));
            }
            return None;
        }
        proof {
            assert(all_digits(next)) by {
                assert forall|j: int| 0 <= j < next.len() implies is_digit(#[trigger] next[j]) by {
                }
            }
            if all_digits(digits) {
                lemma_digits_value_prefix(digits, k + 1);
            }
        }
        let d: i64 = (b - 48u8) as i64;
        let scaled = match acc.checked_mul(10) {
            Some(v) => v,
            None => {
                return None;
            },
        };
        let stepped = if negative {
            scaled.checked_sub(d)
        } else {
            scaled.checked_add(d)
        };
        acc = match stepped {
            Some(v) => v,
            None => {
                return None;
            },
        };
        i += 1;
    }
    proof {
        assert(digits.take(n - start) =~= digits);
    }
    Some(acc)
}

} // verus!
