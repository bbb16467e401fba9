//! Text of messages: decimal numbers.

use vstd::prelude::*;
use vstd::utf8::{decode_utf8, valid_utf8};

verus! {

/// The character of a decimal digit.
pub open spec fn digit_char(d: nat) -> char {
    if d == 0 {
        '0'
    } else if d == 1 {
        '1'
    } else if d == 2 {
        '2'
    } else if d == 3 {
        '3'
    } else if d == 4 {
        '4'
    } else if d == 5 {
        '5'
    } else if d == 6 {
        '6'
    } else if d == 7 {
        '7'
    } else if d == 8 {
        '8'
    } else {
        '9'
    }
}

/// The decimal numeral of `n`, without leading zeros.
pub open spec fn decimal(n: nat) -> Seq<char>
    decreases n,
{
    if n < 10 {
        seq![digit_char(n)]
    } else {
        decimal(n / 10).push(digit_char(n % 10))
    }
}

/// The numeral of one digit.
fn digit_str(d: u64) -> (s: &'static str)
    requires
        d < 10,
    ensures
        s@ == seq![digit_char(d as nat)],
{
    proof {
        reveal_strlit("0");
        reveal_strlit("1");
        reveal_strlit("2");
        reveal_strlit("3");
        reveal_strlit("4");
        reveal_strlit("5");
        reveal_strlit("6");
        reveal_strlit("7");
        reveal_strlit("8");
        reveal_strlit("9");
    }
    let s = if d == 0 {
        "0"
    } else if d == 1 {
        "1"
    } else if d == 2 {
        "2"
    } else if d == 3 {
        "3"
    } else if d == 4 {
        "4"
    } else if d == 5 {
        "5"
    } else if d == 6 {
        "6"
    } else if d == 7 {
        "7"
    } else if d == 8 {
        "8"
    } else {
        "9"
    };
    assert(s@ =~= seq![digit_char(d as nat)]);
    s
}

/// Writes `n` as a decimal numeral.
pub fn to_decimal(n: u64) -> (s: String)
    ensures
        s@ == decimal(n as nat),
    decreases n,
{
    if n < 10 {
        String::from_str(digit_str(n))
    } else {
        let mut s = to_decimal(n / 10);
        s.append(digit_str(n % 10));
        assert(s@ =~= decimal(n as nat));
        s
    }
}

/// Calls `==` of `str`, which std documents as the comparison of the two
/// strings: they are equal where they hold the same characters in the same
/// order.
#[verifier::external_body]
pub(crate) fn str_eq(a: &str, b: &str) -> (eq: bool)
    ensures
        eq == (a@ == b@),
{
    a == b
}

/// Calls `core::str::from_utf8` and copies the text that it finds. The
/// function accepts the bytes where they are valid UTF-8, and the text that it
/// gives then holds the characters that the bytes encode.
#[verifier::external_body]
pub(crate) fn utf8_text(bytes: &[u8]) -> (decoded: Option<String>)
    ensures
        decoded is Some <==> valid_utf8(bytes@),
        decoded matches Some(found) ==> found@ == decode_utf8(bytes@),
{
    core::str::from_utf8(bytes).ok().map(|found| found.to_owned())
}

/// The value of a decimal digit, or `None` for another character.
pub open spec fn digit_value(c: char) -> Option<nat> {
    if c == '0' {
        Some(0)
    } else if c == '1' {
        Some(1)
    } else if c == '2' {
        Some(2)
    } else if c == '3' {
        Some(3)
    } else if c == '4' {
        Some(4)
    } else if c == '5' {
        Some(5)
    } else if c == '6' {
        Some(6)
    } else if c == '7' {
        Some(7)
    } else if c == '8' {
        Some(8)
    } else if c == '9' {
        Some(9)
    } else {
        None
    }
}

/// The number that a sequence of decimal digits stands for, or `None` where
/// the sequence is empty or holds another character.
pub open spec fn natural_of(s: Seq<char>) -> Option<nat>
    decreases s.len(),
{
    if s.len() == 0 {
        None
    } else if s.len() == 1 {
        digit_value(s[0])
    } else {
        match (natural_of(s.drop_last()), digit_value(s.last())) {
            (Some(high), Some(digit)) => Some(10 * high + digit),
            _ => None,
        }
    }
}

/// The integer that a decimal numeral with an optional sign stands for.
pub open spec fn integer_of(s: Seq<char>) -> Option<int> {
    if s.len() > 0 && s[0] == '-' {
        match natural_of(s.skip(1)) {
            Some(n) => Some(-(n as int)),
            None => None,
        }
    } else if s.len() > 0 && s[0] == '+' {
        match natural_of(s.skip(1)) {
            Some(n) => Some(n as int),
            None => None,
        }
    } else {
        match natural_of(s) {
            Some(n) => Some(n as int),
            None => None,
        }
    }
}

/// The 64-bit integer that a decimal numeral with an optional sign stands
/// for, or `None` where the text is no numeral or the number does not fit.
pub open spec fn i64_of(s: Seq<char>) -> Option<i64> {
    match integer_of(s) {
        Some(n) => if i64::MIN <= n <= i64::MAX {
            Some(n as i64)
        } else {
            None
        },
        None => None,
    }
}

/// The decimal numeral of a number stands for that number.
pub proof fn lemma_decimal_is_read_back(n: nat)
    ensures
        natural_of(decimal(n)) == Some(n),
        integer_of(decimal(n)) == Some(n as int),
    decreases n,
{
    if n >= 10 {
        lemma_decimal_is_read_back(n / 10);
        let numeral = decimal(n);
        assert(numeral.drop_last() =~= decimal(n / 10));
        assert(numeral.last() == digit_char(n % 10));
        lemma_decimal_starts_with_a_digit(n / 10);
    }
    lemma_decimal_starts_with_a_digit(n);
}

/// A decimal numeral starts with a digit, not with a sign.
pub proof fn lemma_decimal_starts_with_a_digit(n: nat)
    ensures
        decimal(n).len() >= 1,
        digit_value(decimal(n)[0]) is Some,
    decreases n,
{
    if n >= 10 {
        lemma_decimal_starts_with_a_digit(n / 10);
    }
}

/// A numeral stands for a number that is no smaller than the number that any
/// of its prefixes stands for, and each of its prefixes is a numeral.
pub proof fn lemma_natural_of_prefix(s: Seq<char>, len: int)
    requires
        0 < len <= s.len(),
        natural_of(s) is Some,
    ensures
        natural_of(s.subrange(0, len)) matches Some(low) && low <= natural_of(s)->0,
    decreases s.len(),
{
    if len == s.len() {
        assert(s.subrange(0, len) =~= s);
    } else {
        lemma_natural_of_prefix(s.drop_last(), len);
        assert(s.drop_last().subrange(0, len) =~= s.subrange(0, len));
    }
}

/// The value of a decimal digit.
fn digit_of(c: char) -> (digit: Option<i64>)
    ensures
        match digit_value(c) {
            Some(value) => digit == Some(value as i64),
            None => digit is None,
        },
{
    if c == '0' {
        Some(0)
    } else if c == '1' {
        Some(1)
    } else if c == '2' {
        Some(2)
    } else if c == '3' {
        Some(3)
    } else if c == '4' {
        Some(4)
    } else if c == '5' {
        Some(5)
    } else if c == '6' {
        Some(6)
    } else if c == '7' {
        Some(7)
    } else if c == '8' {
        Some(8)
    } else if c == '9' {
        Some(9)
    } else {
        None
    }
}

/// Reads a decimal numeral with an optional sign.
pub fn parse_i64(text: &str) -> (value: Option<i64>)
    ensures
        value == i64_of(text@),
{
    let len = text.unicode_len();
    if len == 0 {
        return None;
    }
    let first = text.get_char(0);
    let negative = first == '-';
    let start: usize = if first == '-' || first == '+' {
        1
    } else {
        0
    };
    if start == len {
        return None;
    }
    let ghost digits = if start == 1 {
        text@.skip(1)
    } else {
        text@
    };
    // The digits are summed up below zero, where `i64` has room for one more number.
    let mut below: i64 = 0;
    let mut i = start;
    while i < len
        invariant
            start <= i <= len,
            len == text@.len(),
            start < len,
            start == 0 || start == 1,
            start == 1 <==> text@[0] == '-' || text@[0] == '+',
            digits == text@.skip(start as int),
            start == 0 ==> digits == text@,
            i > start ==> natural_of(digits.subrange(0, i - start)) == Some((-below) as nat),
            i == start ==> below == 0,
            below <= 0,
        decreases len - i,
    {
        let ghost prefix = digits.subrange(0, i - start);
        let ghost next = digits.subrange(0, i - start + 1);
        assert(next.drop_last() =~= prefix);
        assert(next.last() == text@[i as int]);
        let digit = match digit_of(text.get_char(i)) {
            Some(digit) => digit,
            None => {
                proof {
                    assert(natural_of(next) is None);
                    if natural_of(digits) is Some {
                        lemma_natural_of_prefix(digits, i - start + 1);
                    }
                }
                return None;
            },
        };
        assert(natural_of(next) == Some((10 * (-below) + digit) as nat));
        let shifted = match below.checked_mul(10) {
            Some(shifted) => shifted,
            None => {
                proof {
                    if natural_of(digits) is Some {
                        lemma_natural_of_prefix(digits, i - start + 1);
                    }
                }
                return None;
            },
        };
        below = match shifted.checked_sub(digit) {
            Some(below) => below,
            None => {
                proof {
                    if natural_of(digits) is Some {
                        lemma_natural_of_prefix(digits, i - start + 1);
                    }
                }
                return None;
            },
        };
        i = i + 1;
    }
    assert(digits.subrange(0, len - start) =~= digits);
    if negative {
        Some(below)
    } else if below == i64::MIN {
        None
    } else {
        Some(-below)
    }
}

} // verus!
