//! Numbers in decimal notation.

use vstd::prelude::*;
use vstd::string::*;

use crate::text::chars_of;

verus! {

/// The character of a decimal digit.
pub open spec fn digit_char(d: nat) -> char {
    (0x30 + d) as char
}

/// `n` in decimal notation, without leading zeros.
pub open spec fn decimal(n: nat) -> Seq<char>
    decreases n,
{
    if n < 10 {
        seq![digit_char(n)]
    } else {
        decimal(n / 10).push(digit_char(n % 10))
    }
}

fn digit(d: u64) -> (c: char)
    requires
        d < 10,
    ensures
        c == digit_char(d as nat),
{
    (0x30u8 + d as u8) as char
}

/// `n` in decimal notation, without leading zeros.
pub fn decimal_text(n: u64) -> (out: String)
    ensures
        out@ == decimal(n as nat),
    decreases n,
{
    let mut out = String::new();
    if n >= 10 {
        out = decimal_text(n / 10);
    } else {
        assert(decimal(n as nat) == out@.push(digit_char(n as nat)));
    }
    out.push(digit(n % 10));
    out
}

/// The value of the decimal digits `s`, the most significant first.
pub open spec fn digits_value(s: Seq<char>) -> nat
    decreases s.len(),
{
    if s.len() == 0 {
        0
    } else {
        digits_value(s.drop_last()) * 10 + (s.last() as nat - 0x30) as nat
    }
}

/// Whether `s` is one or more decimal digits.
pub open spec fn all_digits(s: Seq<char>) -> bool {
    &&& s.len() > 0
    &&& forall|i: int| 0 <= i < s.len() ==> '0' <= #[trigger] s[i] <= '9'
}

/// The number that `s` denotes as an unsigned integer of at most `max`: an
/// optional plus sign and one or more decimal digits.
pub open spec fn number_in(s: Seq<char>, max: nat) -> Option<nat> {
    let digits = if s.len() > 0 && s[0] == '+' {
        s.skip(1)
    } else {
        s
    };
    if all_digits(digits) && digits_value(digits) <= max {
        Some(digits_value(digits))
    } else {
        None
    }
}

proof fn lemma_value_grows(s: Seq<char>, n: int)
    requires
        all_digits(s),
        0 <= n <= s.len(),
    ensures
        digits_value(s.take(n)) <= digits_value(s),
    decreases s.len() - n,
{
    if n == s.len() {
        assert(s.take(n) == s);
    } else {
        lemma_value_grows(s, n + 1);
        assert(s.take(n + 1).drop_last() == s.take(n));
        assert('0' <= s[n]);
    }
}

/// The `usize` that a string denotes, if it denotes one that fits.
pub fn parse_usize(s: &str) -> (out: Option<usize>)
    ensures
        out is Some <==> number_in(s@, usize::MAX as nat) is Some,
        out matches Some(n) ==> number_in(s@, usize::MAX as nat) == Some(n as nat),
{
    let chars = chars_of(s);
    let start: usize = if chars.len() > 0 && chars[0] == '+' {
        1
    } else {
        0
    };
    let ghost digits = s@.skip(start as int);
    proof {
        assert(s@.skip(0) == s@);
    }
    if chars.len() == start {
        return None;
    }
    let mut value: usize = 0;
    let mut i: usize = start;
    assert(digits.take(0) == Seq::<char>::empty());
    while i < chars.len()
        invariant
            chars@ == s@,
            start <= i <= chars.len(),
            start <= 1,
            digits == s@.skip(start as int),
            digits == (if s@.len() > 0 && s@[0] == '+' {
                s@.skip(1)
            } else {
                s@
            }),
            digits.len() > 0,
            forall|k: int| 0 <= k < i - start ==> '0' <= #[trigger] digits[k] <= '9',
            value == digits_value(digits.take(i - start)),
        decreases chars.len() - i,
    {
        let c = chars[i];
        assert(digits[i - start] == c);
        if c < '0' || c > '9' {
            return None;
        }
        let d: usize = (c as u32 - 0x30) as usize;
        proof {
            assert(digits.take(i - start + 1).drop_last() == digits.take(i - start));
            if all_digits(digits) {
                lemma_value_grows(digits, i - start + 1);
            }
        }
        match value.checked_mul(10) {
            Some(shifted) => match shifted.checked_add(d) {
                Some(next) => {
                    value = next;
                },
                None => {
                    return None;
                },
            },
            None => {
                return None;
            },
        }
        i = i + 1;
    }
    assert(digits.take(digits.len() as int) == digits);
    Some(value)
}

} // verus!
