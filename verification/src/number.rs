//! Reading whole numbers from decimal text.

use vstd::prelude::*;
use vstd::string::StrSliceExecFns;

verus! {

/// The character is one of the ten digits.
pub open spec fn is_digit(c: char) -> bool {
    48 <= c as int <= 57
}

/// Every character of the text, from `from` on, is a digit.
pub open spec fn all_digits(s: Seq<char>, from: int) -> bool {
    forall|i: int| from <= i < s.len() ==> is_digit(#[trigger] s[i])
}

/// The number that the digits of `s` from `from` to before `to` spell.
pub open spec fn digits_value(s: Seq<char>, from: int, to: int) -> int
    decreases to - from,
{
    if to <= from {
        0
    } else {
        digits_value(s, from, to - 1) * 10 + (s[to - 1] as int - 48)
    }
}

/// The number of leading characters of `s` that are a sign: one or none.
pub open spec fn sign_len(s: Seq<char>) -> int {
    if s.len() > 0 && (s[0] == '+' || s[0] == '-') {
        1
    } else {
        0
    }
}

/// The number that a text spells: a sign or none, then digits and nothing else.
pub open spec fn integer_read(s: Seq<char>) -> Option<int> {
    let from = sign_len(s);
    if from >= s.len() || !all_digits(s, from) {
        None
    } else if s[0] == '-' {
        Some(-digits_value(s, from, s.len() as int))
    } else {
        Some(digits_value(s, from, s.len() as int))
    }
}

/// The number that a text spells, where it lies from `min` to `max`.
pub open spec fn bounded_read(s: Seq<char>, min: int, max: int) -> Option<int> {
    match integer_read(s) {
        Some(v) => if min <= v <= max {
            Some(v)
        } else {
            None
        },
        None => None,
    }
}

/// What a text reads as a small integer.
pub open spec fn parsed_i8(s: Seq<char>) -> Option<i8> {
    match bounded_read(s, -128, 127) {
        Some(v) => Some(v as i8),
        None => None,
    }
}

/// What a text reads as an integer of 32 bits.
pub open spec fn parsed_i32(s: Seq<char>) -> Option<i32> {
    match bounded_read(s, -2_147_483_648, 2_147_483_647) {
        Some(v) => Some(v as i32),
        None => None,
    }
}

/// Digits never spell a negative number, and more digits never spell a smaller one.
pub proof fn lemma_digits_grow(s: Seq<char>, from: int, mid: int, to: int)
    requires
        0 <= from <= mid <= to <= s.len(),
        all_digits(s, from),
    ensures
        0 <= digits_value(s, from, mid) <= digits_value(s, from, to),
    decreases to - from,
{
    if from < to {
        if mid < to {
            lemma_digits_grow(s, from, mid, to - 1);
        } else {
            lemma_digits_grow(s, from, mid - 1, to - 1);
        }
        assert(is_digit(s[to - 1]));
    }
}

/// Reads a whole number from `min` to `max` from decimal text.
pub fn parse_integer(s: &str, min: i64, max: i64) -> (value: Option<i64>)
    requires
        -4_000_000_000 < min <= 0 <= max < 4_000_000_000,
    ensures
        value matches Some(v) ==> bounded_read(s@, min as int, max as int) == Some(v as int),
        value is None ==> bounded_read(s@, min as int, max as int) is None,
{
    let n = s.unicode_len();
    if n == 0 {
        return None;
    }
    let first = s.get_char(0);
    let from: usize = if first == '+' || first == '-' {
        1
    } else {
        0
    };
    if from >= n {
        return None;
    }
    let mut sum: i64 = 0;
    let mut i: usize = from;
    while i < n
        invariant
            from <= i <= n,
            n == s@.len(),
            from == sign_len(s@),
            forall|k: int| from <= k < i ==> is_digit(#[trigger] s@[k]),
            0 <= sum <= 4_000_000_000,
            sum < 4_000_000_000 ==> sum == digits_value(s@, from as int, i as int),
            sum == 4_000_000_000 ==> digits_value(s@, from as int, i as int) >= 4_000_000_000,
        decreases n - i,
    {
        let c = s.get_char(i);
        let code = c as u32;
        if code < 48 || code > 57 {
            return None;
        }
        let digit = (code - 48) as i64;
        let next = sum * 10 + digit;
        sum = if next > 4_000_000_000 {
            4_000_000_000
        } else {
            next
        };
        i = i + 1;
    }
    proof {
        assert(all_digits(s@, from as int));
        lemma_digits_grow(s@, from as int, from as int, n as int);
    }
    let signed = if first == '-' {
        -sum
    } else {
        sum
    };
    if sum < 4_000_000_000 && min <= signed && signed <= max {
        Some(signed)
    } else {
        None
    }
}

/// Reads a small integer from decimal text.
pub fn parse_i8(s: &str) -> (value: Option<i8>)
    ensures
        value == parsed_i8(s@),
{
    match parse_integer(s, -128, 127) {
        Some(v) => Some(v as i8),
        None => None,
    }
}

/// Reads an integer of 32 bits from decimal text.
pub fn parse_i32(s: &str) -> (value: Option<i32>)
    ensures
        value == parsed_i32(s@),
{
    match parse_integer(s, -2_147_483_648, 2_147_483_647) {
        Some(v) => Some(v as i32),
        None => None,
    }
}

} // verus!
