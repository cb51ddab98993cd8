//! Reading an offset from Greenwich from text such as "+08:00".

use crate::number::{parse_i32, parsed_i32};
use crate::space::{trim_text, trimmed};
use vstd::prelude::*;
use vstd::string::StrSliceExecFns;

verus! {

/// The place of the first colon of `s` at or after `from`, or the length of
/// `s` where there is none.
pub open spec fn colon_at(s: Seq<char>, from: int) -> int
    decreases s.len() - from,
{
    if from >= s.len() {
        s.len() as int
    } else if s[from] == ':' {
        from
    } else {
        colon_at(s, from + 1)
    }
}

/// The offset, in seconds east of Greenwich, that a trimmed text spells: a
/// sign, hours, one colon and minutes, together less than a day.
pub open spec fn offset_spelled(s: Seq<char>) -> Option<int> {
    let n = s.len() as int;
    let colon = colon_at(s, 1);
    if n < 5 || (s[0] != '+' && s[0] != '-') || colon >= n || colon_at(s, colon + 1) < n {
        None
    } else {
        let hours = parsed_i32(s.subrange(1, colon));
        let minutes = parsed_i32(s.subrange(colon + 1, n));
        if hours is Some && minutes is Some {
            let size = hours->0 * 3600 + minutes->0 * 60;
            let total = if s[0] == '-' {
                -size
            } else {
                size
            };
            if -86_400 < total < 86_400 {
                Some(total)
            } else {
                None
            }
        } else {
            None
        }
    }
}

/// The offset that a text spells, the space around it ignored.
pub open spec fn offset_of_text(s: Seq<char>) -> Option<int> {
    offset_spelled(trimmed(s))
}

/// The place of the first colon of `s` at or after `from`.
fn find_colon(s: &str, from: usize) -> (at: usize)
    requires
        from <= s@.len(),
    ensures
        at == colon_at(s@, from as int),
        from <= at <= s@.len(),
{
    let n = s.unicode_len();
    let mut i: usize = from;
    while i < n
        invariant
            from <= i <= n,
            n == s@.len(),
            colon_at(s@, i as int) == colon_at(s@, from as int),
        decreases n - i,
    {
        if s.get_char(i) == ':' {
            return i;
        }
        i = i + 1;
    }
    i
}

/// The offset that a trimmed text spells, taking what its two numbers read as.
pub fn offset_from_parts(sign: char, hours: Option<i32>, minutes: Option<i32>) -> (offset: Option<
    i32,
>)
    ensures
        offset is Some <==> hours is Some && minutes is Some && -86_400 < (if sign == '-' {
            -(hours->0 * 3600 + minutes->0 * 60)
        } else {
            hours->0 * 3600 + minutes->0 * 60
        }) < 86_400,
        offset matches Some(total) ==> total == (if sign == '-' {
            -(hours->0 * 3600 + minutes->0 * 60)
        } else {
            hours->0 * 3600 + minutes->0 * 60
        }),
{
    match (hours, minutes) {
        (Some(h), Some(m)) => {
            let size: i64 = h as i64 * 3600 + m as i64 * 60;
            let total: i64 = if sign == '-' {
                -size
            } else {
                size
            };
            if -86_400 < total && total < 86_400 {
                Some(total as i32)
            } else {
                None
            }
        },
        _ => None,
    }
}

/// Reads an offset, in seconds east of Greenwich, from text such as "+08:00".
pub fn parse_offset(text: &str) -> (offset: Option<i32>)
    ensures
        offset is Some <==> offset_of_text(text@) is Some,
        offset matches Some(total) ==> offset_of_text(text@) == Some(total as int),
{
    let trimmed = trim_text(text);
    let s = trimmed.as_str();
    let n = s.unicode_len();
    if n < 5 {
        return None;
    }
    let sign = s.get_char(0);
    if sign != '+' && sign != '-' {
        return None;
    }
    let colon = find_colon(s, 1);
    if colon >= n {
        return None;
    }
    if find_colon(s, colon + 1) < n {
        return None;
    }
    let hours = parse_i32(s.substring_char(1, colon));
    let minutes = parse_i32(s.substring_char(colon + 1, n));
    offset_from_parts(sign, hours, minutes)
}

} // verus!
