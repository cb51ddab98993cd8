//! Reading instants from text, as the `chrono` crate reads them.
//!
//! What a reading returns is a function of the text, and of the pattern where
//! there is one. It is named here, not restated: an instant is a pair of
//! seconds since 1970-01-01T00:00:00Z and nanoseconds.

use crate::calendar::seconds_in_range;
use crate::civil::widen;
use crate::display::spells_instant;
use crate::unit::same_text;
use vstd::prelude::*;
use vstd::string::StrSliceExecFns;

verus! {

/// What `chrono::DateTime::parse_from_rfc3339` reads from `s`, in UTC.
pub uninterp spec fn rfc3339_instant(s: Seq<char>) -> Option<(int, int)>;

/// What `chrono::DateTime::parse_from_rfc2822` reads from `s`, in UTC.
pub uninterp spec fn rfc2822_instant(s: Seq<char>) -> Option<(int, int)>;

/// What `chrono::DateTime::parse_from_str` reads from `s` by the pattern
/// `pattern`, in UTC.
pub uninterp spec fn zoned_instant(s: Seq<char>, pattern: Seq<char>) -> Option<(int, int)>;

/// What `chrono::NaiveDateTime::parse_from_str` reads from `s` by the pattern
/// `pattern`, taken as UTC; or the text of the error.
pub uninterp spec fn plain_instant(s: Seq<char>, pattern: Seq<char>) -> Result<
    (int, int),
    Seq<char>,
>;

/// What `chrono::NaiveDate::parse_from_str` reads from `s` by the pattern
/// `pattern`: the first second of that day, in UTC.
pub uninterp spec fn date_instant(s: Seq<char>, pattern: Seq<char>) -> Option<(int, int)>;

/// The character is a padding mark, which may stand between the percent
/// sign of an item and its letter.
pub open spec fn is_padding_mark(c: char) -> bool {
    c == '-' || c == '0' || c == '_'
}

/// The place of the letter of the item that starts with the percent sign at
/// place `i`: after the sign, and after one padding mark where there is one.
pub open spec fn item_letter_at(pattern: Seq<char>, i: int) -> int {
    if i + 1 < pattern.len() && is_padding_mark(pattern[i + 1]) {
        i + 2
    } else {
        i + 1
    }
}

/// Some item of the pattern from place `from` on is the year of the ISO week
/// date: a percent sign, one padding mark or none, and the letter G. Items
/// are read from left to right, so a doubled percent sign is an item of its
/// own and starts none.
pub open spec fn names_iso_year_from(pattern: Seq<char>, from: int) -> bool
    decreases pattern.len() - from,
{
    if from < 0 || from >= pattern.len() {
        false
    } else if pattern[from] != '%' {
        names_iso_year_from(pattern, from + 1)
    } else {
        let letter = item_letter_at(pattern, from);
        if letter >= pattern.len() {
            false
        } else if pattern[letter] == 'G' {
            true
        } else {
            names_iso_year_from(pattern, letter + 1)
        }
    }
}

/// The pattern names the year of the ISO week date.
pub open spec fn names_iso_year(pattern: Seq<char>) -> bool {
    names_iso_year_from(pattern, 0)
}

/// The text holds the word at place `i`.
pub open spec fn holds_at(s: Seq<char>, word: Seq<char>, i: int) -> bool {
    0 <= i && i + word.len() <= s.len() && s.subrange(i, i + word.len()) == word
}

/// The text holds the word somewhere.
pub open spec fn holds_word(s: Seq<char>, word: Seq<char>) -> bool {
    exists|i: int| holds_at(s, word, i)
}

/// The text holds the digits of the greatest or the least year that 32 bits hold.
pub open spec fn holds_extreme_year(s: Seq<char>) -> bool {
    holds_word(s, "2147483647"@) || holds_word(s, "2147483648"@)
}

/// The text and the pattern are a pair that `chrono` reads without leaving
/// the years that it can count in: the pattern does not name the year of the
/// ISO week date, or the text does not hold an extreme year.
pub open spec fn reads_safely(s: Seq<char>, pattern: Seq<char>) -> bool {
    !(names_iso_year(pattern) && holds_extreme_year(s))
}

/// No character of the pattern is the letter G.
pub open spec fn holds_no_g(pattern: Seq<char>) -> bool {
    forall|i: int| 0 <= i < pattern.len() ==> #[trigger] pattern[i] != 'G'
}

/// A pattern without the letter G names the year of the ISO week date
/// nowhere.
pub proof fn lemma_no_iso_year_from(pattern: Seq<char>, from: int)
    requires
        holds_no_g(pattern),
    ensures
        !names_iso_year_from(pattern, from),
    decreases pattern.len() - from,
{
    if 0 <= from < pattern.len() {
        if pattern[from] != '%' {
            lemma_no_iso_year_from(pattern, from + 1);
        } else {
            let letter = item_letter_at(pattern, from);
            if letter < pattern.len() {
                assert(pattern[letter] != 'G');
                lemma_no_iso_year_from(pattern, letter + 1);
            }
        }
    }
}

/// A pattern without the letter G does not name the year of the ISO week date.
pub proof fn lemma_no_iso_year(pattern: Seq<char>)
    requires
        holds_no_g(pattern),
    ensures
        !names_iso_year(pattern),
{
    lemma_no_iso_year_from(pattern, 0);
}

/// Whether the pattern names the year of the ISO week date.
pub fn pattern_names_iso_year(pattern: &str) -> (named: bool)
    ensures
        named == names_iso_year(pattern@),
{
    let n = pattern.unicode_len();
    let mut i: usize = 0;
    while i < n
        invariant
            n == pattern@.len(),
            i <= n,
            names_iso_year_from(pattern@, i as int) == names_iso_year(pattern@),
        decreases n - i,
    {
        if pattern.get_char(i) != '%' {
            i = i + 1;
        } else {
            if i + 1 >= n {
                return false;
            }
            let mark = pattern.get_char(i + 1);
            let letter: usize = if mark == '-' || mark == '0' || mark == '_' {
                i + 2
            } else {
                i + 1
            };
            if letter >= n {
                return false;
            }
            if pattern.get_char(letter) == 'G' {
                return true;
            }
            i = letter + 1;
        }
    }
    false
}

/// Whether the text holds the word somewhere.
pub fn text_holds(s: &str, word: &str) -> (held: bool)
    ensures
        held == holds_word(s@, word@),
{
    let n = s.unicode_len();
    let m = word.unicode_len();
    if m > n {
        return false;
    }
    if m == 0 {
        assert(s@.subrange(0, 0) =~= word@);
        assert(holds_at(s@, word@, 0));
        return true;
    }
    let mut i: usize = 0;
    while i <= n - m
        invariant
            n == s@.len(),
            m == word@.len(),
            1 <= m <= n,
            i <= n - m + 1,
            forall|j: int| 0 <= j < i ==> !holds_at(s@, word@, j),
        decreases n - m + 1 - i,
    {
        if same_text(s.substring_char(i, i + m), word) {
            assert(holds_at(s@, word@, i as int));
            return true;
        }
        i = i + 1;
    }
    assert forall|j: int| !holds_at(s@, word@, j) by {
    }
    false
}

/// Whether `chrono` reads the text by the pattern without leaving the years
/// that it can count in.
pub fn can_read_safely(s: &str, pattern: &str) -> (safe: bool)
    ensures
        safe == reads_safely(s@, pattern@),
{
    !(pattern_names_iso_year(pattern) && (text_holds(s, "2147483647") || text_holds(
        s,
        "2147483648",
    )))
}

/// An instant of the range, where there is one.
pub open spec fn instant_ok(instant: Option<(i64, u32)>) -> bool {
    instant matches Some(v) ==> seconds_in_range(v.0 as int) && v.1 < 2_000_000_000
}

/// A reading as integers.
pub open spec fn widen_reading(reading: Result<(i64, u32), String>) -> Result<
    (int, int),
    Seq<char>,
> {
    match reading {
        Ok(v) => Ok((v.0 as int, v.1 as int)),
        Err(e) => Err(e@),
    }
}

/// Calls `chrono::DateTime::parse_from_rfc3339` and moves the result to UTC.
/// Claimed: the result is a function of the text alone, and an instant of
/// the range; and a text of four digits of year, month, day, a "T", hour,
/// minute, second, a point, three digits of milliseconds and a "Z", which is
/// a date and time of that standard, reads as the instant that it spells.
#[verifier::external_body]
pub(crate) fn read_rfc3339(s: &str) -> (instant: Option<(i64, u32)>)
    ensures
        widen(instant) == rfc3339_instant(s@),
        instant_ok(instant),
        forall|secs: int, nanos: int| #[trigger]
            spells_instant(s@, secs, nanos) ==> widen(instant) == Some((secs, nanos)),
{
    match chrono::DateTime::parse_from_rfc3339(s) {
        Ok(at) => Some((at.timestamp(), at.timestamp_subsec_nanos())),
        Err(_) => None,
    }
}

/// Calls `chrono::DateTime::parse_from_rfc2822` and moves the result to UTC.
/// Claimed: the result is a function of the text alone, and an instant of
/// the range.
#[verifier::external_body]
pub(crate) fn read_rfc2822(s: &str) -> (instant: Option<(i64, u32)>)
    ensures
        widen(instant) == rfc2822_instant(s@),
        instant_ok(instant),
{
    match chrono::DateTime::parse_from_rfc2822(s) {
        Ok(at) => Some((at.timestamp(), at.timestamp_subsec_nanos())),
        Err(_) => None,
    }
}

/// Calls `chrono::DateTime::parse_from_str` and moves the result to UTC.
/// Claimed: for a pattern that does not name the year of the ISO week date,
/// the result is a function of the text and the pattern alone, and an
/// instant of the range.
#[verifier::external_body]
pub(crate) fn read_zoned(s: &str, pattern: &str) -> (instant: Option<(i64, u32)>)
    requires
        !names_iso_year(pattern@),
    ensures
        widen(instant) == zoned_instant(s@, pattern@),
        instant_ok(instant),
{
    match chrono::DateTime::parse_from_str(s, pattern) {
        Ok(at) => Some((at.timestamp(), at.timestamp_subsec_nanos())),
        Err(_) => None,
    }
}

/// Calls `chrono::NaiveDateTime::parse_from_str` and takes the result as UTC;
/// an error is returned as its text. Claimed: unless the pattern names the
/// year of the ISO week date and the text holds an extreme year, the result
/// is a function of the text and the pattern alone, and an instant of the
/// range.
#[verifier::external_body]
pub(crate) fn read_plain(s: &str, pattern: &str) -> (reading: Result<(i64, u32), String>)
    requires
        reads_safely(s@, pattern@),
    ensures
        widen_reading(reading) == plain_instant(s@, pattern@),
        reading matches Ok(v) ==> seconds_in_range(v.0 as int) && v.1 < 2_000_000_000,
{
    match chrono::NaiveDateTime::parse_from_str(s, pattern) {
        Ok(at) => Ok((at.and_utc().timestamp(), at.and_utc().timestamp_subsec_nanos())),
        Err(e) => Err(e.to_string()),
    }
}

/// Calls `chrono::NaiveDate::parse_from_str` and takes midnight of the result
/// as UTC. Claimed: for a pattern that does not name the year of the ISO week
/// date, the result is a function of the text and the pattern alone, and the
/// first instant of a day of the range.
#[verifier::external_body]
pub(crate) fn read_date(s: &str, pattern: &str) -> (instant: Option<(i64, u32)>)
    requires
        !names_iso_year(pattern@),
    ensures
        widen(instant) == date_instant(s@, pattern@),
        instant_ok(instant),
        instant matches Some(v) ==> v.0 % 86_400 == 0 && v.1 == 0,
{
    match chrono::NaiveDate::parse_from_str(s, pattern) {
        Ok(day) => Some((day.and_time(chrono::NaiveTime::MIN).and_utc().timestamp(), 0)),
        Err(_) => None,
    }
}

} // verus!
