//! Reading an instant from text in any of the known shapes.
//!
//! The shapes are tried in a fixed order and the first that fits wins: a
//! trailing "UTC" marker rewritten as a zero offset, the two internet
//! standards, patterns with an offset, patterns without one, which are taken
//! as UTC, and dates alone, which are taken as midnight UTC.

use crate::calendar::{day_of, day_of_month, month_of_day, second_of_day, year_of_day};
use crate::civil::widen;
use crate::display::{iso_text_of, lemma_padded_starts_with_digit, padded, spells_instant};
use crate::space::{
    end_trimmed, is_space, text_end, text_start, trim_end_text, trim_text, trimmed,
};
use crate::text::{
    date_instant, instant_ok, lemma_no_iso_year, names_iso_year, plain_instant, read_date,
    read_plain, read_rfc2822, read_rfc3339, read_zoned, rfc2822_instant, rfc3339_instant,
    zoned_instant,
};
use vstd::prelude::*;
use vstd::string::StrSliceExecFns;
use vstd::string::StringExecFns;

verus! {

/// The text ends with "UTC" in any case of letters.
pub open spec fn ends_with_utc(s: Seq<char>) -> bool {
    let n = s.len() as int;
    n >= 3 && (s[n - 3] == 'U' || s[n - 3] == 'u') && (s[n - 2] == 'T' || s[n - 2] == 't') && (s[n
        - 1] == 'C' || s[n - 1] == 'c')
}

/// The text with its trailing "UTC" marker replaced by a zero offset.
pub open spec fn utc_rewritten(s: Seq<char>) -> Seq<char> {
    end_trimmed(s.subrange(0, s.len() - 3)) + " +00:00"@
}

/// The first reading where there is one, else the second.
pub open spec fn or_else(first: Option<(int, int)>, second: Option<(int, int)>) -> Option<
    (int, int),
> {
    if first is Some {
        first
    } else {
        second
    }
}

/// A plain reading without its error.
pub open spec fn plain(s: Seq<char>, pattern: Seq<char>) -> Option<(int, int)> {
    match plain_instant(s, pattern) {
        Ok(v) => Some(v),
        Err(_) => None,
    }
}

/// The reading of a text with a rewritten "UTC" marker.
pub open spec fn marked_reading(s: Seq<char>) -> Option<(int, int)> {
    if ends_with_utc(s) {
        zoned_instant(utc_rewritten(s), "%Y-%m-%d %H:%M:%S %:z"@)
    } else {
        None
    }
}

/// The reading by the first pattern with an offset that fits.
pub open spec fn zoned_reading(s: Seq<char>) -> Option<(int, int)> {
    or_else(
        zoned_instant(s, "%Y-%m-%d %H:%M:%S%.f %z"@),
        or_else(
            zoned_instant(s, "%Y-%m-%dT%H:%M:%S%.fZ"@),
            or_else(
                zoned_instant(s, "%Y-%m-%d %H:%M:%S %:z"@),
                or_else(
                    zoned_instant(s, "%Y-%m-%dT%H:%M:%S%:z"@),
                    or_else(
                        zoned_instant(s, "%Y-%m-%dT%H:%M:%S%.f%:z"@),
                        zoned_instant(s, "%Y/%m/%d %H:%M:%S %:z"@),
                    ),
                ),
            ),
        ),
    )
}

/// The reading by the first pattern without an offset that fits.
pub open spec fn plain_reading(s: Seq<char>) -> Option<(int, int)> {
    or_else(
        plain(s, "%Y-%m-%d %H:%M:%S%.f"@),
        or_else(
            plain(s, "%Y-%m-%d %H:%M:%S"@),
            or_else(
                plain(s, "%Y-%m-%dT%H:%M:%S%.f"@),
                or_else(
                    plain(s, "%Y-%m-%dT%H:%M:%S"@),
                    or_else(
                        plain(s, "%Y/%m/%d %H:%M:%S"@),
                        or_else(plain(s, "%Y/%m/%d"@), plain(s, "%Y-%m-%d"@)),
                    ),
                ),
            ),
        ),
    )
}

/// The reading by the first pattern of a date alone that fits.
pub open spec fn date_reading(s: Seq<char>) -> Option<(int, int)> {
    or_else(
        date_instant(s, "%Y-%m-%d"@),
        or_else(
            date_instant(s, "%Y/%m/%d"@),
            or_else(date_instant(s, "%d-%m-%Y"@), date_instant(s, "%d/%m/%Y"@)),
        ),
    )
}

/// The instant that a text stands for, the space around it ignored.
pub open spec fn parsed(text: Seq<char>) -> Option<(int, int)> {
    let s = trimmed(text);
    or_else(
        marked_reading(s),
        or_else(
            rfc3339_instant(s),
            or_else(
                rfc2822_instant(s),
                or_else(zoned_reading(s), or_else(plain_reading(s), date_reading(s))),
            ),
        ),
    )
}

/// None of the patterns with an offset names the year of the ISO week date.
pub proof fn lemma_zoned_patterns()
    ensures
        !names_iso_year("%Y-%m-%d %H:%M:%S %:z"@),
        !names_iso_year("%Y-%m-%d %H:%M:%S%.f %z"@),
        !names_iso_year("%Y-%m-%dT%H:%M:%S%.fZ"@),
        !names_iso_year("%Y-%m-%dT%H:%M:%S%:z"@),
        !names_iso_year("%Y-%m-%dT%H:%M:%S%.f%:z"@),
        !names_iso_year("%Y/%m/%d %H:%M:%S %:z"@),
{
    reveal_strlit("%Y-%m-%d %H:%M:%S %:z");
    lemma_no_iso_year("%Y-%m-%d %H:%M:%S %:z"@);
    reveal_strlit("%Y-%m-%d %H:%M:%S%.f %z");
    lemma_no_iso_year("%Y-%m-%d %H:%M:%S%.f %z"@);
    reveal_strlit("%Y-%m-%dT%H:%M:%S%.fZ");
    lemma_no_iso_year("%Y-%m-%dT%H:%M:%S%.fZ"@);
    reveal_strlit("%Y-%m-%dT%H:%M:%S%:z");
    lemma_no_iso_year("%Y-%m-%dT%H:%M:%S%:z"@);
    reveal_strlit("%Y-%m-%dT%H:%M:%S%.f%:z");
    lemma_no_iso_year("%Y-%m-%dT%H:%M:%S%.f%:z"@);
    reveal_strlit("%Y/%m/%d %H:%M:%S %:z");
    lemma_no_iso_year("%Y/%m/%d %H:%M:%S %:z"@);
}

/// None of the patterns without an offset names the year of the ISO week date.
pub proof fn lemma_plain_patterns()
    ensures
        !names_iso_year("%Y-%m-%d %H:%M:%S%.f"@),
        !names_iso_year("%Y-%m-%d %H:%M:%S"@),
        !names_iso_year("%Y-%m-%dT%H:%M:%S%.f"@),
        !names_iso_year("%Y-%m-%dT%H:%M:%S"@),
        !names_iso_year("%Y/%m/%d %H:%M:%S"@),
        !names_iso_year("%Y/%m/%d"@),
        !names_iso_year("%Y-%m-%d"@),
{
    reveal_strlit("%Y-%m-%d %H:%M:%S%.f");
    lemma_no_iso_year("%Y-%m-%d %H:%M:%S%.f"@);
    reveal_strlit("%Y-%m-%d %H:%M:%S");
    lemma_no_iso_year("%Y-%m-%d %H:%M:%S"@);
    reveal_strlit("%Y-%m-%dT%H:%M:%S%.f");
    lemma_no_iso_year("%Y-%m-%dT%H:%M:%S%.f"@);
    reveal_strlit("%Y-%m-%dT%H:%M:%S");
    lemma_no_iso_year("%Y-%m-%dT%H:%M:%S"@);
    reveal_strlit("%Y/%m/%d %H:%M:%S");
    lemma_no_iso_year("%Y/%m/%d %H:%M:%S"@);
    reveal_strlit("%Y/%m/%d");
    lemma_no_iso_year("%Y/%m/%d"@);
    reveal_strlit("%Y-%m-%d");
    lemma_no_iso_year("%Y-%m-%d"@);
}

/// None of the patterns of a date alone names the year of the ISO week date.
pub proof fn lemma_date_patterns()
    ensures
        !names_iso_year("%Y-%m-%d"@),
        !names_iso_year("%Y/%m/%d"@),
        !names_iso_year("%d-%m-%Y"@),
        !names_iso_year("%d/%m/%Y"@),
{
    reveal_strlit("%Y-%m-%d");
    lemma_no_iso_year("%Y-%m-%d"@);
    reveal_strlit("%Y/%m/%d");
    lemma_no_iso_year("%Y/%m/%d"@);
    reveal_strlit("%d-%m-%Y");
    lemma_no_iso_year("%d-%m-%Y"@);
    reveal_strlit("%d/%m/%Y");
    lemma_no_iso_year("%d/%m/%Y"@);
}

/// The text that spells an instant has no white space at its ends and no
/// "UTC" marker: it starts with a digit and ends with a "Z".
pub proof fn lemma_iso_text_is_plain(secs: int, nanos: int)
    requires
        0 <= year_of_day(day_of(secs)),
    ensures
        trimmed(iso_text_of(secs, nanos)) == iso_text_of(secs, nanos),
        !ends_with_utc(iso_text_of(secs, nanos)),
{
    let n = day_of(secs);
    let time = second_of_day(secs);
    let t = iso_text_of(secs, nanos);
    let year = padded(year_of_day(n), 4);
    lemma_padded_starts_with_digit(year_of_day(n), 4);
    reveal_strlit("Z");
    let t1 = year + "-"@;
    let t2 = t1 + padded(month_of_day(n), 2);
    let t3 = t2 + "-"@;
    let t4 = t3 + padded(day_of_month(n), 2);
    let t5 = t4 + "T"@;
    let t6 = t5 + padded(time / 3600, 2);
    let t7 = t6 + ":"@;
    let t8 = t7 + padded(time / 60 % 60, 2);
    let t9 = t8 + ":"@;
    let t10 = t9 + padded(time % 60, 2);
    let t11 = t10 + "."@;
    let t12 = t11 + padded(nanos / 1_000_000, 3);
    assert(t1[0] == year[0]);
    assert(t2[0] == year[0]);
    assert(t3[0] == year[0]);
    assert(t4[0] == year[0]);
    assert(t5[0] == year[0]);
    assert(t6[0] == year[0]);
    assert(t7[0] == year[0]);
    assert(t8[0] == year[0]);
    assert(t9[0] == year[0]);
    assert(t10[0] == year[0]);
    assert(t11[0] == year[0]);
    assert(t12[0] == year[0]);
    assert(t == t12 + "Z"@);
    assert(t[0] == year[0]);
    let len = t.len() as int;
    assert(t[len - 1] == 'Z');
    assert(!is_space(t[0]));
    assert(!is_space(t[len - 1]));
    assert(text_start(t, 0) == 0);
    assert(text_end(t, len) == len);
    assert(t.subrange(0, len) =~= t);
}

/// Whether the text ends with "UTC" in any case of letters.
pub fn has_utc_marker(s: &str) -> (marked: bool)
    ensures
        marked == ends_with_utc(s@),
{
    let n = s.unicode_len();
    if n < 3 {
        return false;
    }
    let u = s.get_char(n - 3);
    let t = s.get_char(n - 2);
    let c = s.get_char(n - 1);
    (u == 'U' || u == 'u') && (t == 'T' || t == 't') && (c == 'C' || c == 'c')
}

/// The reading of a text with a rewritten "UTC" marker.
fn read_marked(s: &str) -> (instant: Option<(i64, u32)>)
    ensures
        widen(instant) == marked_reading(s@),
        instant_ok(instant),
{
    if has_utc_marker(s) {
        proof {
            lemma_zoned_patterns();
        }
        let n = s.unicode_len();
        let head = trim_end_text(s.substring_char(0, n - 3));
        let rewritten = head.concat(" +00:00");
        read_zoned(rewritten.as_str(), "%Y-%m-%d %H:%M:%S %:z")
    } else {
        None
    }
}

/// The reading by the first pattern with an offset that fits.
fn read_any_zoned(s: &str) -> (instant: Option<(i64, u32)>)
    ensures
        widen(instant) == zoned_reading(s@),
        instant_ok(instant),
{
    proof {
        lemma_zoned_patterns();
    }
    let r = read_zoned(s, "%Y-%m-%d %H:%M:%S%.f %z");
    if r.is_some() {
        return r;
    }
    let r = read_zoned(s, "%Y-%m-%dT%H:%M:%S%.fZ");
    if r.is_some() {
        return r;
    }
    let r = read_zoned(s, "%Y-%m-%d %H:%M:%S %:z");
    if r.is_some() {
        return r;
    }
    let r = read_zoned(s, "%Y-%m-%dT%H:%M:%S%:z");
    if r.is_some() {
        return r;
    }
    let r = read_zoned(s, "%Y-%m-%dT%H:%M:%S%.f%:z");
    if r.is_some() {
        return r;
    }
    read_zoned(s, "%Y/%m/%d %H:%M:%S %:z")
}

/// A plain reading without its error.
fn read_plain_instant(s: &str, pattern: &str) -> (instant: Option<(i64, u32)>)
    requires
        !names_iso_year(pattern@),
    ensures
        widen(instant) == plain(s@, pattern@),
        instant_ok(instant),
{
    match read_plain(s, pattern) {
        Ok(v) => Some(v),
        Err(_) => None,
    }
}

/// The reading by the first pattern without an offset that fits.
fn read_any_plain(s: &str) -> (instant: Option<(i64, u32)>)
    ensures
        widen(instant) == plain_reading(s@),
        instant_ok(instant),
{
    proof {
        lemma_plain_patterns();
    }
    let r = read_plain_instant(s, "%Y-%m-%d %H:%M:%S%.f");
    if r.is_some() {
        return r;
    }
    let r = read_plain_instant(s, "%Y-%m-%d %H:%M:%S");
    if r.is_some() {
        return r;
    }
    let r = read_plain_instant(s, "%Y-%m-%dT%H:%M:%S%.f");
    if r.is_some() {
        return r;
    }
    let r = read_plain_instant(s, "%Y-%m-%dT%H:%M:%S");
    if r.is_some() {
        return r;
    }
    let r = read_plain_instant(s, "%Y/%m/%d %H:%M:%S");
    if r.is_some() {
        return r;
    }
    let r = read_plain_instant(s, "%Y/%m/%d");
    if r.is_some() {
        return r;
    }
    read_plain_instant(s, "%Y-%m-%d")
}

/// The reading by the first pattern of a date alone that fits.
fn read_any_date(s: &str) -> (instant: Option<(i64, u32)>)
    ensures
        widen(instant) == date_reading(s@),
        instant_ok(instant),
        instant matches Some(v) ==> v.0 % 86_400 == 0 && v.1 == 0,
{
    proof {
        lemma_date_patterns();
    }
    let r = read_date(s, "%Y-%m-%d");
    if r.is_some() {
        return r;
    }
    let r = read_date(s, "%Y/%m/%d");
    if r.is_some() {
        return r;
    }
    let r = read_date(s, "%d-%m-%Y");
    if r.is_some() {
        return r;
    }
    read_date(s, "%d/%m/%Y")
}

/// No shape but that of a date alone fits the text.
pub open spec fn only_date_fits(text: Seq<char>) -> bool {
    let s = trimmed(text);
    marked_reading(s) is None && rfc3339_instant(s) is None && rfc2822_instant(s) is None
        && zoned_reading(s) is None && plain_reading(s) is None
}

/// Reads an instant, as seconds since 1970-01-01T00:00:00Z and nanoseconds,
/// from a text in any of the known shapes. A date alone is read as its
/// midnight in UTC.
pub fn parse_date_time(s: &str) -> (instant: Option<(i64, u32)>)
    ensures
        widen(instant) == parsed(s@),
        instant_ok(instant),
        only_date_fits(s@) ==> (instant matches Some(v) ==> v.0 % 86_400 == 0 && v.1 == 0),
        forall|secs: int, nanos: int| #[trigger]
            spells_instant(s@, secs, nanos) ==> widen(instant) == Some((secs, nanos)),
{
    proof {
        assert forall|secs: int, nanos: int| #[trigger]
            spells_instant(s@, secs, nanos) implies trimmed(s@) == s@ && !ends_with_utc(s@) by {
            lemma_iso_text_is_plain(secs, nanos);
        }
    }
    let text = trim_text(s);
    let s = text.as_str();
    let r = read_marked(s);
    if r.is_some() {
        return r;
    }
    let r = read_rfc3339(s);
    if r.is_some() {
        return r;
    }
    let r = read_rfc2822(s);
    if r.is_some() {
        return r;
    }
    let r = read_any_zoned(s);
    if r.is_some() {
        return r;
    }
    let r = read_any_plain(s);
    if r.is_some() {
        return r;
    }
    read_any_date(s)
}

} // verus!
