//! Writing instants as text, as the `chrono` crate writes them.
//!
//! What a writing returns is a function of the instant, the offset and the
//! template. It is named here, not restated.

use crate::calendar::seconds_in_range;
use vstd::prelude::*;

verus! {

/// What `chrono::DateTime::<Utc>::format` writes for the instant `secs`,
/// `nanos` by `template`; `None` where the template is refused.
pub uninterp spec fn utc_text(secs: int, nanos: int, template: Seq<char>) -> Option<Seq<char>>;

/// What `chrono::DateTime::<FixedOffset>::format` writes for the instant
/// `secs`, `nanos`, seen at `offset` seconds east of Greenwich, by `template`;
/// `None` where the template is refused.
pub uninterp spec fn offset_text_at(
    secs: int,
    nanos: int,
    offset: int,
    template: Seq<char>,
) -> Option<Seq<char>>;

/// What `chrono::DateTime::<Utc>::to_rfc3339` writes for the instant `secs`, `nanos`.
pub uninterp spec fn rfc3339_text(secs: int, nanos: int) -> Seq<char>;

/// A text as its characters.
pub open spec fn text_view(text: Option<String>) -> Option<Seq<char>> {
    match text {
        Some(t) => Some(t@),
        None => None,
    }
}

/// Calls `chrono::DateTime::format` on the instant in UTC and writes the
/// result with `write_to`. Claimed: the result is a function of the instant
/// and the template alone.
#[verifier::external_body]
pub(crate) fn format_utc(secs: i64, nanos: u32, template: &str) -> (text: Option<String>)
    requires
        seconds_in_range(secs as int),
        nanos < 2_000_000_000,
    ensures
        text_view(text) == utc_text(secs as int, nanos as int, template@),
{
    let second = chrono::DateTime::from_timestamp(secs, 0).unwrap().naive_utc();
    let at = chrono::Timelike::with_nanosecond(&second, nanos).unwrap().and_utc();
    let mut out = String::new();
    match at.format(template).write_to(&mut out) {
        Ok(()) => Some(out),
        Err(_) => None,
    }
}

/// Calls `chrono::DateTime::with_timezone` with a `chrono::FixedOffset`, then
/// `format`, and writes the result with `write_to`. Claimed: the result is a
/// function of the instant, the offset and the template alone.
#[verifier::external_body]
pub(crate) fn format_at_offset(secs: i64, nanos: u32, offset: i32, template: &str) -> (text:
    Option<String>)
    requires
        seconds_in_range(secs as int),
        nanos < 2_000_000_000,
        -86_400 < offset < 86_400,
    ensures
        text_view(text) == offset_text_at(secs as int, nanos as int, offset as int, template@),
{
    let second = chrono::DateTime::from_timestamp(secs, 0).unwrap().naive_utc();
    let at = chrono::Timelike::with_nanosecond(&second, nanos).unwrap().and_utc();
    let local = at.with_timezone(&chrono::FixedOffset::east_opt(offset).unwrap());
    let mut out = String::new();
    match local.format(template).write_to(&mut out) {
        Ok(()) => Some(out),
        Err(_) => None,
    }
}

/// Calls `chrono::DateTime::to_rfc3339` on the instant in UTC. Claimed: the
/// result is a function of the instant alone.
#[verifier::external_body]
pub(crate) fn format_rfc3339(secs: i64, nanos: u32) -> (text: String)
    requires
        seconds_in_range(secs as int),
        nanos < 2_000_000_000,
    ensures
        text@ == rfc3339_text(secs as int, nanos as int),
{
    let second = chrono::DateTime::from_timestamp(secs, 0).unwrap().naive_utc();
    chrono::Timelike::with_nanosecond(&second, nanos).unwrap().and_utc().to_rfc3339()
}

} // verus!
