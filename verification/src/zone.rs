//! Zone hints: how a value wants to be shown, never what instant it is.

use crate::clock::local_offset_now;
use crate::digits::{decimal, decimal_text, digit_text};
use crate::number::{parse_i8, parsed_i8};
use crate::space::{trim_text, trimmed};
use vstd::prelude::*;
use vstd::string::StrSliceExecFns;
use vstd::string::StringExecFns;

verus! {

/// A display-zone hint.
#[derive(Clone, Debug, PartialEq)]
pub enum TimeZone {
    /// A fixed offset as text, such as "+08:00".
    TimeZoneTime(String),
    /// A named region, such as "Asia/Shanghai"; it is kept as a label only.
    TimeZoneCity(String),
    /// Whole hours east of Greenwich.
    TimeZoneNumber(i8),
}

/// What a zone hint holds.
pub enum ZoneView {
    Offset(Seq<char>),
    City(Seq<char>),
    Number(int),
}

impl View for TimeZone {
    type V = ZoneView;

    open spec fn view(&self) -> ZoneView {
        match self {
            TimeZone::TimeZoneTime(s) => ZoneView::Offset(s@),
            TimeZone::TimeZoneCity(s) => ZoneView::City(s@),
            TimeZone::TimeZoneNumber(n) => ZoneView::Number(*n as int),
        }
    }
}

/// Two decimal digits for a number below one hundred.
pub open spec fn two_digits(n: int) -> Seq<char> {
    seq![(48 + n / 10) as char, (48 + n % 10) as char]
}

/// The text of an offset of `secs` seconds east of Greenwich: a sign, hours
/// and minutes, and the seconds where they are not zero.
pub open spec fn offset_text(secs: int) -> Seq<char> {
    let a = if secs < 0 {
        -secs
    } else {
        secs
    };
    let head = seq![if secs < 0 {
        '-'
    } else {
        '+'
    }] + two_digits(a / 3600) + seq![':'] + two_digits(a / 60 % 60);
    if a % 60 == 0 {
        head
    } else {
        head + seq![':'] + two_digits(a % 60)
    }
}

/// Two decimal digits for a number below one hundred.
fn two_digits_text(n: u8) -> (t: String)
    requires
        n < 100,
    ensures
        t@ == two_digits(n as int),
{
    let t = String::from_str(digit_text(n / 10)).concat(digit_text(n % 10));
    assert(t@ =~= two_digits(n as int));
    t
}

/// The text of an offset of `secs` seconds east of Greenwich, as `chrono`
/// writes a fixed offset.
pub fn offset_label(secs: i32) -> (label: String)
    requires
        -86_400 < secs < 86_400,
    ensures
        label@ == offset_text(secs as int),
{
    proof {
        reveal_strlit("-");
        reveal_strlit("+");
        reveal_strlit(":");
    }
    let (sign, a): (&str, i32) = if secs < 0 {
        ("-", -secs)
    } else {
        ("+", secs)
    };
    let head = String::from_str(sign).concat(two_digits_text((a / 3600) as u8).as_str()).concat(
        ":",
    ).concat(two_digits_text((a / 60 % 60) as u8).as_str());
    let label = if a % 60 == 0 {
        head
    } else {
        head.concat(":").concat(two_digits_text((a % 60) as u8).as_str())
    };
    assert(label@ =~= offset_text(secs as int));
    label
}

/// The hint is an offset of less than a day, written as the machine's
/// offset is written.
pub open spec fn local_hint(zone: ZoneView) -> bool {
    exists|secs: int|
        -86_400 < secs < 86_400 && zone == ZoneView::Offset(#[trigger] offset_text(secs))
}

/// The hint that the text `t` stands for, where `n` is what `t` reads as a
/// small integer: an offset where it starts with a sign, a number of hours
/// from -12 to 14, else a region's name.
pub open spec fn zone_of(t: Seq<char>, n: Option<i8>) -> ZoneView {
    if t.len() > 0 && (t[0] == '+' || t[0] == '-') {
        ZoneView::Offset(t)
    } else if n is Some && -12 <= n->0 <= 14 {
        ZoneView::Number(n->0 as int)
    } else {
        ZoneView::City(t)
    }
}

impl TimeZone {
    /// The machine's present offset from Greenwich, as an offset hint.
    pub fn current() -> (zone: Self)
        ensures
            local_hint(zone@),
    {
        let secs = local_offset_now();
        let zone = TimeZone::TimeZoneTime(offset_label(secs));
        assert(zone@ == ZoneView::Offset(offset_text(secs as int)));
        zone
    }

    /// The hint for a text that is trimmed already and reads as `number`.
    pub fn classify(text: String, number: Option<i8>) -> (zone: Self)
        ensures
            zone@ == zone_of(text@, number),
    {
        let s = text.as_str();
        if s.unicode_len() > 0 {
            let first = s.get_char(0);
            if first == '+' || first == '-' {
                return TimeZone::TimeZoneTime(text);
            }
        }
        match number {
            Some(n) => {
                if -12 <= n && n <= 14 {
                    return TimeZone::TimeZoneNumber(n);
                }
            },
            None => {},
        }
        TimeZone::TimeZoneCity(text)
    }

    /// Reads a zone hint from text, ignoring the space around it.
    pub fn from_string(s: String) -> (zone: Self)
        ensures
            zone@ == zone_of(trimmed(s@), parsed_i8(trimmed(s@))),
    {
        let text = trim_text(s.as_str());
        let number = parse_i8(text.as_str());
        TimeZone::classify(text, number)
    }

    /// The text of the hint.
    pub fn to_string(&self) -> (t: String)
        ensures
            match self@ {
                ZoneView::Offset(s) => t@ == s,
                ZoneView::City(s) => t@ == s,
                ZoneView::Number(n) => t@ == decimal(n),
            },
    {
        match self {
            TimeZone::TimeZoneTime(s) => s.clone(),
            TimeZone::TimeZoneCity(s) => s.clone(),
            TimeZone::TimeZoneNumber(n) => decimal_text(*n as i64),
        }
    }

    /// A copy of the hint.
    pub fn duplicate(&self) -> (zone: Self)
        ensures
            zone@ == self@,
    {
        match self {
            TimeZone::TimeZoneTime(s) => TimeZone::TimeZoneTime(s.clone()),
            TimeZone::TimeZoneCity(s) => TimeZone::TimeZoneCity(s.clone()),
            TimeZone::TimeZoneNumber(n) => TimeZone::TimeZoneNumber(*n),
        }
    }
}

} // verus!
