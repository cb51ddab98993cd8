//! Units of granularity.

use vstd::prelude::*;
use vstd::string::StringExecFns;

verus! {

/// A granularity for flooring, ceiling, comparing and differencing.
#[derive(Clone, Copy, Debug, PartialEq, Eq, Structural)]
pub enum Unit {
    Year,
    Month,
    Week,
    Day,
    Hour,
    Minute,
    Second,
    Millisecond,
}

/// What `str::to_lowercase` returns for `s`.
pub uninterp spec fn lowercase_of(s: Seq<char>) -> Seq<char>;

/// Every character of the text is one of the 128 of ASCII.
pub open spec fn is_ascii_text(s: Seq<char>) -> bool {
    forall|i: int| 0 <= i < s.len() ==> (#[trigger] s[i]) as int <= 127
}

/// The text with each capital letter of ASCII replaced by its small letter.
pub open spec fn ascii_lowered(s: Seq<char>) -> Seq<char> {
    Seq::new(
        s.len(),
        |i: int|
            if 65 <= s[i] as int <= 90 {
                (s[i] as int + 32) as char
            } else {
                s[i]
            },
    )
}

/// Calls `str::to_lowercase`. Claimed: the result is a function of the text
/// alone, and in a text of ASCII each capital letter is replaced by its small
/// letter and nothing else is changed.
#[verifier::external_body]
pub(crate) fn to_lowercase(s: &str) -> (lower: String)
    ensures
        lower@ == lowercase_of(s@),
        is_ascii_text(s@) ==> lower@ == ascii_lowered(s@),
{
    s.to_lowercase()
}

/// The unit that the lower-case name `t` stands for.
pub open spec fn unit_named(t: Seq<char>) -> Option<Unit> {
    if t == "year"@ || t == "years"@ || t == "y"@ {
        Some(Unit::Year)
    } else if t == "month"@ || t == "months"@ {
        Some(Unit::Month)
    } else if t == "week"@ || t == "weeks"@ || t == "w"@ {
        Some(Unit::Week)
    } else if t == "day"@ || t == "days"@ || t == "d"@ {
        Some(Unit::Day)
    } else if t == "hour"@ || t == "hours"@ || t == "h"@ {
        Some(Unit::Hour)
    } else if t == "minute"@ || t == "minutes"@ || t == "m"@ {
        Some(Unit::Minute)
    } else if t == "second"@ || t == "seconds"@ || t == "s"@ {
        Some(Unit::Second)
    } else if t == "millisecond"@ || t == "milliseconds"@ || t == "ms"@ {
        Some(Unit::Millisecond)
    } else {
        None
    }
}

/// The result is the unit that the lower-case name `lower` stands for, or
/// the error that holds the name `s` as it was given.
pub open spec fn named_as(unit: Result<Unit, String>, lower: Seq<char>, s: Seq<char>) -> bool {
    match unit_named(lower) {
        Some(u) => unit == Ok::<Unit, String>(u),
        None => unit matches Err(e) && e@ == "Unknown unit: "@ + s,
    }
}

/// Whether `a` and `b` hold the same text.
pub fn same_text(a: &str, b: &str) -> (same: bool)
    ensures
        same == (a@ == b@),
{
    let x = String::from_str(a);
    let y = String::from_str(b);
    x == y
}

impl Unit {
    /// The unit named by `t`, which is taken as it stands: only lower-case names are known.
    pub fn from_lowercase(t: &str) -> (unit: Option<Unit>)
        ensures
            unit == unit_named(t@),
    {
        if same_text(t, "year") || same_text(t, "years") || same_text(t, "y") {
            Some(Unit::Year)
        } else if same_text(t, "month") || same_text(t, "months") {
            Some(Unit::Month)
        } else if same_text(t, "week") || same_text(t, "weeks") || same_text(t, "w") {
            Some(Unit::Week)
        } else if same_text(t, "day") || same_text(t, "days") || same_text(t, "d") {
            Some(Unit::Day)
        } else if same_text(t, "hour") || same_text(t, "hours") || same_text(t, "h") {
            Some(Unit::Hour)
        } else if same_text(t, "minute") || same_text(t, "minutes") || same_text(t, "m") {
            Some(Unit::Minute)
        } else if same_text(t, "second") || same_text(t, "seconds") || same_text(t, "s") {
            Some(Unit::Second)
        } else if same_text(t, "millisecond") || same_text(t, "milliseconds") || same_text(
            t,
            "ms",
        ) {
            Some(Unit::Millisecond)
        } else {
            None
        }
    }

    /// The unit named by `s`, whatever the case of its letters; an unknown
    /// name is handed back in the error.
    pub fn from_str(s: &str) -> (unit: Result<Unit, String>)
        ensures
            named_as(unit, lowercase_of(s@), s@),
            is_ascii_text(s@) ==> named_as(unit, ascii_lowered(s@), s@),
    {
        let lower = to_lowercase(s);
        match Unit::from_lowercase(lower.as_str()) {
            Some(u) => Ok(u),
            None => Err(String::from_str("Unknown unit: ").concat(s)),
        }
    }
}

} // verus!
