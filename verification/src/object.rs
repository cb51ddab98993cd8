//! A value as an object of two texts, "tz" and "time", and back.

use crate::parse::{or_else, parse_date_time, parsed};
use crate::render::{format_rfc3339, rfc3339_text};
use crate::text::{read_rfc3339, rfc3339_instant};
use crate::value::Dayjs;
use crate::number::parsed_i8;
use crate::space::trimmed;
use crate::zone::{zone_of, TimeZone, ZoneView};
use vstd::prelude::*;
use vstd::string::StringExecFns;

verus! {

#[verifier::external_type_specification]
#[verifier::external_body]
pub struct ExValue(serde_json::Value);

/// The text that a map of text members holds under a key, where it holds one.
pub open spec fn member_of(members: Map<Seq<char>, Seq<char>>, key: Seq<char>) -> Option<
    Seq<char>,
> {
    if members.dom().contains(key) {
        Some(members[key])
    } else {
        None
    }
}

/// A text as its characters.
pub open spec fn member_view(text: Option<String>) -> Option<Seq<char>> {
    match text {
        Some(t) => Some(t@),
        None => None,
    }
}

/// Calls `serde_json::Value::get` and takes the text of what it finds, where
/// that is a text. Claimed: the text is the text member that the value holds
/// under the key, and there is none where it holds no text under it.
#[verifier::external_body]
fn text_member(object: &serde_json::Value, key: &str) -> (text: Option<String>)
    ensures
        member_view(text) == member_of(text_members(*object), key@),
{
    match object.get(key) {
        Some(serde_json::Value::String(text)) => Some(text.clone()),
        _ => None,
    }
}

/// The text members that a `serde_json::Value` holds: for an object, each
/// key whose member is a text, with that text; for any other value, none.
pub uninterp spec fn text_members(object: serde_json::Value) -> Map<Seq<char>, Seq<char>>;

/// The text members of an object of a zone hint and a time.
pub open spec fn zone_and_time(tz: Seq<char>, time: Seq<char>) -> Map<Seq<char>, Seq<char>> {
    two_members("tz"@, tz, "time"@, time)
}

/// The text members of an object of two texts under two keys; the second
/// takes the place of the first where the keys are the same.
pub open spec fn two_members(
    first_key: Seq<char>,
    first: Seq<char>,
    second_key: Seq<char>,
    second: Seq<char>,
) -> Map<Seq<char>, Seq<char>> {
    map![first_key => first, second_key => second]
}

/// The text of a zone hint.
pub open spec fn zone_text(zone: ZoneView) -> Seq<char> {
    match zone {
        ZoneView::Offset(s) => s,
        ZoneView::City(s) => s,
        ZoneView::Number(n) => crate::digits::decimal(n),
    }
}

/// Calls `serde_json::Map::insert` twice on a new map and wraps it as a
/// `serde_json::Value`. Claimed: the object holds the two texts under the two
/// keys, and no other text.
#[verifier::external_body]
fn object_of(first_key: &str, first: String, second_key: &str, second: String) -> (object:
    serde_json::Value)
    ensures
        text_members(object) == two_members(first_key@, first@, second_key@, second@),
{
    let mut members = serde_json::Map::new();
    members.insert(first_key.to_string(), serde_json::Value::String(first));
    members.insert(second_key.to_string(), serde_json::Value::String(second));
    serde_json::Value::Object(members)
}

/// The instant that the "time" text of an object stands for: read as the
/// internet standard first, then in any of the known shapes.
pub open spec fn object_time(time: Seq<char>) -> Option<(int, int)> {
    or_else(rfc3339_instant(time), parsed(time))
}

/// The value is the one that the two texts of an object stand for, or the
/// error is the one that says what is wrong with them.
pub open spec fn object_yields(
    made: Result<Dayjs, String>,
    tz: Option<Seq<char>>,
    time: Option<Seq<char>>,
) -> bool {
    match tz {
        None => made matches Err(m) && m@ == "Missing or invalid 'tz' field"@,
        Some(zone) => match time {
            None => made matches Err(m) && m@ == "Missing or invalid 'time' field"@,
            Some(text) => match object_time(text) {
                None => made matches Err(m) && m@ == "Failed to parse time: "@ + text,
                Some(v) => made matches Ok(d) && d.wf() && d.seconds() == v.0 && d.nanos() == v.1
                    && d.zone() == zone_of(trimmed(zone), parsed_i8(trimmed(zone))),
            },
        },
    }
}

impl Dayjs {
    /// The two texts of the value as an object: the zone hint, and the
    /// instant as the internet standard writes it.
    pub fn to_object_members(&self) -> (members: (String, String))
        requires
            self.wf(),
        ensures
            self.zone() matches ZoneView::Offset(s) ==> members.0@ == s,
            self.zone() matches ZoneView::City(s) ==> members.0@ == s,
            self.zone() matches ZoneView::Number(n) ==> members.0@ == crate::digits::decimal(n),
            members.1@ == rfc3339_text(self.seconds(), self.nanos()),
    {
        (self.get_timezone().to_string(), format_rfc3339(self.unix(), self.nanosecond()))
    }

    /// The value as an object with the members "tz" and "time": the text of
    /// the zone hint, and the instant as the internet standard writes it.
    pub fn to_object(&self) -> (object: serde_json::Value)
        requires
            self.wf(),
        ensures
            text_members(object) == zone_and_time(
                zone_text(self.zone()),
                rfc3339_text(self.seconds(), self.nanos()),
            ),
    {
        let members = self.to_object_members();
        object_of("tz", members.0, "time", members.1)
    }

    /// The value that the two texts of an object stand for; a missing text is
    /// an error, and so is a time that cannot be read.
    pub fn from_object_members(tz: Option<String>, time: Option<String>) -> (made: Result<
        Dayjs,
        String,
    >)
        ensures
            object_yields(made, member_view(tz), member_view(time)),
    {
        let zone_text = match tz {
            Some(text) => text,
            None => {
                return Err(String::from_str("Missing or invalid 'tz' field"));
            },
        };
        let time_text = match time {
            Some(text) => text,
            None => {
                return Err(String::from_str("Missing or invalid 'time' field"));
            },
        };
        let zone = TimeZone::from_string(zone_text);
        let standard = read_rfc3339(time_text.as_str());
        let instant = if standard.is_some() {
            standard
        } else {
            parse_date_time(time_text.as_str())
        };
        match instant {
            Some(v) => Ok(Dayjs::at(zone, v.0, v.1)),
            None => Err(String::from_str("Failed to parse time: ").concat(time_text.as_str())),
        }
    }

    /// The value that an object with the text members "tz" and "time" stands
    /// for; a member that is missing, or is no text, is an error, and so is a
    /// time that cannot be read.
    pub fn from_object(obj: serde_json::Value) -> (made: Result<Dayjs, String>)
        ensures
            object_yields(
                made,
                member_of(text_members(obj), "tz"@),
                member_of(text_members(obj), "time"@),
            ),
    {
        let tz = text_member(&obj, "tz");
        let time = text_member(&obj, "time");
        Dayjs::from_object_members(tz, time)
    }
}

} // verus!
