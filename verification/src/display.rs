//! Showing a value as text.

use crate::calendar::{
    day_of, day_of_month, month_of_day, second_of_day, seconds_in_range, weekday_of_day,
    year_of_day,
};
use crate::clock::local_offset_at;
use crate::digits::{decimal, decimal_text, digits, digits_text, lemma_digits_are_digits};
use crate::offset::{offset_of_text, parse_offset};
use crate::render::{
    format_at_offset, format_utc, offset_text_at, text_view, utc_text,
};
use crate::value::{Dayjs, Weekday};
use crate::zone::{TimeZone, ZoneView};
use vstd::prelude::*;
use vstd::string::StrSliceExecFns;
use vstd::string::StringExecFns;

verus! {

/// `k` zeros; none where `k` is not positive.
pub open spec fn zeros(k: int) -> Seq<char> {
    Seq::new(
        if k > 0 {
            k as nat
        } else {
            0
        },
        |i: int| '0',
    )
}

/// Decimal text of `n`, filled with zeros after the sign to `width` characters.
pub open spec fn padded(n: int, width: int) -> Seq<char> {
    if n < 0 {
        seq!['-'] + zeros(width - 1 - digits((-n) as nat).len()) + digits((-n) as nat)
    } else {
        zeros(width - digits(n as nat).len()) + digits(n as nat)
    }
}

/// A number without a sign, filled with zeros, starts with a digit.
pub proof fn lemma_padded_starts_with_digit(n: int, width: int)
    requires
        n >= 0,
    ensures
        padded(n, width).len() >= 1,
        48 <= padded(n, width)[0] as int <= 57,
{
    lemma_digits_are_digits(n as nat);
    let body = digits(n as nat);
    let fill = zeros(width - body.len());
    if fill.len() > 0 {
        assert(padded(n, width)[0] == fill[0]);
    } else {
        assert(padded(n, width)[0] == body[0]);
    }
}

/// Decimal text of `n`, filled with zeros after the sign to `width` characters.
pub fn padded_text(n: i64, width: usize) -> (t: String)
    requires
        n > i64::MIN,
        width <= 16,
    ensures
        t@ == padded(n as int, width as int),
{
    proof {
        reveal_strlit("-");
        reveal_strlit("0");
        reveal_strlit("");
    }
    let (body, sign, target): (String, &str, usize) = if n < 0 {
        (
            digits_text((-n) as u64),
            "-",
            if width > 0 {
                width - 1
            } else {
                0
            },
        )
    } else {
        (digits_text(n as u64), "", width)
    };
    let len = body.as_str().unicode_len();
    let mut t = String::from_str(sign);
    let mut k: usize = len;
    while k < target
        invariant
            len <= k,
            target <= 16,
            k <= target || k == len,
            t@ == sign@ + zeros(k - len),
            "0"@ == seq!['0'],
        decreases target - k,
    {
        t.append("0");
        k = k + 1;
        assert(t@ =~= sign@ + zeros(k - len));
    }
    t.append(body.as_str());
    assert(t@ =~= padded(n as int, width as int));
    t
}

/// The three letters of a day of the week.
pub open spec fn weekday_name(index: int) -> Seq<char> {
    if index == 0 {
        "Sun"@
    } else if index == 1 {
        "Mon"@
    } else if index == 2 {
        "Tue"@
    } else if index == 3 {
        "Wed"@
    } else if index == 4 {
        "Thu"@
    } else if index == 5 {
        "Fri"@
    } else {
        "Sat"@
    }
}

/// The three letters of a month, 1 to 12.
pub open spec fn month_name(month: int) -> Seq<char> {
    if month == 1 {
        "Jan"@
    } else if month == 2 {
        "Feb"@
    } else if month == 3 {
        "Mar"@
    } else if month == 4 {
        "Apr"@
    } else if month == 5 {
        "May"@
    } else if month == 6 {
        "Jun"@
    } else if month == 7 {
        "Jul"@
    } else if month == 8 {
        "Aug"@
    } else if month == 9 {
        "Sep"@
    } else if month == 10 {
        "Oct"@
    } else if month == 11 {
        "Nov"@
    } else {
        "Dec"@
    }
}

impl Weekday {
    /// The three letters of the day.
    pub fn short_name(&self) -> (name: &'static str)
        ensures
            name@ == weekday_name(self.index()),
    {
        match self {
            Weekday::Sun => "Sun",
            Weekday::Mon => "Mon",
            Weekday::Tue => "Tue",
            Weekday::Wed => "Wed",
            Weekday::Thu => "Thu",
            Weekday::Fri => "Fri",
            Weekday::Sat => "Sat",
        }
    }
}

/// The three letters of a month, 1 to 12.
pub fn month_short_name(month: u32) -> (name: &'static str)
    ensures
        name@ == month_name(month as int),
{
    if month == 1 {
        "Jan"
    } else if month == 2 {
        "Feb"
    } else if month == 3 {
        "Mar"
    } else if month == 4 {
        "Apr"
    } else if month == 5 {
        "May"
    } else if month == 6 {
        "Jun"
    } else if month == 7 {
        "Jul"
    } else if month == 8 {
        "Aug"
    } else if month == 9 {
        "Sep"
    } else if month == 10 {
        "Oct"
    } else if month == 11 {
        "Nov"
    } else {
        "Dec"
    }
}

/// The template of a value in UTC with six digits of fraction.
pub open spec fn utc_template() -> Seq<char> {
    "%Y-%m-%dT%H:%M:%S%.6fZ"@
}

/// The template of a value at an offset with six digits of fraction.
pub open spec fn local_template() -> Seq<char> {
    "%Y-%m-%dT%H:%M:%S%.6f%:z"@
}

/// A text, or the empty text where there is none.
pub open spec fn text_or_empty(text: Option<Seq<char>>) -> Seq<char> {
    match text {
        Some(t) => t,
        None => Seq::empty(),
    }
}

/// The offset, in seconds east of Greenwich, that a zone hint asks to show a
/// value at: the one it spells or counts in hours, where that is less than a
/// day; for a named region, or an offset that cannot be read, the machine's
/// `local` one; and none, which stands for UTC, for a count of hours of a day
/// or more.
pub open spec fn shown_offset(zone: ZoneView, local: int) -> Option<int> {
    match zone {
        ZoneView::Offset(s) => match offset_of_text(s) {
            Some(offset) => Some(offset),
            None => Some(local),
        },
        ZoneView::Number(hours) => if -86_400 < hours * 3600 < 86_400 {
            Some(hours * 3600)
        } else {
            None
        },
        ZoneView::City(_) => Some(local),
    }
}

/// The text of a value shown as its zone hint asks, where the machine's
/// offset is `local`.
pub open spec fn local_text(value: &Dayjs, local: int) -> Seq<char> {
    match shown_offset(value.zone(), local) {
        Some(offset) => text_or_empty(
            offset_text_at(value.seconds(), value.nanos(), offset, local_template()),
        ),
        None => text_or_empty(utc_text(value.seconds(), value.nanos(), utc_template())),
    }
}

/// The text of the instant `secs`, `nanos` in UTC with three digits of
/// fraction: year, month and day, a "T", hour, minute and second, a point,
/// the milliseconds and a "Z".
pub open spec fn iso_text_of(secs: int, nanos: int) -> Seq<char> {
    let n = day_of(secs);
    let time = second_of_day(secs);
    padded(year_of_day(n), 4) + "-"@ + padded(month_of_day(n), 2) + "-"@ + padded(
        day_of_month(n),
        2,
    ) + "T"@ + padded(time / 3600, 2) + ":"@ + padded(time / 60 % 60, 2) + ":"@ + padded(
        time % 60,
        2,
    ) + "."@ + padded(nanos / 1_000_000, 3) + "Z"@
}

/// The text spells the instant `secs`, `nanos` as `iso_text_of` writes it,
/// and nothing of the instant is lost in the text: its year has at most four
/// digits and no sign, and it is a whole number of milliseconds outside a
/// leap second.
pub open spec fn spells_instant(s: Seq<char>, secs: int, nanos: int) -> bool {
    seconds_in_range(secs) && 0 <= year_of_day(day_of(secs)) <= 9999 && 0 <= nanos
        < 1_000_000_000 && nanos % 1_000_000 == 0 && s == iso_text_of(secs, nanos)
}

impl Dayjs {
    /// The year of the value.
    pub open spec fn year_field(&self) -> int {
        year_of_day(self.civil_day())
    }

    /// The month of the value, 1 to 12.
    pub open spec fn month_field(&self) -> int {
        month_of_day(self.civil_day())
    }

    /// The day of the month of the value.
    pub open spec fn day_field(&self) -> int {
        day_of_month(self.civil_day())
    }

    /// The hour of the value.
    pub open spec fn hour_field(&self) -> int {
        second_of_day(self.seconds()) / 3600
    }

    /// The minute of the value.
    pub open spec fn minute_field(&self) -> int {
        second_of_day(self.seconds()) / 60 % 60
    }

    /// The second of the value.
    pub open spec fn second_field(&self) -> int {
        second_of_day(self.seconds()) % 60
    }

    /// The text of the value as an array of its fields, the month counted
    /// from 0 and the day of the month from 1.
    pub open spec fn array_text(&self) -> Seq<char> {
        "[ "@ + decimal(self.year_field()) + ", "@ + decimal(self.month_field() - 1) + ", "@
            + decimal(self.day_field()) + ", "@ + decimal(self.hour_field()) + ", "@ + decimal(
            self.minute_field(),
        ) + ", "@ + decimal(self.second_field()) + ", "@ + decimal(self.nanos() / 1_000_000)
            + " ]"@
    }

    /// The text of the value in UTC with three digits of fraction.
    pub open spec fn iso_text(&self) -> Seq<char> {
        iso_text_of(self.seconds(), self.nanos())
    }

    /// The text of the value as a date of the web.
    pub open spec fn gmt_text(&self) -> Seq<char> {
        weekday_name(weekday_of_day(self.civil_day())) + ", "@ + padded(self.day_field(), 2)
            + " "@ + month_name(self.month_field()) + " "@ + padded(self.year_field(), 4) + " "@
            + padded(self.hour_field(), 2) + ":"@ + padded(self.minute_field(), 2) + ":"@ + padded(
            self.second_field(),
            2,
        ) + " GMT"@
    }

    /// The text of the value in UTC by a template, where the template is accepted.
    pub fn try_format(&self, template: &str) -> (text: Option<String>)
        requires
            self.wf(),
        ensures
            text_view(text) == utc_text(self.seconds(), self.nanos(), template@),
    {
        match format_utc(self.unix(), self.nanosecond(), template) {
            Some(_) => Some(self.format(template)),
            None => None,
        }
    }

    /// The text of the value in UTC by a template that is accepted.
    pub fn format(&self, template: &str) -> (text: String)
        requires
            self.wf(),
            utc_text(self.seconds(), self.nanos(), template@) is Some,
        ensures
            Some(text@) == utc_text(self.seconds(), self.nanos(), template@),
    {
        match format_utc(self.unix(), self.nanosecond(), template) {
            Some(text) => text,
            None => String::new(),
        }
    }

    /// The text of the value in UTC with six digits of fraction.
    pub fn to_string(&self) -> (text: String)
        requires
            self.wf(),
        ensures
            text@ == text_or_empty(utc_text(self.seconds(), self.nanos(), utc_template())),
    {
        match format_utc(self.unix(), self.nanosecond(), "%Y-%m-%dT%H:%M:%S%.6fZ") {
            Some(text) => text,
            None => String::new(),
        }
    }

    /// The text of the value shown as its zone hint asks, where the machine's
    /// offset is `local` seconds east of Greenwich.
    pub fn to_local_at(&self, local: i32) -> (text: String)
        requires
            self.wf(),
            -86_400 < local < 86_400,
        ensures
            text@ == local_text(self, local as int),
    {
        let offset: Option<i32> = match self.get_timezone() {
            TimeZone::TimeZoneTime(spelled) => match parse_offset(spelled.as_str()) {
                Some(offset) => Some(offset),
                None => Some(local),
            },
            TimeZone::TimeZoneNumber(hours) => {
                let secs: i32 = *hours as i32 * 3600;
                if -86_400 < secs && secs < 86_400 {
                    Some(secs)
                } else {
                    None
                }
            },
            TimeZone::TimeZoneCity(_) => Some(local),
        };
        let text = match offset {
            Some(offset) => format_at_offset(
                self.unix(),
                self.nanosecond(),
                offset,
                "%Y-%m-%dT%H:%M:%S%.6f%:z",
            ),
            None => format_utc(self.unix(), self.nanosecond(), "%Y-%m-%dT%H:%M:%S%.6fZ"),
        };
        match text {
            Some(text) => text,
            None => String::new(),
        }
    }
}

/// Showing a value in the fixed shapes.
pub trait DisplayTime {
    /// The value is one that can be shown.
    spec fn showable(&self) -> bool;

    /// The fields as an array, the month counted from 0 and the day of the
    /// month from 1: "[ 2019, 0, 25, 0, 0, 0, 0 ]" for midnight of 2019-01-25.
    fn to_array(&self) -> String
        requires
            self.showable(),
    ;

    /// The value in UTC with milliseconds, such as "2025-12-21T14:44:55.240Z".
    fn to_iso(&self) -> String
        requires
            self.showable(),
    ;

    /// The value in UTC with microseconds, such as "2025-12-21T14:44:55.240434Z".
    fn to_utc(&self) -> String
        requires
            self.showable(),
    ;

    /// The value as a date of the web, such as "Sun, 21 Dec 2025 14:44:55 GMT".
    fn to_gmt(&self) -> String
        requires
            self.showable(),
    ;

    /// Seconds since 1970-01-01T00:00:00Z.
    fn to_timestamp(&self) -> i64;

    /// The value as its zone hint asks to show it.
    fn to_local(&self) -> String
        requires
            self.showable(),
    ;
}

impl DisplayTime for Dayjs {
    open spec fn showable(&self) -> bool {
        self.wf()
    }

    fn to_array(&self) -> (text: String)
        ensures
            text@ == self.array_text(),
    {
        String::from_str("[ ").concat(decimal_text(self.year() as i64).as_str()).concat(
            ", ",
        ).concat(decimal_text(self.month() as i64).as_str()).concat(", ").concat(
            decimal_text(self.date() as i64).as_str(),
        ).concat(", ").concat(decimal_text(self.hour() as i64).as_str()).concat(", ").concat(
            decimal_text(self.minute() as i64).as_str(),
        ).concat(", ").concat(decimal_text(self.second() as i64).as_str()).concat(", ").concat(
            decimal_text(self.millisecond() as i64).as_str(),
        ).concat(" ]")
    }

    fn to_iso(&self) -> (text: String)
        ensures
            text@ == self.iso_text(),
    {
        padded_text(self.year() as i64, 4).concat("-").concat(
            padded_text(self.month_of_year() as i64, 2).as_str(),
        ).concat("-").concat(padded_text(self.date() as i64, 2).as_str()).concat("T").concat(
            padded_text(self.hour() as i64, 2).as_str(),
        ).concat(":").concat(padded_text(self.minute() as i64, 2).as_str()).concat(":").concat(
            padded_text(self.second() as i64, 2).as_str(),
        ).concat(".").concat(padded_text(self.millisecond() as i64, 3).as_str()).concat("Z")
    }

    fn to_utc(&self) -> (text: String)
        ensures
            text@ == text_or_empty(utc_text(self.seconds(), self.nanos(), utc_template())),
    {
        self.to_string()
    }

    fn to_gmt(&self) -> (text: String)
        ensures
            text@ == self.gmt_text(),
    {
        String::from_str(self.day().short_name()).concat(", ").concat(
            padded_text(self.date() as i64, 2).as_str(),
        ).concat(" ").concat(month_short_name(self.month_of_year())).concat(" ").concat(
            padded_text(self.year() as i64, 4).as_str(),
        ).concat(" ").concat(padded_text(self.hour() as i64, 2).as_str()).concat(":").concat(
            padded_text(self.minute() as i64, 2).as_str(),
        ).concat(":").concat(padded_text(self.second() as i64, 2).as_str()).concat(" GMT")
    }

    fn to_timestamp(&self) -> (secs: i64)
        ensures
            secs == self.seconds(),
    {
        self.unix()
    }

    fn to_local(&self) -> (text: String)
        ensures
            exists|local: int|
                -86_400 < local < 86_400 && text@ == #[trigger] local_text(self, local),
    {
        let local = local_offset_at(self.unix());
        self.to_local_at(local)
    }
}

} // verus!
