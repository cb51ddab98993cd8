//! Calendar-aware date-time values: a tolerant multi-format parser,
//! unit-granular arithmetic, boundaries, comparisons and differences.

pub mod arith;
pub mod boundary;
pub mod calendar;
pub mod civil;
pub mod clock;
pub mod create;
pub mod diff;
pub mod digits;
pub mod display;
pub mod laws;
pub mod mutate;
pub mod number;
pub mod object;
pub mod offset;
pub mod parse;
pub mod query;
pub mod render;
pub mod space;
pub mod text;
pub mod unit;
pub mod value;
pub mod zone;

pub use chrono;

pub use arith::OperationTime;
pub use create::{
    dayjs, from_array, from_datetime, from_format, from_int64, from_naive, from_str, from_timezone,
    from_ymd, from_ymdhms, now, timestamp,
};
pub use diff::DiffTime;
pub use display::DisplayTime;
pub use parse::parse_date_time;
pub use query::{max, min, QueryTime};
pub use unit::Unit;
pub use value::{Dayjs, Weekday};
pub use zone::TimeZone;
