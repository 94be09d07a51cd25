use crate::common::utils::{decimal, i64_to_text};
use vstd::prelude::*;

verus! {

/// Format description of a calendar date.
pub const DATE: &'static str = "[year]-[month]-[day]";

/// Format description of a time of day.
pub const TIME: &'static str = "[hour]:[minute]:[second]";

/// Format description of a date followed by a time of day.
pub const DATETIME: &'static str = "[year]-[month]-[day] [hour]:[minute]:[second]";

/// Why a time could not be converted.
#[derive(Debug)]
pub enum TimeError {
    /// The Unix timestamp given is below zero.
    NegativeTimestamp(i64),
    /// The format description, the offset, the instant or the text is one
    /// that the calendar cannot take.
    Unrepresentable,
}

impl TimeError {
    /// What [`TimeError::message`] writes.
    pub open spec fn spec_message(&self) -> Seq<char> {
        match self {
            TimeError::NegativeTimestamp(t) => "Invalid negative timestamp: "@ + decimal(*t as int),
            TimeError::Unrepresentable => "Time is out of range or malformed"@,
        }
    }

    /// The error in words.
    pub fn message(&self) -> (r: String)
        ensures
            r@ == self.spec_message(),
    {
        match self {
            TimeError::NegativeTimestamp(t) => {
                let digits = i64_to_text(*t);
                "Invalid negative timestamp: ".to_owned().concat(digits.as_str())
            },
            TimeError::Unrepresentable => "Time is out of range or malformed".to_owned(),
        }
    }
}

/// An instant, and the offset from UTC in which it is to be shown.
#[derive(Debug, Clone, Copy)]
pub struct Moment {
    /// Seconds since the Unix epoch.
    pub timestamp: i64,
    /// Offset from UTC, in seconds east.
    pub offset_seconds: i32,
}

/// What formatting the instant `timestamp`, shown at `offset_seconds` east
/// of UTC, gives under the format description `fmt`; `None` where the
/// description is malformed or the offset or the instant is out of the
/// calendar's range.
pub uninterp spec fn formatted(fmt: Seq<char>, timestamp: int, offset_seconds: int) -> Option<
    Seq<char>,
>;

/// The Unix timestamp that `text` stands for when it is read under the
/// format description `fmt` as a local date and time at `offset_seconds`
/// east of UTC; `None` where the description, the offset or the text is not
/// accepted.
pub uninterp spec fn parsed(fmt: Seq<char>, text: Seq<char>, offset_seconds: int) -> Option<int>;

/// `time::OffsetDateTime::now_utc` followed by `unix_timestamp`: the clock's
/// reading in whole seconds since the Unix epoch. Nothing is promised of it.
#[verifier::external_body]
pub(crate) fn unix_now() -> i64 {
    time::OffsetDateTime::now_utc().unix_timestamp()
}

/// `time::OffsetDateTime::format` on the instant made by
/// `from_unix_timestamp` and moved by `checked_to_offset` to the offset made
/// by `UtcOffset::from_whole_seconds`, under the description read by
/// `format_description::parse`. Any of the five failing gives `None`. The
/// text depends on the three arguments alone, and `formatted` names it.
#[verifier::external_body]
fn format_unix(fmt: &str, timestamp: i64, offset_seconds: i32) -> (r: Option<String>)
    ensures
        match r {
            Some(s) => formatted(fmt@, timestamp as int, offset_seconds as int) == Some(s@),
            None => formatted(fmt@, timestamp as int, offset_seconds as int) is None,
        },
{
    let items = time::format_description::parse(fmt).ok()?;
    let offset = time::UtcOffset::from_whole_seconds(offset_seconds).ok()?;
    let utc = time::OffsetDateTime::from_unix_timestamp(timestamp).ok()?;
    utc.checked_to_offset(offset)?.format(&items).ok()
}

/// `time::PrimitiveDateTime::parse` under the description read by
/// `format_description::parse`, then `assume_offset` with the offset made by
/// `UtcOffset::from_whole_seconds`, then `unix_timestamp`. Any of the three
/// fallible steps failing gives `None`. The number depends on the three
/// arguments alone, and `parsed` names it.
#[verifier::external_body]
fn parse_unix(fmt: &str, text: &str, offset_seconds: i32) -> (r: Option<i64>)
    ensures
        match r {
            Some(t) => parsed(fmt@, text@, offset_seconds as int) == Some(t as int),
            None => parsed(fmt@, text@, offset_seconds as int) is None,
        },
{
    let items = time::format_description::parse(fmt).ok()?;
    let offset = time::UtcOffset::from_whole_seconds(offset_seconds).ok()?;
    let local = time::PrimitiveDateTime::parse(text, &items).ok()?;
    Some(local.assume_offset(offset).unix_timestamp())
}

/// What [`to_string`] returns.
pub open spec fn to_string_spec(fmt: Seq<char>, timestamp: int, offset_seconds: int) -> Option<
    Seq<char>,
> {
    if timestamp < 0 {
        None
    } else {
        formatted(fmt, timestamp, offset_seconds)
    }
}

/// What [`to_timestamp`] returns.
pub open spec fn to_timestamp_spec(fmt: Seq<char>, text: Seq<char>, offset_seconds: int) -> Option<
    int,
> {
    if text.len() == 0 {
        Some(0)
    } else {
        parsed(fmt, text, offset_seconds)
    }
}

/// The present instant, to be shown at `offset_seconds` east of UTC.
pub fn now(offset_seconds: i32) -> (r: Moment)
    ensures
        r.offset_seconds == offset_seconds,
{
    Moment { timestamp: unix_now(), offset_seconds }
}

/// The instant that `datetime` stands for under `fmt`, read as local time
/// at the given offset.
pub fn from_str(fmt: &str, datetime: &str, offset_seconds: i32) -> (r: Result<Moment, TimeError>)
    ensures
        match parsed(fmt@, datetime@, offset_seconds as int) {
            Some(t) => r matches Ok(m) && m.timestamp == t && m.offset_seconds == offset_seconds,
            None => r matches Err(TimeError::Unrepresentable),
        },
{
    match parse_unix(fmt, datetime, offset_seconds) {
        Some(timestamp) => Ok(Moment { timestamp, offset_seconds }),
        None => Err(TimeError::Unrepresentable),
    }
}

/// The instant of a Unix timestamp, to be shown at the given offset. A
/// negative timestamp is refused, and so is one that the calendar cannot
/// show as a date and time at that offset.
pub fn from_timestamp(timestamp: i64, offset_seconds: i32) -> (r: Result<Moment, TimeError>)
    ensures
        timestamp < 0 ==> (r matches Err(TimeError::NegativeTimestamp(t)) && t == timestamp),
        timestamp >= 0 ==> match formatted(DATETIME@, timestamp as int, offset_seconds as int) {
            Some(_) => r matches Ok(m) && m.timestamp == timestamp && m.offset_seconds
                == offset_seconds,
            None => r matches Err(TimeError::Unrepresentable),
        },
{
    if timestamp < 0 {
        return Err(TimeError::NegativeTimestamp(timestamp));
    }
    match format_unix(DATETIME, timestamp, offset_seconds) {
        Some(_) => Ok(Moment { timestamp, offset_seconds }),
        None => Err(TimeError::Unrepresentable),
    }
}

/// Formats a Unix timestamp under `fmt`, shown at the given offset. A
/// negative timestamp is refused before anything is formatted.
pub fn to_string(fmt: &str, timestamp: i64, offset_seconds: i32) -> (r: Result<String, TimeError>)
    ensures
        timestamp < 0 ==> (r matches Err(TimeError::NegativeTimestamp(t)) && t == timestamp),
        timestamp >= 0 ==> match formatted(fmt@, timestamp as int, offset_seconds as int) {
            Some(s) => r matches Ok(out) && out@ == s,
            None => r matches Err(TimeError::Unrepresentable),
        },
        r matches Ok(out) ==> to_string_spec(fmt@, timestamp as int, offset_seconds as int) == Some(
            out@,
        ),
        r is Err ==> to_string_spec(fmt@, timestamp as int, offset_seconds as int) is None,
{
    if timestamp < 0 {
        return Err(TimeError::NegativeTimestamp(timestamp));
    }
    match format_unix(fmt, timestamp, offset_seconds) {
        Some(s) => Ok(s),
        None => Err(TimeError::Unrepresentable),
    }
}

/// Reads `datetime` under `fmt` as local time at the given offset and gives
/// its Unix timestamp. The empty text stands for timestamp 0.
pub fn to_timestamp(fmt: &str, datetime: &str, offset_seconds: i32) -> (r: Result<i64, TimeError>)
    ensures
        match to_timestamp_spec(fmt@, datetime@, offset_seconds as int) {
            Some(t) => r matches Ok(v) && v == t,
            None => r matches Err(TimeError::Unrepresentable),
        },
{
    if datetime.is_empty() {
        return Ok(0);
    }
    match parse_unix(fmt, datetime, offset_seconds) {
        Some(t) => Ok(t),
        None => Err(TimeError::Unrepresentable),
    }
}

/// The offset at which the listings show their times: eight hours east.
pub const DISPLAY_OFFSET_SECONDS: i32 = 28800;

/// How a listing shows the time `timestamp`: as date and time at
/// [`DISPLAY_OFFSET_SECONDS`], or as the empty text where [`to_string`]
/// gives none.
pub open spec fn shown_time(timestamp: int) -> Seq<char> {
    match to_string_spec(DATETIME@, timestamp, DISPLAY_OFFSET_SECONDS as int) {
        Some(s) => s,
        None => Seq::empty(),
    }
}

/// The text that a listing shows for the time `timestamp`.
pub fn display_time(timestamp: i64) -> (r: String)
    ensures
        r@ == shown_time(timestamp as int),
{
    match to_string(DATETIME, timestamp, DISPLAY_OFFSET_SECONDS) {
        Ok(s) => s,
        Err(_) => String::new(),
    }
}

/// Formatting of an instant in the three usual shapes.
pub trait DateTimeFormat {
    spec fn instant(&self) -> Moment;

    fn format_datetime(&self) -> (r: Result<String, TimeError>)
        ensures
            match formatted(
                DATETIME@,
                self.instant().timestamp as int,
                self.instant().offset_seconds as int,
            ) {
                Some(s) => r matches Ok(out) && out@ == s,
                None => r matches Err(TimeError::Unrepresentable),
            },
    ;

    fn format_date(&self) -> (r: Result<String, TimeError>)
        ensures
            match formatted(
                DATE@,
                self.instant().timestamp as int,
                self.instant().offset_seconds as int,
            ) {
                Some(s) => r matches Ok(out) && out@ == s,
                None => r matches Err(TimeError::Unrepresentable),
            },
    ;

    fn format_time(&self) -> (r: Result<String, TimeError>)
        ensures
            match formatted(
                TIME@,
                self.instant().timestamp as int,
                self.instant().offset_seconds as int,
            ) {
                Some(s) => r matches Ok(out) && out@ == s,
                None => r matches Err(TimeError::Unrepresentable),
            },
    ;
}

impl Moment {
    /// Formats this instant under `fmt`, at its own offset.
    pub fn format(&self, fmt: &str) -> (r: Result<String, TimeError>)
        ensures
            match formatted(fmt@, self.timestamp as int, self.offset_seconds as int) {
                Some(s) => r matches Ok(out) && out@ == s,
                None => r matches Err(TimeError::Unrepresentable),
            },
    {
        match format_unix(fmt, self.timestamp, self.offset_seconds) {
            Some(s) => Ok(s),
            None => Err(TimeError::Unrepresentable),
        }
    }

    /// The Unix timestamp of this instant.
    pub fn unix_timestamp(&self) -> (r: i64)
        ensures
            r == self.timestamp,
    {
        self.timestamp
    }
}

impl DateTimeFormat for Moment {
    open spec fn instant(&self) -> Moment {
        *self
    }

    fn format_datetime(&self) -> (r: Result<String, TimeError>) {
        self.format(DATETIME)
    }

    fn format_date(&self) -> (r: Result<String, TimeError>) {
        self.format(DATE)
    }

    fn format_time(&self) -> (r: Result<String, TimeError>) {
        self.format(TIME)
    }
}

} // verus!
