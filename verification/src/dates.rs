//! Timestamps and calendar dates, read by the `time` crate, and the date
//! windows built from them (quiz availability, course dates).

use crate::text::{trim, trim_str};
use time::format_description;
use time::format_description::well_known::Rfc3339;
use time::{Date, OffsetDateTime};
use vstd::prelude::*;

verus! {

/// What `time` reads from an RFC 3339 timestamp: the instant in nanoseconds
/// since the Unix epoch, the UTC offset in seconds, and the timestamp as
/// `time` writes it back in RFC 3339 form.
pub uninterp spec fn rfc3339_reading(text: Seq<char>) -> Option<(int, int, Seq<char>)>;

/// Reads an RFC 3339 timestamp with `time::OffsetDateTime::parse` and the
/// `Rfc3339` format description. It returns `None` where `parse` fails;
/// otherwise the instant (`unix_timestamp_nanos`), the offset
/// (`offset().whole_seconds()`), and `format(&Rfc3339)`, or the `Display`
/// text where formatting fails. The contract names the result and states no
/// more of it: the RFC 3339 grammar and calendar arithmetic are not stated.
#[verifier::external_body]
fn read_rfc3339(text: &str) -> (r: Option<(i128, i32, String)>)
    ensures
        match r {
            Some((instant, offset, normal)) => rfc3339_reading(text@) == Some(
                (instant as int, offset as int, normal@),
            ),
            None => rfc3339_reading(text@) is None,
        },
{
    match OffsetDateTime::parse(text, &Rfc3339) {
        Ok(t) => {
            let normal = match t.format(&Rfc3339) {
                Ok(s) => s,
                Err(_) => t.to_string(),
            };
            Some((t.unix_timestamp_nanos(), t.offset().whole_seconds(), normal))
        },
        Err(_) => None,
    }
}

/// What `time` reads from an ISO 8601 calendar date `YYYY-MM-DD`: the Julian
/// day number and the date as `time` displays it.
pub uninterp spec fn iso_date_reading(text: Seq<char>) -> Option<(int, Seq<char>)>;

/// Reads a calendar date with `time::Date::parse` and the format description
/// `[year]-[month]-[day]`. It returns `None` where either the description or
/// the date fails to parse; otherwise `to_julian_day` and the `Display` text.
/// The contract names the result and states no more of it.
#[verifier::external_body]
fn read_iso_date(text: &str) -> (r: Option<(i32, String)>)
    ensures
        match r {
            Some((day, normal)) => iso_date_reading(text@) == Some((day as int, normal@)),
            None => iso_date_reading(text@) is None,
        },
{
    let format = match format_description::parse("[year]-[month]-[day]") {
        Ok(f) => f,
        Err(_) => return None,
    };
    match Date::parse(text, &format) {
        Ok(d) => Some((d.to_julian_day(), d.to_string())),
        Err(_) => None,
    }
}

/// The model of a timestamp: its instant in nanoseconds since the Unix epoch,
/// its UTC offset in seconds, and its RFC 3339 text.
pub ghost struct Timestamp {
    pub instant: int,
    pub offset: int,
    pub text: Seq<char>,
}

/// What a timestamp field accepts: the trimmed input read as RFC 3339.
pub open spec fn timestamp_spec(raw: Seq<char>) -> Option<Timestamp> {
    match rfc3339_reading(trim(raw)) {
        Some((instant, offset, text)) => Some(Timestamp { instant, offset, text }),
        None => None,
    }
}

fn parse_timestamp(raw: &str) -> (r: Option<(i128, i32, String)>)
    ensures
        match r {
            Some((instant, offset, text)) => timestamp_spec(raw@) == Some(
                Timestamp { instant: instant as int, offset: offset as int, text: text@ },
            ),
            None => timestamp_spec(raw@) is None,
        },
{
    read_rfc3339(trim_str(raw))
}

/// A due, unlock or lock date: an RFC 3339 timestamp.
#[derive(Debug)]
pub struct DueDate {
    instant: i128,
    offset: i32,
    text: String,
}

/// Why text is not a due date.
#[derive(Debug, Clone, Copy, PartialEq, Eq, Structural)]
pub enum DueDateParseError {
    Invalid,
}

impl DueDateParseError {
    /// The error's message.
    pub fn message(&self) -> (r: &'static str)
        ensures
            r@ == "due date must be an RFC 3339 timestamp"@,
    {
        "due date must be an RFC 3339 timestamp"
    }
}

impl View for DueDate {
    type V = Timestamp;

    closed spec fn view(&self) -> Timestamp {
        Timestamp { instant: self.instant as int, offset: self.offset as int, text: self.text@ }
    }
}

impl DueDate {
    /// Parses an RFC 3339 timestamp, surrounding whitespace ignored.
    pub fn parse(raw: &str) -> (r: Result<Self, DueDateParseError>)
        ensures
            match r {
                Ok(d) => timestamp_spec(raw@) == Some(d@),
                Err(_) => timestamp_spec(raw@) is None,
            },
    {
        match parse_timestamp(raw) {
            Some((instant, offset, text)) => Ok(DueDate { instant, offset, text }),
            None => Err(DueDateParseError::Invalid),
        }
    }

    /// The timestamp in RFC 3339 form.
    pub fn as_rfc3339(&self) -> (r: String)
        ensures
            r@ == self@.text,
    {
        self.text.clone()
    }

    /// The instant, in nanoseconds since the Unix epoch.
    pub fn instant_nanos(&self) -> (r: i128)
        ensures
            r == self@.instant,
    {
        self.instant
    }

    /// The UTC offset, in seconds.
    pub fn offset_seconds(&self) -> (r: i32)
        ensures
            r == self@.offset,
    {
        self.offset
    }
}

impl Clone for DueDate {
    fn clone(&self) -> (r: Self)
        ensures
            r@ == self@,
    {
        DueDate { instant: self.instant, offset: self.offset, text: self.text.clone() }
    }
}

impl PartialEq for DueDate {
    fn eq(&self, other: &Self) -> (r: bool) {
        self.instant == other.instant
    }
}

impl vstd::std_specs::cmp::PartialEqSpecImpl for DueDate {
    open spec fn obeys_eq_spec() -> bool {
        true
    }

    open spec fn eq_spec(&self, other: &Self) -> bool {
        self@.instant == other@.instant
    }
}

impl core::str::FromStr for DueDate {
    type Err = DueDateParseError;

    fn from_str(raw: &str) -> (r: Result<Self, Self::Err>)
        ensures
            match r {
                Ok(d) => timestamp_spec(raw@) == Some(d@),
                Err(_) => timestamp_spec(raw@) is None,
            },
    {
        Self::parse(raw)
    }
}

/// The start or end of a calendar event: an RFC 3339 timestamp.
#[derive(Debug)]
pub struct EventDateTime {
    instant: i128,
    offset: i32,
    text: String,
}

/// Why text is not an event timestamp.
#[derive(Debug, Clone, Copy, PartialEq, Eq, Structural)]
pub enum EventDateTimeParseError {
    Invalid,
}

impl EventDateTimeParseError {
    /// The error's message.
    pub fn message(&self) -> (r: &'static str)
        ensures
            r@ == "event timestamp must be an RFC 3339 timestamp"@,
    {
        "event timestamp must be an RFC 3339 timestamp"
    }
}

impl View for EventDateTime {
    type V = Timestamp;

    closed spec fn view(&self) -> Timestamp {
        Timestamp { instant: self.instant as int, offset: self.offset as int, text: self.text@ }
    }
}

impl EventDateTime {
    /// Parses an RFC 3339 timestamp, surrounding whitespace ignored.
    pub fn parse(raw: &str) -> (r: Result<Self, EventDateTimeParseError>)
        ensures
            match r {
                Ok(d) => timestamp_spec(raw@) == Some(d@),
                Err(_) => timestamp_spec(raw@) is None,
            },
    {
        match parse_timestamp(raw) {
            Some((instant, offset, text)) => Ok(EventDateTime { instant, offset, text }),
            None => Err(EventDateTimeParseError::Invalid),
        }
    }

    /// The timestamp in RFC 3339 form.
    pub fn as_rfc3339(&self) -> (r: String)
        ensures
            r@ == self@.text,
    {
        self.text.clone()
    }

    /// The instant, in nanoseconds since the Unix epoch.
    pub fn instant_nanos(&self) -> (r: i128)
        ensures
            r == self@.instant,
    {
        self.instant
    }
}

impl Clone for EventDateTime {
    fn clone(&self) -> (r: Self)
        ensures
            r@ == self@,
    {
        EventDateTime { instant: self.instant, offset: self.offset, text: self.text.clone() }
    }
}

impl PartialEq for EventDateTime {
    fn eq(&self, other: &Self) -> (r: bool) {
        self.instant == other.instant
    }
}

impl vstd::std_specs::cmp::PartialEqSpecImpl for EventDateTime {
    open spec fn obeys_eq_spec() -> bool {
        true
    }

    open spec fn eq_spec(&self, other: &Self) -> bool {
        self@.instant == other@.instant
    }
}

impl core::str::FromStr for EventDateTime {
    type Err = EventDateTimeParseError;

    fn from_str(raw: &str) -> (r: Result<Self, Self::Err>)
        ensures
            match r {
                Ok(d) => timestamp_spec(raw@) == Some(d@),
                Err(_) => timestamp_spec(raw@) is None,
            },
    {
        Self::parse(raw)
    }
}

/// The model of a calendar date: its Julian day number and its ISO 8601 text.
pub ghost struct CalendarDay {
    pub day: int,
    pub text: Seq<char>,
}

/// What an all-day date field accepts: the trimmed input read as `YYYY-MM-DD`.
pub open spec fn calendar_day_spec(raw: Seq<char>) -> Option<CalendarDay> {
    match iso_date_reading(trim(raw)) {
        Some((day, text)) => Some(CalendarDay { day, text }),
        None => None,
    }
}

/// The date of an all-day calendar event.
#[derive(Debug)]
pub struct AllDayDate {
    day: i32,
    text: String,
}

/// Why text is not an all-day date.
#[derive(Debug, Clone, Copy, PartialEq, Eq, Structural)]
pub enum AllDayDateParseError {
    Invalid,
}

impl AllDayDateParseError {
    /// The error's message.
    pub fn message(&self) -> (r: &'static str)
        ensures
            r@ == "all-day date must be an ISO-8601 date (YYYY-MM-DD)"@,
    {
        "all-day date must be an ISO-8601 date (YYYY-MM-DD)"
    }
}

impl View for AllDayDate {
    type V = CalendarDay;

    closed spec fn view(&self) -> CalendarDay {
        CalendarDay { day: self.day as int, text: self.text@ }
    }
}

impl AllDayDate {
    /// Parses a `YYYY-MM-DD` date, surrounding whitespace ignored.
    pub fn parse(raw: &str) -> (r: Result<Self, AllDayDateParseError>)
        ensures
            match r {
                Ok(d) => calendar_day_spec(raw@) == Some(d@),
                Err(_) => calendar_day_spec(raw@) is None,
            },
    {
        match read_iso_date(trim_str(raw)) {
            Some((day, text)) => Ok(AllDayDate { day, text }),
            None => Err(AllDayDateParseError::Invalid),
        }
    }

    /// The date in ISO 8601 form.
    pub fn as_iso8601(&self) -> (r: String)
        ensures
            r@ == self@.text,
    {
        self.text.clone()
    }

    /// The Julian day number of the date.
    pub fn julian_day(&self) -> (r: i32)
        ensures
            r == self@.day,
    {
        self.day
    }
}

impl Clone for AllDayDate {
    fn clone(&self) -> (r: Self)
        ensures
            r@ == self@,
    {
        AllDayDate { day: self.day, text: self.text.clone() }
    }
}

impl PartialEq for AllDayDate {
    fn eq(&self, other: &Self) -> (r: bool) {
        self.day == other.day
    }
}

impl vstd::std_specs::cmp::PartialEqSpecImpl for AllDayDate {
    open spec fn obeys_eq_spec() -> bool {
        true
    }

    open spec fn eq_spec(&self, other: &Self) -> bool {
        self@.day == other@.day
    }
}

impl core::str::FromStr for AllDayDate {
    type Err = AllDayDateParseError;

    fn from_str(raw: &str) -> (r: Result<Self, Self::Err>)
        ensures
            match r {
                Ok(d) => calendar_day_spec(raw@) == Some(d@),
                Err(_) => calendar_day_spec(raw@) is None,
            },
    {
        Self::parse(raw)
    }
}

/// The instant of an optional date, for contracts.
pub open spec fn instant_of(d: Option<DueDate>) -> Option<int> {
    match d {
        Some(d) => Some(d@.instant),
        None => None,
    }
}

/// Whether both dates are present and the first is strictly later.
pub open spec fn is_after(a: Option<DueDate>, b: Option<DueDate>) -> bool {
    &&& a is Some
    &&& b is Some
    &&& a->0@.instant > b->0@.instant
}

/// Whether both dates are present and the first is strictly later.
pub fn after(a: &Option<DueDate>, b: &Option<DueDate>) -> (r: bool)
    ensures
        r == is_after(*a, *b),
{
    match (a, b) {
        (Some(a), Some(b)) => a.instant_nanos() > b.instant_nanos(),
        _ => false,
    }
}

/// A copy of an optional date.
pub fn copy_date(d: &Option<DueDate>) -> (r: Option<DueDate>)
    ensures
        r is Some == d is Some,
        r is Some ==> r->0@ == d->0@,
{
    match d {
        Some(d) => Some(d.clone()),
        None => None,
    }
}

} // verus!
