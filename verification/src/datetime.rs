//! Dates, and dates with a time of day, as plain numbers.
//!
//! A value holds the fields of a calendar day and of a time of day and nothing
//! else; the type sees to it that they name a day that exists and a time that
//! exists. Writing a value as text and reading it back is the work of `chrono`,
//! which is called with the fields and asked for the fields; so is the reading
//! of the clock.

use vstd::prelude::*;
use crate::error::EncodingError;
use chrono::Datelike;
use chrono::Timelike;

verus! {

/// What `chrono` gives back when it cannot read a text. Nothing is known of
/// what it holds.
#[verifier::external_type_specification]
#[verifier::external_body]
pub struct ExParseError(chrono::ParseError);

/// The earliest year a date can lie in: the earliest that `chrono` holds.
pub const MIN_YEAR: i32 = -262143;

/// The latest year a date can lie in: the latest that `chrono` holds.
pub const MAX_YEAR: i32 = 262142;

/// The format of a date in storage: year, month and day.
pub const DATE_FORMAT: &'static str = "%Y-%m-%d";

/// The format of a date and time in storage: the date, a `T`, the time of day
/// and, where it is not zero, the fraction of the second.
pub const DATE_TIME_FORMAT: &'static str = "%Y-%m-%dT%H:%M:%S%.f";

/// Whether `year` has a 29th of February in the proleptic Gregorian calendar.
pub open spec fn is_leap_year(year: int) -> bool {
    year % 4 == 0 && (year % 100 != 0 || year % 400 == 0)
}

/// The number of days of `month` in `year`; 31 for a month outside 1 to 12.
pub open spec fn days_in_month(year: int, month: int) -> int {
    if month == 2 {
        if is_leap_year(year) {
            29
        } else {
            28
        }
    } else if month == 4 || month == 6 || month == 9 || month == 11 {
        30
    } else {
        31
    }
}

/// Whether year, month and day name a day of the calendar within the years that
/// a date can lie in.
pub open spec fn valid_date(year: int, month: int, day: int) -> bool {
    &&& MIN_YEAR <= year <= MAX_YEAR
    &&& 1 <= month <= 12
    &&& 1 <= day <= days_in_month(year, month)
}

/// Whether the four numbers name a time of day. A nanosecond of 1,000,000,000
/// or more stands for a leap second and is accepted only in second 59.
pub open spec fn valid_time(hour: int, minute: int, second: int, nanosecond: int) -> bool {
    &&& 0 <= hour < 24
    &&& 0 <= minute < 60
    &&& 0 <= second < 60
    &&& 0 <= nanosecond < 2_000_000_000
    &&& nanosecond >= 1_000_000_000 ==> second == 59
}

/// Year, month and day as plain numbers, whether or not they name a day.
#[derive(Clone, Copy, Debug, PartialEq, Eq, Structural)]
pub struct DateFields {
    pub year: i32,
    pub month: u32,
    pub day: u32,
}

/// The seven fields of a date and time as plain numbers, whether or not they
/// name a moment.
#[derive(Clone, Copy, Debug, PartialEq, Eq, Structural)]
pub struct DateTimeFields {
    pub year: i32,
    pub month: u32,
    pub day: u32,
    pub hour: u32,
    pub minute: u32,
    pub second: u32,
    pub nanosecond: u32,
}

/// A day of the proleptic Gregorian calendar.
#[derive(Clone, Copy, Debug, PartialEq, Eq, Structural)]
pub struct NaiveDate {
    fields: DateFields,
}

/// A day and a time of day, without a time zone.
#[derive(Clone, Copy, Debug, PartialEq, Eq, Structural)]
pub struct NaiveDateTime {
    fields: DateTimeFields,
}

/// The text that `chrono` writes for the date with these fields under the
/// format `format`.
pub uninterp spec fn date_text(fields: DateFields, format: Seq<char>) -> Seq<char>;

/// The fields of the date that `chrono` reads from `text` under the format
/// `format`, or `None` where it rejects the text.
pub uninterp spec fn date_parsed(text: Seq<char>, format: Seq<char>) -> Option<DateFields>;

/// The text that `chrono` writes for the date and time with these fields under
/// the format `format`.
pub uninterp spec fn date_time_text(fields: DateTimeFields, format: Seq<char>) -> Seq<char>;

/// The fields of the date and time that `chrono` reads from `text` under the
/// format `format`, or `None` where it rejects the text.
pub uninterp spec fn date_time_parsed(text: Seq<char>, format: Seq<char>) -> Option<DateTimeFields>;

impl DateFields {
    /// Whether the fields name a day of the calendar.
    pub open spec fn is_valid(self) -> bool {
        valid_date(self.year as int, self.month as int, self.day as int)
    }
}

impl DateTimeFields {
    /// Year, month and day.
    pub open spec fn date(self) -> DateFields {
        DateFields { year: self.year, month: self.month, day: self.day }
    }

    /// Whether the fields name a day of the calendar and a time of day.
    pub open spec fn is_valid(self) -> bool {
        &&& self.date().is_valid()
        &&& valid_time(
            self.hour as int,
            self.minute as int,
            self.second as int,
            self.nanosecond as int,
        )
    }
}

fn leap_year(year: i32) -> (b: bool)
    requires
        MIN_YEAR <= year <= MAX_YEAR,
    ensures
        b == is_leap_year(year as int),
{
    // 262400 is a multiple of 400, so the shift keeps every remainder.
    let shifted: u32 = (year + 262400) as u32;
    assert((year as int) % 4 == (shifted as int) % 4);
    assert((year as int) % 100 == (shifted as int) % 100);
    assert((year as int) % 400 == (shifted as int) % 400);
    shifted % 4 == 0 && (shifted % 100 != 0 || shifted % 400 == 0)
}

fn month_length(year: i32, month: u32) -> (n: u32)
    requires
        MIN_YEAR <= year <= MAX_YEAR,
    ensures
        n == days_in_month(year as int, month as int),
{
    if month == 2 {
        if leap_year(year) {
            29
        } else {
            28
        }
    } else if month == 4 || month == 6 || month == 9 || month == 11 {
        30
    } else {
        31
    }
}

impl NaiveDate {
    #[verifier::type_invariant]
    spec fn names_a_day(self) -> bool {
        self.fields.is_valid()
    }

    /// Year, month and day of the date.
    pub closed spec fn fields(self) -> DateFields {
        self.fields
    }

    /// The date with the fields `fields`.
    pub closed spec fn with_fields(fields: DateFields) -> NaiveDate {
        NaiveDate { fields }
    }

    /// The text that is written for the date.
    pub open spec fn text(self) -> Seq<char> {
        date_text(self.fields(), DATE_FORMAT@)
    }

    /// What the fields read from a text amount to: the date they name, or
    /// `InvalidTimestamp` where nothing was read or they name no day.
    pub open spec fn of_parsed(parsed: Option<DateFields>) -> Result<NaiveDate, EncodingError> {
        match parsed {
            Some(fields) if fields.is_valid() => Ok(Self::with_fields(fields)),
            _ => Err(EncodingError::InvalidTimestamp),
        }
    }

    /// The date that is read from `text`, or `InvalidTimestamp`.
    pub open spec fn read(text: Seq<char>) -> Result<NaiveDate, EncodingError> {
        Self::of_parsed(date_parsed(text, DATE_FORMAT@))
    }

    /// A date is the one that its fields name, and the date that fields name
    /// has those fields.
    pub proof fn lemma_fields_make_up(self)
        ensures
            Self::with_fields(self.fields()) == self,
            forall|fields: DateFields| (#[trigger] Self::with_fields(fields)).fields() == fields,
    {
    }

    /// The date of year, month and day, where they name a day of the calendar.
    pub fn from_ymd_opt(year: i32, month: u32, day: u32) -> (r: Option<NaiveDate>)
        ensures
            r is Some <==> valid_date(year as int, month as int, day as int),
            r is Some ==> r->Some_0.fields() == (DateFields { year, month, day }),
    {
        if MIN_YEAR <= year && year <= MAX_YEAR && 1 <= month && month <= 12 && 1 <= day && day
            <= month_length(year, month) {
            Some(NaiveDate { fields: DateFields { year, month, day } })
        } else {
            None
        }
    }

    /// The year, from `MIN_YEAR` to `MAX_YEAR`.
    pub fn year(&self) -> (y: i32)
        ensures
            y == self.fields().year,
            MIN_YEAR <= y <= MAX_YEAR,
    {
        proof {
            use_type_invariant(self);
        }
        self.fields.year
    }

    /// The month, from 1 to 12.
    pub fn month(&self) -> (m: u32)
        ensures
            m == self.fields().month,
            1 <= m <= 12,
    {
        proof {
            use_type_invariant(self);
        }
        self.fields.month
    }

    /// The day of the month, from 1 to the length of the month.
    pub fn day(&self) -> (d: u32)
        ensures
            d == self.fields().day,
            1 <= d <= days_in_month(self.fields().year as int, self.fields().month as int),
    {
        proof {
            use_type_invariant(self);
        }
        self.fields.day
    }

    /// This date at the given time of day, where the four numbers name one.
    pub fn and_hms_nano_opt(&self, hour: u32, minute: u32, second: u32, nanosecond: u32) -> (r:
        Option<NaiveDateTime>)
        ensures
            r is Some <==> valid_time(hour as int, minute as int, second as int, nanosecond as int),
            r is Some ==> r->Some_0.fields() == (DateTimeFields {
                year: self.fields().year,
                month: self.fields().month,
                day: self.fields().day,
                hour,
                minute,
                second,
                nanosecond,
            }),
    {
        proof {
            use_type_invariant(self);
        }
        if hour < 24 && minute < 60 && second < 60 && nanosecond < 2_000_000_000 && (nanosecond
            < 1_000_000_000 || second == 59) {
            Some(
                NaiveDateTime {
                    fields: DateTimeFields {
                        year: self.fields.year,
                        month: self.fields.month,
                        day: self.fields.day,
                        hour,
                        minute,
                        second,
                        nanosecond,
                    },
                },
            )
        } else {
            None
        }
    }

    /// The date as text in [`DATE_FORMAT`].
    pub fn to_text(&self) -> (s: String)
        ensures
            s@ == self.text(),
    {
        proof {
            use_type_invariant(self);
        }
        format_date(self.fields, DATE_FORMAT)
    }

    /// The date that the fields read from a text name.
    pub fn from_parsed(parsed: Option<DateFields>) -> (r: Result<NaiveDate, EncodingError>)
        ensures
            r == Self::of_parsed(parsed),
    {
        match parsed {
            Some(fields) => match Self::from_ymd_opt(fields.year, fields.month, fields.day) {
                Some(date) => Ok(date),
                None => Err(EncodingError::InvalidTimestamp),
            },
            None => Err(EncodingError::InvalidTimestamp),
        }
    }

    /// Reads a date from text in [`DATE_FORMAT`]; `InvalidTimestamp` where the
    /// text is none.
    pub fn from_text(text: &str) -> (r: Result<NaiveDate, EncodingError>)
        ensures
            r == Self::read(text@),
    {
        match parse_date(text, DATE_FORMAT) {
            Ok(fields) => Self::from_parsed(Some(fields)),
            Err(_) => Self::from_parsed(None),
        }
    }
}

impl NaiveDateTime {
    #[verifier::type_invariant]
    spec fn names_a_moment(self) -> bool {
        self.fields.is_valid()
    }

    /// The seven fields of the date and time.
    pub closed spec fn fields(self) -> DateTimeFields {
        self.fields
    }

    /// The date and time with the fields `fields`.
    pub closed spec fn with_fields(fields: DateTimeFields) -> NaiveDateTime {
        NaiveDateTime { fields }
    }

    /// The day.
    pub open spec fn date(self) -> NaiveDate {
        NaiveDate::with_fields(self.fields().date())
    }

    /// The text that is written for the date and time.
    pub open spec fn text(self) -> Seq<char> {
        date_time_text(self.fields(), DATE_TIME_FORMAT@)
    }

    /// What the fields read from a text amount to: the date and time they
    /// name, or `InvalidTimestamp` where nothing was read or they name none.
    pub open spec fn of_parsed(parsed: Option<DateTimeFields>) -> Result<
        NaiveDateTime,
        EncodingError,
    > {
        match parsed {
            Some(fields) if fields.is_valid() => Ok(Self::with_fields(fields)),
            _ => Err(EncodingError::InvalidTimestamp),
        }
    }

    /// The date and time that is read from `text`, or `InvalidTimestamp`.
    pub open spec fn read(text: Seq<char>) -> Result<NaiveDateTime, EncodingError> {
        Self::of_parsed(date_time_parsed(text, DATE_TIME_FORMAT@))
    }

    /// A date and time is the one that its fields name, and the date and time
    /// that fields name has those fields.
    pub proof fn lemma_fields_make_up(self)
        ensures
            Self::with_fields(self.fields()) == self,
            forall|fields: DateTimeFields|
                (#[trigger] Self::with_fields(fields)).fields() == fields,
    {
    }

    /// The day.
    pub fn naive_date(&self) -> (d: NaiveDate)
        ensures
            d == self.date(),
    {
        proof {
            use_type_invariant(self);
        }
        NaiveDate {
            fields: DateFields {
                year: self.fields.year,
                month: self.fields.month,
                day: self.fields.day,
            },
        }
    }

    /// The hour, from 0 to 23.
    pub fn hour(&self) -> (h: u32)
        ensures
            h == self.fields().hour,
            h < 24,
    {
        proof {
            use_type_invariant(self);
        }
        self.fields.hour
    }

    /// The minute, from 0 to 59.
    pub fn minute(&self) -> (m: u32)
        ensures
            m == self.fields().minute,
            m < 60,
    {
        proof {
            use_type_invariant(self);
        }
        self.fields.minute
    }

    /// The second, from 0 to 59.
    pub fn second(&self) -> (s: u32)
        ensures
            s == self.fields().second,
            s < 60,
    {
        proof {
            use_type_invariant(self);
        }
        self.fields.second
    }

    /// The nanosecond; 1,000,000,000 or more in a leap second.
    pub fn nanosecond(&self) -> (n: u32)
        ensures
            n == self.fields().nanosecond,
            n < 2_000_000_000,
    {
        proof {
            use_type_invariant(self);
        }
        self.fields.nanosecond
    }

    /// The date and time that the machine's clock shows, in UTC. Which moment
    /// it is depends on the clock; whichever it is, its fields name a day of the
    /// calendar and a time of day.
    pub fn now() -> (now: NaiveDateTime)
        ensures
            now.fields().is_valid(),
    {
        NaiveDateTime { fields: current_fields() }
    }

    /// The date and time as text in [`DATE_TIME_FORMAT`].
    pub fn to_text(&self) -> (s: String)
        ensures
            s@ == self.text(),
    {
        proof {
            use_type_invariant(self);
        }
        format_date_time(self.fields, DATE_TIME_FORMAT)
    }

    /// The date and time that the fields read from a text name.
    pub fn from_parsed(parsed: Option<DateTimeFields>) -> (r: Result<NaiveDateTime, EncodingError>)
        ensures
            r == Self::of_parsed(parsed),
    {
        match parsed {
            Some(f) => match NaiveDate::from_ymd_opt(f.year, f.month, f.day) {
                Some(date) => {
                    match date.and_hms_nano_opt(f.hour, f.minute, f.second, f.nanosecond) {
                        Some(date_time) => Ok(date_time),
                        None => Err(EncodingError::InvalidTimestamp),
                    }
                },
                None => Err(EncodingError::InvalidTimestamp),
            },
            None => Err(EncodingError::InvalidTimestamp),
        }
    }

    /// Reads a date and time from text in [`DATE_TIME_FORMAT`];
    /// `InvalidTimestamp` where the text is none.
    pub fn from_text(text: &str) -> (r: Result<NaiveDateTime, EncodingError>)
        ensures
            r == Self::read(text@),
    {
        match parse_date_time(text, DATE_TIME_FORMAT) {
            Ok(fields) => Self::from_parsed(Some(fields)),
            Err(_) => Self::from_parsed(None),
        }
    }
}

/// Calls `chrono::NaiveDate::format` on the date that `from_ymd_opt` makes of
/// the fields, and the `to_string` of what it gives. The fields must name a day
/// of the calendar, which is when `from_ymd_opt` makes a date of them, and the
/// format must be [`DATE_FORMAT`], which `chrono` can write for every date. What
/// is claimed is that the text depends on the fields and the format alone.
#[verifier::external_body]
fn format_date(fields: DateFields, format: &str) -> (s: String)
    requires
        fields.is_valid(),
        format@ == DATE_FORMAT@,
    ensures
        s@ == date_text(fields, format@),
{
    let date = chrono::NaiveDate::from_ymd_opt(fields.year, fields.month, fields.day).unwrap();
    date.format(format).to_string()
}

/// Calls `chrono::NaiveDate::parse_from_str` and hands out year, month and day
/// of the date it read. What is claimed is that whether a date is read, and
/// which, depends on the text and the format alone.
#[verifier::external_body]
fn parse_date(text: &str, format: &str) -> (r: Result<DateFields, chrono::ParseError>)
    ensures
        r is Ok <==> date_parsed(text@, format@) is Some,
        r is Ok ==> Some(r->Ok_0) == date_parsed(text@, format@),
{
    match chrono::NaiveDate::parse_from_str(text, format) {
        Ok(d) => Ok(DateFields { year: d.year(), month: d.month(), day: d.day() }),
        Err(e) => Err(e),
    }
}

/// Calls `chrono::NaiveDateTime::format` on the date and time that
/// `from_ymd_opt` and `and_hms_nano_opt` make of the fields, and the
/// `to_string` of what it gives. The fields must name a day and a time of day,
/// which is when the two make a date and time of them, and the format must be
/// [`DATE_TIME_FORMAT`], which `chrono` can write for every date and time. What
/// is claimed is that the text depends on the fields and the format alone.
#[verifier::external_body]
fn format_date_time(fields: DateTimeFields, format: &str) -> (s: String)
    requires
        fields.is_valid(),
        format@ == DATE_TIME_FORMAT@,
    ensures
        s@ == date_time_text(fields, format@),
{
    let date = chrono::NaiveDate::from_ymd_opt(fields.year, fields.month, fields.day).unwrap();
    let date_time = date
        .and_hms_nano_opt(fields.hour, fields.minute, fields.second, fields.nanosecond)
        .unwrap();
    date_time.format(format).to_string()
}

/// Calls `chrono::NaiveDateTime::parse_from_str` and hands out the seven
/// fields of the date and time it read. What is claimed is that whether a date
/// and time is read, and which, depends on the text and the format alone.
#[verifier::external_body]
fn parse_date_time(text: &str, format: &str) -> (r: Result<DateTimeFields, chrono::ParseError>)
    ensures
        r is Ok <==> date_time_parsed(text@, format@) is Some,
        r is Ok ==> Some(r->Ok_0) == date_time_parsed(text@, format@),
{
    match chrono::NaiveDateTime::parse_from_str(text, format) {
        Ok(t) => Ok(
            DateTimeFields {
                year: t.year(),
                month: t.month(),
                day: t.day(),
                hour: t.hour(),
                minute: t.minute(),
                second: t.second(),
                nanosecond: t.nanosecond(),
            },
        ),
        Err(e) => Err(e),
    }
}

/// Calls `chrono::Utc::now` and hands out the seven fields of its
/// `naive_utc`. Which moment comes back depends on the clock; whatever it is,
/// its fields name a day of the calendar and a time of day, as those of every
/// `chrono::NaiveDateTime` do.
#[verifier::external_body]
fn current_fields() -> (fields: DateTimeFields)
    ensures
        fields.is_valid(),
{
    let t = chrono::Utc::now().naive_utc();
    DateTimeFields {
        year: t.year(),
        month: t.month(),
        day: t.day(),
        hour: t.hour(),
        minute: t.minute(),
        second: t.second(),
        nanosecond: t.nanosecond(),
    }
}

} // verus!
