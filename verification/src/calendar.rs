//! Calendar dates of the proleptic Gregorian calendar, as plain year, month and
//! day numbers, and what the `chrono` crate computes on them.

use crate::text::decimal_text;
use crate::text::zero_padded;
use chrono::Datelike;
use chrono::NaiveDate;
use chrono::NaiveDateTime;
use vstd::prelude::*;

verus! {

/// The error of `chrono`'s parsers.
#[verifier::external_type_specification]
#[verifier::external_body]
pub struct ExParseError(chrono::ParseError);

/// The date of the date and time that `chrono::NaiveDateTime::parse_from_str`
/// reads from `text` under `format`, as year, month and day; `None` where it
/// reports an error.
pub uninterp spec fn parsed_date(text: Seq<char>, format: Seq<char>) -> Option<(int, int, int)>;

/// The pattern under which a date is written as year, month and day.
pub open spec fn date_pattern() -> Seq<char> {
    "%Y-%m-%d"@
}

/// The first year that a date can have.
pub const MIN_YEAR: i32 = -262143;

/// The last year that a date can have.
pub const MAX_YEAR: i32 = 262142;

/// Whether `year` has 366 days.
pub open spec fn is_leap_year(year: int) -> bool {
    year % 4 == 0 && (year % 100 != 0 || year % 400 == 0)
}

/// The number of days of `month` in `year`; 0 where `month` is no month.
pub open spec fn days_in_month(year: int, month: int) -> int {
    if month < 1 || month > 12 {
        0
    } else if month == 2 {
        if is_leap_year(year) {
            29
        } else {
            28
        }
    } else if month == 4 || month == 6 || month == 9 || month == 11 {
        30
    } else {
        31
    }
}

/// The number of days from 1 January of year 1 up to, and without, 1 January of
/// `year`; negative for years before year 1.
pub open spec fn days_before_year(year: int) -> int {
    let past = year - 1;
    365 * past + past / 4 - past / 100 + past / 400
}

/// The number of days of `year` that lie before the first day of `month`.
pub open spec fn days_before_month(year: int, month: int) -> int
    decreases month,
{
    if month <= 1 {
        0
    } else {
        days_before_month(year, month - 1) + days_in_month(year, month - 1)
    }
}

/// The number of a day, counted from 1 January of year 1 as day 1.
pub open spec fn day_number(year: int, month: int, day: int) -> int {
    days_before_year(year) + days_before_month(year, month) + day
}

/// Whether year, month and day name a day that a date can be.
pub open spec fn is_calendar_day(year: int, month: int, day: int) -> bool {
    &&& MIN_YEAR <= year <= MAX_YEAR
    &&& 1 <= month <= 12
    &&& 1 <= day <= days_in_month(year, month)
}

/// The year as dates are written: four digits from year 0 to year 9999, else a
/// sign and at least four digits.
pub open spec fn year_text(year: int) -> Seq<char> {
    if 0 <= year <= 9999 {
        zero_padded(year as nat, 4)
    } else if year > 9999 {
        seq!['+'] + decimal_text(year as nat)
    } else {
        seq!['-'] + zero_padded((-year) as nat, 4)
    }
}

/// A day as it is written: the year, then month and day with two digits each,
/// with hyphens between.
pub open spec fn iso_date_text(year: int, month: int, day: int) -> Seq<char> {
    year_text(year) + seq!['-'] + zero_padded(month as nat, 2) + seq!['-'] + zero_padded(
        day as nat,
        2,
    )
}

/// Every day that a date can be lies less than a hundred million days from
/// day 0.
pub proof fn lemma_day_number_bounds(year: int, month: int, day: int)
    requires
        is_calendar_day(year, month, day),
    ensures
        -100_000_000 < day_number(year, month, day) < 100_000_000,
{
    reveal_with_fuel(days_before_month, 13);
}

/// A day of the calendar.
#[derive(Clone, Copy, Debug, PartialEq, Eq, Structural)]
pub struct CalendarDate {
    year: i32,
    month: u32,
    day: u32,
}

impl CalendarDate {
    /// The year.
    pub closed spec fn spec_year(&self) -> i32 {
        self.year
    }

    /// The month, from 1.
    pub closed spec fn spec_month(&self) -> u32 {
        self.month
    }

    /// The day of the month, from 1.
    pub closed spec fn spec_day(&self) -> u32 {
        self.day
    }

    /// The date exists in the calendar and its year is one that dates can have.
    #[verifier::type_invariant]
    pub open spec fn is_valid(self) -> bool {
        is_calendar_day(self.year() as int, self.month() as int, self.day() as int)
    }

    /// Year, month and day of the date.
    pub open spec fn ymd(self) -> (int, int, int) {
        (self.year() as int, self.month() as int, self.day() as int)
    }

    /// The date as it is written: year, month and day, with hyphens between.
    pub open spec fn iso_text(self) -> Seq<char> {
        iso_date_text(self.year() as int, self.month() as int, self.day() as int)
    }

    /// The number of the day, counted from 1 January of year 1 as day 1.
    pub open spec fn day_number(self) -> int {
        day_number(self.year() as int, self.month() as int, self.day() as int)
    }

    /// The year.
    #[verifier::when_used_as_spec(spec_year)]
    pub fn year(&self) -> (year: i32)
        ensures
            year == self.spec_year(),
    {
        self.year
    }

    /// The month, from 1.
    #[verifier::when_used_as_spec(spec_month)]
    pub fn month(&self) -> (month: u32)
        ensures
            month == self.spec_month(),
    {
        self.month
    }

    /// The day of the month, from 1.
    #[verifier::when_used_as_spec(spec_day)]
    pub fn day(&self) -> (day: u32)
        ensures
            day == self.spec_day(),
    {
        self.day
    }
}

impl CalendarDate {
    /// The date of `year`, `month` and `day`, where there is one.
    pub fn new(year: i32, month: u32, day: u32) -> (date: Option<CalendarDate>)
        ensures
            date is Some <==> is_calendar_day(year as int, month as int, day as int),
            date matches Some(d) ==> d.ymd() == (year as int, month as int, day as int),
    {
        date_from_ymd(year, month, day)
    }

    /// The date as it is displayed.
    pub fn to_text(&self) -> (text: String)
        ensures
            text@ == self.iso_text(),
    {
        proof {
            use_type_invariant(self);
        }
        display_date(*self)
    }

    /// The number of days from `self` to `later`; negative where `later` is the
    /// earlier day.
    pub fn days_until(&self, later: &CalendarDate) -> (days: i64)
        ensures
            days == later.day_number() - self.day_number(),
    {
        proof {
            use_type_invariant(self);
            use_type_invariant(later);
        }
        days_between(*self, *later)
    }
}

/// `chrono::NaiveDate::from_ymd_opt`: the date exists exactly where the day
/// exists in the calendar and the year is in the range of dates, and it then has
/// the year, month and day given.
#[verifier::external_body]
fn date_from_ymd(year: i32, month: u32, day: u32) -> (date: Option<CalendarDate>)
    ensures
        date is Some <==> is_calendar_day(year as int, month as int, day as int),
        date matches Some(d) ==> d.ymd() == (year as int, month as int, day as int),
{
    NaiveDate::from_ymd_opt(year, month, day).map(
        |d| CalendarDate { year: d.year(), month: d.month(), day: d.day() },
    )
}

/// `chrono::NaiveDate::format` with the pattern of year, month and day: the year
/// as `year_text` has it, then month and day with two digits each.
#[verifier::external_body]
pub(crate) fn format_date(date: CalendarDate, pattern: &str) -> (text: String)
    requires
        date.is_valid(),
        pattern@ == date_pattern(),
    ensures
        text@ == date.iso_text(),
{
    NaiveDate::from_ymd_opt(date.year, date.month, date.day).unwrap().format(pattern).to_string()
}

/// `Display` of `chrono::NaiveDate`: the same text as `format` gives with the
/// pattern of year, month and day.
#[verifier::external_body]
fn display_date(date: CalendarDate) -> (text: String)
    requires
        date.is_valid(),
    ensures
        text@ == date.iso_text(),
{
    NaiveDate::from_ymd_opt(date.year, date.month, date.day).unwrap().to_string()
}

/// The difference of two `chrono::NaiveDate`s, which is
/// `NaiveDate::signed_duration_since`, and `TimeDelta::num_days` of it: the
/// whole days from `start` to `end`.
#[verifier::external_body]
fn days_between(start: CalendarDate, end: CalendarDate) -> (days: i64)
    requires
        start.is_valid(),
        end.is_valid(),
    ensures
        days == end.day_number() - start.day_number(),
{
    let from = NaiveDate::from_ymd_opt(start.year, start.month, start.day).unwrap();
    let to = NaiveDate::from_ymd_opt(end.year, end.month, end.day).unwrap();
    (to - from).num_days()
}

/// `chrono::NaiveDateTime::parse_from_str`, of whose result the date is kept:
/// a valid date, the one that `parsed_date` names.
#[verifier::external_body]
pub(crate) fn parse_date_time(text: &str, format: &str) -> (date: Result<
    CalendarDate,
    chrono::ParseError,
>)
    ensures
        date matches Ok(d) ==> parsed_date(text@, format@) == Some(d.ymd()) && d.is_valid(),
        date is Err ==> parsed_date(text@, format@) is None,
{
    let stamp = NaiveDateTime::parse_from_str(text, format)?;
    Ok(CalendarDate { year: stamp.year(), month: stamp.month(), day: stamp.day() })
}

} // verus!
