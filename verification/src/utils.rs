//! How long a pull request took.

use crate::calendar::day_number;
use crate::calendar::lemma_day_number_bounds;
use crate::calendar::parse_date_time;
use crate::calendar::parsed_date;
use crate::calendar::CalendarDate;
use crate::error::ReportError;
use crate::models::Issue;
use vstd::prelude::*;

verus! {

/// The pattern of a timestamp: date and time of day, with `T` between and `Z`
/// behind.
pub open spec fn timestamp_pattern() -> Seq<char> {
    "%Y-%m-%dT%H:%M:%SZ"@
}

/// The day of the timestamp `text`, as year, month and day; `None` where `text`
/// is no timestamp.
pub open spec fn timestamp_day(text: Seq<char>) -> Option<(int, int, int)> {
    parsed_date(text, timestamp_pattern())
}

/// Whether the pull request has a closing time that is not empty.
pub open spec fn is_closed(issue: Issue) -> bool {
    issue.closed_at matches Some(closed) && closed@.len() > 0
}

/// The day on which the pull request was opened and the day on which it was
/// completed: the day of closing, or the day of opening while it is open. `None`
/// where one of its times is no timestamp.
pub open spec fn completion_window(issue: Issue) -> Option<((int, int, int), (int, int, int))> {
    match timestamp_day(issue.created_at@) {
        None => None,
        Some(start) => if is_closed(issue) {
            match timestamp_day(issue.closed_at->0@) {
                None => None,
                Some(end) => Some((start, end)),
            }
        } else {
            Some((start, start))
        },
    }
}

/// The first of the pull request's times that is no timestamp, where there is
/// one.
pub open spec fn unreadable_timestamp(issue: Issue) -> Option<Seq<char>> {
    if timestamp_day(issue.created_at@) is None {
        Some(issue.created_at@)
    } else if is_closed(issue) && timestamp_day(issue.closed_at->0@) is None {
        Some(issue.closed_at->0@)
    } else {
        None
    }
}

/// The days from `start` to `end`, both counted.
pub open spec fn inclusive_days(start: (int, int, int), end: (int, int, int)) -> int {
    day_number(end.0, end.1, end.2) - day_number(start.0, start.1, start.2) + 1
}

/// The days that the pull request took, the day of opening and the day of
/// completion both counted; `None` where one of its times is no timestamp.
pub open spec fn completion_days(issue: Issue) -> Option<int> {
    match completion_window(issue) {
        None => None,
        Some((start, end)) => Some(inclusive_days(start, end)),
    }
}

/// Whether the pull request at `index` is the first with a time that is no
/// timestamp.
pub open spec fn is_first_unreadable(prs: Seq<Issue>, index: int) -> bool {
    &&& 0 <= index < prs.len()
    &&& completion_window(prs[index]) is None
    &&& forall|j: int| 0 <= j < index ==> completion_window(#[trigger] prs[j]) is Some
}

/// The most days, in either direction, that `days_to_complete` can give.
pub const MAX_DAYS_TO_COMPLETE: i64 = 200_000_000;

/// Reads the day of a timestamp.
pub fn parse_timestamp(text: &str) -> (day: Result<CalendarDate, ReportError>)
    ensures
        match day {
            Ok(d) => timestamp_day(text@) == Some(d.ymd()) && d.is_valid(),
            Err(e) => timestamp_day(text@) is None && (e matches ReportError::TimestampParseError {
                text: t,
            } && t@ == text@),
        },
{
    match parse_date_time(text, "%Y-%m-%dT%H:%M:%SZ") {
        Ok(d) => Ok(d),
        Err(_) => Err(ReportError::TimestampParseError { text: String::from_str(text) }),
    }
}

/// The day of opening and the day of completion of a pull request.
pub fn completion_dates(issue: &Issue) -> (window: Result<(CalendarDate, CalendarDate), ReportError>)
    ensures
        match window {
            Ok((start, end)) => completion_window(*issue) == Some((start.ymd(), end.ymd()))
                && start.is_valid() && end.is_valid(),
            Err(e) => completion_window(*issue) is None && (e matches ReportError::TimestampParseError {
                text,
            } && unreadable_timestamp(*issue) == Some(text@)),
        },
{
    let start = parse_timestamp(issue.created_at.as_str())?;
    match &issue.closed_at {
        Some(closed) => {
            if !closed.as_str().is_empty() {
                let end = parse_timestamp(closed.as_str())?;
                Ok((start, end))
            } else {
                Ok((start, start))
            }
        },
        None => Ok((start, start)),
    }
}

/// The days from `start` to `end`, both counted: 1 where they are the same day.
pub fn days_to_complete(start: &CalendarDate, end: &CalendarDate) -> (days: i64)
    ensures
        days == inclusive_days(start.ymd(), end.ymd()),
        -MAX_DAYS_TO_COMPLETE < days < MAX_DAYS_TO_COMPLETE,
{
    let between = start.days_until(end);
    proof {
        use_type_invariant(start);
        use_type_invariant(end);
        lemma_day_number_bounds(start.year() as int, start.month() as int, start.day() as int);
        lemma_day_number_bounds(end.year() as int, end.month() as int, end.day() as int);
    }
    between + 1
}

/// The days that a pull request took, the day of opening and the day of
/// completion both counted. A pull request that is still open counts as
/// completed on the day it was opened.
pub fn get_days_to_complete(issue: &Issue) -> (days: Result<i64, ReportError>)
    ensures
        match days {
            Ok(d) => completion_days(*issue) == Some(d as int) && -MAX_DAYS_TO_COMPLETE < d
                < MAX_DAYS_TO_COMPLETE,
            Err(e) => completion_days(*issue) is None && (e matches ReportError::TimestampParseError {
                text,
            } && unreadable_timestamp(*issue) == Some(text@)),
        },
{
    match completion_dates(issue) {
        Ok((start, end)) => Ok(days_to_complete(&start, &end)),
        Err(e) => Err(e),
    }
}

/// A pull request that is still open took one day.
pub proof fn lemma_open_takes_one_day(issue: Issue)
    requires
        !is_closed(issue),
        timestamp_day(issue.created_at@) is Some,
    ensures
        completion_days(issue) == Some(1int),
{
}

/// A pull request that was closed on the day it was opened took one day.
pub proof fn lemma_same_day_takes_one_day(issue: Issue)
    requires
        is_closed(issue),
        timestamp_day(issue.created_at@) is Some,
        timestamp_day(issue.closed_at->0@) == timestamp_day(issue.created_at@),
    ensures
        completion_days(issue) == Some(1int),
{
}

} // verus!
