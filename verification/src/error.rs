//! The failures of a report run.

use crate::text::decimal_text;
use crate::text::unsigned_to_text;
use vstd::prelude::*;

verus! {

/// One end of the date window.
#[derive(Clone, Copy, Debug, PartialEq, Eq, Structural)]
pub enum DateBound {
    /// The first day of the month.
    Start,
    /// The first day of the month after.
    End,
}

/// Why a report run fails.
#[derive(Clone, Debug, PartialEq, Eq)]
pub enum ReportError {
    /// Year and month give no date window: the named end of it is no date.
    InvalidDate { bound: DateBound },
    /// The search answered with a status that is no success.
    ApiRequestFailed { status: u16, body: String },
    /// The body of a successful answer is no page of search results.
    ResponseParseError { reason: String, body: String },
    /// A creation or closing time is not written as a timestamp.
    TimestampParseError { text: String },
    /// A variable that the run needs is not set.
    MissingConfiguration { variable: String },
}

impl ReportError {
    /// The line that tells the user of the failure.
    pub open spec fn message_text(self) -> Seq<char> {
        match self {
            ReportError::InvalidDate { bound: DateBound::Start } => "Invalid start date"@,
            ReportError::InvalidDate { bound: DateBound::End } => "Invalid end date"@,
            ReportError::ApiRequestFailed { status, body } => {
                "GitHub API request failed with status "@ + decimal_text(status as nat)
            },
            ReportError::ResponseParseError { reason, body } => reason@,
            ReportError::TimestampParseError { text } => "Invalid timestamp: "@ + text@,
            ReportError::MissingConfiguration { variable } => {
                variable@ + " must be set in .env file or environment variables"@
            },
        }
    }

    /// The line that tells the user of the failure.
    pub fn message(&self) -> (line: String)
        ensures
            line@ == self.message_text(),
    {
        match self {
            ReportError::InvalidDate { bound: DateBound::Start } => String::from_str(
                "Invalid start date",
            ),
            ReportError::InvalidDate { bound: DateBound::End } => String::from_str(
                "Invalid end date",
            ),
            ReportError::ApiRequestFailed { status, body } => {
                let mut line = String::from_str("GitHub API request failed with status ");
                let code = unsigned_to_text(*status as u64);
                line.append(code.as_str());
                line
            },
            ReportError::ResponseParseError { reason, body } => reason.clone(),
            ReportError::TimestampParseError { text } => {
                let mut line = String::from_str("Invalid timestamp: ");
                line.append(text.as_str());
                line
            },
            ReportError::MissingConfiguration { variable } => {
                let mut line = variable.clone();
                line.append(" must be set in .env file or environment variables");
                line
            },
        }
    }
}

} // verus!
