//! What a report shows: the raw pull requests as JSON, or a table with one row
//! for each pull request.

use crate::calendar::iso_date_text;
use crate::cli::Cli;
use crate::error::ReportError;
use crate::models::Issue;
use crate::models::PullRequestRow;
use crate::text::same_text;
use crate::text::signed_decimal_text;
use crate::text::signed_to_text;
use crate::utils::completion_dates;
use crate::utils::completion_window;
use crate::utils::days_to_complete;
use crate::utils::inclusive_days;
use crate::utils::is_first_unreadable;
use crate::utils::unreadable_timestamp;
use vstd::prelude::*;

verus! {

/// What `str::to_lowercase` returns for `text`.
pub uninterp spec fn lowercase_text(text: Seq<char>) -> Seq<char>;

/// The two ways to show a report.
#[derive(Clone, Copy, Debug, PartialEq, Eq, Structural)]
pub enum OutputMode {
    /// The pull requests as they were fetched, as JSON.
    Json,
    /// One row for each pull request.
    Table,
}

/// How the text of one column of the table is kept narrow.
#[derive(Clone, Copy, Debug, PartialEq, Eq, Structural)]
pub enum ColumnRule {
    /// The text breaks into lines of at most `width` characters, between words.
    Wrap { column: usize, width: usize },
    /// The text is cut to `width` characters, the ellipsis among them.
    Truncate { column: usize, width: usize },
}

/// What is to be shown.
#[derive(Clone, Debug, PartialEq, Eq)]
pub enum Rendering {
    /// The pull requests themselves, with all their fields.
    Json,
    /// The rows of the table, and the rules for its columns.
    Table { rows: Vec<PullRequestRow>, columns: Vec<ColumnRule> },
}

/// The mode that the lowercase form `lowered` of the output argument selects.
pub open spec fn selected_mode(lowered: Seq<char>) -> OutputMode {
    if lowered == "json"@ {
        OutputMode::Json
    } else {
        OutputMode::Table
    }
}

/// The rules for the columns of the table, columns counted from 0: title,
/// description and developer wrap, repository, dates and work days are cut.
pub open spec fn report_columns() -> Seq<ColumnRule> {
    seq![
        ColumnRule::Wrap { column: 1, width: 30 },
        ColumnRule::Wrap { column: 2, width: 40 },
        ColumnRule::Wrap { column: 3, width: 40 },
        ColumnRule::Truncate { column: 4, width: 25 },
        ColumnRule::Truncate { column: 5, width: 25 },
        ColumnRule::Truncate { column: 6, width: 5 },
    ]
}

/// The description of a pull request: its body, where it has one.
pub open spec fn description_text(issue: Issue) -> Seq<char> {
    match issue.body {
        Some(body) => body@,
        None => "No description"@,
    }
}

/// The developer of a pull request: the login of its author, where it has one.
pub open spec fn developer_text(issue: Issue) -> Seq<char> {
    match issue.user {
        Some(user) => user.login@,
        None => "Unknown"@,
    }
}

/// The day of opening and the day of completion, as the table shows them.
pub open spec fn window_text(start: (int, int, int), end: (int, int, int)) -> Seq<char> {
    iso_date_text(start.0, start.1, start.2) + " - "@ + iso_date_text(end.0, end.1, end.2)
}

/// Whether `row` is the row of `issue` in the report on `repository`.
pub open spec fn is_row_of(row: PullRequestRow, issue: Issue, repository: Seq<char>) -> bool {
    &&& completion_window(issue) matches Some((start, end))
    &&& row.number == issue.number
    &&& row.title@ == issue.title@
    &&& row.description@ == description_text(issue)
    &&& row.developer@ == developer_text(issue)
    &&& row.repository@ == repository
    &&& row.start_to_end@ == window_text(start, end)
    &&& row.workdays@ == signed_decimal_text(inclusive_days(start, end))
    &&& row.url@ == issue.html_url@
}

/// `str::to_lowercase`.
#[verifier::external_body]
fn to_lowercase(text: &str) -> (lowered: String)
    ensures
        lowered@ == lowercase_text(text@),
{
    text.to_lowercase()
}

/// The text that stands at the end of a column that was cut.
pub fn ellipsis() -> (suffix: &'static str)
    ensures
        suffix@ == "..."@,
{
    "..."
}

/// The mode that the lowercase form of the output argument selects: JSON for
/// `json`, the table for anything else.
pub fn output_mode(lowered: &str) -> (mode: OutputMode)
    ensures
        mode == selected_mode(lowered@),
{
    if same_text(lowered, "json") {
        OutputMode::Json
    } else {
        OutputMode::Table
    }
}

/// The rules for the columns of the table.
pub fn column_rules() -> (rules: Vec<ColumnRule>)
    ensures
        rules@ == report_columns(),
{
    let mut rules: Vec<ColumnRule> = Vec::new();
    rules.push(ColumnRule::Wrap { column: 1, width: 30 });
    rules.push(ColumnRule::Wrap { column: 2, width: 40 });
    rules.push(ColumnRule::Wrap { column: 3, width: 40 });
    rules.push(ColumnRule::Truncate { column: 4, width: 25 });
    rules.push(ColumnRule::Truncate { column: 5, width: 25 });
    rules.push(ColumnRule::Truncate { column: 6, width: 5 });
    assert(rules@ =~= report_columns());
    rules
}

/// The row of one pull request in the report on `repo_name`.
pub fn build_row(issue: &Issue, repo_name: &str) -> (row: Result<PullRequestRow, ReportError>)
    ensures
        match row {
            Ok(r) => is_row_of(r, *issue, repo_name@),
            Err(e) => completion_window(*issue) is None && (e matches ReportError::TimestampParseError {
                text,
            } && unreadable_timestamp(*issue) == Some(text@)),
        },
{
    let description = match &issue.body {
        Some(body) => body.clone(),
        None => String::from_str("No description"),
    };
    let developer = match &issue.user {
        Some(user) => user.login.clone(),
        None => String::from_str("Unknown"),
    };
    let (start, end) = completion_dates(issue)?;
    let duration = days_to_complete(&start, &end);
    let mut start_to_end = start.to_text();
    start_to_end.append(" - ");
    let end_text = end.to_text();
    start_to_end.append(end_text.as_str());
    Ok(
        PullRequestRow {
            number: issue.number,
            title: issue.title.clone(),
            description,
            developer,
            repository: String::from_str(repo_name),
            start_to_end,
            workdays: signed_to_text(duration),
            url: issue.html_url.clone(),
        },
    )
}

/// The rows of the report on `repo_name`, one for each pull request and in
/// their order. The first pull request with a time that is no timestamp fails
/// the whole report.
pub fn build_rows(prs: &[Issue], repo_name: &str) -> (rows: Result<Vec<PullRequestRow>, ReportError>)
    ensures
        match rows {
            Ok(rows) => rows.len() == prs.len() && forall|i: int|
                0 <= i < prs.len() ==> is_row_of(#[trigger] rows[i], prs[i], repo_name@),
            Err(e) => exists|i: int|
                is_first_unreadable(prs@, i) && (e matches ReportError::TimestampParseError { text }
                    && #[trigger] unreadable_timestamp(prs[i]) == Some(text@)),
        },
{
    let mut rows: Vec<PullRequestRow> = Vec::new();
    let mut i: usize = 0;
    while i < prs.len()
        invariant
            i <= prs.len(),
            rows.len() == i,
            forall|j: int| 0 <= j < i ==> is_row_of(#[trigger] rows[j], prs[j], repo_name@),
        decreases prs.len() - i,
    {
        match build_row(&prs[i], repo_name) {
            Ok(row) => {
                rows.push(row);
            },
            Err(e) => {
                assert forall|j: int| 0 <= j < i implies completion_window(
                    #[trigger] prs@[j],
                ) is Some by {
                    assert(is_row_of(rows[j], prs[j], repo_name@));
                }
                return Err(e);
            },
        }
        i += 1;
    }
    Ok(rows)
}

/// What the report on `repo_name` shows for the pull requests `prs`: in JSON
/// mode the pull requests themselves, else the rows of the table.
pub fn output_results(prs: &[Issue], repo_name: &str, args: &Cli) -> (shown: Result<
    Rendering,
    ReportError,
>)
    ensures
        selected_mode(lowercase_text(args.output@)) == OutputMode::Json ==> shown == Ok::<
            Rendering,
            ReportError,
        >(Rendering::Json),
        selected_mode(lowercase_text(args.output@)) == OutputMode::Table ==> match shown {
            Ok(Rendering::Table { rows, columns }) => {
                &&& columns@ == report_columns()
                &&& rows.len() == prs.len()
                &&& forall|i: int|
                    0 <= i < prs.len() ==> is_row_of(#[trigger] rows[i], prs[i], repo_name@)
            },
            Ok(Rendering::Json) => false,
            Err(e) => exists|i: int|
                is_first_unreadable(prs@, i) && (e matches ReportError::TimestampParseError { text }
                    && #[trigger] unreadable_timestamp(prs[i]) == Some(text@)),
        },
{
    let lowered = to_lowercase(args.output.as_str());
    match output_mode(lowered.as_str()) {
        OutputMode::Json => Ok(Rendering::Json),
        OutputMode::Table => {
            let rows = build_rows(prs, repo_name)?;
            Ok(Rendering::Table { rows, columns: column_rules() })
        },
    }
}

} // verus!
