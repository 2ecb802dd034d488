//! The search for the pull requests of one month: the date window, the query,
//! the request for each page, and what to do with each answer.

use crate::calendar::day_number;
use crate::calendar::days_before_month;
use crate::calendar::days_in_month;
use crate::calendar::format_date;
use crate::calendar::is_calendar_day;
use crate::calendar::iso_date_text;
use crate::calendar::CalendarDate;
use crate::calendar::MAX_YEAR;
use crate::calendar::MIN_YEAR;
use crate::cli::Cli;
use crate::error::DateBound;
use crate::error::ReportError;
use crate::models::Issue;
use crate::models::SearchResult;
use crate::text::decimal_text;
use crate::text::unsigned_to_text;
use vstd::prelude::*;
use vstd::string::StringSliceAdditionalSpecFns;
use vstd::utf8::encode_utf8;

verus! {

/// The number of pull requests that one page holds at most.
pub const PAGE_SIZE: u32 = 100;

/// The number of pages after which the search stops, whatever is left.
pub const MAX_PAGES: u32 = 10;

/// The first day of the month after `month` of `year`.
pub open spec fn next_month_start(year: int, month: int) -> (int, int, int) {
    if month == 12 {
        (year + 1, 1, 1)
    } else {
        (year, month + 1, 1)
    }
}

/// The first day of `month` of `year` and the first day of the month after,
/// where both are dates.
pub open spec fn month_window(year: int, month: int) -> Option<((int, int, int), (int, int, int))> {
    let end = next_month_start(year, month);
    if is_calendar_day(year, month, 1) && is_calendar_day(end.0, end.1, end.2) {
        Some(((year, month, 1), end))
    } else {
        None
    }
}

/// The days of one calendar month: from `start`, its first day, up to and
/// without `end`, the first day of the month after.
#[derive(Clone, Copy, Debug, PartialEq, Eq, Structural)]
pub struct DateRange {
    start: CalendarDate,
    end: CalendarDate,
}

impl DateRange {
    /// The first day of the month.
    pub closed spec fn spec_start(&self) -> CalendarDate {
        self.start
    }

    /// The first day of the month after.
    pub closed spec fn spec_end(&self) -> CalendarDate {
        self.end
    }

    /// `start` is the first day of a month and `end` the first day of the month
    /// after it.
    #[verifier::type_invariant]
    pub open spec fn is_one_month(self) -> bool {
        month_window(self.start().year() as int, self.start().month() as int) == Some(
            (self.start().ymd(), self.end().ymd()),
        )
    }

    /// The first day of the month.
    #[verifier::when_used_as_spec(spec_start)]
    pub fn start(&self) -> (start: CalendarDate)
        ensures
            start == self.spec_start(),
    {
        self.start
    }

    /// The first day of the month after.
    #[verifier::when_used_as_spec(spec_end)]
    pub fn end(&self) -> (end: CalendarDate)
        ensures
            end == self.spec_end(),
    {
        self.end
    }
}

/// The date window of the month that the arguments name. There is none where
/// the month is not one of the twelve or the year lies outside the years of
/// dates; the error names the end of the window that is no date.
pub fn calculate_date_range(args: &Cli) -> (range: Result<DateRange, ReportError>)
    ensures
        match range {
            Ok(r) => month_window(args.year as int, args.month as int) == Some(
                (r.start().ymd(), r.end().ymd()),
            ),
            Err(e) => {
                &&& month_window(args.year as int, args.month as int) is None
                &&& e == (ReportError::InvalidDate {
                    bound: if is_calendar_day(args.year as int, args.month as int, 1) {
                        DateBound::End
                    } else {
                        DateBound::Start
                    },
                })
            },
        },
{
    let start = match CalendarDate::new(args.year, args.month, 1) {
        Some(date) => date,
        None => {
            return Err(ReportError::InvalidDate { bound: DateBound::Start });
        },
    };
    let end = if args.month == 12 {
        CalendarDate::new(args.year + 1, 1, 1)
    } else {
        CalendarDate::new(args.year, args.month + 1, 1)
    };
    match end {
        Some(end) => Ok(DateRange { start, end }),
        None => Err(ReportError::InvalidDate { bound: DateBound::End }),
    }
}

/// Every month of every year that has a following month among the dates has a
/// date window: it starts on the first day of the month and ends on the first day
/// of the month after, which is the day after the month's last and so a later
/// day than the start. The window of a December ends in January of the next
/// year.
pub proof fn lemma_month_window(year: int, month: int)
    requires
        1 <= month <= 12,
        MIN_YEAR <= year <= MAX_YEAR,
        !(year == MAX_YEAR && month == 12),
    ensures
        month_window(year, month) matches Some((start, end)) && {
            &&& start == (year, month, 1int)
            &&& end.2 == 1
            &&& month == 12 ==> end == (year + 1, 1int, 1int)
            &&& month < 12 ==> end == (year, month + 1, 1int)
            &&& day_number(end.0, end.1, end.2) == day_number(year, month, 1) + days_in_month(
                year,
                month,
            )
            &&& day_number(end.0, end.1, end.2) > day_number(start.0, start.1, start.2)
        },
{
    reveal_with_fuel(days_before_month, 13);
}

/// Whether `urlencoding` leaves the byte as it is: an ASCII letter or digit, or
/// one of `-`, `.`, `_` and `~`.
pub open spec fn is_unreserved(byte: u8) -> bool {
    ||| 0x30 <= byte <= 0x39
    ||| 0x41 <= byte <= 0x5a
    ||| 0x61 <= byte <= 0x7a
    ||| byte == 0x2d
    ||| byte == 0x2e
    ||| byte == 0x5f
    ||| byte == 0x7e
}

/// The character of the hexadecimal digit `digit`, a capital for the letters.
pub open spec fn hex_digit_char(digit: int) -> char {
    if digit < 10 {
        crate::text::digit_char(digit)
    } else if digit == 10 {
        'A'
    } else if digit == 11 {
        'B'
    } else if digit == 12 {
        'C'
    } else if digit == 13 {
        'D'
    } else if digit == 14 {
        'E'
    } else {
        'F'
    }
}

/// One byte as it stands in a URL: itself, or a percent sign and its two
/// hexadecimal digits.
pub open spec fn percent_encoded_byte(byte: u8) -> Seq<char> {
    if is_unreserved(byte) {
        seq![byte as char]
    } else {
        seq!['%', hex_digit_char(byte as int / 16), hex_digit_char(byte as int % 16)]
    }
}

/// Bytes as they stand in a URL, each encoded by itself.
pub open spec fn percent_encoded(bytes: Seq<u8>) -> Seq<char>
    decreases bytes.len(),
{
    if bytes.len() == 0 {
        Seq::empty()
    } else {
        percent_encoded(bytes.drop_last()) + percent_encoded_byte(bytes.last())
    }
}

/// The search filter: the repository, pull requests only, created from
/// `start` to `end`.
pub open spec fn search_query_text(
    owner: Seq<char>,
    repo: Seq<char>,
    start: (int, int, int),
    end: (int, int, int),
) -> Seq<char> {
    "repo:"@ + owner + "/"@ + repo + " is:pr created:"@ + iso_date_text(start.0, start.1, start.2)
        + ".."@ + iso_date_text(end.0, end.1, end.2)
}

/// The address of page `page` of the search for `query`.
pub open spec fn request_url_text(query: Seq<char>, page: int) -> Seq<char> {
    "https://api.github.com/search/issues?q="@ + percent_encoded(encode_utf8(query))
        + "&per_page="@ + decimal_text(PAGE_SIZE as nat) + "&page="@ + decimal_text(page as nat)
}

/// `urlencoding::encode`: every byte of the UTF-8 form of `text` but the
/// unreserved ones becomes a percent sign and two hexadecimal digits.
#[verifier::external_body]
fn url_encode(text: &str) -> (encoded: String)
    ensures
        encoded@ == percent_encoded(text.spec_bytes()),
{
    urlencoding::encode(text).into_owned()
}

/// The search filter for the pull requests of `repo_owner`/`repo_name` that were
/// created from `start_date` to `end_date`.
pub fn build_search_query(
    repo_owner: &str,
    repo_name: &str,
    start_date: CalendarDate,
    end_date: CalendarDate,
) -> (query: String)
    ensures
        query@ == search_query_text(repo_owner@, repo_name@, start_date.ymd(), end_date.ymd()),
{
    proof {
        use_type_invariant(start_date);
        use_type_invariant(end_date);
    }
    let start = format_date(start_date, "%Y-%m-%d");
    let end = format_date(end_date, "%Y-%m-%d");
    let mut query = String::from_str("repo:");
    query.append(repo_owner);
    query.append("/");
    query.append(repo_name);
    query.append(" is:pr created:");
    query.append(start.as_str());
    query.append("..");
    query.append(end.as_str());
    query
}

/// The address of page `page` of the search for `query`.
pub fn build_request_url(query: &str, page: u32) -> (url: String)
    ensures
        url@ == request_url_text(query@, page as int),
{
    let encoded = url_encode(query);
    let size = unsigned_to_text(PAGE_SIZE as u64);
    let number = unsigned_to_text(page as u64);
    let mut url = String::from_str("https://api.github.com/search/issues?q=");
    url.append(encoded.as_str());
    url.append("&per_page=");
    url.append(size.as_str());
    url.append("&page=");
    url.append(number.as_str());
    url
}

/// Whether an answer with this status is a success.
pub open spec fn is_success(status: u16) -> bool {
    200 <= status < 300
}

/// Accepts the status of an answer, or fails with the status and the body.
pub fn check_status(status: u16, body: &str) -> (checked: Result<(), ReportError>)
    ensures
        match checked {
            Ok(_) => is_success(status),
            Err(e) => !is_success(status) && (e matches ReportError::ApiRequestFailed {
                status: code,
                body: text,
            } && code == status && text@ == body@),
        },
{
    if 200 <= status && status < 300 {
        Ok(())
    } else {
        Err(ReportError::ApiRequestFailed { status, body: String::from_str(body) })
    }
}

/// A request for one page of the search.
#[derive(Clone, Debug, PartialEq, Eq)]
pub struct PageRequest {
    /// The number of the page, from 1.
    pub page: u32,
    /// The address to get.
    pub url: String,
}

/// How far a search has come.
pub struct SearchProgress {
    /// The search filter.
    pub query: Seq<char>,
    /// The number of the page to ask for next.
    pub page: int,
    /// The pull requests of the pages so far, in their order.
    pub prs: Seq<Issue>,
    /// Whether the search is over.
    pub finished: bool,
}

/// The search before its first page.
pub open spec fn search_start(query: Seq<char>) -> SearchProgress {
    SearchProgress { query, page: 1, prs: Seq::empty(), finished: false }
}

/// The search after the answer `items` to the request for its next page: an
/// empty page ends it; any other page is added to what was found, and ends it
/// where it was the last page allowed. A search that is over stays as it is.
pub open spec fn after_page(progress: SearchProgress, items: Seq<Issue>) -> SearchProgress {
    if progress.finished {
        progress
    } else if items.len() == 0 {
        SearchProgress { finished: true, ..progress }
    } else {
        SearchProgress {
            page: progress.page + 1,
            prs: progress.prs + items,
            finished: progress.page + 1 > MAX_PAGES,
            ..progress
        }
    }
}

/// The search for the pull requests of one month, page by page. Whoever drives
/// it sends each request and hands the page that came back to `accept_page`,
/// until no request is left.
pub struct PageFetcher {
    query: String,
    page: u32,
    prs: Vec<Issue>,
    finished: bool,
}

impl View for PageFetcher {
    type V = SearchProgress;

    closed spec fn view(&self) -> SearchProgress {
        SearchProgress {
            query: self.query@,
            page: self.page as int,
            prs: self.prs@,
            finished: self.finished,
        }
    }
}

impl PageFetcher {
    #[verifier::type_invariant]
    pub closed spec fn within_page_cap(self) -> bool {
        &&& 1 <= self.page <= MAX_PAGES + 1
        &&& self.page > MAX_PAGES ==> self.finished
    }

    /// A search for `query` that has not asked for anything yet.
    pub fn new(query: String) -> (fetcher: PageFetcher)
        ensures
            fetcher@ == search_start(query@),
    {
        PageFetcher { query, page: 1, prs: Vec::new(), finished: false }
    }

    /// The search for the pull requests of `repo_owner`/`repo_name` in the month
    /// that the arguments name.
    pub fn start(repo_owner: &str, repo_name: &str, args: &Cli) -> (fetcher: Result<
        PageFetcher,
        ReportError,
    >)
        ensures
            match fetcher {
                Ok(f) => month_window(args.year as int, args.month as int) matches Some(
                    (start, end),
                ) && f@ == search_start(search_query_text(repo_owner@, repo_name@, start, end)),
                Err(e) => {
                    &&& month_window(args.year as int, args.month as int) is None
                    &&& e == (ReportError::InvalidDate {
                        bound: if is_calendar_day(args.year as int, args.month as int, 1) {
                            DateBound::End
                        } else {
                            DateBound::Start
                        },
                    })
                },
            },
    {
        let range = calculate_date_range(args)?;
        let query = build_search_query(repo_owner, repo_name, range.start(), range.end());
        Ok(PageFetcher::new(query))
    }

    /// Whether the search is over.
    pub fn is_finished(&self) -> (finished: bool)
        ensures
            finished == self@.finished,
    {
        self.finished
    }

    /// The request to send next; none once the search is over.
    pub fn next_request(&self) -> (request: Option<PageRequest>)
        ensures
            self@.finished ==> request is None,
            !self@.finished ==> (request matches Some(r) && r.page == self@.page && r.url@
                == request_url_text(self@.query, self@.page)),
    {
        if self.finished {
            None
        } else {
            Some(PageRequest { page: self.page, url: build_request_url(self.query.as_str(), self.page) })
        }
    }

    /// The search after the page that came back for the request last handed out.
    pub fn accept_page(self, page: SearchResult) -> (next: PageFetcher)
        ensures
            next@ == after_page(self@, page.items@),
    {
        proof {
            use_type_invariant(&self);
        }
        if self.finished {
            return self;
        }
        let PageFetcher { query, page: number, prs, finished } = self;
        let mut prs = prs;
        let mut page = page;
        if page.items.len() == 0 {
            PageFetcher { query, page: number, prs, finished: true }
        } else {
            prs.append(&mut page.items);
            PageFetcher { query, page: number + 1, prs, finished: number + 1 > MAX_PAGES }
        }
    }

    /// The search after the body of a successful answer, `decoded` being what the
    /// body holds: a page of results is taken as `accept_page` takes it; a body
    /// that is no page of results fails the search, with the reason and the body.
    pub fn accept_body(self, body: String, decoded: Result<SearchResult, String>) -> (next: Result<
        PageFetcher,
        ReportError,
    >)
        ensures
            match decoded {
                Ok(page) => next matches Ok(fetcher) && fetcher@ == after_page(self@, page.items@),
                Err(reason) => next matches Err(e) && e == (ReportError::ResponseParseError {
                    reason,
                    body,
                }),
            },
    {
        match decoded {
            Ok(page) => Ok(self.accept_page(page)),
            Err(reason) => Err(ReportError::ResponseParseError { reason, body }),
        }
    }

    /// The pull requests of all pages taken, in the order of the pages and, within
    /// a page, in its order.
    pub fn into_pull_requests(self) -> (prs: Vec<Issue>)
        ensures
            prs@ == self@.prs,
    {
        self.prs
    }
}

/// The pages that are still allowed.
pub open spec fn pages_left(progress: SearchProgress) -> nat {
    if progress.finished || progress.page < 1 || progress.page > MAX_PAGES {
        0
    } else {
        (MAX_PAGES + 1 - progress.page) as nat
    }
}

/// The search at its end, when `source` gives the page that comes back for each
/// page number.
pub open spec fn run_search(
    progress: SearchProgress,
    source: spec_fn(int) -> Seq<Issue>,
) -> SearchProgress
    decreases pages_left(progress),
{
    if pages_left(progress) == 0 {
        progress
    } else {
        run_search(after_page(progress, source(progress.page)), source)
    }
}

/// The number of requests from `progress` to the end of the search, when
/// `source` gives the page that comes back for each page number.
pub open spec fn requests_made(progress: SearchProgress, source: spec_fn(int) -> Seq<Issue>) -> nat
    decreases pages_left(progress),
{
    if pages_left(progress) == 0 {
        0
    } else {
        1 + requests_made(after_page(progress, source(progress.page)), source)
    }
}

/// The pull requests of the pages `first` to `last`, in the order of the pages.
pub open spec fn pages_joined(source: spec_fn(int) -> Seq<Issue>, first: int, last: int) -> Seq<
    Issue,
>
    decreases last - first + 1,
{
    if last < first {
        Seq::empty()
    } else {
        source(first) + pages_joined(source, first + 1, last)
    }
}

/// A search that finds pull requests on every page up to page `last`, and none
/// on the page after unless `last` is the last page allowed, ends with what it had
/// and those pages, after one request for each of them and one for the empty
/// page.
pub proof fn lemma_run_search(
    progress: SearchProgress,
    source: spec_fn(int) -> Seq<Issue>,
    last: int,
)
    requires
        !progress.finished,
        1 <= progress.page <= last + 1,
        progress.page <= MAX_PAGES,
        last <= MAX_PAGES,
        forall|p: int| progress.page <= p <= last ==> (#[trigger] source(p)).len() > 0,
        last < MAX_PAGES ==> source(last + 1).len() == 0,
    ensures
        run_search(progress, source).finished,
        run_search(progress, source).query == progress.query,
        run_search(progress, source).prs == progress.prs + pages_joined(
            source,
            progress.page,
            last,
        ),
        requests_made(progress, source) == if last < MAX_PAGES {
            last + 2 - progress.page
        } else {
            last + 1 - progress.page
        },
    decreases last + 1 - progress.page,
{
    if progress.page == last + 1 {
        assert(pages_joined(source, progress.page, last) =~= Seq::<Issue>::empty());
        assert(progress.prs + Seq::<Issue>::empty() =~= progress.prs);
        if last < MAX_PAGES {
            let next = after_page(progress, source(progress.page));
            assert(next.finished);
            assert(run_search(next, source) == next);
            assert(requests_made(next, source) == 0);
        }
    } else {
        let next = after_page(progress, source(progress.page));
        assert(source(progress.page).len() > 0);
        if next.finished {
            assert(progress.page == MAX_PAGES);
            assert(last == MAX_PAGES);
            assert(pages_joined(source, progress.page + 1, last) =~= Seq::<Issue>::empty());
            assert(run_search(next, source) == next);
            assert(requests_made(next, source) == 0);
            assert(next.prs =~= progress.prs + pages_joined(source, progress.page, last));
        } else {
            lemma_run_search(next, source, last);
            assert(next.prs + pages_joined(source, next.page, last) =~= progress.prs
                + pages_joined(source, progress.page, last));
        }
    }
}

/// A search whose first `filled` pages hold pull requests and whose next page is
/// empty, with fewer than `MAX_PAGES` filled, returns the pull requests of those
/// pages in page order, after `filled + 1` requests.
pub proof fn lemma_search_ends_at_empty_page(
    query: Seq<char>,
    source: spec_fn(int) -> Seq<Issue>,
    filled: int,
)
    requires
        0 <= filled < MAX_PAGES,
        forall|p: int| 1 <= p <= filled ==> (#[trigger] source(p)).len() > 0,
        source(filled + 1).len() == 0,
    ensures
        run_search(search_start(query), source).finished,
        run_search(search_start(query), source).prs == pages_joined(source, 1, filled),
        requests_made(search_start(query), source) == filled + 1,
{
    lemma_run_search(search_start(query), source, filled);
    assert(Seq::<Issue>::empty() + pages_joined(source, 1, filled) =~= pages_joined(
        source,
        1,
        filled,
    ));
}

/// A search that finds pull requests on each of the first `MAX_PAGES` pages
/// stops there, whatever lies behind: it returns the pull requests of those
/// pages in page order, after `MAX_PAGES` requests.
pub proof fn lemma_search_ends_at_page_cap(query: Seq<char>, source: spec_fn(int) -> Seq<Issue>)
    requires
        forall|p: int| 1 <= p <= MAX_PAGES ==> (#[trigger] source(p)).len() > 0,
    ensures
        run_search(search_start(query), source).finished,
        run_search(search_start(query), source).prs == pages_joined(source, 1, MAX_PAGES as int),
        requests_made(search_start(query), source) == MAX_PAGES,
{
    lemma_run_search(search_start(query), source, MAX_PAGES as int);
    assert(Seq::<Issue>::empty() + pages_joined(source, 1, MAX_PAGES as int) =~= pages_joined(
        source,
        1,
        MAX_PAGES as int,
    ));
}

/// Pages of `size` pull requests each hold `size` times their number together.
pub proof fn lemma_pages_joined_len(
    source: spec_fn(int) -> Seq<Issue>,
    first: int,
    last: int,
    size: nat,
)
    requires
        first <= last + 1,
        forall|p: int| first <= p <= last ==> (#[trigger] source(p)).len() == size,
    ensures
        pages_joined(source, first, last).len() == (last + 1 - first) * size,
    decreases last + 1 - first,
{
    if first <= last {
        lemma_pages_joined_len(source, first + 1, last, size);
        assert(source(first).len() == size);
        assert((last + 1 - first) * size == (last + 1 - (first + 1)) * size + size)
            by (nonlinear_arith);
    } else {
        assert((last + 1 - first) * size == 0) by (nonlinear_arith)
            requires
                last + 1 - first == 0,
        ;
    }
}

} // verus!
