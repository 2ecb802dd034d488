use pr_reporter::calendar::CalendarDate;
use pr_reporter::github_api::{build_request_url, build_search_query, MAX_PAGES, PAGE_SIZE};

fn date(year: i32, month: u32, day: u32) -> CalendarDate {
    CalendarDate::new(year, month, day).unwrap()
}

#[test]
fn the_query_names_repository_kind_and_window() {
    let query = build_search_query("rust-lang", "rust", date(2024, 6, 1), date(2024, 7, 1));
    assert_eq!(query, "repo:rust-lang/rust is:pr created:2024-06-01..2024-07-01");
}

#[test]
fn the_query_passes_the_first_day_of_the_next_month_as_it_is() {
    let query = build_search_query("o", "r", date(2024, 12, 1), date(2025, 1, 1));
    assert_eq!(query, "repo:o/r is:pr created:2024-12-01..2025-01-01");
}

#[test]
fn the_query_writes_far_years_with_their_sign() {
    let query = build_search_query("o", "r", date(10000, 1, 1), date(10000, 2, 1));
    assert_eq!(query, "repo:o/r is:pr created:+10000-01-01..+10000-02-01");
    let query = build_search_query("o", "r", date(-1, 12, 1), date(0, 1, 1));
    assert_eq!(query, "repo:o/r is:pr created:-0001-12-01..0000-01-01");
    let query = build_search_query("o", "r", date(7, 3, 1), date(7, 4, 1));
    assert_eq!(query, "repo:o/r is:pr created:0007-03-01..0007-04-01");
}

#[test]
fn the_url_holds_the_encoded_query_page_size_and_page() {
    let url = build_request_url("repo:o/r is:pr created:2024-06-01..2024-07-01", 3);
    assert_eq!(
        url,
        "https://api.github.com/search/issues?q=repo%3Ao%2Fr%20is%3Apr%20created%3A2024-06-01..2024-07-01&per_page=100&page=3"
    );
}

#[test]
fn the_url_keeps_unreserved_characters() {
    let url = build_request_url("AZaz09-._~", 1);
    assert_eq!(url, "https://api.github.com/search/issues?q=AZaz09-._~&per_page=100&page=1");
}

#[test]
fn the_url_encodes_every_byte_of_other_characters() {
    let url = build_request_url("\u{e9}+\u{20ac}/\n", 10);
    assert_eq!(
        url,
        "https://api.github.com/search/issues?q=%C3%A9%2B%E2%82%AC%2F%0A&per_page=100&page=10"
    );
}

#[test]
fn the_url_of_an_empty_query_and_the_largest_page() {
    let url = build_request_url("", u32::MAX);
    assert_eq!(url, "https://api.github.com/search/issues?q=&per_page=100&page=4294967295");
}

#[test]
fn the_page_limits_are_100_items_and_10_pages() {
    assert_eq!(PAGE_SIZE, 100);
    assert_eq!(MAX_PAGES, 10);
}
