use pr_reporter::cli::{Cli, DEFAULT_OUTPUT, DEFAULT_YEAR};
use pr_reporter::error::{DateBound, ReportError};
use pr_reporter::github_api::calculate_date_range;

fn args(year: i32, month: u32) -> Cli {
    Cli { year, month, output: "table".to_string() }
}

fn ymd(range_year: i32, month: u32) -> ((i32, u32, u32), (i32, u32, u32)) {
    let range = calculate_date_range(&args(range_year, month)).unwrap();
    let (start, end) = (range.start(), range.end());
    ((start.year(), start.month(), start.day()), (end.year(), end.month(), end.day()))
}

#[test]
fn december_rolls_over_to_january_of_the_next_year() {
    assert_eq!(ymd(2024, 12), ((2024, 12, 1), (2025, 1, 1)));
    let range = calculate_date_range(&args(2024, 12)).unwrap();
    assert_eq!(range.start().to_text(), "2024-12-01");
    assert_eq!(range.end().to_text(), "2025-01-01");
}

#[test]
fn a_month_ends_on_the_first_day_of_the_next() {
    assert_eq!(ymd(2024, 1), ((2024, 1, 1), (2024, 2, 1)));
    assert_eq!(ymd(2024, 2), ((2024, 2, 1), (2024, 3, 1)));
    assert_eq!(ymd(2024, 11), ((2024, 11, 1), (2024, 12, 1)));
}

#[test]
fn every_month_has_a_window_that_ends_after_it_starts() {
    let lengths = [31, 29, 31, 30, 31, 30, 31, 31, 30, 31, 30, 31];
    for month in 1..=12u32 {
        let range = calculate_date_range(&args(2024, month)).unwrap();
        let days = range.start().days_until(&range.end());
        assert_eq!(days, lengths[(month - 1) as usize]);
        assert!(days > 0);
        assert_eq!(range.start().day(), 1);
        assert_eq!(range.end().day(), 1);
    }
}

#[test]
fn february_of_a_common_year_has_28_days() {
    let range = calculate_date_range(&args(2023, 2)).unwrap();
    assert_eq!(range.start().days_until(&range.end()), 28);
}

#[test]
fn a_month_outside_the_twelve_has_no_start() {
    let expected = Err(ReportError::InvalidDate { bound: DateBound::Start });
    assert_eq!(calculate_date_range(&args(2024, 0)), expected);
    assert_eq!(calculate_date_range(&args(2024, 13)), expected);
    assert_eq!(calculate_date_range(&args(2024, u32::MAX)), expected);
}

#[test]
fn a_year_outside_the_dates_has_no_start() {
    let expected = Err(ReportError::InvalidDate { bound: DateBound::Start });
    assert_eq!(calculate_date_range(&args(262143, 1)), expected);
    assert_eq!(calculate_date_range(&args(-262144, 6)), expected);
    assert_eq!(calculate_date_range(&args(i32::MAX, 12)), expected);
    assert_eq!(calculate_date_range(&args(i32::MIN, 12)), expected);
}

#[test]
fn the_last_december_has_no_end() {
    let expected = Err(ReportError::InvalidDate { bound: DateBound::End });
    assert_eq!(calculate_date_range(&args(262142, 12)), expected);
    assert_eq!(ymd(262142, 11), ((262142, 11, 1), (262142, 12, 1)));
    assert_eq!(ymd(-262143, 12), ((-262143, 12, 1), (-262142, 1, 1)));
}

#[test]
fn the_year_2024_and_the_table_are_the_defaults() {
    assert_eq!(DEFAULT_YEAR, 2024);
    assert_eq!(DEFAULT_OUTPUT, "table");
}
