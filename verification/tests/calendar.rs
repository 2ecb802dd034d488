use pr_reporter::calendar::CalendarDate;

fn date(year: i32, month: u32, day: u32) -> CalendarDate {
    CalendarDate::new(year, month, day).unwrap()
}

#[test]
fn a_date_keeps_year_month_and_day() {
    let d = date(2024, 6, 15);
    assert_eq!((d.year(), d.month(), d.day()), (2024, 6, 15));
}

#[test]
fn days_that_do_not_exist_are_no_dates() {
    assert!(CalendarDate::new(2024, 2, 30).is_none());
    assert!(CalendarDate::new(2023, 2, 29).is_none());
    assert!(CalendarDate::new(2024, 4, 31).is_none());
    assert!(CalendarDate::new(2024, 0, 1).is_none());
    assert!(CalendarDate::new(2024, 13, 1).is_none());
    assert!(CalendarDate::new(2024, 1, 0).is_none());
    assert!(CalendarDate::new(2024, 1, 32).is_none());
}

#[test]
fn leap_days_are_dates() {
    assert!(CalendarDate::new(2024, 2, 29).is_some());
    assert!(CalendarDate::new(2000, 2, 29).is_some());
    assert!(CalendarDate::new(1900, 2, 29).is_none());
    assert!(CalendarDate::new(-4, 2, 29).is_some());
}

#[test]
fn years_end_where_dates_end() {
    assert!(CalendarDate::new(262142, 12, 31).is_some());
    assert!(CalendarDate::new(262143, 1, 1).is_none());
    assert!(CalendarDate::new(-262143, 1, 1).is_some());
    assert!(CalendarDate::new(-262144, 12, 31).is_none());
    assert!(CalendarDate::new(i32::MAX, 1, 1).is_none());
    assert!(CalendarDate::new(i32::MIN, 1, 1).is_none());
}

#[test]
fn a_date_is_written_with_four_digit_year() {
    assert_eq!(date(2024, 12, 1).to_text(), "2024-12-01");
    assert_eq!(date(2025, 1, 31).to_text(), "2025-01-31");
    assert_eq!(date(42, 3, 9).to_text(), "0042-03-09");
    assert_eq!(date(0, 1, 1).to_text(), "0000-01-01");
    assert_eq!(date(9999, 12, 31).to_text(), "9999-12-31");
}

#[test]
fn a_year_beyond_four_digits_is_written_with_its_sign() {
    assert_eq!(date(10000, 1, 1).to_text(), "+10000-01-01");
    assert_eq!(date(262142, 12, 31).to_text(), "+262142-12-31");
    assert_eq!(date(-1, 1, 1).to_text(), "-0001-01-01");
    assert_eq!(date(-12345, 6, 7).to_text(), "-12345-06-07");
}

#[test]
fn days_until_counts_whole_days() {
    assert_eq!(date(2014, 1, 1).days_until(&date(2014, 1, 1)), 0);
    assert_eq!(date(2013, 12, 31).days_until(&date(2014, 1, 1)), 1);
    assert_eq!(date(2014, 1, 2).days_until(&date(2014, 1, 1)), -1);
    assert_eq!(date(2013, 9, 23).days_until(&date(2014, 1, 1)), 100);
    assert_eq!(date(2010, 1, 1).days_until(&date(2014, 1, 1)), 365 * 4 + 1);
    assert_eq!(date(1614, 1, 1).days_until(&date(2014, 1, 1)), 365 * 400 + 97);
}

#[test]
fn days_until_spans_leap_days_and_year_zero() {
    assert_eq!(date(2024, 2, 28).days_until(&date(2024, 3, 1)), 2);
    assert_eq!(date(2023, 2, 28).days_until(&date(2023, 3, 1)), 1);
    assert_eq!(date(-1, 12, 31).days_until(&date(0, 1, 1)), 1);
    assert_eq!(date(0, 1, 1).days_until(&date(1, 1, 1)), 366);
    assert_eq!(date(-262143, 1, 1).days_until(&date(262142, 12, 31)), 191_491_528);
}
