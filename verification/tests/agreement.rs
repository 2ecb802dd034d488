use pr_reporter::calendar::{CalendarDate, MAX_YEAR, MIN_YEAR};
use pr_reporter::github_api::build_request_url;
use pr_reporter::summary::categorize_pr;
use pr_reporter::utils::parse_timestamp;

fn next(state: &mut u64) -> u64 {
    *state = state.wrapping_mul(6364136223846793005).wrapping_add(1442695040888963407);
    *state >> 33
}

fn is_leap_year(year: i64) -> bool {
    year % 4 == 0 && (year % 100 != 0 || year % 400 == 0)
}

fn days_in_month(year: i64, month: i64) -> i64 {
    match month {
        2 => {
            if is_leap_year(year) {
                29
            } else {
                28
            }
        }
        4 | 6 | 9 | 11 => 30,
        1 | 3 | 5 | 7 | 8 | 10 | 12 => 31,
        _ => 0,
    }
}

fn day_number(year: i64, month: i64, day: i64) -> i64 {
    let past = year - 1;
    let before_year =
        365 * past + past.div_euclid(4) - past.div_euclid(100) + past.div_euclid(400);
    let before_month: i64 = (1..month).map(|m| days_in_month(year, m)).sum();
    before_year + before_month + day
}

fn is_calendar_day(year: i64, month: i64, day: i64) -> bool {
    i64::from(MIN_YEAR) <= year
        && year <= i64::from(MAX_YEAR)
        && 1 <= month
        && month <= 12
        && 1 <= day
        && day <= days_in_month(year, month)
}

fn iso_text(year: i64, month: i64, day: i64) -> String {
    let year_text = if (0..=9999).contains(&year) {
        format!("{:04}", year)
    } else if year > 9999 {
        format!("+{}", year)
    } else {
        format!("-{:04}", -year)
    };
    format!("{}-{:02}-{:02}", year_text, month, day)
}

fn some_date(state: &mut u64) -> CalendarDate {
    loop {
        let year = match next(state) % 4 {
            0 => 1900 + (next(state) % 200) as i32,
            1 => -20 + (next(state) % 40) as i32,
            2 => 9990 + (next(state) % 20) as i32,
            _ => MIN_YEAR + (next(state) % 524286) as i32,
        };
        let month = 1 + (next(state) % 12) as u32;
        let day = 1 + (next(state) % 31) as u32;
        if let Some(date) = CalendarDate::new(year, month, day) {
            return date;
        }
    }
}

#[test]
fn a_date_exists_where_the_calendar_has_the_day() {
    let mut state = 1u64;
    for _ in 0..20000 {
        let year = match next(&mut state) % 3 {
            0 => 1990 + (next(&mut state) % 40) as i32,
            1 => (next(&mut state) % 600000) as i32 - 300000,
            _ => next(&mut state) as u32 as i32,
        };
        let month = (next(&mut state) % 15) as u32;
        let day = (next(&mut state) % 34) as u32;
        let date = CalendarDate::new(year, month, day);
        let expected = is_calendar_day(i64::from(year), i64::from(month), i64::from(day));
        assert_eq!(date.is_some(), expected, "{} {} {}", year, month, day);
        if let Some(date) = date {
            assert_eq!((date.year(), date.month(), date.day()), (year, month, day));
        }
    }
}

#[test]
fn the_days_between_dates_are_the_difference_of_their_numbers() {
    let mut state = 2u64;
    for _ in 0..20000 {
        let from = some_date(&mut state);
        let to = some_date(&mut state);
        let expected =
            day_number(i64::from(to.year()), i64::from(to.month()), i64::from(to.day()))
                - day_number(
                    i64::from(from.year()),
                    i64::from(from.month()),
                    i64::from(from.day()),
                );
        assert_eq!(from.days_until(&to), expected);
    }
}

#[test]
fn the_day_after_has_the_next_number() {
    let mut previous = CalendarDate::new(1895, 12, 31).unwrap();
    for year in 1896..=2105 {
        for month in 1..=12u32 {
            for day in 1..=31u32 {
                if let Some(date) = CalendarDate::new(year, month, day) {
                    assert_eq!(previous.days_until(&date), 1);
                    previous = date;
                }
            }
        }
    }
}

#[test]
fn a_date_is_written_as_year_month_and_day() {
    let mut state = 3u64;
    for _ in 0..20000 {
        let date = some_date(&mut state);
        let expected =
            iso_text(i64::from(date.year()), i64::from(date.month()), i64::from(date.day()));
        assert_eq!(date.to_text(), expected);
    }
}

#[test]
fn a_written_timestamp_is_read_back() {
    let mut state = 4u64;
    for _ in 0..20000 {
        let date = some_date(&mut state);
        let text = format!(
            "{}T{:02}:{:02}:{:02}Z",
            date.to_text(),
            next(&mut state) % 24,
            next(&mut state) % 60,
            next(&mut state) % 60
        );
        assert_eq!(parse_timestamp(&text), Ok(date), "{}", text);
    }
}

fn some_text(state: &mut u64) -> String {
    let pieces = [
        "a", "Z", "0", "9", " ", "-", ".", "_", "~", ":", "/", "+", "%", "T", "Z", "fix:", "FEAT:",
        "2024", "-06-", "01T", "00:", "\n", "\t", "\r", "\0", "\u{7f}", "\u{e9}", "\u{17f}",
        "\u{130}", "\u{6f22}", "\u{1f633}", "\u{301}", "\u{200d}", "\u{10ffff}",
    ];
    let len = next(state) % 12;
    let mut out = String::new();
    for _ in 0..len {
        out.push_str(pieces[(next(state) % pieces.len() as u64) as usize]);
    }
    out
}

#[test]
fn any_text_is_read_as_a_timestamp_or_refused() {
    let mut state = 5u64;
    for _ in 0..20000 {
        let text = some_text(&mut state);
        if let Ok(day) = parse_timestamp(&text) {
            assert!(is_calendar_day(
                i64::from(day.year()),
                i64::from(day.month()),
                i64::from(day.day())
            ));
        }
    }
}

#[test]
fn any_title_has_one_of_the_six_categories_or_none() {
    let names = ["fix", "feat", "refactor", "test", "build", "chore"];
    let mut state = 6u64;
    for _ in 0..3000 {
        let title = some_text(&mut state);
        if let Some(name) = categorize_pr(&title) {
            assert!(names.contains(&name.as_str()));
        }
    }
}

fn percent_encoded(text: &str) -> String {
    let mut out = String::new();
    for byte in text.bytes() {
        let unreserved = byte.is_ascii_alphanumeric() || b"-._~".contains(&byte);
        if unreserved {
            out.push(char::from(byte));
        } else {
            out.push_str(&format!("%{:02X}", byte));
        }
    }
    out
}

#[test]
fn every_byte_of_the_query_is_kept_or_percent_encoded() {
    let mut state = 7u64;
    for _ in 0..20000 {
        let query = some_text(&mut state);
        let page = next(&mut state) as u32;
        let expected = format!(
            "https://api.github.com/search/issues?q={}&per_page=100&page={}",
            percent_encoded(&query),
            page
        );
        assert_eq!(build_request_url(&query, page), expected);
    }
}
