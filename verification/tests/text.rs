use pr_reporter::error::{DateBound, ReportError};
use pr_reporter::text::{same_text, signed_to_text, unsigned_to_text};

#[test]
fn unsigned_numbers_are_written_in_decimal() {
    assert_eq!(unsigned_to_text(0), "0");
    assert_eq!(unsigned_to_text(7), "7");
    assert_eq!(unsigned_to_text(10), "10");
    assert_eq!(unsigned_to_text(1234567890), "1234567890");
    assert_eq!(unsigned_to_text(u64::MAX), "18446744073709551615");
}

#[test]
fn signed_numbers_carry_a_minus_sign() {
    assert_eq!(signed_to_text(0), "0");
    assert_eq!(signed_to_text(42), "42");
    assert_eq!(signed_to_text(-1), "-1");
    assert_eq!(signed_to_text(-908), "-908");
    assert_eq!(signed_to_text(i64::MAX), "9223372036854775807");
    assert_eq!(signed_to_text(i64::MIN), "-9223372036854775808");
}

#[test]
fn same_text_compares_every_character() {
    assert!(same_text("", ""));
    assert!(same_text("json", "json"));
    assert!(same_text("\u{e9}t\u{e9}", "\u{e9}t\u{e9}"));
    assert!(!same_text("json", "jsom"));
    assert!(!same_text("json", "jso"));
    assert!(!same_text("json", "JSON"));
    assert!(!same_text("", " "));
}

#[test]
fn each_error_has_its_message() {
    assert_eq!(
        ReportError::InvalidDate { bound: DateBound::Start }.message(),
        "Invalid start date"
    );
    assert_eq!(ReportError::InvalidDate { bound: DateBound::End }.message(), "Invalid end date");
    assert_eq!(
        ReportError::ApiRequestFailed { status: 404, body: "Not Found".to_string() }.message(),
        "GitHub API request failed with status 404"
    );
    assert_eq!(
        ReportError::ResponseParseError {
            reason: "expected value at line 1 column 1".to_string(),
            body: "<html>".to_string()
        }
        .message(),
        "expected value at line 1 column 1"
    );
    assert_eq!(
        ReportError::TimestampParseError { text: "soon".to_string() }.message(),
        "Invalid timestamp: soon"
    );
    assert_eq!(
        ReportError::MissingConfiguration { variable: "GITHUB_TOKEN".to_string() }.message(),
        "GITHUB_TOKEN must be set in .env file or environment variables"
    );
}
