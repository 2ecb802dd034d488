use pr_reporter::config::Config;
use pr_reporter::error::ReportError;

fn some(text: &str) -> Option<String> {
    Some(text.to_string())
}

fn missing(variable: &str) -> ReportError {
    ReportError::MissingConfiguration { variable: variable.to_string() }
}

#[test]
fn a_missing_token_fails_first() {
    assert_eq!(Config::from_lookups(None, some("o"), some("r")), Err(missing("GITHUB_TOKEN")));
    assert_eq!(Config::from_lookups(None, None, None), Err(missing("GITHUB_TOKEN")));
}

#[test]
fn a_missing_owner_fails_before_a_missing_name() {
    assert_eq!(Config::from_lookups(some("t"), None, some("r")), Err(missing("REPO_OWNER")));
    assert_eq!(Config::from_lookups(some("t"), None, None), Err(missing("REPO_OWNER")));
    assert_eq!(Config::from_lookups(some("t"), some("o"), None), Err(missing("REPO_NAME")));
}

#[test]
fn three_values_make_a_configuration() {
    let config = Config::from_lookups(some("t"), some("o"), some("r")).unwrap();
    assert_eq!(
        config,
        Config {
            github_token: "t".to_string(),
            repo_owner: "o".to_string(),
            repo_name: "r".to_string()
        }
    );
}

#[test]
fn an_empty_value_is_a_value() {
    assert!(Config::from_lookups(some(""), some(""), some("")).is_ok());
}

#[test]
fn the_variables_are_token_owner_and_name() {
    assert_eq!(Config::variable_names(), ["GITHUB_TOKEN", "REPO_OWNER", "REPO_NAME"]);
}
