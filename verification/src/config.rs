//! What a report run needs from its environment.

use crate::error::ReportError;
use vstd::prelude::*;

verus! {

/// The token, the owner of the repository and the name of the repository.
#[derive(Clone, Debug, PartialEq, Eq)]
pub struct Config {
    pub github_token: String,
    pub repo_owner: String,
    pub repo_name: String,
}

/// The name of the variable that holds the token.
pub open spec fn token_variable() -> Seq<char> {
    "GITHUB_TOKEN"@
}

/// The name of the variable that holds the owner of the repository.
pub open spec fn owner_variable() -> Seq<char> {
    "REPO_OWNER"@
}

/// The name of the variable that holds the name of the repository.
pub open spec fn name_variable() -> Seq<char> {
    "REPO_NAME"@
}

/// The first of the three variables that has no value, where there is one.
pub open spec fn first_missing(
    github_token: Option<String>,
    repo_owner: Option<String>,
    repo_name: Option<String>,
) -> Option<Seq<char>> {
    if github_token is None {
        Some(token_variable())
    } else if repo_owner is None {
        Some(owner_variable())
    } else if repo_name is None {
        Some(name_variable())
    } else {
        None
    }
}

impl Config {
    /// The names of the variables to look up, in the order in which
    /// `from_lookups` takes their values.
    pub fn variable_names() -> (names: [&'static str; 3])
        ensures
            names[0]@ == token_variable(),
            names[1]@ == owner_variable(),
            names[2]@ == name_variable(),
    {
        ["GITHUB_TOKEN", "REPO_OWNER", "REPO_NAME"]
    }

    /// The configuration from what was found for the three variables. The first
    /// of them without a value fails it, before anything is asked of the
    /// repository's host.
    pub fn from_lookups(
        github_token: Option<String>,
        repo_owner: Option<String>,
        repo_name: Option<String>,
    ) -> (config: Result<Config, ReportError>)
        ensures
            match config {
                Ok(c) => {
                    &&& github_token == Some(c.github_token)
                    &&& repo_owner == Some(c.repo_owner)
                    &&& repo_name == Some(c.repo_name)
                },
                Err(e) => e matches ReportError::MissingConfiguration { variable } && first_missing(
                    github_token,
                    repo_owner,
                    repo_name,
                ) == Some(variable@),
            },
    {
        let github_token = match github_token {
            Some(value) => value,
            None => {
                return Err(
                    ReportError::MissingConfiguration { variable: String::from_str("GITHUB_TOKEN") },
                );
            },
        };
        let repo_owner = match repo_owner {
            Some(value) => value,
            None => {
                return Err(
                    ReportError::MissingConfiguration { variable: String::from_str("REPO_OWNER") },
                );
            },
        };
        let repo_name = match repo_name {
            Some(value) => value,
            None => {
                return Err(
                    ReportError::MissingConfiguration { variable: String::from_str("REPO_NAME") },
                );
            },
        };
        Ok(Config { github_token, repo_owner, repo_name })
    }
}

} // verus!
