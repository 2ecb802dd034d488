//! The records of the search and of the report.

use vstd::prelude::*;

verus! {

/// One page of search results.
#[derive(Clone, Debug, PartialEq, Eq)]
pub struct SearchResult {
    pub items: Vec<Issue>,
}

/// A pull request, as the search returns it.
#[derive(Clone, Debug, PartialEq, Eq)]
pub struct Issue {
    pub number: u64,
    pub title: String,
    pub body: Option<String>,
    pub user: Option<User>,
    pub created_at: String,
    pub closed_at: Option<String>,
    pub html_url: String,
}

/// The account that opened a pull request.
#[derive(Clone, Debug, PartialEq, Eq)]
pub struct User {
    pub login: String,
}

/// One line of the report.
#[derive(Clone, Debug, PartialEq, Eq)]
pub struct PullRequestRow {
    pub number: u64,
    pub title: String,
    pub description: String,
    pub developer: String,
    pub repository: String,
    pub start_to_end: String,
    pub workdays: String,
    pub url: String,
}

} // verus!
