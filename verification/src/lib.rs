//! Monthly pull-request reporting: the date window of a calendar month, the
//! search query and page requests for it, the classification of pull requests by
//! title, per-contributor completion statistics and the rows of the report.

pub mod calendar;
pub mod cli;
pub mod config;
pub mod error;
pub mod github_api;
pub mod models;
pub mod output;
pub mod summary;
pub mod text;
pub mod utils;
