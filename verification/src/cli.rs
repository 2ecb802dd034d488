//! The arguments of a report run.

use vstd::prelude::*;

verus! {

/// The year that is reported where none is given.
pub const DEFAULT_YEAR: i32 = 2024;

/// The output that is shown where none is given.
pub const DEFAULT_OUTPUT: &'static str = "table";

/// Which month to report, and how to show it.
#[derive(Clone, Debug, PartialEq, Eq)]
pub struct Cli {
    /// The year of the month.
    pub year: i32,
    /// The month, from 1 to 12.
    pub month: u32,
    /// `json` in any case for JSON, anything else for the table.
    pub output: String,
}

} // verus!
