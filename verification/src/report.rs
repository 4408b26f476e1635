//! What a run shows for an outcome: the lines to print, the message to
//! complain with, and the exit status.

use crate::error::CliError;
use crate::record::{line_of, PopulationCount, Row};
use crate::search::records_view;
use crate::text::cells;
use vstd::prelude::*;

verus! {

/// What a run shows.
#[derive(Debug)]
pub struct Report {
    /// The exit status: 0 for a success, 1 for every failure.
    pub status: i32,
    /// The lines for the standard output, one for each record found.
    pub lines: Vec<String>,
    /// The message for the standard error, if there is one to show.
    pub complaint: Option<String>,
}

/// The output lines of `found`, in the order of `found`.
pub open spec fn lines_of(found: Seq<Row>) -> Seq<Seq<char>> {
    found.map_values(|row: Row| line_of(row))
}

/// Turns the outcome of a search into what the run shows.
///
/// Found records are printed one by one, with status 0.  Every failure has
/// status 1 and prints no line.  It comes with its message, except that
/// `quiet` silences the message of `NotFound`, and of `NotFound` only.
pub fn report(outcome: &Result<Vec<PopulationCount>, CliError>, quiet: bool) -> (shown: Report)
    ensures
        match outcome {
            Ok(found) => {
                &&& shown.status == 0
                &&& cells(shown.lines@) == lines_of(records_view(found@))
                &&& shown.complaint is None
            },
            Err(error) => {
                &&& shown.status == 1
                &&& shown.lines@.len() == 0
                &&& shown.complaint is None <==> quiet && error is NotFound
                &&& shown.complaint matches Some(text) ==> error.says(text)
            },
        },
{
    match outcome {
        Ok(found) => {
            let mut lines: Vec<String> = Vec::new();
            let mut i: usize = 0;
            while i < found.len()
                invariant
                    i <= found.len(),
                    lines@.len() == i,
                    forall|k: int| 0 <= k < i ==> (#[trigger] lines@[k])@ == line_of(found@[k]@),
                decreases found.len() - i,
            {
                lines.push(found[i].line());
                i += 1;
            }
            Report { status: 0, lines, complaint: None }
        },
        Err(error) => {
            let complaint = match error {
                CliError::NotFound if quiet => None,
                _ => Some(error.message()),
            };
            Report { status: 1, lines: Vec::new(), complaint }
        },
    }
}

} // verus!
