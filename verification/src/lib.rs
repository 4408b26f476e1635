//! City population lookup: scan a table of city records and report every
//! row that matches a city name.
//!
//! A table is delimited text with a header row that names the columns
//! `City`, `Country`, `Region` and `Population`, in any order.  [`search::search`]
//! reads a table and returns the records of one city, in the order of their
//! rows; [`report::report`] turns its outcome into output lines, an error
//! message and an exit status.

pub mod decode;
pub mod error;
pub mod laws;
pub mod record;
pub mod report;
pub mod search;
pub mod table;
pub mod text;
pub mod trusted;
