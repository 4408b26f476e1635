//! The boundary to the `csv` crate and to `std::io`.
//!
//! The two functions that call `csv`, the two names for what it returns and
//! the two error types are taken on trust: Verus believes what is written
//! of them here and never sees the code behind them.  The rest of the
//! library is proved against these contracts.

use crate::text::cells;
use vstd::prelude::*;

verus! {

/// `csv::Error`, carried through as an opaque value.
#[verifier::external_type_specification]
#[verifier::external_body]
pub struct ExCsvError(csv::Error);

/// `std::io::Error`, carried through as an opaque value.
#[verifier::external_type_specification]
#[verifier::external_body]
pub struct ExIoError(std::io::Error);

/// The records that `csv` reads from `data`, in input order and with the
/// header row first: each record as its list of fields, or `None` where
/// `csv` rejects the record.
pub uninterp spec fn csv_records(data: Seq<u8>) -> Seq<Option<Seq<Seq<char>>>>;

/// The number that `csv` reads from a field, or `None` where the field does
/// not hold an unsigned 64-bit number in the notation `csv` accepts.
pub uninterp spec fn csv_count(field: Seq<char>) -> Option<u64>;

/// What one item of [`read_records`] holds: the fields, or `None` for a
/// rejected record.
pub open spec fn record_cells(record: Result<Vec<String>, csv::Error>) -> Option<Seq<Seq<char>>> {
    match record {
        Ok(fields) => Some(cells(fields@)),
        Err(_) => None,
    }
}

/// What a list of items of [`read_records`] holds.
pub open spec fn table_cells(records: Seq<Result<Vec<String>, csv::Error>>) -> Seq<
    Option<Seq<Seq<char>>>,
> {
    records.map_values(|record: Result<Vec<String>, csv::Error>| record_cells(record))
}

/// Reads every record of `data` with `csv::Reader::records`, from a reader
/// built by `csv::ReaderBuilder` with its defaults, except that the header
/// row is handed out as the first record instead of being held back.
///
/// Trusted: the outcome is a function of the bytes alone, named
/// [`csv_records`].  A rejected record (invalid UTF-8, or a number of fields
/// that differs from the first record's) keeps its place in the list as the
/// error `csv` gave, and reading goes on behind it.
#[verifier::external_body]
pub(crate) fn read_records(data: &[u8]) -> (records: Vec<Result<Vec<String>, csv::Error>>)
    ensures
        table_cells(records@) == csv_records(data@),
{
    let mut reader = csv::ReaderBuilder::new().has_headers(false).from_reader(data);
    reader.records().map(|r| r.map(|fields| fields.iter().map(String::from).collect())).collect()
}

/// What [`read_population`] returned, without the error's details.
pub open spec fn population_read(outcome: Result<Option<u64>, csv::Error>) -> Option<Option<u64>> {
    match outcome {
        Ok(population) => Some(population),
        Err(_) => None,
    }
}

/// Decodes one field as an optional count with
/// `csv::StringRecord::deserialize`, the way `csv` decodes a field into an
/// `Option<u64>`.
///
/// Trusted, as the documentation of `csv::invalid_option` describes the
/// default for `Option` fields: an empty field is `None`; a field that holds
/// a valid number is `Some` of that number; any other field is an error.
/// Which fields hold a valid number, and which number, is named
/// [`csv_count`].
#[verifier::external_body]
pub(crate) fn read_population(field: &str) -> (outcome: Result<Option<u64>, csv::Error>)
    ensures
        field@.len() == 0 ==> population_read(outcome) == Some(None::<u64>),
        field@.len() > 0 ==> population_read(outcome) == match csv_count(field@) {
            Some(n) => Some(Some(n)),
            None => None,
        },
{
    csv::StringRecord::from(vec![field]).deserialize::<(Option<u64>,)>(None).map(|one| one.0)
}

} // verus!
