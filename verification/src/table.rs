//! From the records of a table to row outcomes: the first record is the
//! header, and each record behind it is a row that decodes or fails.

use crate::decode::{decoded_with, located, located_view, Columns, Layout};
use crate::error::{CliError, DecodeError, Failure};
use crate::record::{PopulationCount, Row};
use crate::trusted::{record_cells, table_cells};
use vstd::prelude::*;

verus! {

/// The layout that the header record of a table declares.  A header that
/// the reader rejected names no column.
pub open spec fn layout_of(header: Option<Seq<Seq<char>>>) -> Result<Layout, DecodeError> {
    match header {
        Some(names) => located(names),
        None => Err(DecodeError::Header),
    }
}

/// What becomes of one data record under the layout of its table.
///
/// A record that the reader rejected fails as such.  Any other record fails
/// as the header did, if the header declares no layout, and is decoded under
/// the layout otherwise.
pub open spec fn row_outcome(layout: Result<Layout, DecodeError>, record: Option<Seq<Seq<char>>>)
    -> Result<Row, Failure> {
    match record {
        None => Err(Failure::Csv),
        Some(fields) => match layout {
            Err(error) => Err(Failure::Decode(error)),
            Ok(layout) => match decoded_with(layout, fields) {
                Ok(row) => Ok(row),
                Err(error) => Err(Failure::Decode(error)),
            },
        },
    }
}

/// The rows of a table: one outcome for each record behind the header, in
/// the order of the records.  A table without records has no rows.
pub open spec fn decoded_table(records: Seq<Option<Seq<Seq<char>>>>) -> Seq<Result<Row, Failure>> {
    Seq::new(
        if records.len() == 0 {
            0
        } else {
            (records.len() - 1) as nat
        },
        |i: int| row_outcome(layout_of(records[0]), records[i + 1]),
    )
}

/// One row outcome, seen as a [`Row`] or a [`Failure`].
pub open spec fn row_view(row: Result<PopulationCount, CliError>) -> Result<Row, Failure> {
    match row {
        Ok(record) => Ok(record@),
        Err(error) => Err(error@),
    }
}

/// A list of row outcomes, seen as [`Row`]s and [`Failure`]s.
pub open spec fn rows_view(rows: Seq<Result<PopulationCount, CliError>>) -> Seq<
    Result<Row, Failure>,
> {
    rows.map_values(|row: Result<PopulationCount, CliError>| row_view(row))
}

/// Reads the layout off the header record of a table.
pub fn header_columns(header: Result<Vec<String>, csv::Error>) -> (columns: Result<
    Columns,
    DecodeError,
>)
    ensures
        located_view(columns) == layout_of(record_cells(header)),
{
    match header {
        Ok(names) => Columns::locate(&names),
        Err(_) => Err(DecodeError::Header),
    }
}

/// Decodes one data record of a table whose header gave `columns`.  The
/// error of a record that the reader rejected is handed on as it is.
pub fn decode_record(
    columns: Result<Columns, DecodeError>,
    record: Result<Vec<String>, csv::Error>,
) -> (row: Result<PopulationCount, CliError>)
    ensures
        row_view(row) == row_outcome(located_view(columns), record_cells(record)),
        record matches Err(error) ==> row == Err::<PopulationCount, CliError>(
            CliError::Csv(error),
        ),
{
    match record {
        Err(error) => Err(CliError::from(error)),
        Ok(fields) => match columns {
            Err(error) => Err(CliError::from(error)),
            Ok(columns) => match columns.decode(&fields) {
                Ok(record) => Ok(record),
                Err(error) => Err(CliError::from(error)),
            },
        },
    }
}

/// Decodes the records of a table: the first record is the header, and each
/// record behind it becomes a row outcome.  The error of a record that the
/// reader rejected is handed on as it is.
pub fn decode_table(records: Vec<Result<Vec<String>, csv::Error>>) -> (rows: Vec<
    Result<PopulationCount, CliError>,
>)
    ensures
        rows_view(rows@) == decoded_table(table_cells(records@)),
        forall|k: int|
            0 <= k < rows@.len() && records@[k + 1] is Err ==> #[trigger] rows@[k] == Err::<
                PopulationCount,
                CliError,
            >(CliError::Csv(records@[k + 1]->Err_0)),
{
    let ghost given = records@;
    let ghost table = table_cells(given);
    let mut rows: Vec<Result<PopulationCount, CliError>> = Vec::new();
    let mut header: Option<Result<Columns, DecodeError>> = None;
    for record in it: records
        invariant
            it.seq() == given,
            table == table_cells(given),
            header is None <==> it.index() == 0,
            header matches Some(columns) ==> {
                &&& located_view(columns) == layout_of(table[0])
                &&& rows@.len() == it.index() - 1
            },
            header is None ==> rows@.len() == 0,
            forall|k: int|
                0 <= k < rows@.len() ==> row_view(#[trigger] rows@[k]) == row_outcome(
                    layout_of(table[0]),
                    table[k + 1],
                ),
            forall|k: int|
                0 <= k < rows@.len() && given[k + 1] is Err ==> #[trigger] rows@[k] == Err::<
                    PopulationCount,
                    CliError,
                >(CliError::Csv(given[k + 1]->Err_0)),
    {
        match header {
            None => {
                header = Some(header_columns(record));
            },
            Some(columns) => {
                rows.push(decode_record(columns, record));
            },
        }
    }
    rows
}

} // verus!
