//! The scan: go through the rows of a table in order, stop at the first row
//! that failed, and keep the records that match.

use crate::error::{CliError, Failure};
use crate::record::{accepts, PopulationCount, Row};
use crate::table::{decode_table, decoded_table, rows_view};
use crate::trusted::{csv_records, read_records};
use vstd::prelude::*;

verus! {

/// The match predicate of a query, as a function of the row.
pub open spec fn wanted(city: Seq<char>, include_unknowns: bool) -> spec_fn(Row) -> bool {
    |row: Row| accepts(row, city, include_unknowns)
}

/// The rows of `records` that match, in the order of `records`.
pub open spec fn selected(records: Seq<Row>, city: Seq<char>, include_unknowns: bool) -> Seq<Row> {
    records.filter(wanted(city, include_unknowns))
}

/// Row `i` of `rows` failed.
pub open spec fn fails_at(rows: Seq<Result<Row, Failure>>, i: int) -> bool {
    0 <= i < rows.len() && rows[i] is Err
}

/// No row of `rows` failed.
pub open spec fn sound(rows: Seq<Result<Row, Failure>>) -> bool {
    forall|i: int| !fails_at(rows, i)
}

/// The first row of `rows` that failed, where there is one.
pub open spec fn first_failure(rows: Seq<Result<Row, Failure>>) -> int {
    choose|i: int| fails_at(rows, i) && forall|j: int| fails_at(rows, j) ==> i <= j
}

/// The records of `rows`, where no row failed.
pub open spec fn records_of(rows: Seq<Result<Row, Failure>>) -> Seq<Row> {
    rows.map_values(|row: Result<Row, Failure>| row->Ok_0)
}

/// The outcome of a scan over `rows`.
///
/// If a row failed, the scan fails as the first such row did, whatever
/// matched before it.  Otherwise it yields the matching rows in their
/// order, or fails as not found if there are none.
pub open spec fn searched(rows: Seq<Result<Row, Failure>>, city: Seq<char>, include_unknowns: bool)
    -> Result<Seq<Row>, Failure> {
    if !sound(rows) {
        Err(rows[first_failure(rows)]->Err_0)
    } else {
        let found = selected(records_of(rows), city, include_unknowns);
        if found.len() == 0 {
            Err(Failure::NotFound)
        } else {
            Ok(found)
        }
    }
}

/// The records of a list, seen as [`Row`]s.
pub open spec fn records_view(records: Seq<PopulationCount>) -> Seq<Row> {
    records.map_values(|record: PopulationCount| record@)
}

/// The outcome of a search, seen as [`Row`]s or a [`Failure`].
pub open spec fn outcome_view(outcome: Result<Vec<PopulationCount>, CliError>) -> Result<
    Seq<Row>,
    Failure,
> {
    match outcome {
        Ok(found) => Ok(records_view(found@)),
        Err(error) => Err(error@),
    }
}

/// Scans row outcomes in order: the first failed row ends the scan with its
/// error, handed on as it is; otherwise the matching records come back in
/// their order, and finding none is the error `NotFound`.
pub fn search_rows(
    rows: Vec<Result<PopulationCount, CliError>>,
    city: &str,
    include_unknowns: bool,
) -> (outcome: Result<Vec<PopulationCount>, CliError>)
    ensures
        outcome_view(outcome) == searched(rows_view(rows@), city@, include_unknowns),
        !sound(rows_view(rows@)) ==> outcome == Err::<Vec<PopulationCount>, CliError>(
            rows@[first_failure(rows_view(rows@))]->Err_0,
        ),
{
    let ghost given = rows@;
    let ghost all = rows_view(given);
    let mut found: Vec<PopulationCount> = Vec::new();
    proof {
        reveal(Seq::filter);
    }
    for row in it: rows
        invariant
            it.seq() == given,
            all == rows_view(given),
            forall|j: int| 0 <= j < it.index() ==> !fails_at(all, j),
            records_view(found@) == selected(
                records_of(all).take(it.index() as int),
                city@,
                include_unknowns,
            ),
    {
        let ghost i = it.index() as int;
        match row {
            Err(error) => {
                assert(fails_at(all, i));
                assert(first_failure(all) == i);
                return Err(error);
            },
            Ok(record) => {
                proof {
                    let done = records_of(all).take(i);
                    assert(records_of(all).take(i + 1) =~= done.push(record@));
                    done.lemma_filter_push(record@, wanted(city@, include_unknowns));
                }
                if record.matches(city, include_unknowns) {
                    found.push(record);
                }
            },
        }
    }
    assert(records_of(all).take(all.len() as int) =~= records_of(all));
    if found.is_empty() {
        Err(CliError::NotFound)
    } else {
        Ok(found)
    }
}

/// Searches the table in `data` for the records of `city`.
///
/// `data` is the whole input: a header row, then one row for each record.
/// Rows with an unknown population count only if `include_unknowns` is set.
/// The first row that does not decode fails the search, even if rows
/// matched before it; a search that finds no record fails as `NotFound`.
pub fn search(data: &[u8], city: &str, include_unknowns: bool) -> (outcome: Result<
    Vec<PopulationCount>,
    CliError,
>)
    ensures
        outcome_view(outcome) == searched(
            decoded_table(csv_records(data@)),
            city@,
            include_unknowns,
        ),
{
    let records = read_records(data);
    let rows = decode_table(records);
    search_rows(rows, city, include_unknowns)
}

} // verus!
