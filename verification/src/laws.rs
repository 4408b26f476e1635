//! What holds of every header and of every search, proved from the
//! definitions that the contracts are written in.

use crate::decode::{absent, located, named_at};
use crate::error::{CliError, Column, Failure};
use crate::record::{accepts, PopulationCount, Row};
use crate::search::{
    fails_at, first_failure, outcome_view, records_of, records_view, searched, selected, sound,
    wanted,
};
use crate::table::decoded_table;
use vstd::prelude::*;

verus! {

/// A layout points at the columns of its names: the city, the country and
/// the region each stand where the header names them, and nowhere else; so
/// does the population, unless the header does not name it.
pub proof fn lemma_layout_follows_names(header: Seq<Seq<char>>)
    ensures
        located(header) matches Ok(layout) ==> {
            &&& layout.width == header.len()
            &&& forall|i: int| named_at(header, Column::City.title(), i) <==> i == layout.city
            &&& forall|i: int| named_at(header, Column::Country.title(), i) <==> i == layout.country
            &&& forall|i: int| named_at(header, Column::Region.title(), i) <==> i == layout.region
            &&& match layout.population {
                Some(p) => forall|i: int|
                    named_at(header, Column::Population.title(), i) <==> i == p,
                None => absent(header, Column::Population.title()),
            }
        },
{
}

/// `at` lists the positions of the rows of `records` that match, all of
/// them and in increasing order.
pub open spec fn positions_of_matches(
    at: Seq<int>,
    records: Seq<Row>,
    city: Seq<char>,
    include_unknowns: bool,
) -> bool {
    &&& forall|k: int|
        0 <= k < at.len() ==> 0 <= #[trigger] at[k] < records.len() && accepts(
            records[at[k]],
            city,
            include_unknowns,
        )
    &&& forall|k: int, l: int| 0 <= k < l < at.len() ==> at[k] < at[l]
    &&& forall|i: int|
        0 <= i < records.len() && accepts(#[trigger] records[i], city, include_unknowns)
            ==> at.contains(i)
}

/// Selection keeps the source order: the selected rows are the matching
/// rows of `records`, each once, in the order in which they stand there.
/// The positions they come from are returned.
pub proof fn lemma_selected_in_source_order(
    records: Seq<Row>,
    city: Seq<char>,
    include_unknowns: bool,
) -> (at: Seq<int>)
    ensures
        positions_of_matches(at, records, city, include_unknowns),
        at.len() == selected(records, city, include_unknowns).len(),
        forall|k: int|
            0 <= k < at.len() ==> selected(records, city, include_unknowns)[k] == records[at[k]],
    decreases records.len(),
{
    reveal(Seq::filter);
    if records.len() == 0 {
        Seq::empty()
    } else {
        let earlier = records.drop_last();
        let last = records.len() - 1;
        let before = lemma_selected_in_source_order(earlier, city, include_unknowns);
        if accepts(records[last], city, include_unknowns) {
            let at = before.push(last);
            assert forall|i: int|
                0 <= i < records.len() && accepts(
                    #[trigger] records[i],
                    city,
                    include_unknowns,
                ) implies at.contains(i) by {
                if i == last {
                    assert(at[before.len() as int] == i);
                } else {
                    assert(accepts(earlier[i], city, include_unknowns));
                    let k = choose|k: int| 0 <= k < before.len() && before[k] == i;
                    assert(at[k] == i);
                }
            }
            at
        } else {
            assert forall|i: int|
                0 <= i < records.len() && accepts(
                    #[trigger] records[i],
                    city,
                    include_unknowns,
                ) implies before.contains(i) by {
                assert(accepts(earlier[i], city, include_unknowns));
            }
            before
        }
    }
}

/// The records that a search returns stand in the order in which their rows
/// came: they are the matching rows of the source, none left out and none
/// moved.  The positions they come from are returned.
pub proof fn lemma_search_keeps_source_order(
    rows: Seq<Result<Row, Failure>>,
    city: Seq<char>,
    include_unknowns: bool,
) -> (at: Seq<int>)
    ensures
        searched(rows, city, include_unknowns) matches Ok(found) ==> {
            &&& positions_of_matches(at, records_of(rows), city, include_unknowns)
            &&& at.len() == found.len()
            &&& forall|k: int| 0 <= k < at.len() ==> rows[at[k]] == Ok::<Row, Failure>(found[k])
        },
{
    let at = lemma_selected_in_source_order(records_of(rows), city, include_unknowns);
    if searched(rows, city, include_unknowns) is Ok {
        let found = searched(rows, city, include_unknowns)->Ok_0;
        assert forall|k: int| 0 <= k < at.len() implies rows[at[k]] == Ok::<Row, Failure>(
            found[k],
        ) by {
            assert(!fails_at(rows, at[k]));
        }
    }
    at
}

/// Without unknown populations, a row with an unknown population does not
/// match, whatever its city.
pub proof fn lemma_unknown_never_accepted(row: Row, city: Seq<char>)
    requires
        row.population is None,
    ensures
        !accepts(row, city, false),
{
}

/// With unknown populations, a row matches exactly when its city is the
/// target, whatever its population.
pub proof fn lemma_city_decides_acceptance(row: Row, city: Seq<char>)
    ensures
        accepts(row, city, true) <==> row.city == city,
{
}

/// A search without unknown populations returns no row with an unknown
/// population, whatever its city: every record found has a known
/// population.
pub proof fn lemma_search_skips_unknown(rows: Seq<Result<Row, Failure>>, city: Seq<char>)
    ensures
        searched(rows, city, false) matches Ok(found) ==> {
            &&& forall|k: int| 0 <= k < found.len() ==> (#[trigger] found[k]).population is Some
            &&& forall|row: Row| row.population is None ==> !found.contains(row)
        },
{
    if searched(rows, city, false) is Ok {
        let found = searched(rows, city, false)->Ok_0;
        assert forall|k: int| 0 <= k < found.len() implies (#[trigger] found[k]).population
            is Some by {
            records_of(rows).lemma_filter_pred(wanted(city, false), k);
        }
        assert forall|row: Row| row.population is None implies !found.contains(row) by {
            if found.contains(row) {
                let k = choose|k: int| 0 <= k < found.len() && found[k] == row;
                assert(found[k].population is Some);
            }
        }
    }
}

/// With unknown populations, the city alone decides: where no row failed, a
/// record is found exactly when it is a row of the source and its city is
/// the target, whatever its population.
pub proof fn lemma_city_alone_decides(rows: Seq<Result<Row, Failure>>, city: Seq<char>)
    requires
        sound(rows),
    ensures
        forall|row: Row|
            (searched(rows, city, true) matches Ok(found) && found.contains(row)) <==> (
            #[trigger] rows.contains(Ok(row)) && row.city == city),
{
    let records = records_of(rows);
    let found = selected(records, city, true);
    let pred = wanted(city, true);
    assert forall|row: Row|
        (searched(rows, city, true) matches Ok(found) && found.contains(row)) <==> (
        #[trigger] rows.contains(Ok(row)) && row.city == city) by {
        if searched(rows, city, true) is Ok && found.contains(row) {
            let k = choose|k: int| 0 <= k < found.len() && found[k] == row;
            records.lemma_filter_pred(pred, k);
            records.lemma_filter_contains_rev(pred, row);
            let i = choose|i: int| 0 <= i < records.len() && records[i] == row;
            assert(!fails_at(rows, i));
        }
        if rows.contains(Ok(row)) && row.city == city {
            let i = choose|i: int| 0 <= i < rows.len() && rows[i] == Ok::<Row, Failure>(row);
            records.lemma_filter_contains(pred, i);
        }
    }
}

/// Selecting from what was selected changes nothing.
pub proof fn lemma_selected_twice(records: Seq<Row>, city: Seq<char>, include_unknowns: bool)
    ensures
        selected(selected(records, city, include_unknowns), city, include_unknowns) == selected(
            records,
            city,
            include_unknowns,
        ),
    decreases records.len(),
{
    reveal(Seq::filter);
    let pred = wanted(city, include_unknowns);
    if records.len() > 0 {
        let earlier = records.drop_last();
        lemma_selected_twice(earlier, city, include_unknowns);
        if pred(records.last()) {
            earlier.filter(pred).lemma_filter_push(records.last(), pred);
        }
    }
}

/// Two runs of a search over the same rows and for the same query return
/// the same: either both fail, in the same way, or both return the same
/// records in the same order.
pub proof fn lemma_search_repeatable(
    rows: Seq<Result<Row, Failure>>,
    city: Seq<char>,
    include_unknowns: bool,
    first: Result<Vec<PopulationCount>, CliError>,
    second: Result<Vec<PopulationCount>, CliError>,
)
    requires
        outcome_view(first) == searched(rows, city, include_unknowns),
        outcome_view(second) == searched(rows, city, include_unknowns),
    ensures
        first matches Ok(a) ==> second matches Ok(b) && a@.len() == b@.len() && forall|k: int|
            0 <= k < a@.len() ==> a@[k]@ == b@[k]@,
        first matches Err(e) ==> second matches Err(f) && e@ == f@,
{
    if first is Ok {
        let a = first->Ok_0;
        let b = second->Ok_0;
        assert forall|k: int| 0 <= k < a@.len() implies a@[k]@ == b@[k]@ by {
            assert(records_view(a@)[k] == records_view(b@)[k]);
        }
    }
}

/// A scan over no rows fails as not found.
pub proof fn lemma_no_rows_find_nothing(
    rows: Seq<Result<Row, Failure>>,
    city: Seq<char>,
    include_unknowns: bool,
)
    requires
        rows.len() == 0,
    ensures
        searched(rows, city, include_unknowns) == Err::<Seq<Row>, Failure>(Failure::NotFound),
{
    records_of(rows).lemma_filter_len(wanted(city, include_unknowns));
}

/// A table that is a header and nothing else, or not even that, has nothing
/// to find, whatever the header holds.
pub proof fn lemma_header_only_finds_nothing(
    records: Seq<Option<Seq<Seq<char>>>>,
    city: Seq<char>,
    include_unknowns: bool,
)
    requires
        records.len() <= 1,
    ensures
        searched(decoded_table(records), city, include_unknowns) == Err::<Seq<Row>, Failure>(
            Failure::NotFound,
        ),
{
    lemma_no_rows_find_nothing(decoded_table(records), city, include_unknowns);
}

/// A row that fails leaves nothing of the scan: the outcome is the failure of
/// the first failed row, not the rows that matched before it.
pub proof fn lemma_failure_discards_matches(
    rows: Seq<Result<Row, Failure>>,
    k: int,
    city: Seq<char>,
    include_unknowns: bool,
)
    requires
        fails_at(rows, k),
    ensures
        fails_at(rows, first_failure(rows)),
        first_failure(rows) <= k,
        forall|j: int| 0 <= j < first_failure(rows) ==> rows[j] is Ok,
        searched(rows, city, include_unknowns) == Err::<Seq<Row>, Failure>(
            rows[first_failure(rows)]->Err_0,
        ),
{
    lemma_first_failure(rows, k);
    assert forall|j: int| 0 <= j < first_failure(rows) implies rows[j] is Ok by {
        assert(!fails_at(rows, j));
    }
}

/// Among the rows that failed there is a first.
proof fn lemma_first_failure(rows: Seq<Result<Row, Failure>>, k: int)
    requires
        fails_at(rows, k),
    ensures
        fails_at(rows, first_failure(rows)),
        forall|j: int| fails_at(rows, j) ==> first_failure(rows) <= j,
    decreases k,
{
    if exists|j: int| fails_at(rows, j) && j < k {
        let j = choose|j: int| fails_at(rows, j) && j < k;
        lemma_first_failure(rows, j);
    }
}

} // verus!
