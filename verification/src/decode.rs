//! From a row of text fields to a typed record.
//!
//! The header row names the columns.  A record takes its city, country and
//! region from the columns of those names, wherever they stand, and its
//! population from the column `Population` if the header has one.  Names
//! are compared character for character; other columns are ignored.

use crate::error::{Column, DecodeError};
use crate::record::{PopulationCount, Row};
use crate::text::{cells, same_text};
use crate::trusted::{csv_count, read_population};
use vstd::prelude::*;

verus! {

/// Column `i` of `header` has the name `title`.
pub open spec fn named_at(header: Seq<Seq<char>>, title: Seq<char>, i: int) -> bool {
    0 <= i < header.len() && header[i] == title
}

/// No column of `header` has the name `title`.
pub open spec fn absent(header: Seq<Seq<char>>, title: Seq<char>) -> bool {
    forall|i: int| !named_at(header, title, i)
}

/// Two columns of `header` have the name `title`.
pub open spec fn repeated(header: Seq<Seq<char>>, title: Seq<char>) -> bool {
    exists|i: int, j: int| i != j && named_at(header, title, i) && named_at(header, title, j)
}

/// A column of `header` with the name `title`: the only one, where the name
/// is neither absent nor repeated.
pub open spec fn place(header: Seq<Seq<char>>, title: Seq<char>) -> int {
    choose|i: int| named_at(header, title, i)
}

/// Where a name stands in a header.
#[derive(Debug, Clone, Copy, PartialEq, Eq, Structural)]
pub enum Found {
    Absent,
    At(usize),
    Repeated,
}

/// Looks `title` up among the names of `header`.
pub fn find(header: &Vec<String>, title: &str) -> (found: Found)
    ensures
        match found {
            Found::Absent => absent(cells(header@), title@),
            Found::At(i) => {
                &&& named_at(cells(header@), title@, i as int)
                &&& !repeated(cells(header@), title@)
                &&& i == place(cells(header@), title@)
            },
            Found::Repeated => repeated(cells(header@), title@),
        },
{
    let ghost names = cells(header@);
    let mut first: Option<usize> = None;
    let mut i: usize = 0;
    while i < header.len()
        invariant
            i <= header.len(),
            names == cells(header@),
            first is None ==> forall|k: int| 0 <= k < i ==> !named_at(names, title@, k),
            first matches Some(f) ==> f < i && forall|k: int|
                0 <= k < i ==> (named_at(names, title@, k) <==> k == f),
        decreases header.len() - i,
    {
        if same_text(header[i].as_str(), title) {
            assert(named_at(names, title@, i as int));
            match first {
                Some(f) => {
                    assert(named_at(names, title@, f as int));
                    return Found::Repeated;
                },
                None => {
                    first = Some(i);
                },
            }
        }
        i += 1;
    }
    match first {
        None => Found::Absent,
        Some(f) => {
            assert(named_at(names, title@, f as int));
            Found::At(f)
        },
    }
}

/// Where the columns of a record stand in a header of `width` columns.
pub struct Layout {
    pub width: nat,
    pub city: int,
    pub country: int,
    pub region: int,
    /// `None` when the header has no population column.
    pub population: Option<int>,
}

/// The layout that `header` declares.
///
/// A header that names one of the four columns twice declares none, nor does
/// one that lacks the city, the country or the region.  The population
/// column may be left out: its records then have an unknown population.
pub open spec fn located(header: Seq<Seq<char>>) -> Result<Layout, DecodeError> {
    if repeated(header, Column::City.title()) {
        Err(DecodeError::Duplicate(Column::City))
    } else if repeated(header, Column::Country.title()) {
        Err(DecodeError::Duplicate(Column::Country))
    } else if repeated(header, Column::Region.title()) {
        Err(DecodeError::Duplicate(Column::Region))
    } else if repeated(header, Column::Population.title()) {
        Err(DecodeError::Duplicate(Column::Population))
    } else if absent(header, Column::City.title()) {
        Err(DecodeError::Missing(Column::City))
    } else if absent(header, Column::Country.title()) {
        Err(DecodeError::Missing(Column::Country))
    } else if absent(header, Column::Region.title()) {
        Err(DecodeError::Missing(Column::Region))
    } else {
        Ok(
            Layout {
                width: header.len(),
                city: place(header, Column::City.title()),
                country: place(header, Column::Country.title()),
                region: place(header, Column::Region.title()),
                population: if absent(header, Column::Population.title()) {
                    None
                } else {
                    Some(place(header, Column::Population.title()))
                },
            },
        )
    }
}

/// The population that a field states: unknown if the field is empty, else
/// the number it holds; a field that is neither does not decode.
pub open spec fn population_of(field: Seq<char>) -> Result<Option<u64>, DecodeError> {
    if field.len() == 0 {
        Ok(None)
    } else {
        match csv_count(field) {
            Some(n) => Ok(Some(n)),
            None => Err(DecodeError::InvalidPopulation),
        }
    }
}

/// The record that `row` holds once its population is known.
pub open spec fn assembled(layout: Layout, row: Seq<Seq<char>>, population: Option<u64>) -> Result<
    Row,
    DecodeError,
> {
    if row.len() != layout.width {
        Err(DecodeError::UnequalLengths)
    } else {
        Ok(
            Row {
                city: row[layout.city],
                country: row[layout.country],
                region: row[layout.region],
                population,
            },
        )
    }
}

/// The record that `row` holds under `layout`.
pub open spec fn decoded_with(layout: Layout, row: Seq<Seq<char>>) -> Result<Row, DecodeError> {
    if row.len() != layout.width {
        Err(DecodeError::UnequalLengths)
    } else {
        match layout.population {
            None => assembled(layout, row, None),
            Some(p) => match population_of(row[p]) {
                Ok(population) => assembled(layout, row, population),
                Err(error) => Err(error),
            },
        }
    }
}

/// The record that `row` holds under the header `header`.
pub open spec fn decoded(header: Seq<Seq<char>>, row: Seq<Seq<char>>) -> Result<Row, DecodeError> {
    match located(header) {
        Ok(layout) => decoded_with(layout, row),
        Err(error) => Err(error),
    }
}

/// The outcome of decoding a row, seen as a [`Row`].
pub open spec fn decoded_view(outcome: Result<PopulationCount, DecodeError>) -> Result<
    Row,
    DecodeError,
> {
    match outcome {
        Ok(record) => Ok(record@),
        Err(error) => Err(error),
    }
}

/// Reads the population from its field.
pub fn decode_population(field: &str) -> (population: Result<Option<u64>, DecodeError>)
    ensures
        population == population_of(field@),
{
    match read_population(field) {
        Ok(population) => Ok(population),
        Err(_) => Err(DecodeError::InvalidPopulation),
    }
}

/// Where the columns of a record stand in a header.  Every position lies
/// within the header's width.
#[derive(Debug, Clone, Copy)]
pub struct Columns {
    width: usize,
    city: usize,
    country: usize,
    region: usize,
    population: Option<usize>,
}

impl View for Columns {
    type V = Layout;

    closed spec fn view(&self) -> Layout {
        Layout {
            width: self.width as nat,
            city: self.city as int,
            country: self.country as int,
            region: self.region as int,
            population: match self.population {
                Some(p) => Some(p as int),
                None => None,
            },
        }
    }
}

/// The outcome of reading a header, seen as a [`Layout`].
pub open spec fn located_view(outcome: Result<Columns, DecodeError>) -> Result<
    Layout,
    DecodeError,
> {
    match outcome {
        Ok(columns) => Ok(columns@),
        Err(error) => Err(error),
    }
}

impl Columns {
    #[verifier::type_invariant]
    spec fn within_width(self) -> bool {
        &&& self.city < self.width
        &&& self.country < self.width
        &&& self.region < self.width
        &&& self.population matches Some(p) ==> p < self.width
    }

    /// Reads the layout off a header row.
    pub fn locate(header: &Vec<String>) -> (columns: Result<Columns, DecodeError>)
        ensures
            located_view(columns) == located(cells(header@)),
    {
        let city = find(header, Column::City.name());
        let country = find(header, Column::Country.name());
        let region = find(header, Column::Region.name());
        let population = find(header, Column::Population.name());
        if let Found::Repeated = city {
            return Err(DecodeError::Duplicate(Column::City));
        }
        if let Found::Repeated = country {
            return Err(DecodeError::Duplicate(Column::Country));
        }
        if let Found::Repeated = region {
            return Err(DecodeError::Duplicate(Column::Region));
        }
        if let Found::Repeated = population {
            return Err(DecodeError::Duplicate(Column::Population));
        }
        match (city, country, region) {
            (Found::At(city), Found::At(country), Found::At(region)) => {
                let population = match population {
                    Found::At(p) => Some(p),
                    _ => None,
                };
                Ok(Columns { width: header.len(), city, country, region, population })
            },
            (Found::At(_), Found::At(_), _) => Err(DecodeError::Missing(Column::Region)),
            (Found::At(_), _, _) => Err(DecodeError::Missing(Column::Country)),
            _ => Err(DecodeError::Missing(Column::City)),
        }
    }

    /// Builds the record of `row` from its text fields and a population
    /// that was already read.
    pub fn record(&self, row: &Vec<String>, population: Option<u64>) -> (record: Result<
        PopulationCount,
        DecodeError,
    >)
        ensures
            decoded_view(record) == assembled(self@, cells(row@), population),
    {
        proof {
            use_type_invariant(self);
        }
        if row.len() != self.width {
            return Err(DecodeError::UnequalLengths);
        }
        Ok(
            PopulationCount {
                city: row[self.city].clone(),
                country: row[self.country].clone(),
                region: row[self.region].clone(),
                population,
            },
        )
    }

    /// Decodes one data row.
    pub fn decode(&self, row: &Vec<String>) -> (record: Result<PopulationCount, DecodeError>)
        ensures
            decoded_view(record) == decoded_with(self@, cells(row@)),
    {
        proof {
            use_type_invariant(self);
        }
        if row.len() != self.width {
            return Err(DecodeError::UnequalLengths);
        }
        let population = match self.population {
            None => None,
            Some(p) => match decode_population(row[p].as_str()) {
                Ok(population) => population,
                Err(error) => {
                    return Err(error);
                },
            },
        };
        self.record(row, population)
    }
}

/// Decodes one data row under its header.
pub fn decode_row(header: &Vec<String>, row: &Vec<String>) -> (record: Result<
    PopulationCount,
    DecodeError,
>)
    ensures
        decoded_view(record) == decoded(cells(header@), cells(row@)),
{
    match Columns::locate(header) {
        Ok(columns) => columns.decode(row),
        Err(error) => Err(error),
    }
}

} // verus!
