//! The typed record behind one data row, the rule that decides whether a
//! record answers a query, and the line a record is printed as.

use crate::text::{decimal, render_decimal, same_text};
use vstd::prelude::*;
use vstd::string::StringExecFns;

verus! {

/// One decoded row of the population table.
#[derive(Debug, PartialEq, Eq)]
pub struct PopulationCount {
    pub city: String,
    pub country: String,
    pub region: String,
    /// `None` when the table does not know the population.
    pub population: Option<u64>,
}

/// The mathematical content of a [`PopulationCount`].
pub struct Row {
    pub city: Seq<char>,
    pub country: Seq<char>,
    pub region: Seq<char>,
    pub population: Option<u64>,
}

impl View for PopulationCount {
    type V = Row;

    open spec fn view(&self) -> Row {
        Row {
            city: self.city@,
            country: self.country@,
            region: self.region@,
            population: self.population,
        }
    }
}

/// The match predicate: the city is the target, character for character,
/// and the population is known unless unknown populations were asked for.
pub open spec fn accepts(row: Row, city: Seq<char>, include_unknowns: bool) -> bool {
    row.city == city && (include_unknowns || row.population is Some)
}

/// What is printed in place of an unknown population.
pub open spec fn unknown_population_text() -> Seq<char> {
    "Unknown Population"@
}

/// The population as it is printed: in decimal, or as unknown.
pub open spec fn population_text(population: Option<u64>) -> Seq<char> {
    match population {
        Some(n) => decimal(n as nat),
        None => unknown_population_text(),
    }
}

/// The output line of a record: city, region, country, then the population.
pub open spec fn line_of(row: Row) -> Seq<char> {
    row.city + ", "@ + row.region + ", "@ + row.country + ": "@ + population_text(row.population)
}

impl PopulationCount {
    /// Whether this record answers a query for `city`.
    pub fn matches(&self, city: &str, include_unknowns: bool) -> (hit: bool)
        ensures
            hit == accepts(self@, city@, include_unknowns),
    {
        if include_unknowns || self.population.is_some() {
            same_text(self.city.as_str(), city)
        } else {
            false
        }
    }

    /// The output line of this record.
    pub fn line(&self) -> (line: String)
        ensures
            line@ == line_of(self@),
    {
        let mut line = self.city.clone();
        line.append(", ");
        line.append(self.region.as_str());
        line.append(", ");
        line.append(self.country.as_str());
        line.append(": ");
        match self.population {
            Some(n) => {
                let digits = render_decimal(n);
                line.append(digits.as_str());
            },
            None => {
                line.append("Unknown Population");
            },
        }
        line
    }
}

} // verus!
