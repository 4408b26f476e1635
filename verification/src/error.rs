//! What can go wrong: a row that does not decode, an input that cannot be
//! read, and a scan that finds nothing.

use vstd::prelude::*;
use vstd::std_specs::convert::FromSpecImpl;
use vstd::string::{to_string_from_display_ensures, StringExecFns};

verus! {

/// The four columns that a record is made of.
#[derive(Debug, Clone, Copy, PartialEq, Eq, Structural)]
pub enum Column {
    City,
    Country,
    Region,
    Population,
}

impl Column {
    /// The name under which the header row declares this column.
    pub open spec fn title(self) -> Seq<char> {
        match self {
            Column::City => "City"@,
            Column::Country => "Country"@,
            Column::Region => "Region"@,
            Column::Population => "Population"@,
        }
    }

    /// The name under which the header row declares this column.
    pub fn name(self) -> (name: &'static str)
        ensures
            name@ == self.title(),
    {
        match self {
            Column::City => "City",
            Column::Country => "Country",
            Column::Region => "Region",
            Column::Population => "Population",
        }
    }
}

/// Why a row could not be turned into a record.
#[derive(Debug, Clone, Copy, PartialEq, Eq, Structural)]
pub enum DecodeError {
    /// The header row itself could not be read, so no column has a name.
    Header,
    /// The header declares this column more than once.
    Duplicate(Column),
    /// The header does not declare this required column.
    Missing(Column),
    /// The row does not have as many fields as the header.
    UnequalLengths,
    /// The population field is neither empty nor a number.
    InvalidPopulation,
}

impl DecodeError {
    /// The message for this error.
    pub open spec fn text(self) -> Seq<char> {
        match self {
            DecodeError::Header => "the header row is not valid UTF-8"@,
            DecodeError::Duplicate(column) => "duplicate column `"@ + column.title() + "`"@,
            DecodeError::Missing(column) => "missing column `"@ + column.title() + "`"@,
            DecodeError::UnequalLengths => "the row and the header differ in length"@,
            DecodeError::InvalidPopulation => "the population is neither empty nor a number"@,
        }
    }

    /// The message for this error.
    pub fn message(&self) -> (text: String)
        ensures
            text@ == self.text(),
    {
        match self {
            DecodeError::Header => String::from_str("the header row is not valid UTF-8"),
            DecodeError::Duplicate(column) => {
                let mut text = String::from_str("duplicate column `");
                text.append(column.name());
                text.append("`");
                text
            },
            DecodeError::Missing(column) => {
                let mut text = String::from_str("missing column `");
                text.append(column.name());
                text.append("`");
                text
            },
            DecodeError::UnequalLengths => String::from_str(
                "the row and the header differ in length",
            ),
            DecodeError::InvalidPopulation => String::from_str(
                "the population is neither empty nor a number",
            ),
        }
    }
}

/// Why a search did not return records.
#[derive(Debug)]
pub enum CliError {
    /// The input could not be opened or read.
    Io(std::io::Error),
    /// The input is not a well-formed table.
    Csv(csv::Error),
    /// A row is not a record.
    Decode(DecodeError),
    /// The scan went through, and no row matched.
    NotFound,
}

/// A [`CliError`] without the details that only `std::io` and `csv` know.
pub enum Failure {
    Io,
    Csv,
    Decode(DecodeError),
    NotFound,
}

impl View for CliError {
    type V = Failure;

    open spec fn view(&self) -> Failure {
        match self {
            CliError::Io(_) => Failure::Io,
            CliError::Csv(_) => Failure::Csv,
            CliError::Decode(error) => Failure::Decode(*error),
            CliError::NotFound => Failure::NotFound,
        }
    }
}

/// The message of the not-found condition.
pub open spec fn not_found_text() -> Seq<char> {
    "No matching cities with a population were found."@
}

impl CliError {
    /// Whether `text` is the message for this error.  The message of an
    /// error of `std::io` or of `csv` is what that error prints of itself.
    pub open spec fn says(&self, text: String) -> bool {
        match self {
            CliError::Io(error) => to_string_from_display_ensures::<std::io::Error>(error, text),
            CliError::Csv(error) => to_string_from_display_ensures::<csv::Error>(error, text),
            CliError::Decode(error) => text@ == error.text(),
            CliError::NotFound => text@ == not_found_text(),
        }
    }

    /// The message for this error.
    pub fn message(&self) -> (text: String)
        ensures
            self.says(text),
    {
        match self {
            CliError::Io(error) => error.to_string(),
            CliError::Csv(error) => error.to_string(),
            CliError::Decode(error) => error.message(),
            CliError::NotFound => String::from_str(
                "No matching cities with a population were found.",
            ),
        }
    }
}

impl From<std::io::Error> for CliError {
    fn from(error: std::io::Error) -> (out: CliError) {
        CliError::Io(error)
    }
}

impl FromSpecImpl<std::io::Error> for CliError {
    open spec fn obeys_from_spec() -> bool {
        true
    }

    open spec fn from_spec(error: std::io::Error) -> CliError {
        CliError::Io(error)
    }
}

impl From<csv::Error> for CliError {
    fn from(error: csv::Error) -> (out: CliError) {
        CliError::Csv(error)
    }
}

impl FromSpecImpl<csv::Error> for CliError {
    open spec fn obeys_from_spec() -> bool {
        true
    }

    open spec fn from_spec(error: csv::Error) -> CliError {
        CliError::Csv(error)
    }
}

impl From<DecodeError> for CliError {
    fn from(error: DecodeError) -> (out: CliError) {
        CliError::Decode(error)
    }
}

impl FromSpecImpl<DecodeError> for CliError {
    open spec fn obeys_from_spec() -> bool {
        true
    }

    open spec fn from_spec(error: DecodeError) -> CliError {
        CliError::Decode(error)
    }
}

} // verus!
