use city_pop::error::{CliError, Column, DecodeError};
use city_pop::record::PopulationCount;
use city_pop::report::report;
use city_pop::search::search;

const CITIES: &str = "City,Country,Region,Population\n\
Paris,France,\u{ce}le-de-France,2140526\n\
Paris,France,Texas,\n";

#[test]
fn found_records_are_printed_with_status_zero() {
    let outcome = search(CITIES.as_bytes(), "Paris", true);
    for quiet in [false, true] {
        let shown = report(&outcome, quiet);
        assert_eq!(shown.status, 0);
        assert_eq!(
            shown.lines,
            vec![
                "Paris, \u{ce}le-de-France, France: 2140526".to_string(),
                "Paris, Texas, France: Unknown Population".to_string(),
            ]
        );
        assert_eq!(shown.complaint, None);
    }
}

#[test]
fn not_found_is_silent_when_quiet() {
    let outcome = search(CITIES.as_bytes(), "Atlantis", false);
    let shown = report(&outcome, true);
    assert_eq!(shown.status, 1);
    assert!(shown.lines.is_empty());
    assert_eq!(shown.complaint, None);
}

#[test]
fn not_found_complains_when_not_quiet() {
    let outcome = search(CITIES.as_bytes(), "Atlantis", false);
    let shown = report(&outcome, false);
    assert_eq!(shown.status, 1);
    assert!(shown.lines.is_empty());
    assert_eq!(
        shown.complaint,
        Some("No matching cities with a population were found.".to_string())
    );
}

#[test]
fn decode_failure_complains_even_when_quiet() {
    let data = "City,Country,Region,Population\nParis,France,Texas,abc\n";
    let outcome = search(data.as_bytes(), "Paris", false);
    for quiet in [false, true] {
        let shown = report(&outcome, quiet);
        assert_eq!(shown.status, 1);
        assert!(shown.lines.is_empty());
        assert_eq!(
            shown.complaint,
            Some("the population is neither empty nor a number".to_string())
        );
    }
}

#[test]
fn malformed_table_complains_even_when_quiet() {
    let data = "City,Country,Region,Population\nParis,France\n";
    let outcome = search(data.as_bytes(), "Paris", false);
    assert!(matches!(outcome, Err(CliError::Csv(_))));
    for quiet in [false, true] {
        let shown = report(&outcome, quiet);
        assert_eq!(shown.status, 1);
        assert!(shown.lines.is_empty());
        let complaint = shown.complaint.unwrap();
        assert!(!complaint.is_empty());
    }
}

#[test]
fn io_failure_complains_even_when_quiet() {
    let cause = std::io::Error::new(std::io::ErrorKind::NotFound, "no such table");
    let outcome: Result<Vec<PopulationCount>, CliError> = Err(CliError::from(cause));
    assert!(matches!(outcome, Err(CliError::Io(_))));
    for quiet in [false, true] {
        let shown = report(&outcome, quiet);
        assert_eq!(shown.status, 1);
        assert!(shown.lines.is_empty());
        assert_eq!(shown.complaint, Some("no such table".to_string()));
    }
}

#[test]
fn empty_result_prints_nothing() {
    let outcome: Result<Vec<PopulationCount>, CliError> = Ok(Vec::new());
    let shown = report(&outcome, false);
    assert_eq!(shown.status, 0);
    assert!(shown.lines.is_empty());
    assert_eq!(shown.complaint, None);
}

#[test]
fn messages_of_decode_errors() {
    assert_eq!(DecodeError::Header.message(), "the header row is not valid UTF-8");
    assert_eq!(
        DecodeError::Duplicate(Column::Region).message(),
        "duplicate column `Region`"
    );
    assert_eq!(
        DecodeError::Missing(Column::City).message(),
        "missing column `City`"
    );
    assert_eq!(
        DecodeError::UnequalLengths.message(),
        "the row and the header differ in length"
    );
    assert_eq!(
        DecodeError::InvalidPopulation.message(),
        "the population is neither empty nor a number"
    );
}

#[test]
fn messages_of_cli_errors() {
    assert_eq!(
        CliError::NotFound.message(),
        "No matching cities with a population were found."
    );
    assert_eq!(
        CliError::Decode(DecodeError::Missing(Column::Country)).message(),
        "missing column `Country`"
    );
    let cause = std::io::Error::new(std::io::ErrorKind::Other, "disk on fire");
    assert_eq!(CliError::Io(cause).message(), "disk on fire");
}

#[test]
fn message_of_a_csv_error_is_the_one_csv_gives() {
    let data = "City,Country,Region,Population\nParis,France\n";
    let error = search(data.as_bytes(), "Paris", false).unwrap_err();
    let mut reader = csv::ReaderBuilder::new()
        .has_headers(false)
        .from_reader(data.as_bytes());
    let expected = reader.records().nth(1).unwrap().unwrap_err().to_string();
    assert_eq!(error.message(), expected);
}

#[test]
fn errors_convert_into_cli_errors() {
    let converted: CliError = DecodeError::InvalidPopulation.into();
    assert!(matches!(
        converted,
        CliError::Decode(DecodeError::InvalidPopulation)
    ));
    let cause = std::io::Error::new(std::io::ErrorKind::Other, "x");
    let converted: CliError = cause.into();
    assert!(matches!(converted, CliError::Io(_)));
    let mut reader = csv::ReaderBuilder::new()
        .has_headers(false)
        .from_reader("a,b\nc\n".as_bytes());
    let cause = reader.records().nth(1).unwrap().unwrap_err();
    let converted: CliError = cause.into();
    assert!(matches!(converted, CliError::Csv(_)));
}
