use city_pop::record::PopulationCount;
use city_pop::text::{render_decimal, same_text};

#[test]
fn decimal_of_small_numbers() {
    assert_eq!(render_decimal(0), "0");
    assert_eq!(render_decimal(7), "7");
    assert_eq!(render_decimal(9), "9");
    assert_eq!(render_decimal(10), "10");
    assert_eq!(render_decimal(101), "101");
}

#[test]
fn decimal_of_large_numbers() {
    assert_eq!(render_decimal(2140526), "2140526");
    assert_eq!(render_decimal(1234567890), "1234567890");
    assert_eq!(render_decimal(u64::MAX), "18446744073709551615");
}

#[test]
fn decimal_agrees_with_the_standard_library() {
    let mut n: u64 = 1;
    for _ in 0..64 {
        assert_eq!(render_decimal(n), n.to_string());
        assert_eq!(render_decimal(n - 1), (n - 1).to_string());
        n = n.wrapping_mul(2);
    }
}

#[test]
fn same_text_compares_characters() {
    assert!(same_text("", ""));
    assert!(same_text("Paris", "Paris"));
    assert!(same_text("\u{ce}le-de-France", "\u{ce}le-de-France"));
    assert!(!same_text("Paris", "paris"));
    assert!(!same_text("Paris", "Pari"));
    assert!(!same_text("Pari", "Paris"));
    assert!(!same_text("", " "));
    assert!(!same_text("\u{ce}le", "Ile"));
}

#[test]
fn matches_needs_the_city_and_a_known_population() {
    let known = PopulationCount {
        city: "Paris".to_string(),
        country: "France".to_string(),
        region: "A".to_string(),
        population: Some(0),
    };
    let unknown = PopulationCount {
        city: "Paris".to_string(),
        country: "France".to_string(),
        region: "B".to_string(),
        population: None,
    };
    assert!(known.matches("Paris", false));
    assert!(known.matches("Paris", true));
    assert!(!unknown.matches("Paris", false));
    assert!(unknown.matches("Paris", true));
    assert!(!known.matches("Lyon", false));
    assert!(!known.matches("Lyon", true));
    assert!(!unknown.matches("Lyon", false));
    assert!(!unknown.matches("Lyon", true));
    assert!(!known.matches("France", true));
}

#[test]
fn line_puts_the_region_before_the_country() {
    let record = PopulationCount {
        city: "Paris".to_string(),
        country: "France".to_string(),
        region: "\u{ce}le-de-France".to_string(),
        population: Some(2140526),
    };
    assert_eq!(record.line(), "Paris, \u{ce}le-de-France, France: 2140526");
}

#[test]
fn line_of_an_unknown_population() {
    let record = PopulationCount {
        city: "Paris".to_string(),
        country: "France".to_string(),
        region: "Texas".to_string(),
        population: None,
    };
    assert_eq!(record.line(), "Paris, Texas, France: Unknown Population");
}

#[test]
fn line_of_empty_fields() {
    let record = PopulationCount {
        city: String::new(),
        country: String::new(),
        region: String::new(),
        population: Some(0),
    };
    assert_eq!(record.line(), ", , : 0");
}
