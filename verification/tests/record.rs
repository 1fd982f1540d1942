use kal::record::{normalize_details, KalRecord, MAX_ORDINAL_DAY};
use kal::text::{push_decimal, push_fixed_width};

fn record(year: u32, ordinal_day: u32, category: &str, details: Option<&str>) -> KalRecord {
    KalRecord {
        year,
        ordinal_day,
        category: category.to_string(),
        details: details.map(|d| d.to_string()),
    }
}

#[test]
fn display_line_with_details() {
    let r = record(2024, 45, "reading", Some("30 pages"));
    assert_eq!(r.to_string(), "2024-45: reading: 30 pages");
}

#[test]
fn display_line_without_details() {
    let r = record(2024, 45, "exercise", None);
    assert_eq!(r.to_string(), "2024-45: exercise: <no details>");
}

#[test]
fn display_line_of_extreme_numbers() {
    assert_eq!(record(0, 1, "a", None).to_string(), "0-1: a: <no details>");
    assert_eq!(
        record(4294967295, 366, "a", Some("")).to_string(),
        "4294967295-366: a: "
    );
    assert_eq!(record(10, 100, "b", Some("x")).to_string(), "10-100: b: x");
}

#[test]
fn empty_details_are_normalized_to_absent() {
    assert_eq!(normalize_details(Some(String::new())), None);
    assert_eq!(normalize_details(None), None);
    assert_eq!(normalize_details(Some("x".to_string())), Some("x".to_string()));
    assert_eq!(normalize_details(Some(" ".to_string())), Some(" ".to_string()));
}

#[test]
fn storable_records_have_a_day_of_the_year_and_a_category() {
    assert_eq!(MAX_ORDINAL_DAY, 366);
    assert!(record(2024, 1, "a", None).is_storable());
    assert!(record(2024, 366, "a", Some("")).is_storable());
    assert!(!record(2024, 0, "a", None).is_storable());
    assert!(!record(2024, 367, "a", None).is_storable());
    assert!(!record(2024, 45, "", None).is_storable());
}

#[test]
fn decimal_text_has_no_leading_zeros() {
    let mut out = String::from("n=");
    push_decimal(&mut out, 0);
    out.push(',');
    push_decimal(&mut out, 7);
    out.push(',');
    push_decimal(&mut out, 10);
    out.push(',');
    push_decimal(&mut out, 4294967295);
    assert_eq!(out, "n=0,7,10,4294967295");
}

#[test]
fn fixed_width_text_pads_and_truncates_on_the_left() {
    let mut out = String::new();
    push_fixed_width(&mut out, 5, 2);
    out.push(',');
    push_fixed_width(&mut out, 42, 4);
    out.push(',');
    push_fixed_width(&mut out, 12345, 4);
    out.push(',');
    push_fixed_width(&mut out, 9, 0);
    out.push(',');
    push_fixed_width(&mut out, 0, 3);
    assert_eq!(out, "05,0042,2345,,000");
}
