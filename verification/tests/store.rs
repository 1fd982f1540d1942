use kal::error::StoreError;
use kal::record::KalRecord;
use kal::sqlite::RawRow;
use kal::store::{
    create_connection, decode_row, decode_rows, delete_records_ordinal, init_database,
    keep_matching, listing_of, query_record_ordinal, query_records_year, schema_verdict,
    stored_form, upsert_record,
};

fn record(year: u32, ordinal_day: u32, category: &str, details: Option<&str>) -> KalRecord {
    KalRecord {
        year,
        ordinal_day,
        category: category.to_string(),
        details: details.map(|d| d.to_string()),
    }
}

fn fresh_store() -> rusqlite::Connection {
    let mut conn = create_connection(":memory:").unwrap();
    init_database(&mut conn).unwrap();
    conn
}

fn raw(
    year: Option<u32>,
    ordinal_day: Option<u32>,
    category: Option<&str>,
    details: Option<Option<&str>>,
) -> RawRow {
    RawRow {
        year,
        ordinal_day,
        category: category.map(|c| c.to_string()),
        details: details.map(|d| d.map(|t| t.to_string())),
    }
}

#[test]
fn two_records_of_one_day_come_back_in_insertion_order() {
    let mut conn = fresh_store();
    let exercise = record(2024, 45, "exercise", None);
    let reading = record(2024, 45, "reading", Some("30 pages"));
    upsert_record(&mut conn, &exercise).unwrap();
    upsert_record(&mut conn, &reading).unwrap();

    let day = query_record_ordinal(&conn, 2024, 45).unwrap();
    assert_eq!(day, vec![exercise.clone(), reading.clone()]);

    let year = query_records_year(&conn, 2024).unwrap();
    assert_eq!(year, vec![exercise, reading]);

    delete_records_ordinal(&mut conn, 2024, 45).unwrap();
    assert_eq!(query_record_ordinal(&conn, 2024, 45).unwrap(), vec![]);
}

#[test]
fn inserted_record_is_found_once_on_its_day() {
    let mut conn = fresh_store();
    let r = record(2023, 200, "walk", Some("park"));
    upsert_record(&mut conn, &r).unwrap();
    let day = query_record_ordinal(&conn, 2023, 200).unwrap();
    assert_eq!(day.iter().filter(|x| **x == r).count(), 1);
    assert_eq!(day.len(), 1);
}

#[test]
fn empty_details_are_stored_as_absent() {
    let mut conn = fresh_store();
    upsert_record(&mut conn, &record(2024, 1, "note", Some(""))).unwrap();
    let day = query_record_ordinal(&conn, 2024, 1).unwrap();
    assert_eq!(day, vec![record(2024, 1, "note", None)]);
}

#[test]
fn duplicates_are_kept() {
    let mut conn = fresh_store();
    let r = record(2024, 45, "exercise", Some("run"));
    upsert_record(&mut conn, &r).unwrap();
    upsert_record(&mut conn, &r).unwrap();
    assert_eq!(query_record_ordinal(&conn, 2024, 45).unwrap(), vec![r.clone(), r]);
}

#[test]
fn query_of_a_day_without_records_is_empty() {
    let conn = fresh_store();
    assert_eq!(query_record_ordinal(&conn, 2024, 45).unwrap(), vec![]);
    assert_eq!(query_records_year(&conn, 2024).unwrap(), vec![]);
}

#[test]
fn year_query_spans_days_and_skips_other_years() {
    let mut conn = fresh_store();
    let a = record(2024, 366, "a", None);
    let b = record(2023, 10, "b", None);
    let c = record(2024, 1, "c", Some("x"));
    let d = record(2024, 366, "d", None);
    for r in [&a, &b, &c, &d] {
        upsert_record(&mut conn, r).unwrap();
    }
    assert_eq!(query_records_year(&conn, 2024).unwrap(), vec![a.clone(), c.clone(), d.clone()]);
    assert_eq!(query_records_year(&conn, 2023).unwrap(), vec![b.clone()]);
    assert_eq!(query_records_year(&conn, 2022).unwrap(), vec![]);
    assert_eq!(query_record_ordinal(&conn, 2024, 366).unwrap(), vec![a, d]);
    assert_eq!(query_record_ordinal(&conn, 2023, 366).unwrap(), vec![]);
}

#[test]
fn delete_removes_one_day_only() {
    let mut conn = fresh_store();
    let a = record(2024, 45, "a", None);
    let b = record(2024, 46, "b", None);
    let c = record(2023, 45, "c", None);
    let d = record(2024, 45, "d", None);
    for r in [&a, &b, &c, &d] {
        upsert_record(&mut conn, r).unwrap();
    }
    delete_records_ordinal(&mut conn, 2024, 45).unwrap();
    assert_eq!(query_record_ordinal(&conn, 2024, 45).unwrap(), vec![]);
    assert_eq!(query_records_year(&conn, 2024).unwrap(), vec![b]);
    assert_eq!(query_records_year(&conn, 2023).unwrap(), vec![c]);
}

#[test]
fn delete_of_a_day_without_records_succeeds() {
    let mut conn = fresh_store();
    let a = record(2024, 45, "a", None);
    upsert_record(&mut conn, &a).unwrap();
    assert_eq!(delete_records_ordinal(&mut conn, 2024, 46), Ok(()));
    assert_eq!(query_records_year(&conn, 2024).unwrap(), vec![a]);
}

#[test]
fn insertion_order_survives_a_deletion_in_between() {
    let mut conn = fresh_store();
    let a = record(2024, 10, "a", None);
    let b = record(2024, 11, "b", None);
    let c = record(2024, 10, "c", None);
    upsert_record(&mut conn, &a).unwrap();
    upsert_record(&mut conn, &b).unwrap();
    delete_records_ordinal(&mut conn, 2024, 10).unwrap();
    upsert_record(&mut conn, &c).unwrap();
    upsert_record(&mut conn, &a).unwrap();
    assert_eq!(query_records_year(&conn, 2024).unwrap(), vec![b, c, a]);
}

#[test]
fn second_initialization_fails_and_keeps_the_records() {
    let mut conn = fresh_store();
    let r = record(2024, 45, "exercise", None);
    upsert_record(&mut conn, &r).unwrap();
    assert_eq!(init_database(&mut conn), Err(StoreError::SchemaAlreadyExists));
    assert_eq!(query_records_year(&conn, 2024).unwrap(), vec![r]);
}

#[test]
fn operations_on_a_store_without_table_are_unavailable() {
    let mut conn = create_connection(":memory:").unwrap();
    let r = record(2024, 45, "exercise", None);
    assert!(matches!(
        upsert_record(&mut conn, &r),
        Err(StoreError::StoreUnavailable { .. })
    ));
    assert!(matches!(
        query_record_ordinal(&conn, 2024, 45),
        Err(StoreError::StoreUnavailable { .. })
    ));
    assert!(matches!(
        query_records_year(&conn, 2024),
        Err(StoreError::StoreUnavailable { .. })
    ));
    assert!(matches!(
        delete_records_ordinal(&mut conn, 2024, 45),
        Err(StoreError::StoreUnavailable { .. })
    ));
    assert_eq!(init_database(&mut conn), Ok(()));
    assert_eq!(upsert_record(&mut conn, &r), Ok(()));
}

#[test]
fn store_that_cannot_be_opened_is_unavailable() {
    let r = create_connection("/no/such/directory/anywhere/kal.db");
    match r {
        Err(StoreError::StoreUnavailable { reason }) => assert!(!reason.is_empty()),
        _ => panic!("opening a store under a missing directory must fail"),
    }
}

#[test]
fn records_that_break_the_data_model_are_refused() {
    let mut conn = fresh_store();
    assert_eq!(
        upsert_record(&mut conn, &record(2024, 0, "a", None)),
        Err(StoreError::ConstraintViolated)
    );
    assert_eq!(
        upsert_record(&mut conn, &record(2024, 367, "a", None)),
        Err(StoreError::ConstraintViolated)
    );
    assert_eq!(
        upsert_record(&mut conn, &record(2024, 45, "", Some("x"))),
        Err(StoreError::ConstraintViolated)
    );
    assert_eq!(query_records_year(&conn, 2024).unwrap(), vec![]);
    assert_eq!(upsert_record(&mut conn, &record(2024, 1, "a", None)), Ok(()));
    assert_eq!(upsert_record(&mut conn, &record(2024, 366, "a", None)), Ok(()));
}

#[test]
fn text_with_quotes_and_wide_characters_round_trips() {
    let mut conn = fresh_store();
    let r = record(4294967295, 366, "caf\u{e9} '\"; DROP", Some("\u{1F600} 100%"));
    upsert_record(&mut conn, &r).unwrap();
    assert_eq!(query_record_ordinal(&conn, 4294967295, 366).unwrap(), vec![r]);
}

#[test]
fn rows_written_by_other_hands_are_skipped_or_read() {
    let mut conn = fresh_store();
    let good = record(2024, 45, "kept", None);
    upsert_record(&mut conn, &good).unwrap();
    conn.execute(
        "INSERT INTO kal_records (year, ordinal_day, category, details) VALUES (2024, 45, x'00ff', NULL)",
        (),
    )
    .unwrap();
    conn.execute(
        "INSERT INTO kal_records (year, ordinal_day, category, details) VALUES (2024, 45, 'empty details', '')",
        (),
    )
    .unwrap();
    conn.execute(
        "INSERT INTO kal_records (year, ordinal_day, category, details) VALUES (2024, 400, 'late', NULL)",
        (),
    )
    .unwrap();
    conn.execute(
        "INSERT INTO kal_records (year, ordinal_day, category, details) VALUES ('2024', '45', 'as text', 'd')",
        (),
    )
    .unwrap();
    conn.execute(
        "INSERT INTO kal_records (year, ordinal_day, category, details) VALUES (-1, 45, 'negative', NULL)",
        (),
    )
    .unwrap();
    conn.execute(
        "INSERT INTO kal_records (year, ordinal_day, category, details) VALUES (2024.0, 45.0, 'as real', NULL)",
        (),
    )
    .unwrap();
    conn.execute(
        "INSERT INTO kal_records (year, ordinal_day, category, details) VALUES (x'32303234', 45, 'as blob', NULL)",
        (),
    )
    .unwrap();
    conn.execute(
        "INSERT INTO kal_records (year, ordinal_day, category, details) VALUES (2024.5, 45, 'fraction', NULL)",
        (),
    )
    .unwrap();
    conn.execute(
        "INSERT INTO kal_records (year, ordinal_day, category, details) VALUES (2024, 45, 'number as details', 7)",
        (),
    )
    .unwrap();
    let as_text = record(2024, 45, "as text", Some("d"));
    let as_real = record(2024, 45, "as real", None);
    let numbered = record(2024, 45, "number as details", Some("7"));
    let expected = vec![good, as_text, as_real, numbered];
    assert_eq!(query_record_ordinal(&conn, 2024, 45).unwrap(), expected);
    assert_eq!(query_records_year(&conn, 2024).unwrap(), expected);
    delete_records_ordinal(&mut conn, 2024, 45).unwrap();
    assert_eq!(query_records_year(&conn, 2024).unwrap(), vec![]);
}

#[test]
fn decode_row_reads_a_well_formed_row() {
    assert_eq!(
        decode_row(&raw(Some(2024), Some(45), Some("reading"), Some(Some("30 pages")))),
        Some(record(2024, 45, "reading", Some("30 pages")))
    );
    assert_eq!(
        decode_row(&raw(Some(2024), Some(1), Some("x"), Some(None))),
        Some(record(2024, 1, "x", None))
    );
    assert_eq!(
        decode_row(&raw(Some(0), Some(366), Some("x"), Some(None))),
        Some(record(0, 366, "x", None))
    );
}

#[test]
fn decode_row_skips_what_is_no_record() {
    assert_eq!(decode_row(&raw(None, Some(45), Some("c"), Some(None))), None);
    assert_eq!(decode_row(&raw(Some(2024), None, Some("c"), Some(None))), None);
    assert_eq!(decode_row(&raw(Some(2024), Some(45), None, Some(None))), None);
    assert_eq!(decode_row(&raw(Some(2024), Some(45), Some("c"), None)), None);
    assert_eq!(decode_row(&raw(Some(2024), Some(0), Some("c"), Some(None))), None);
    assert_eq!(decode_row(&raw(Some(2024), Some(367), Some("c"), Some(None))), None);
    assert_eq!(decode_row(&raw(Some(2024), Some(45), Some(""), Some(None))), None);
    assert_eq!(decode_row(&raw(Some(2024), Some(45), Some("c"), Some(Some("")))), None);
}

#[test]
fn decode_rows_keeps_the_order_of_the_records() {
    let rows = vec![
        raw(Some(2024), Some(45), Some("a"), Some(None)),
        raw(Some(2024), None, Some("broken"), Some(None)),
        raw(Some(2024), Some(46), Some("b"), Some(Some("d"))),
        raw(Some(2024), Some(45), Some(""), Some(None)),
        raw(Some(2023), Some(45), Some("c"), Some(None)),
    ];
    assert_eq!(
        decode_rows(&rows),
        vec![
            record(2024, 45, "a", None),
            record(2024, 46, "b", Some("d")),
            record(2023, 45, "c", None),
        ]
    );
    assert_eq!(decode_rows(&vec![]), vec![]);
}

#[test]
fn second_connection_to_a_named_store_sees_what_the_first_wrote() {
    let url = "file:kal_shared_store_test?mode=memory&cache=shared";
    let mut first = create_connection(url).unwrap();
    init_database(&mut first).unwrap();
    let r = record(2024, 45, "exercise", Some("run"));
    upsert_record(&mut first, &r).unwrap();

    let mut second = create_connection(url).unwrap();
    assert_eq!(init_database(&mut second), Err(StoreError::SchemaAlreadyExists));
    assert_eq!(query_record_ordinal(&second, 2024, 45).unwrap(), vec![r]);
}

#[test]
fn delete_then_query_is_empty_whether_or_not_the_day_had_records() {
    let mut conn = fresh_store();
    delete_records_ordinal(&mut conn, 2024, 45).unwrap();
    assert_eq!(query_record_ordinal(&conn, 2024, 45).unwrap(), vec![]);
    upsert_record(&mut conn, &record(2024, 45, "a", None)).unwrap();
    upsert_record(&mut conn, &record(2024, 45, "b", Some("x"))).unwrap();
    delete_records_ordinal(&mut conn, 2024, 45).unwrap();
    assert_eq!(query_record_ordinal(&conn, 2024, 45).unwrap(), vec![]);
    delete_records_ordinal(&mut conn, 2024, 45).unwrap();
    assert_eq!(query_record_ordinal(&conn, 2024, 45).unwrap(), vec![]);
}

#[test]
fn text_with_a_nul_character_round_trips() {
    let mut conn = fresh_store();
    let r = record(2024, 45, "a\u{0}b", Some("\u{0}"));
    upsert_record(&mut conn, &r).unwrap();
    assert_eq!(query_record_ordinal(&conn, 2024, 45).unwrap(), vec![r]);
}

#[test]
fn schema_verdict_refuses_a_store_that_has_its_table() {
    assert_eq!(schema_verdict(true), Err(StoreError::SchemaAlreadyExists));
    assert_eq!(schema_verdict(false), Ok(()));
}

#[test]
fn stored_form_normalizes_details_and_keeps_the_rest() {
    assert_eq!(
        stored_form(&record(2024, 45, "note", Some(""))),
        Ok(record(2024, 45, "note", None))
    );
    assert_eq!(
        stored_form(&record(2024, 45, "note", Some("x"))),
        Ok(record(2024, 45, "note", Some("x")))
    );
    assert_eq!(stored_form(&record(0, 366, "a", None)), Ok(record(0, 366, "a", None)));
}

#[test]
fn stored_form_refuses_what_breaks_the_data_model() {
    assert_eq!(stored_form(&record(2024, 0, "a", None)), Err(StoreError::ConstraintViolated));
    assert_eq!(stored_form(&record(2024, 367, "a", None)), Err(StoreError::ConstraintViolated));
    assert_eq!(stored_form(&record(2024, 45, "", Some("x"))), Err(StoreError::ConstraintViolated));
}

#[test]
fn keep_matching_keeps_the_day_or_the_year_in_order() {
    let records = vec![
        record(2024, 45, "a", None),
        record(2023, 45, "b", None),
        record(2024, 46, "c", None),
        record(2024, 45, "d", Some("x")),
    ];
    assert_eq!(
        keep_matching(&records, 2024, Some(45)),
        vec![record(2024, 45, "a", None), record(2024, 45, "d", Some("x"))]
    );
    assert_eq!(
        keep_matching(&records, 2024, None),
        vec![
            record(2024, 45, "a", None),
            record(2024, 46, "c", None),
            record(2024, 45, "d", Some("x")),
        ]
    );
    assert_eq!(keep_matching(&records, 2022, None), vec![]);
    assert_eq!(keep_matching(&vec![], 2024, Some(45)), vec![]);
}

#[test]
fn listing_of_lists_the_records_asked_for_and_skips_the_rest() {
    let rows = vec![
        raw(Some(2024), Some(45), Some("a"), Some(None)),
        raw(Some(2024), Some(45), None, Some(None)),
        raw(Some(2023), Some(45), Some("other year"), Some(None)),
        raw(Some(2024), Some(46), Some("other day"), Some(None)),
        raw(Some(2024), Some(45), Some("b"), Some(Some("d"))),
        raw(Some(2024), Some(45), Some("empty details"), Some(Some(""))),
    ];
    assert_eq!(
        listing_of(&rows, 2024, Some(45)),
        vec![record(2024, 45, "a", None), record(2024, 45, "b", Some("d"))]
    );
    assert_eq!(
        listing_of(&rows, 2024, None),
        vec![
            record(2024, 45, "a", None),
            record(2024, 46, "other day", None),
            record(2024, 45, "b", Some("d")),
        ]
    );
}

#[test]
fn table_of_another_shape_lists_nothing_that_was_not_asked_for() {
    let conn = create_connection(":memory:").unwrap();
    conn.execute(
        "CREATE TABLE kal_records (id INTEGER PRIMARY KEY, year TEXT, ordinal_day TEXT, category TEXT, details TEXT)",
        (),
    )
    .unwrap();
    conn.execute(
        "INSERT INTO kal_records (year, ordinal_day, category, details) VALUES (2024, 45, 'as text', NULL)",
        (),
    )
    .unwrap();
    let listing = query_record_ordinal(&conn, 2024, 45).unwrap();
    assert!(listing.iter().all(|r| r.year == 2024 && r.ordinal_day == 45));
    let listing = query_records_year(&conn, 2024).unwrap();
    assert!(listing.iter().all(|r| r.year == 2024));
}
