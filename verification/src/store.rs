//! The record store: one SQLite table of dated entries behind five
//! operations.
//!
//! The storage engine decides whether an operation succeeds and what a
//! query finds, so each operation states what it hands to the engine, what
//! it does with the answer, and what holds whatever the answer was. What the
//! operations do to a store that nothing else writes to is stated in
//! [`crate::model`], and what follows from that in [`crate::laws`].
//!
//! A row of the table that holds no record (a column of another type, a day
//! that is no day of the year, an empty category, empty details) is skipped
//! by the queries and removed by a deletion of its day like any other row.
//! Every failure of the storage engine is passed on as `StoreUnavailable`,
//! with the engine's message; nothing is retried.

use crate::error::StoreError;
use crate::model::{
    asked_for, lemma_records_of_push, lemma_records_well_formed, matching_records, records_of,
    row_record, RowView,
};
use crate::record::{
    normalized, record_views, storable, well_formed, KalRecord, KalRecordView, MAX_ORDINAL_DAY,
};
use crate::sqlite::{
    failure_text, fetch_rows, open_database, probe_table, raw_views, run_create, run_delete,
    run_insert, RawRow,
};
use vstd::prelude::*;

verus! {

/// The library's error for a failure of the storage engine.
fn unavailable(e: rusqlite::Error) -> (err: StoreError)
    ensures
        err is StoreUnavailable,
{
    StoreError::StoreUnavailable { reason: failure_text(&e) }
}

/// Opens the store at `url`, creating its file where there is none. `url`
/// may be a path, a `file:` URI or `:memory:`.
pub fn create_connection(url: &str) -> (r: Result<rusqlite::Connection, StoreError>)
    ensures
        r matches Err(e) ==> e is StoreUnavailable,
{
    match open_database(url) {
        Ok(conn) => Ok(conn),
        Err(e) => Err(unavailable(e)),
    }
}

/// Whether a store may be initialized, given whether its table is there: a
/// store that has its table is not initialized again.
pub fn schema_verdict(present: bool) -> (r: Result<(), StoreError>)
    ensures
        r == (if present {
            Err::<(), StoreError>(StoreError::SchemaAlreadyExists)
        } else {
            Ok::<(), StoreError>(())
        }),
{
    if present {
        Err(StoreError::SchemaAlreadyExists)
    } else {
        Ok(())
    }
}

/// Creates the table in a store that has none. The store is asked whether
/// it has the table; [`schema_verdict`] decides on the answer. A store that
/// has it fails the call with `SchemaAlreadyExists`, and nothing is written
/// to it: the connection is as it was.
pub fn init_database(conn: &mut rusqlite::Connection) -> (r: Result<(), StoreError>)
    ensures
        r matches Err(e) ==> e is SchemaAlreadyExists || e is StoreUnavailable,
        r matches Err(e) && e is SchemaAlreadyExists ==> *final(conn) == *old(conn),
{
    let present = match probe_table(conn) {
        Ok(present) => present,
        Err(e) => {
            return Err(unavailable(e));
        },
    };
    match schema_verdict(present) {
        Err(e) => Err(e),
        Ok(_) => match run_create(conn) {
            Ok(_) => Ok(()),
            Err(e) => Err(unavailable(e)),
        },
    }
}

/// The form in which a record is handed to the store: the record with its
/// details normalized, empty details being stored as absent. A record whose
/// day is no day of the year, or whose category is empty, is refused with
/// `ConstraintViolated`.
pub fn stored_form(r: &KalRecord) -> (out: Result<KalRecord, StoreError>)
    ensures
        match out {
            Ok(row) => storable(r@) && row@ == normalized(r@) && well_formed(row@),
            Err(e) => !storable(r@) && e == StoreError::ConstraintViolated,
        },
{
    if !r.is_storable() {
        return Err(StoreError::ConstraintViolated);
    }
    let details: Option<String> = match &r.details {
        Some(text) => {
            if text.as_str().is_empty() {
                None
            } else {
                Some(text.clone())
            }
        },
        None => None,
    };
    let row = KalRecord {
        year: r.year,
        ordinal_day: r.ordinal_day,
        category: r.category.clone(),
        details,
    };
    proof {
        crate::record::lemma_normalized_well_formed(r@);
    }
    Ok(row)
}

/// Appends `r` to the store in its [`stored_form`]. A record of the same
/// day and category as an earlier one is appended like any other. A record
/// that has no stored form is refused with `ConstraintViolated` before the
/// store is asked anything: the connection is as it was.
pub fn upsert_record(conn: &mut rusqlite::Connection, r: &KalRecord) -> (res: Result<
    (),
    StoreError,
>)
    ensures
        !storable(r@) ==> res == Err::<(), StoreError>(StoreError::ConstraintViolated),
        !storable(r@) ==> *final(conn) == *old(conn),
        storable(r@) ==> res is Ok || (res matches Err(e) && e is StoreUnavailable),
{
    let row = match stored_form(r) {
        Ok(row) => row,
        Err(e) => {
            return Err(e);
        },
    };
    match run_insert(conn, &row) {
        Ok(_) => Ok(()),
        Err(e) => Err(unavailable(e)),
    }
}

/// The record that a row holds, or `None` for a row that holds none: one
/// whose columns did not all read with their types, whose day is no day of
/// the year, whose category is empty, or whose details are the empty text.
pub fn decode_row(row: &RawRow) -> (out: Option<KalRecord>)
    ensures
        match out {
            Some(r) => row_record(row@) == Some(r@),
            None => row_record(row@) is None,
        },
{
    let year = match row.year {
        Some(y) => y,
        None => {
            return None;
        },
    };
    let ordinal_day = match row.ordinal_day {
        Some(d) => d,
        None => {
            return None;
        },
    };
    let category = match &row.category {
        Some(c) => c,
        None => {
            return None;
        },
    };
    let details = match &row.details {
        Some(d) => d,
        None => {
            return None;
        },
    };
    if ordinal_day < 1 || ordinal_day > MAX_ORDINAL_DAY || category.as_str().is_empty() {
        return None;
    }
    let details: Option<String> = match details {
        Some(text) => {
            if text.as_str().is_empty() {
                assert(text@ =~= Seq::<char>::empty());
                return None;
            }
            Some(text.clone())
        },
        None => None,
    };
    Some(KalRecord { year, ordinal_day, category: category.clone(), details })
}

/// The records that rows hold, in row order. Rows that hold none are
/// skipped: they are not records.
pub fn decode_rows(rows: &Vec<RawRow>) -> (out: Vec<KalRecord>)
    ensures
        record_views(out@) == records_of(raw_views(rows@)),
        forall|i: int| 0 <= i < out.len() ==> well_formed(#[trigger] out[i]@),
{
    let mut out: Vec<KalRecord> = Vec::new();
    let mut i: usize = 0;
    assert(raw_views(rows@).take(0) =~= Seq::<RowView>::empty());
    assert(record_views(out@) =~= Seq::<KalRecordView>::empty());
    while i < rows.len()
        invariant
            i <= rows.len(),
            record_views(out@) == records_of(raw_views(rows@).take(i as int)),
        decreases rows.len() - i,
    {
        let decoded = decode_row(&rows[i]);
        proof {
            let views = raw_views(rows@);
            assert(views.take(i as int + 1) =~= views.take(i as int).push(rows[i as int]@));
            lemma_records_of_push(views.take(i as int), rows[i as int]@);
        }
        match decoded {
            Some(r) => {
                let ghost before = out@;
                out.push(r);
                assert(record_views(out@) =~= record_views(before).push(r@));
            },
            None => {},
        }
        i += 1;
    }
    assert(raw_views(rows@).take(rows.len() as int) =~= raw_views(rows@));
    assert forall|i: int| 0 <= i < out.len() implies well_formed(#[trigger] out[i]@) by {
        lemma_records_well_formed(raw_views(rows@), i);
        assert(record_views(out@)[i] == out[i]@);
    }
    out
}

/// A copy of a record.
fn copy_record(r: &KalRecord) -> (out: KalRecord)
    ensures
        out@ == r@,
{
    let details: Option<String> = match &r.details {
        Some(text) => Some(text.clone()),
        None => None,
    };
    KalRecord { year: r.year, ordinal_day: r.ordinal_day, category: r.category.clone(), details }
}

/// The records that were asked for, out of those that came back: of the
/// year given and, where a day is given, of that day, in the order they came
/// in.
pub fn keep_matching(records: &Vec<KalRecord>, year: u32, day: Option<u32>) -> (out: Vec<
    KalRecord,
>)
    ensures
        record_views(out@) == matching_records(record_views(records@), year, day),
{
    let mut out: Vec<KalRecord> = Vec::new();
    let mut i: usize = 0;
    let ghost wanted = |r: KalRecordView| asked_for(r, year, day);
    assert(record_views(records@).take(0) =~= Seq::<KalRecordView>::empty());
    assert(record_views(out@) =~= Seq::<KalRecordView>::empty());
    while i < records.len()
        invariant
            i <= records.len(),
            wanted == (|r: KalRecordView| asked_for(r, year, day)),
            record_views(out@) == record_views(records@).take(i as int).filter(wanted),
        decreases records.len() - i,
    {
        let r = &records[i];
        let wanted_day = match day {
            Some(d) => r.ordinal_day == d,
            None => true,
        };
        proof {
            let views = record_views(records@);
            assert(views.take(i as int + 1) =~= views.take(i as int).push(r@));
            views.take(i as int).lemma_filter_push(r@, wanted);
        }
        if r.year == year && wanted_day {
            let ghost before = out@;
            out.push(copy_record(r));
            assert(record_views(out@) =~= record_views(before).push(r@));
        }
        i += 1;
    }
    assert(record_views(records@).take(records.len() as int) =~= record_views(records@));
    out
}

/// What a query lists of the rows that came back: the records they hold
/// that were asked for, in the order the rows came in. Every record listed
/// is well-formed and of the year, and day, asked for.
pub fn listing_of(rows: &Vec<RawRow>, year: u32, day: Option<u32>) -> (out: Vec<KalRecord>)
    ensures
        record_views(out@) == matching_records(records_of(raw_views(rows@)), year, day),
        forall|i: int|
            0 <= i < out.len() ==> well_formed(#[trigger] out[i]@) && asked_for(out[i]@, year, day),
{
    let decoded = decode_rows(rows);
    let out = keep_matching(&decoded, year, day);
    proof {
        let held = records_of(raw_views(rows@));
        let wanted = |r: KalRecordView| asked_for(r, year, day);
        assert forall|i: int| 0 <= i < out.len() implies well_formed(#[trigger] out[i]@)
            && asked_for(out[i]@, year, day) by {
            let listed = record_views(out@);
            assert(listed[i] == out[i]@);
            held.lemma_filter_pred(wanted, i);
            assert(listed.contains(listed[i]));
            held.lemma_filter_contains_rev(wanted, listed[i]);
            let at = choose|at: int| 0 <= at < held.len() && held[at] == listed[i];
            lemma_records_well_formed(raw_views(rows@), at);
        }
    }
    out
}

/// The records of one day, in insertion order. A day without records gives
/// an empty listing. The store is asked for the rows of that day;
/// [`listing_of`] decides what is listed of the answer.
pub fn query_record_ordinal(conn: &rusqlite::Connection, year: u32, ordinal_day: u32) -> (r:
    Result<Vec<KalRecord>, StoreError>)
    ensures
        match r {
            Ok(listing) => forall|i: int|
                0 <= i < listing.len() ==> well_formed(#[trigger] listing[i]@) && listing[i]@.year
                    == year && listing[i]@.ordinal_day == ordinal_day,
            Err(e) => e is StoreUnavailable,
        },
{
    match fetch_rows(conn, year, Some(ordinal_day)) {
        Ok(rows) => Ok(listing_of(&rows, year, Some(ordinal_day))),
        Err(e) => Err(unavailable(e)),
    }
}

/// The records of one year, over all its days, in insertion order. The
/// store is asked for the rows of that year; [`listing_of`] decides what is
/// listed of the answer.
pub fn query_records_year(conn: &rusqlite::Connection, year: u32) -> (r: Result<
    Vec<KalRecord>,
    StoreError,
>)
    ensures
        match r {
            Ok(listing) => forall|i: int|
                0 <= i < listing.len() ==> well_formed(#[trigger] listing[i]@) && listing[i]@.year
                    == year,
            Err(e) => e is StoreUnavailable,
        },
{
    match fetch_rows(conn, year, None) {
        Ok(rows) => Ok(listing_of(&rows, year, None)),
        Err(e) => Err(unavailable(e)),
    }
}

/// Removes every record of one day. A day without records is no error. The
/// only failure is that of the storage engine.
pub fn delete_records_ordinal(conn: &mut rusqlite::Connection, year: u32, ordinal_day: u32) -> (r:
    Result<(), StoreError>)
    ensures
        r matches Err(e) ==> e is StoreUnavailable,
{
    match run_delete(conn, year, ordinal_day) {
        Ok(_) => Ok(()),
        Err(e) => Err(unavailable(e)),
    }
}

} // verus!
