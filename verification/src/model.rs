//! The record store as a mathematical value: the rows of its table, the
//! records those rows hold, and what each operation does to them.
//!
//! The effects below describe the store that the operations are made for:
//! one that nothing else writes to while it is used, and whose table was
//! created by this library. They are what SQL's statements mean there. The
//! library does not prove them of the storage engine; it proves what it
//! hands to the engine and what it does with the answer, and [`crate::laws`]
//! proves what follows from the effects.

use crate::error::StoreError;
use crate::record::{normalized, storable, well_formed, KalRecordView};
use vstd::prelude::*;

verus! {

/// One row of the table as the typed column getters read it: year,
/// ordinal day, category, details. A column that does not hold a value of
/// its type reads as `None`; details that are SQL NULL read as `Some(None)`.
pub type RowView = (Option<u32>, Option<u32>, Option<Seq<char>>, Option<Option<Seq<char>>>);

/// The state of a store: whether its table exists, and the records it
/// holds, oldest first.
pub struct StoreState {
    pub initialized: bool,
    pub records: Seq<KalRecordView>,
}

/// The record that a row holds. A row whose columns do not all read with
/// their types, or whose values break the data model, holds none: queries
/// skip it.
pub open spec fn row_record(row: RowView) -> Option<KalRecordView> {
    match row {
        (Some(year), Some(ordinal_day), Some(category), Some(details)) => {
            let r = KalRecordView { year, ordinal_day, category, details };
            if well_formed(r) {
                Some(r)
            } else {
                None
            }
        },
        _ => None,
    }
}

/// The row that is written for a record.
pub open spec fn record_row(r: KalRecordView) -> RowView {
    (Some(r.year), Some(r.ordinal_day), Some(r.category), Some(r.details))
}

/// The records held by `rows`, in row order.
pub open spec fn records_of(rows: Seq<RowView>) -> Seq<KalRecordView> {
    rows.filter_map(|row: RowView| row_record(row))
}

/// Whether a row is selected by a year and, where one is given, a day.
pub open spec fn row_selected(row: RowView, year: u32, day: Option<u32>) -> bool {
    row.0 == Some(year) && match day {
        Some(d) => row.1 == Some(d),
        None => true,
    }
}

/// The rows that a selection by year and optional day returns, in row order.
pub open spec fn selected_rows(rows: Seq<RowView>, year: u32, day: Option<u32>) -> Seq<RowView> {
    rows.filter(|row: RowView| row_selected(row, year, day))
}

/// The rows that are left when those of one day are removed.
pub open spec fn remaining_rows(rows: Seq<RowView>, year: u32, day: u32) -> Seq<RowView> {
    rows.filter(|row: RowView| !row_selected(row, year, Some(day)))
}

/// Whether a record belongs to the given day of the given year.
pub open spec fn on_day(r: KalRecordView, year: u32, ordinal_day: u32) -> bool {
    r.year == year && r.ordinal_day == ordinal_day
}

/// The records of one day, in insertion order.
pub open spec fn day_records(records: Seq<KalRecordView>, year: u32, ordinal_day: u32) -> Seq<
    KalRecordView,
> {
    records.filter(|r: KalRecordView| on_day(r, year, ordinal_day))
}

/// The records of one year, in insertion order.
pub open spec fn year_records(records: Seq<KalRecordView>, year: u32) -> Seq<KalRecordView> {
    records.filter(|r: KalRecordView| r.year == year)
}

/// The records that are left when those of one day are removed.
pub open spec fn without_day(records: Seq<KalRecordView>, year: u32, ordinal_day: u32) -> Seq<
    KalRecordView,
> {
    records.filter(|r: KalRecordView| !on_day(r, year, ordinal_day))
}

/// Whether two records are the same in every field.
pub open spec fn same_record(x: KalRecordView, r: KalRecordView) -> bool {
    x == r
}

/// Whether a record is one that was asked for: of the year given and, where
/// a day is given, of that day.
pub open spec fn asked_for(r: KalRecordView, year: u32, day: Option<u32>) -> bool {
    r.year == year && match day {
        Some(d) => r.ordinal_day == d,
        None => true,
    }
}

/// The records that were asked for, in order.
pub open spec fn matching_records(records: Seq<KalRecordView>, year: u32, day: Option<u32>) -> Seq<
    KalRecordView,
> {
    records.filter(|r: KalRecordView| asked_for(r, year, day))
}

/// How often `r` occurs in `records`.
pub open spec fn occurrences(records: Seq<KalRecordView>, r: KalRecordView) -> nat {
    records.filter(|x: KalRecordView| same_record(x, r)).len()
}

/// What initialization does: on success a store without a table has gained
/// an empty one; on failure the store is as it was, and the failure is
/// `SchemaAlreadyExists` only where the table was there.
pub open spec fn init_effect(before: StoreState, after: StoreState, result: Result<(), StoreError>) -> bool {
    match result {
        Ok(_) => !before.initialized && after.initialized && after.records == Seq::<
            KalRecordView,
        >::empty(),
        Err(e) => after == before && (if before.initialized {
            e is SchemaAlreadyExists || e is StoreUnavailable
        } else {
            e is StoreUnavailable
        }),
    }
}

/// What an insert does: a record that is not storable is refused with
/// `ConstraintViolated`; a storable one is appended with its details
/// normalized, or the store is unavailable and stays as it was.
pub open spec fn insert_effect(
    before: StoreState,
    after: StoreState,
    r: KalRecordView,
    result: Result<(), StoreError>,
) -> bool {
    match result {
        Ok(_) => storable(r) && before.initialized && after.initialized && after.records
            == before.records.push(normalized(r)),
        Err(e) => after == before && (if storable(r) {
            e is StoreUnavailable
        } else {
            e is ConstraintViolated
        }),
    }
}

/// What a deletion by day does: every record of that day is gone and the
/// others stay in order, or the store is unavailable and stays as it was.
pub open spec fn delete_effect(
    before: StoreState,
    after: StoreState,
    year: u32,
    ordinal_day: u32,
    result: Result<(), StoreError>,
) -> bool {
    match result {
        Ok(_) => before.initialized && after.initialized && after.records == without_day(
            before.records,
            year,
            ordinal_day,
        ),
        Err(e) => after == before && e is StoreUnavailable,
    }
}

/// What a query by day returns: the records of that day in insertion order,
/// or `StoreUnavailable`.
pub open spec fn day_query_result(
    store: StoreState,
    year: u32,
    ordinal_day: u32,
    result: Result<Seq<KalRecordView>, StoreError>,
) -> bool {
    match result {
        Ok(listing) => store.initialized && listing == day_records(
            store.records,
            year,
            ordinal_day,
        ),
        Err(e) => e is StoreUnavailable,
    }
}

/// What a query by year returns: the records of that year in insertion
/// order, or `StoreUnavailable`.
pub open spec fn year_query_result(
    store: StoreState,
    year: u32,
    result: Result<Seq<KalRecordView>, StoreError>,
) -> bool {
    match result {
        Ok(listing) => store.initialized && listing == year_records(store.records, year),
        Err(e) => e is StoreUnavailable,
    }
}

/// Appending a row appends the record it holds, if it holds one.
pub proof fn lemma_records_of_push(rows: Seq<RowView>, row: RowView)
    ensures
        records_of(rows.push(row)) == match row_record(row) {
            Some(r) => records_of(rows).push(r),
            None => records_of(rows),
        },
{
    let f = |row: RowView| row_record(row);
    let longer = rows.push(row);
    assert(longer.drop_last() =~= rows);
    assert(longer.last() == row);
    match row_record(row) {
        Some(r) => {
            assert(longer.filter_map(f) == rows.filter_map(f) + seq![r]);
            assert(rows.filter_map(f) + seq![r] =~= rows.filter_map(f).push(r));
        },
        None => {
            assert(longer.filter_map(f) == rows.filter_map(f));
        },
    }
}

/// Filtering twice is filtering once by both conditions.
pub proof fn lemma_filter_twice<A>(
    s: Seq<A>,
    first: spec_fn(A) -> bool,
    second: spec_fn(A) -> bool,
    both: spec_fn(A) -> bool,
)
    requires
        forall|x: A| #[trigger] both(x) == (first(x) && second(x)),
    ensures
        s.filter(first).filter(second) == s.filter(both),
    decreases s.len(),
{
    reveal(Seq::filter);
    if s.len() > 0 {
        let init = s.drop_last();
        let last = s.last();
        lemma_filter_twice(init, first, second, both);
        assert(both(last) == (first(last) && second(last)));
        if first(last) {
            init.filter(first).lemma_filter_push(last, second);
        }
    }
}

/// Selecting rows and then reading their records gives what reading the
/// records and then selecting gives, where the two selections agree on every
/// row that holds a record.
pub proof fn lemma_selection_commutes(
    rows: Seq<RowView>,
    keep_row: spec_fn(RowView) -> bool,
    keep: spec_fn(KalRecordView) -> bool,
)
    requires
        forall|row: RowView|
            row_record(row) is Some ==> #[trigger] keep_row(row) == keep(row_record(row).unwrap()),
    ensures
        records_of(rows.filter(keep_row)) == records_of(rows).filter(keep),
    decreases rows.len(),
{
    reveal(Seq::filter);
    if rows.len() > 0 {
        let init = rows.drop_last();
        let last = rows.last();
        lemma_selection_commutes(init, keep_row, keep);
        assert(init.push(last) =~= rows);
        lemma_records_of_push(init, last);
        if keep_row(last) {
            lemma_records_of_push(init.filter(keep_row), last);
        }
        match row_record(last) {
            Some(r) => {
                assert(keep_row(last) == keep(r));
                records_of(init).lemma_filter_push(r, keep);
            },
            None => {},
        }
    }
}

/// The records of the rows selected for a day are the day's records.
pub proof fn lemma_records_of_selected_day(rows: Seq<RowView>, year: u32, ordinal_day: u32)
    ensures
        records_of(selected_rows(rows, year, Some(ordinal_day))) == day_records(
            records_of(rows),
            year,
            ordinal_day,
        ),
{
    lemma_selection_commutes(
        rows,
        |row: RowView| row_selected(row, year, Some(ordinal_day)),
        |r: KalRecordView| on_day(r, year, ordinal_day),
    );
}

/// The records of the rows selected for a year are the year's records.
pub proof fn lemma_records_of_selected_year(rows: Seq<RowView>, year: u32)
    ensures
        records_of(selected_rows(rows, year, None)) == year_records(records_of(rows), year),
{
    lemma_selection_commutes(
        rows,
        |row: RowView| row_selected(row, year, None),
        |r: KalRecordView| r.year == year,
    );
}

/// The records of the rows left after a day is removed are the records of
/// every other day.
pub proof fn lemma_records_of_remaining(rows: Seq<RowView>, year: u32, ordinal_day: u32)
    ensures
        records_of(remaining_rows(rows, year, ordinal_day)) == without_day(
            records_of(rows),
            year,
            ordinal_day,
        ),
{
    lemma_selection_commutes(
        rows,
        |row: RowView| !row_selected(row, year, Some(ordinal_day)),
        |r: KalRecordView| !on_day(r, year, ordinal_day),
    );
}

/// Every record that rows hold is well-formed: its day is a day of the
/// year, its category is not empty, and its details are never the empty
/// text.
pub proof fn lemma_records_well_formed(rows: Seq<RowView>, i: int)
    requires
        0 <= i < records_of(rows).len(),
    ensures
        well_formed(records_of(rows)[i]),
    decreases rows.len(),
{
    if rows.len() > 0 {
        let init = rows.drop_last();
        assert(init.push(rows.last()) =~= rows);
        lemma_records_of_push(init, rows.last());
        if i < records_of(init).len() {
            lemma_records_well_formed(init, i);
        }
    }
}

/// The records asked for by year and day are the day's records, and those
/// asked for by year alone are the year's.
pub proof fn lemma_matching_is_day_or_year(records: Seq<KalRecordView>, year: u32, day: u32)
    ensures
        matching_records(records, year, Some(day)) == day_records(records, year, day),
        matching_records(records, year, None) == year_records(records, year),
{
    let by_day = |r: KalRecordView| asked_for(r, year, Some(day));
    let on_that_day = |r: KalRecordView| on_day(r, year, day);
    assert(by_day =~= on_that_day);
    let by_year = |r: KalRecordView| asked_for(r, year, None);
    let of_year = |r: KalRecordView| r.year == year;
    assert(by_year =~= of_year);
}

} // verus!
