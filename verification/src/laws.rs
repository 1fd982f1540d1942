//! What holds of the record store across several operations, stated over the
//! effects that [`crate::model`] gives: each law takes the effects of the
//! operations it speaks of as its premises. The laws at the end say when
//! the premises hold: where the statements do to the table what SQL says, the
//! values that the operations hand over and list have these effects.

use crate::error::StoreError;
use crate::model::{
    day_query_result, day_records, delete_effect, init_effect, insert_effect, lemma_filter_twice,
    lemma_matching_is_day_or_year, lemma_records_of_push, lemma_records_of_remaining,
    lemma_records_of_selected_day, lemma_records_of_selected_year, matching_records, occurrences,
    on_day, record_row, records_of, remaining_rows, same_record, selected_rows, without_day,
    year_query_result, year_records, RowView, StoreState,
};
use crate::record::{
    lemma_normalized_well_formed, normalized, storable, well_formed, KalRecordView,
};
use vstd::prelude::*;

verus! {

/// A sequence that does not contain `r` holds it zero times.
proof fn lemma_absent_occurs_never(records: Seq<KalRecordView>, r: KalRecordView)
    requires
        !records.contains(r),
    ensures
        occurrences(records, r) == 0,
{
    let same = |x: KalRecordView| same_record(x, r);
    assert forall|i: int| 0 <= i < records.len() implies !same(#[trigger] records[i]) by {
        assert(records.contains(records[i]));
    }
    assert(records.all(|x: KalRecordView| !same(x)));
    records.lemma_all_neg_filter_empty(same);
}

/// A successful insert followed by a query of the record's day: the listing
/// is what the day held before, followed by the record with its details
/// normalized. The record is well-formed and occurs once more than it did
/// in the store before: a store that held an equal record keeps both.
pub proof fn law_insert_appends_to_day(
    before: StoreState,
    after: StoreState,
    r: KalRecordView,
    listing: Seq<KalRecordView>,
)
    requires
        insert_effect(before, after, r, Ok(())),
        day_query_result(after, r.year, r.ordinal_day, Ok(listing)),
    ensures
        listing == day_records(before.records, r.year, r.ordinal_day).push(normalized(r)),
        well_formed(normalized(r)),
        occurrences(listing, normalized(r)) == occurrences(before.records, normalized(r)) + 1,
{
    let stored = normalized(r);
    let year = r.year;
    let ordinal_day = r.ordinal_day;
    lemma_normalized_well_formed(r);
    before.records.lemma_filter_push(stored, |r: KalRecordView| on_day(r, year, ordinal_day));
    let earlier = day_records(before.records, year, ordinal_day);
    earlier.lemma_filter_push(stored, |x: KalRecordView| same_record(x, stored));
    lemma_filter_twice(
        before.records,
        |r: KalRecordView| on_day(r, year, ordinal_day),
        |x: KalRecordView| same_record(x, stored),
        |x: KalRecordView| same_record(x, stored),
    );
}

/// A successful insert of a record that the store did not hold, followed by
/// a query of the record's day: the listing contains the record, with its
/// details normalized, exactly once.
pub proof fn law_inserted_record_is_listed_once(
    before: StoreState,
    after: StoreState,
    r: KalRecordView,
    listing: Seq<KalRecordView>,
)
    requires
        insert_effect(before, after, r, Ok(())),
        day_query_result(after, r.year, r.ordinal_day, Ok(listing)),
        !before.records.contains(normalized(r)),
    ensures
        occurrences(listing, normalized(r)) == 1,
        listing.last() == normalized(r),
{
    law_insert_appends_to_day(before, after, r, listing);
    lemma_absent_occurs_never(before.records, normalized(r));
}

/// A successful insert leaves every record that the store held where it
/// was: nothing is updated in place.
pub proof fn law_insert_keeps_earlier_records(
    before: StoreState,
    after: StoreState,
    r: KalRecordView,
)
    requires
        insert_effect(before, after, r, Ok(())),
    ensures
        after.records.len() == before.records.len() + 1,
        forall|i: int| 0 <= i < before.records.len() ==> after.records[i] == before.records[i],
{
}

/// A successful deletion of a day followed by a query of that day: the
/// listing is empty, whatever the store held before.
pub proof fn law_delete_then_day_query_is_empty(
    before: StoreState,
    after: StoreState,
    year: u32,
    ordinal_day: u32,
    listing: Seq<KalRecordView>,
)
    requires
        delete_effect(before, after, year, ordinal_day, Ok(())),
        day_query_result(after, year, ordinal_day, Ok(listing)),
    ensures
        listing == Seq::<KalRecordView>::empty(),
{
    let never = |r: KalRecordView| !on_day(r, year, ordinal_day) && on_day(r, year, ordinal_day);
    lemma_filter_twice(
        before.records,
        |r: KalRecordView| !on_day(r, year, ordinal_day),
        |r: KalRecordView| on_day(r, year, ordinal_day),
        never,
    );
    assert(before.records.all(|r: KalRecordView| !never(r)));
    before.records.lemma_all_neg_filter_empty(never);
    assert(listing =~= Seq::<KalRecordView>::empty());
}

/// A successful deletion of a day leaves every other day as it was.
pub proof fn law_delete_keeps_other_days(
    before: StoreState,
    after: StoreState,
    year: u32,
    ordinal_day: u32,
    other_year: u32,
    other_day: u32,
)
    requires
        delete_effect(before, after, year, ordinal_day, Ok(())),
        other_year != year || other_day != ordinal_day,
    ensures
        day_records(after.records, other_year, other_day) == day_records(
            before.records,
            other_year,
            other_day,
        ),
{
    lemma_filter_twice(
        before.records,
        |r: KalRecordView| !on_day(r, year, ordinal_day),
        |r: KalRecordView| on_day(r, other_year, other_day),
        |r: KalRecordView| on_day(r, other_year, other_day),
    );
}

/// A query by year lists what the queries by day of that year list: the
/// records of a day are the year's listing restricted to that day, in the
/// same order.
pub proof fn law_year_listing_covers_its_days(
    store: StoreState,
    year: u32,
    ordinal_day: u32,
    of_year: Seq<KalRecordView>,
    of_day: Seq<KalRecordView>,
)
    requires
        year_query_result(store, year, Ok(of_year)),
        day_query_result(store, year, ordinal_day, Ok(of_day)),
    ensures
        of_day == of_year.filter(|r: KalRecordView| r.ordinal_day == ordinal_day),
{
    lemma_filter_twice(
        store.records,
        |r: KalRecordView| r.year == year,
        |r: KalRecordView| r.ordinal_day == ordinal_day,
        |r: KalRecordView| on_day(r, year, ordinal_day),
    );
}

/// A query by year lists every record of that year that the store holds,
/// whatever its day, and nothing else.
pub proof fn law_year_listing_is_complete(
    store: StoreState,
    year: u32,
    listing: Seq<KalRecordView>,
)
    requires
        year_query_result(store, year, Ok(listing)),
    ensures
        forall|i: int|
            0 <= i < store.records.len() && store.records[i].year == year ==> listing.contains(
                #[trigger] store.records[i],
            ),
        forall|j: int|
            0 <= j < listing.len() ==> (#[trigger] listing[j]).year == year
                && store.records.contains(listing[j]),
{
    let of_year = |r: KalRecordView| r.year == year;
    assert forall|i: int|
        0 <= i < store.records.len() && store.records[i].year == year implies listing.contains(
        #[trigger] store.records[i],
    ) by {
        store.records.lemma_filter_contains(of_year, i);
    }
    assert forall|j: int| 0 <= j < listing.len() implies (#[trigger] listing[j]).year == year
        && store.records.contains(listing[j]) by {
        store.records.lemma_filter_pred(of_year, j);
        assert(listing.contains(listing[j]));
        store.records.lemma_filter_contains_rev(of_year, listing[j]);
    }
}

/// A successful insert followed by a query by year: the listing of the
/// record's year has gained the record at its end, and the listing of every
/// other year is what it was. Starting from an empty store, the listing of a
/// year is therefore the records inserted with that year, in insertion order.
pub proof fn law_insert_then_year_query(
    before: StoreState,
    after: StoreState,
    r: KalRecordView,
    year: u32,
    listing: Seq<KalRecordView>,
)
    requires
        insert_effect(before, after, r, Ok(())),
        year_query_result(after, year, Ok(listing)),
    ensures
        listing == if r.year == year {
            year_records(before.records, year).push(normalized(r))
        } else {
            year_records(before.records, year)
        },
{
    before.records.lemma_filter_push(normalized(r), |r: KalRecordView| r.year == year);
}

/// A store that was just initialized lists nothing.
pub proof fn law_fresh_store_is_empty(
    before: StoreState,
    after: StoreState,
    year: u32,
    listing: Seq<KalRecordView>,
)
    requires
        init_effect(before, after, Ok(())),
        year_query_result(after, year, Ok(listing)),
    ensures
        listing == Seq::<KalRecordView>::empty(),
{
    assert(year_records(Seq::<KalRecordView>::empty(), year) =~= Seq::<KalRecordView>::empty());
}

/// Initialization of a store that is initialized fails and leaves the store
/// as it was, records included. It fails with `SchemaAlreadyExists`, unless
/// the store could not even be asked whether it has its table: then with
/// `StoreUnavailable`.
pub proof fn law_second_initialization_fails(
    before: StoreState,
    after: StoreState,
    result: Result<(), StoreError>,
)
    requires
        before.initialized,
        init_effect(before, after, result),
    ensures
        result is Err,
        result->Err_0 is SchemaAlreadyExists || result->Err_0 is StoreUnavailable,
        after == before,
{
}

/// A successful deletion of a day followed by a query by year: the listing
/// of the day's year has lost the records of that day and kept the others
/// in order, and the listing of every other year is what it was.
pub proof fn law_delete_then_year_query(
    before: StoreState,
    after: StoreState,
    year: u32,
    ordinal_day: u32,
    listed_year: u32,
    listing: Seq<KalRecordView>,
)
    requires
        delete_effect(before, after, year, ordinal_day, Ok(())),
        year_query_result(after, listed_year, Ok(listing)),
    ensures
        listing == without_day(year_records(before.records, listed_year), year, ordinal_day),
        listed_year != year ==> listing == year_records(before.records, listed_year),
{
    let left = |r: KalRecordView| !on_day(r, year, ordinal_day) && r.year == listed_year;
    lemma_filter_twice(
        before.records,
        |r: KalRecordView| !on_day(r, year, ordinal_day),
        |r: KalRecordView| r.year == listed_year,
        left,
    );
    lemma_filter_twice(
        before.records,
        |r: KalRecordView| r.year == listed_year,
        |r: KalRecordView| !on_day(r, year, ordinal_day),
        left,
    );
    if listed_year != year {
        lemma_filter_twice(
            before.records,
            |r: KalRecordView| r.year == listed_year,
            |r: KalRecordView| !on_day(r, year, ordinal_day),
            |r: KalRecordView| r.year == listed_year,
        );
    }
}

/// Whether `states` are the states of a store through the successful
/// inserts of `history`, one after the other.
pub open spec fn inserted_in_turn(states: Seq<StoreState>, history: Seq<KalRecordView>) -> bool {
    states.len() == history.len() + 1 && forall|i: int|
        0 <= i < history.len() ==> insert_effect(
            states[i],
            states[i + 1],
            #[trigger] history[i],
            Ok(()),
        )
}

/// The records as the store holds them for the records handed to it.
pub open spec fn as_stored(history: Seq<KalRecordView>) -> Seq<KalRecordView> {
    history.map_values(|r: KalRecordView| normalized(r))
}

/// Through a run of successful inserts the store gains the records
/// inserted, normalized, in the order of the inserts, after what it held.
pub proof fn law_inserts_accumulate(states: Seq<StoreState>, history: Seq<KalRecordView>)
    requires
        inserted_in_turn(states, history),
    ensures
        states.last().records == states.first().records + as_stored(history),
    decreases history.len(),
{
    if history.len() == 0 {
        assert(states.last().records =~= states.first().records + as_stored(history));
    } else {
        let earlier_states = states.drop_last();
        let earlier_history = history.drop_last();
        assert forall|i: int| 0 <= i < earlier_history.len() implies insert_effect(
            earlier_states[i],
            earlier_states[i + 1],
            #[trigger] earlier_history[i],
            Ok(()),
        ) by {
            assert(insert_effect(states[i], states[i + 1], history[i], Ok(())));
        }
        law_inserts_accumulate(earlier_states, earlier_history);
        let n = history.len() as int;
        assert(insert_effect(states[n - 1], states[n], history[n - 1], Ok(())));
        assert(earlier_states.last() == states[n - 1]);
        assert(earlier_states.first() == states.first());
        assert(as_stored(history) =~= as_stored(earlier_history).push(normalized(history[n - 1])));
        assert(states.last().records =~= states.first().records + as_stored(history));
    }
}

/// A store that is initialized, then receives a run of successful inserts,
/// then is queried by year: the listing is the records inserted with that
/// year, whatever their days, normalized, in the order of the inserts.
pub proof fn law_year_query_lists_what_was_inserted(
    empty: StoreState,
    states: Seq<StoreState>,
    history: Seq<KalRecordView>,
    year: u32,
    listing: Seq<KalRecordView>,
)
    requires
        init_effect(empty, states.first(), Ok(())),
        inserted_in_turn(states, history),
        year_query_result(states.last(), year, Ok(listing)),
    ensures
        listing == year_records(as_stored(history), year),
{
    law_inserts_accumulate(states, history);
    assert(states.first().records + as_stored(history) =~= as_stored(history));
}

/// Initialization, a run of successful inserts, and initialization again:
/// the second initialization fails, with `SchemaAlreadyExists` unless the
/// store is unavailable, and the store still holds exactly the records
/// inserted.
pub proof fn law_initialization_twice(
    empty: StoreState,
    states: Seq<StoreState>,
    history: Seq<KalRecordView>,
    last: StoreState,
    second: Result<(), StoreError>,
)
    requires
        init_effect(empty, states.first(), Ok(())),
        inserted_in_turn(states, history),
        init_effect(states.last(), last, second),
    ensures
        second is Err,
        second->Err_0 is SchemaAlreadyExists || second->Err_0 is StoreUnavailable,
        last == states.last(),
        last.records == as_stored(history),
{
    law_inserts_accumulate(states, history);
    assert(states.first().records + as_stored(history) =~= as_stored(history));
    let n = history.len() as int;
    if n > 0 {
        assert(insert_effect(states[n - 1], states[n], history[n - 1], Ok(())));
    }
}

/// A table as a store: the store is initialized where the table is there,
/// and holds the records that the rows hold.
pub open spec fn store_of(present: bool, rows: Seq<RowView>) -> StoreState {
    StoreState { initialized: present, records: records_of(rows) }
}

/// The row that the insert statement writes for the record handed to it,
/// appended to a table, is an insert into the store.
pub proof fn law_insert_on_table(rows: Seq<RowView>, r: KalRecordView)
    requires
        storable(r),
    ensures
        insert_effect(
            store_of(true, rows),
            store_of(true, rows.push(record_row(normalized(r)))),
            r,
            Ok(()),
        ),
{
    lemma_normalized_well_formed(r);
    lemma_records_of_push(rows, record_row(normalized(r)));
}

/// The rows of a day removed from a table is a deletion of that day from
/// the store.
pub proof fn law_delete_on_table(rows: Seq<RowView>, year: u32, ordinal_day: u32)
    ensures
        delete_effect(
            store_of(true, rows),
            store_of(true, remaining_rows(rows, year, ordinal_day)),
            year,
            ordinal_day,
            Ok(()),
        ),
{
    lemma_records_of_remaining(rows, year, ordinal_day);
}

/// The rows that the select statement returns from a table, decoded and
/// held once more against what was asked for, are the store's answer to a
/// query by day, or by year: on such rows the second look changes nothing.
pub proof fn law_select_on_table(rows: Seq<RowView>, year: u32, ordinal_day: u32)
    ensures
        day_query_result(
            store_of(true, rows),
            year,
            ordinal_day,
            Ok(
                matching_records(
                    records_of(selected_rows(rows, year, Some(ordinal_day))),
                    year,
                    Some(ordinal_day),
                ),
            ),
        ),
        year_query_result(
            store_of(true, rows),
            year,
            Ok(matching_records(records_of(selected_rows(rows, year, None)), year, None)),
        ),
{
    let held = records_of(rows);
    lemma_records_of_selected_day(rows, year, ordinal_day);
    lemma_records_of_selected_year(rows, year);
    lemma_matching_is_day_or_year(day_records(held, year, ordinal_day), year, ordinal_day);
    lemma_matching_is_day_or_year(year_records(held, year), year, ordinal_day);
    lemma_filter_twice(
        held,
        |r: KalRecordView| on_day(r, year, ordinal_day),
        |r: KalRecordView| on_day(r, year, ordinal_day),
        |r: KalRecordView| on_day(r, year, ordinal_day),
    );
    lemma_filter_twice(
        held,
        |r: KalRecordView| r.year == year,
        |r: KalRecordView| r.year == year,
        |r: KalRecordView| r.year == year,
    );
}

/// A table created empty where there was none is an initialization of the
/// store.
pub proof fn law_create_on_table(rows: Seq<RowView>)
    ensures
        init_effect(store_of(false, rows), store_of(true, Seq::<RowView>::empty()), Ok(())),
{
    assert(records_of(Seq::<RowView>::empty()) =~= Seq::<KalRecordView>::empty());
}

/// What a query lists of a table: the records asked for among those that
/// the rows returned by the select statement hold.
pub open spec fn table_listing(rows: Seq<RowView>, year: u32, day: Option<u32>) -> Seq<
    KalRecordView,
> {
    matching_records(records_of(selected_rows(rows, year, day)), year, day)
}

/// On a table, an insert followed by a query of the record's day: the
/// listing is what it was before, followed by the record in its stored form;
/// the record is listed once more than before.
pub proof fn law_table_insert_then_day_listing(rows: Seq<RowView>, r: KalRecordView)
    requires
        storable(r),
    ensures
        table_listing(rows.push(record_row(normalized(r))), r.year, Some(r.ordinal_day))
            == table_listing(rows, r.year, Some(r.ordinal_day)).push(normalized(r)),
        occurrences(
            table_listing(rows.push(record_row(normalized(r))), r.year, Some(r.ordinal_day)),
            normalized(r),
        ) == occurrences(records_of(rows), normalized(r)) + 1,
{
    let longer = rows.push(record_row(normalized(r)));
    law_insert_on_table(rows, r);
    law_select_on_table(rows, r.year, r.ordinal_day);
    law_select_on_table(longer, r.year, r.ordinal_day);
    law_insert_appends_to_day(
        store_of(true, rows),
        store_of(true, longer),
        r,
        table_listing(longer, r.year, Some(r.ordinal_day)),
    );
}

/// On a table, an insert followed by a query by year: the listing of the
/// record's year has gained the record in its stored form at its end,
/// whatever its day, and the listing of every other year is what it was.
pub proof fn law_table_insert_then_year_listing(rows: Seq<RowView>, r: KalRecordView, year: u32)
    requires
        storable(r),
    ensures
        table_listing(rows.push(record_row(normalized(r))), year, None) == if r.year == year {
            table_listing(rows, year, None).push(normalized(r))
        } else {
            table_listing(rows, year, None)
        },
{
    let longer = rows.push(record_row(normalized(r)));
    law_insert_on_table(rows, r);
    law_select_on_table(rows, year, r.ordinal_day);
    law_select_on_table(longer, year, r.ordinal_day);
    law_insert_then_year_query(
        store_of(true, rows),
        store_of(true, longer),
        r,
        year,
        table_listing(longer, year, None),
    );
}

/// On a table, a deletion of a day followed by a query of that day: nothing
/// is listed, whatever the table held, and every other day lists what it
/// listed before.
pub proof fn law_table_delete_then_day_listing(
    rows: Seq<RowView>,
    year: u32,
    ordinal_day: u32,
    other_year: u32,
    other_day: u32,
)
    ensures
        table_listing(remaining_rows(rows, year, ordinal_day), year, Some(ordinal_day)) == Seq::<
            KalRecordView,
        >::empty(),
        other_year != year || other_day != ordinal_day ==> table_listing(
            remaining_rows(rows, year, ordinal_day),
            other_year,
            Some(other_day),
        ) == table_listing(rows, other_year, Some(other_day)),
{
    let left = remaining_rows(rows, year, ordinal_day);
    law_delete_on_table(rows, year, ordinal_day);
    law_select_on_table(left, year, ordinal_day);
    law_delete_then_day_query_is_empty(
        store_of(true, rows),
        store_of(true, left),
        year,
        ordinal_day,
        table_listing(left, year, Some(ordinal_day)),
    );
    if other_year != year || other_day != ordinal_day {
        law_select_on_table(left, other_year, other_day);
        law_select_on_table(rows, other_year, other_day);
        law_delete_keeps_other_days(
            store_of(true, rows),
            store_of(true, left),
            year,
            ordinal_day,
            other_year,
            other_day,
        );
    }
}

} // verus!
