//! One run of the program: the backup destination is checked first, then at
//! most one operation on the store is made, and a snapshot is due exactly
//! where that operation was one that changes the store, and succeeded.

use crate::backup::{check_folder, destination_verdict, Destination};
use crate::clock::DayKey;
use crate::error::{BackupError, StoreError};
use crate::record::{
    normalize_details, record_views, storable, well_formed, KalRecord, KalRecordView,
};
use crate::store::{
    delete_records_ordinal, init_database, query_record_ordinal, query_records_year,
    upsert_record,
};
use vstd::prelude::*;

verus! {

/// What the user asked for.
#[derive(Debug, Clone, PartialEq, Eq)]
pub enum Command {
    /// Create the table of a new store.
    Init,
    /// Log an entry under today, with the category chosen and the details
    /// typed in; empty details mean none.
    Commit { category: String, details: String },
    /// Remove today's entries.
    Reset,
    /// List today's entries, or those of the year given.
    List { year: Option<u32> },
}

/// What a command that succeeded has done.
#[derive(Debug, Clone, PartialEq, Eq)]
pub enum Outcome {
    /// The store was changed: a snapshot is due.
    Changed,
    /// The store was read: these are the entries asked for.
    Listed(Vec<KalRecord>),
}

/// Why a command failed.
#[derive(Debug, Clone, PartialEq, Eq)]
pub enum KalError {
    /// The backup destination did not pass: the store was not touched.
    Backup(BackupError),
    /// The store operation failed.
    Store(StoreError),
}

/// The mathematical value of an [`Outcome`].
pub enum OutcomeView {
    Changed,
    Listed(Seq<KalRecordView>),
}

/// The view of a command's result.
pub open spec fn result_view(result: Result<Outcome, KalError>) -> Result<OutcomeView, KalError> {
    match result {
        Ok(Outcome::Changed) => Ok(OutcomeView::Changed),
        Ok(Outcome::Listed(listing)) => Ok(OutcomeView::Listed(record_views(listing@))),
        Err(e) => Err(e),
    }
}

/// The entry that is logged under `today` for a category and the details
/// typed in.
pub open spec fn entry_of(today: DayKey, category: Seq<char>, details: Seq<char>) -> KalRecordView {
    KalRecordView {
        year: today.year,
        ordinal_day: today.ordinal_day,
        category,
        details: if details.len() == 0 {
            None
        } else {
            Some(details)
        },
    }
}

/// What is asked of the store for a command.
#[derive(Debug, Clone, PartialEq, Eq)]
pub enum StoreCall {
    /// Create the table.
    Create,
    /// Append this entry.
    Insert(KalRecord),
    /// Remove the entries of this day.
    DeleteDay { year: u32, ordinal_day: u32 },
    /// List the entries of this day.
    SelectDay { year: u32, ordinal_day: u32 },
    /// List the entries of this year.
    SelectYear { year: u32 },
}

/// The mathematical value of a [`StoreCall`].
pub enum StoreCallView {
    Create,
    Insert(KalRecordView),
    DeleteDay { year: u32, ordinal_day: u32 },
    SelectDay { year: u32, ordinal_day: u32 },
    SelectYear { year: u32 },
}

impl View for StoreCall {
    type V = StoreCallView;

    open spec fn view(&self) -> StoreCallView {
        match *self {
            StoreCall::Create => StoreCallView::Create,
            StoreCall::Insert(entry) => StoreCallView::Insert(entry@),
            StoreCall::DeleteDay { year, ordinal_day } => StoreCallView::DeleteDay {
                year,
                ordinal_day,
            },
            StoreCall::SelectDay { year, ordinal_day } => StoreCallView::SelectDay {
                year,
                ordinal_day,
            },
            StoreCall::SelectYear { year } => StoreCallView::SelectYear { year },
        }
    }
}

/// What is asked of the store for a command run today: an initialization
/// creates the table, a commit appends the entry made of today and what was
/// typed in, a reset removes today's entries, and a listing selects today's
/// entries or those of the year given.
pub open spec fn call_of(today: DayKey, command: Command) -> StoreCallView {
    match command {
        Command::Init => StoreCallView::Create,
        Command::Commit { category, details } => StoreCallView::Insert(
            entry_of(today, category@, details@),
        ),
        Command::Reset => StoreCallView::DeleteDay {
            year: today.year,
            ordinal_day: today.ordinal_day,
        },
        Command::List { year: None } => StoreCallView::SelectDay {
            year: today.year,
            ordinal_day: today.ordinal_day,
        },
        Command::List { year: Some(year) } => StoreCallView::SelectYear { year },
    }
}

/// Whether a command changes the store where it succeeds.
pub open spec fn changes_store(command: Command) -> bool {
    !(command is List)
}

/// Whether a command is stopped before the store is asked anything: by a
/// backup destination that does not pass, or by an entry that the store
/// does not accept.
pub open spec fn stopped_early(found: Destination, today: DayKey, command: Command) -> bool {
    destination_verdict(found) is Err || (command matches Command::Commit { category, details }
        && !storable(entry_of(today, category@, details@)))
}

/// Whether `e` is a failure of the storage engine.
pub open spec fn engine_failed(e: KalError) -> bool {
    e matches KalError::Store(inner) && inner is StoreUnavailable
}

/// The results that a command can have.
///
/// Where the backup destination does not pass, the command fails with the
/// destination's verdict. Where it passes, an entry that the store does not
/// accept fails with `ConstraintViolated`; every other command is handed to
/// the store: a command that changes it gives `Changed`, a listing gives
/// well-formed records of the day or year asked for, and the only failures
/// are the engine's, and `SchemaAlreadyExists` for an initialization.
pub open spec fn command_result(
    found: Destination,
    today: DayKey,
    command: Command,
    result: Result<OutcomeView, KalError>,
) -> bool {
    match destination_verdict(found) {
        Err(e) => result == Err::<OutcomeView, KalError>(KalError::Backup(e)),
        Ok(_) => match command {
            Command::Init => match result {
                Ok(outcome) => outcome is Changed,
                Err(e) => engine_failed(e) || e == KalError::Store(
                    StoreError::SchemaAlreadyExists,
                ),
            },
            Command::Commit { category, details } => if storable(
                entry_of(today, category@, details@),
            ) {
                match result {
                    Ok(outcome) => outcome is Changed,
                    Err(e) => engine_failed(e),
                }
            } else {
                result == Err::<OutcomeView, KalError>(
                    KalError::Store(StoreError::ConstraintViolated),
                )
            },
            Command::Reset => match result {
                Ok(outcome) => outcome is Changed,
                Err(e) => engine_failed(e),
            },
            Command::List { year } => match result {
                Ok(OutcomeView::Listed(listing)) => forall|i: int|
                    0 <= i < listing.len() ==> well_formed(#[trigger] listing[i]) && match year {
                        Some(y) => listing[i].year == y,
                        None => listing[i].year == today.year && listing[i].ordinal_day
                            == today.ordinal_day,
                    },
                Ok(OutcomeView::Changed) => false,
                Err(e) => engine_failed(e),
            },
        },
    }
}

/// The entry that is logged under `today` for a category and the details
/// typed in: empty details become absent.
pub fn new_entry(today: DayKey, category: String, details: String) -> (r: KalRecord)
    ensures
        r@ == entry_of(today, category@, details@),
{
    KalRecord {
        year: today.year,
        ordinal_day: today.ordinal_day,
        category,
        details: normalize_details(Some(details)),
    }
}

/// Whether a snapshot is due after `command` has succeeded.
pub fn needs_snapshot(command: &Command) -> (due: bool)
    ensures
        due == changes_store(*command),
{
    match command {
        Command::List { .. } => false,
        _ => true,
    }
}

/// What is asked of the store for a command run today.
pub fn store_call(today: DayKey, command: Command) -> (call: StoreCall)
    ensures
        call@ == call_of(today, command),
{
    match command {
        Command::Init => StoreCall::Create,
        Command::Commit { category, details } => StoreCall::Insert(
            new_entry(today, category, details),
        ),
        Command::Reset => StoreCall::DeleteDay { year: today.year, ordinal_day: today.ordinal_day },
        Command::List { year: None } => StoreCall::SelectDay {
            year: today.year,
            ordinal_day: today.ordinal_day,
        },
        Command::List { year: Some(year) } => StoreCall::SelectYear { year },
    }
}

/// Runs one command against the store. `found` is what was found at the
/// backup destination: unless it passes, nothing is asked of the store.
/// What is asked of it is the command's [`store_call`]. A command that is
/// stopped early, and a listing, leave the connection as it was: nothing
/// that writes was called with it.
pub fn run_command(
    conn: &mut rusqlite::Connection,
    found: Destination,
    today: DayKey,
    command: Command,
) -> (result: Result<Outcome, KalError>)
    ensures
        command_result(found, today, command, result_view(result)),
        stopped_early(found, today, command) || command is List ==> *final(conn) == *old(conn),
{
    match check_folder(found) {
        Err(e) => {
            return Err(KalError::Backup(e));
        },
        Ok(_) => {},
    }
    match store_call(today, command) {
        StoreCall::Create => match init_database(conn) {
            Ok(_) => Ok(Outcome::Changed),
            Err(e) => Err(KalError::Store(e)),
        },
        StoreCall::Insert(entry) => match upsert_record(conn, &entry) {
            Ok(_) => Ok(Outcome::Changed),
            Err(e) => Err(KalError::Store(e)),
        },
        StoreCall::DeleteDay { year, ordinal_day } => match delete_records_ordinal(
            conn,
            year,
            ordinal_day,
        ) {
            Ok(_) => Ok(Outcome::Changed),
            Err(e) => Err(KalError::Store(e)),
        },
        StoreCall::SelectDay { year, ordinal_day } => match query_record_ordinal(
            conn,
            year,
            ordinal_day,
        ) {
            Ok(listing) => {
                assert forall|i: int| 0 <= i < listing.len() implies record_views(listing@)[i]
                    == listing[i]@ by {}
                Ok(Outcome::Listed(listing))
            },
            Err(e) => Err(KalError::Store(e)),
        },
        StoreCall::SelectYear { year } => match query_records_year(conn, year) {
            Ok(listing) => {
                assert forall|i: int| 0 <= i < listing.len() implies record_views(listing@)[i]
                    == listing[i]@ by {}
                Ok(Outcome::Listed(listing))
            },
            Err(e) => Err(KalError::Store(e)),
        },
    }
}

/// A destination that does not pass blocks every command: the command fails
/// with the destination's verdict.
pub proof fn law_bad_destination_blocks(
    found: Destination,
    today: DayKey,
    command: Command,
    result: Result<OutcomeView, KalError>,
)
    requires
        command_result(found, today, command, result),
        found != (Destination::Directory { readonly: false }),
    ensures
        stopped_early(found, today, command),
        found is NotDirectory ==> result == Err::<OutcomeView, KalError>(
            KalError::Backup(BackupError::NotADirectory),
        ),
        found is Directory ==> result == Err::<OutcomeView, KalError>(
            KalError::Backup(BackupError::ReadOnlyDestination),
        ),
{
}

/// A command that succeeds gives `Changed` exactly where it changes the
/// store: a snapshot is due after an initialization, a commit and a reset,
/// and after nothing else.
pub proof fn law_snapshot_follows_change(
    found: Destination,
    today: DayKey,
    command: Command,
    result: Result<OutcomeView, KalError>,
)
    requires
        command_result(found, today, command, result),
        result is Ok,
    ensures
        result->Ok_0 is Changed <==> changes_store(command),
        destination_verdict(found) is Ok,
{
}

} // verus!
