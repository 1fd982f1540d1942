//! The calls that the library makes into SQLite, as rusqlite offers them.
//!
//! Nothing in this file is proved. A connection is a handle: what the
//! database behind it holds is decided by everything that ever wrote to it,
//! through this handle or another, so nothing is claimed here of a state
//! that outlives a call, nor of an answer. Each function below makes one
//! kind of call and hands back what came; what the library does with it is
//! verified where it is done.

use crate::model::RowView;
use crate::record::{opt_text, well_formed, KalRecord};
use vstd::prelude::*;

verus! {

/// rusqlite's connection to one database: a handle, of which Verus sees
/// nothing.
#[verifier::external_type_specification]
#[verifier::external_body]
pub struct ExConnection(rusqlite::Connection);

/// rusqlite's error value, carried through unread.
#[verifier::external_type_specification]
#[verifier::external_body]
pub struct ExSqlError(rusqlite::Error);

/// The name of the table.
pub const TABLE_NAME: &'static str = "kal_records";

/// The statement that creates the table.
pub const CREATE_TABLE_SQL: &'static str = "CREATE TABLE kal_records (
            id INTEGER PRIMARY KEY AUTOINCREMENT,
            year INTEGER NOT NULL,
            ordinal_day INTEGER NOT NULL,
            category TEXT NOT NULL,
            details TEXT
        );";

/// The statement that appends one row.
pub const INSERT_SQL: &'static str =
    "INSERT INTO kal_records (year, ordinal_day, category, details) VALUES (?1, ?2, ?3, ?4);";

/// The statement that reads the rows of a year, or of one of its days where
/// the second parameter is not NULL, oldest first.
pub const SELECT_SQL: &'static str = "SELECT year, ordinal_day, category, details
        FROM kal_records
        WHERE year = ?1 AND (?2 IS NULL OR ordinal_day = ?2)
        ORDER BY id;";

/// The statement that removes the rows of one day.
pub const DELETE_SQL: &'static str = "DELETE FROM kal_records
        WHERE year = ?1 AND ordinal_day = ?2;";

/// One row as it was read: each column is `None` where it did not hold a
/// value of its type.
#[derive(Debug, Clone, PartialEq, Eq)]
pub struct RawRow {
    pub year: Option<u32>,
    pub ordinal_day: Option<u32>,
    pub category: Option<String>,
    pub details: Option<Option<String>>,
}

impl View for RawRow {
    type V = RowView;

    open spec fn view(&self) -> RowView {
        (
            self.year,
            self.ordinal_day,
            opt_text(self.category),
            match self.details {
                Some(d) => Some(opt_text(d)),
                None => None,
            },
        )
    }
}

/// The views of a sequence of rows, in order.
pub open spec fn raw_views(rows: Seq<RawRow>) -> Seq<RowView> {
    rows.map_values(|row: RawRow| row@)
}

/// Calls rusqlite's `Connection::open_with_flags` with the flags for
/// read-write access, creation, URI file names and no per-connection mutex.
/// Nothing is claimed of the database that was opened.
#[verifier::external_body]
pub(crate) fn open_database(url: &str) -> (r: Result<rusqlite::Connection, rusqlite::Error>) {
    rusqlite::Connection::open_with_flags(
        url,
        rusqlite::OpenFlags::SQLITE_OPEN_READ_WRITE | rusqlite::OpenFlags::SQLITE_OPEN_CREATE
            | rusqlite::OpenFlags::SQLITE_OPEN_URI | rusqlite::OpenFlags::SQLITE_OPEN_NO_MUTEX,
    )
}

/// Renders a rusqlite error through its `Display` impl. Nothing is claimed
/// of the text.
#[verifier::external_body]
pub(crate) fn failure_text(e: &rusqlite::Error) -> (text: String) {
    e.to_string()
}

/// Calls rusqlite's `Connection::table_exists` for the table's name. An
/// answer says what the check found at the moment of the call; nothing is
/// claimed of it.
#[verifier::external_body]
pub(crate) fn probe_table(conn: &rusqlite::Connection) -> (r: Result<bool, rusqlite::Error>) {
    conn.table_exists(None, TABLE_NAME)
}

/// Runs [`CREATE_TABLE_SQL`] through rusqlite's `Connection::execute`.
/// Nothing is claimed of the outcome.
#[verifier::external_body]
pub(crate) fn run_create(conn: &mut rusqlite::Connection) -> (r: Result<usize, rusqlite::Error>) {
    conn.execute(CREATE_TABLE_SQL, ())
}

/// Runs [`INSERT_SQL`] through rusqlite's `Connection::execute`, binding
/// the four fields of `row` in order. Only a record in the form in which the
/// store holds records may be handed over. Nothing is claimed of the
/// outcome.
#[verifier::external_body]
pub(crate) fn run_insert(conn: &mut rusqlite::Connection, row: &KalRecord) -> (r: Result<
    usize,
    rusqlite::Error,
>)
    requires
        well_formed(row@),
{
    conn.execute(INSERT_SQL, (row.year, row.ordinal_day, &row.category, &row.details))
}

/// Runs [`DELETE_SQL`] through rusqlite's `Connection::execute`, binding
/// year and day. Nothing is claimed of the outcome.
#[verifier::external_body]
pub(crate) fn run_delete(conn: &mut rusqlite::Connection, year: u32, ordinal_day: u32) -> (r:
    Result<usize, rusqlite::Error>) {
    conn.execute(DELETE_SQL, (year, ordinal_day))
}

/// Prepares [`SELECT_SQL`] with rusqlite's `Connection::prepare`, runs it
/// with `Statement::query_map`, binding year and day, and reads each column
/// of each row with `Row::get`. Nothing is claimed of the rows that come
/// back. A row that cannot be fetched makes the whole call fail.
#[verifier::external_body]
pub(crate) fn fetch_rows(conn: &rusqlite::Connection, year: u32, ordinal_day: Option<u32>) -> (r:
    Result<Vec<RawRow>, rusqlite::Error>) {
    let mut statement = conn.prepare(SELECT_SQL)?;
    let rows = statement.query_map((year, ordinal_day), |row| {
        Ok(RawRow {
            year: row.get(0).ok(),
            ordinal_day: row.get(1).ok(),
            category: row.get(2).ok(),
            details: row.get(3).ok(),
        })
    })?;
    rows.collect()
}

} // verus!
