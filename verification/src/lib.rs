//! A daily-log keeper: dated, categorized records in a SQLite store, and the
//! naming and pre-flight rules of the snapshots taken after each change.
//!
//! [`store`] holds the operations on the records, [`model`] what they do to
//! a store as mathematics and [`laws`] what follows across several of them.
//! [`backup`] holds the backup guard, [`session`] one run of the program.
//! The calls into SQLite are in [`sqlite`]; everything else is proved. The
//! clock and the file system are the caller's: the library takes what was
//! read from them as plain values.

pub mod backup;
pub mod clock;
pub mod error;
pub mod laws;
pub mod model;
pub mod record;
pub mod session;
pub mod sqlite;
pub mod store;
pub mod text;

pub use backup::{check_folder, take_backup};
pub use error::{BackupError, StoreError};
pub use record::KalRecord;
pub use store::{
    create_connection, delete_records_ordinal, init_database, query_record_ordinal,
    query_records_year, upsert_record,
};
