//! The error kinds of the record store and of the backup guard.

use vstd::prelude::*;

verus! {

/// Why a record store operation failed.
#[derive(Debug, Clone, PartialEq, Eq)]
pub enum StoreError {
    /// The backing storage could not be opened, read or written. `reason` is
    /// the storage engine's own message.
    StoreUnavailable { reason: String },
    /// The store already holds its table: initialization was attempted twice.
    SchemaAlreadyExists,
    /// The record breaks a constraint of the data model: its day is no day of
    /// the year, or its category is empty.
    ConstraintViolated,
}

/// Why the backup guard refused or failed.
#[derive(Debug, Clone, Copy, PartialEq, Eq)]
pub enum BackupError {
    /// The backup destination is no existing directory.
    NotADirectory,
    /// The backup destination forbids writing.
    ReadOnlyDestination,
    /// The snapshot could not be taken.
    SnapshotFailed,
}

} // verus!
