//! The backup guard: the pre-flight verdict on a backup destination, and the
//! plan of a snapshot, whose file name encodes the second it is taken in.
//!
//! A snapshot's name carries a fixed tag and the second it is taken in,
//! and nothing else: it does not depend on the file that is copied. Two
//! snapshots taken in the same second have the same name: the later one
//! supersedes the earlier one, and no other file is touched. Snapshots of
//! different seconds have different names, which sort in the order of their
//! seconds.
//!
//! The clock is read and the copy is made by the caller, once each;
//! [`take_backup`] says what is to be copied where for a reading, and
//! [`copy_verdict`] what the copy's outcome means.

use crate::clock::{earlier, ClockReading, Timestamp};
use crate::error::BackupError;
use crate::text::{
    fixed_width, lemma_concat_equal_parts, lemma_fixed_width_injective, lemma_fixed_width_len,
    lemma_fixed_width_order, lemma_text_before_after_prefix, lemma_text_before_by_difference,
    pow10, push_fixed_width, text_before,
};
use vstd::prelude::*;
use vstd::string::*;

verus! {

/// What was found at the path that is to receive the snapshots.
#[derive(Debug, Clone, Copy, PartialEq, Eq)]
pub enum Destination {
    /// Nothing is there, or what is there is no directory.
    NotDirectory,
    /// A directory is there; `readonly` says whether its permissions forbid
    /// writing.
    Directory { readonly: bool },
}

/// The verdict on a backup destination: only a directory that can be
/// written to passes.
pub open spec fn destination_verdict(found: Destination) -> Result<(), BackupError> {
    match found {
        Destination::NotDirectory => Err(BackupError::NotADirectory),
        Destination::Directory { readonly } => if readonly {
            Err(BackupError::ReadOnlyDestination)
        } else {
            Ok(())
        },
    }
}

/// Checks the backup destination. It is to be called, and to succeed, before
/// any operation that changes the store.
pub fn check_folder(found: Destination) -> (verdict: Result<(), BackupError>)
    ensures
        verdict == destination_verdict(found),
{
    match found {
        Destination::NotDirectory => Err(BackupError::NotADirectory),
        Destination::Directory { readonly } => {
            if readonly {
                Err(BackupError::ReadOnlyDestination)
            } else {
                Ok(())
            }
        },
    }
}

/// What every snapshot name starts with.
pub open spec fn name_prefix() -> Seq<char> {
    seq!['k', 'a', 'l', '_', 'b', 'a', 'c', 'k', 'u', 'p', '-', '[']
}

/// What every snapshot name ends with.
pub open spec fn name_suffix() -> Seq<char> {
    seq![']', '.', 'd', 'b']
}

/// The second of a snapshot as its name shows it: `2024-02-14_09-05-00`.
pub open spec fn stamp_text(t: Timestamp) -> Seq<char> {
    fixed_width(t.year as nat, 4) + seq!['-'] + fixed_width(t.month as nat, 2) + seq!['-']
        + fixed_width(t.day as nat, 2) + seq!['_'] + fixed_width(t.hour as nat, 2) + seq!['-']
        + fixed_width(t.minute as nat, 2) + seq!['-'] + fixed_width(t.second as nat, 2)
}

/// The file name of the snapshot taken at `t`:
/// `kal_backup-[2024-02-14_09-05-00].db`.
pub open spec fn snapshot_name(t: Timestamp) -> Seq<char> {
    name_prefix() + stamp_text(t) + name_suffix()
}

/// The file name of the snapshot taken at `t`.
pub fn snapshot_file_name(t: &Timestamp) -> (name: String)
    ensures
        name@ == snapshot_name(*t),
{
    proof {
        reveal_strlit("kal_backup-[");
        reveal_strlit("-");
        reveal_strlit("_");
        reveal_strlit("].db");
    }
    assert("kal_backup-["@ =~= name_prefix());
    assert("-"@ =~= seq!['-']);
    assert("_"@ =~= seq!['_']);
    assert("].db"@ =~= name_suffix());
    let mut name = String::from_str("kal_backup-[");
    push_fixed_width(&mut name, t.year, 4);
    name.append("-");
    push_fixed_width(&mut name, t.month, 2);
    name.append("-");
    push_fixed_width(&mut name, t.day, 2);
    name.append("_");
    push_fixed_width(&mut name, t.hour, 2);
    name.append("-");
    push_fixed_width(&mut name, t.minute, 2);
    name.append("-");
    push_fixed_width(&mut name, t.second, 2);
    name.append("].db");
    assert(name@ =~= snapshot_name(*t));
    name
}

/// A snapshot that is to be taken: the file to copy, the directory to copy
/// it into, the second it is taken in, and the name of the copy.
#[derive(Debug, Clone, PartialEq, Eq)]
pub struct Snapshot {
    pub source: String,
    pub folder: String,
    pub taken_at: Timestamp,
    pub file_name: String,
}

impl Snapshot {
    /// Whether this is the snapshot of `source_file` into `target_folder`
    /// at the second `t`.
    pub open spec fn is_plan_of(&self, source_file: Seq<char>, target_folder: Seq<char>, t: Timestamp)
        -> bool {
        &&& self.source@ == source_file
        &&& self.folder@ == target_folder
        &&& self.taken_at == t
        &&& self.file_name@ == snapshot_name(t)
    }
}

/// The outcome of planning a snapshot for a clock reading: the snapshot at
/// the reading's second, or `SnapshotFailed` where the reading stands for
/// no timestamp.
pub open spec fn planned(
    source_file: Seq<char>,
    target_folder: Seq<char>,
    reading: ClockReading,
    outcome: Result<Snapshot, BackupError>,
) -> bool {
    match reading.spec_timestamp() {
        Some(t) => outcome matches Ok(s) && s.is_plan_of(source_file, target_folder, t),
        None => outcome == Err::<Snapshot, BackupError>(BackupError::SnapshotFailed),
    }
}

/// Plans the snapshot of `source_file` into `target_folder` for the second
/// that `reading` shows: the reading of the local clock at the time of the
/// copy. The copy itself is left to the caller: the result says which file
/// goes where, under which name. A reading that stands for no timestamp,
/// such as one whose year has more than four digits, gives `SnapshotFailed`.
pub fn take_backup(source_file: &str, target_folder: &str, reading: &ClockReading) -> (outcome:
    Result<Snapshot, BackupError>)
    ensures
        planned(source_file@, target_folder@, *reading, outcome),
{
    match reading.timestamp() {
        Some(t) => Ok(
            Snapshot {
                source: String::from_str(source_file),
                folder: String::from_str(target_folder),
                taken_at: t,
                file_name: snapshot_file_name(&t),
            },
        ),
        None => Err(BackupError::SnapshotFailed),
    }
}

/// What the outcome of the copy means: a copy that was completed is a
/// snapshot of that many bytes, and one that was not is `SnapshotFailed`.
pub open spec fn copy_meaning(copied: Option<u64>) -> Result<u64, BackupError> {
    match copied {
        Some(bytes) => Ok(bytes),
        None => Err(BackupError::SnapshotFailed),
    }
}

/// The result of a snapshot, from the outcome of its copy: the number of
/// bytes copied, or `None` where the copy could not be completed (the source
/// is missing, the destination is full, permission was denied). A copy that
/// failed is not tried again.
pub fn copy_verdict(copied: Option<u64>) -> (r: Result<u64, BackupError>)
    ensures
        r == copy_meaning(copied),
{
    match copied {
        Some(bytes) => Ok(bytes),
        None => Err(BackupError::SnapshotFailed),
    }
}

/// The name of a snapshot from its year on.
spec fn from_year(t: Timestamp) -> Seq<char> {
    fixed_width(t.year as nat, 4) + seq!['-'] + from_month(t)
}

/// The name of a snapshot from its month on.
spec fn from_month(t: Timestamp) -> Seq<char> {
    fixed_width(t.month as nat, 2) + seq!['-'] + from_day(t)
}

/// The name of a snapshot from its day on.
spec fn from_day(t: Timestamp) -> Seq<char> {
    fixed_width(t.day as nat, 2) + seq!['_'] + from_hour(t)
}

/// The name of a snapshot from its hour on.
spec fn from_hour(t: Timestamp) -> Seq<char> {
    fixed_width(t.hour as nat, 2) + seq!['-'] + from_minute(t)
}

/// The name of a snapshot from its minute on.
spec fn from_minute(t: Timestamp) -> Seq<char> {
    fixed_width(t.minute as nat, 2) + seq!['-'] + from_second(t)
}

/// The name of a snapshot from its second on.
spec fn from_second(t: Timestamp) -> Seq<char> {
    fixed_width(t.second as nat, 2) + name_suffix() + Seq::<char>::empty()
}

/// A field in fixed width, its separator and what follows: where two such
/// texts are equal, the fields are equal and so is what follows.
proof fn lemma_field_decides(
    a: nat,
    b: nat,
    width: nat,
    separator: Seq<char>,
    rest_a: Seq<char>,
    rest_b: Seq<char>,
)
    requires
        a < pow10(width),
        b < pow10(width),
        fixed_width(a, width) + separator + rest_a == fixed_width(b, width) + separator + rest_b,
    ensures
        a == b,
        rest_a == rest_b,
{
    lemma_fixed_width_len(a, width);
    lemma_fixed_width_len(b, width);
    lemma_concat_equal_parts(
        fixed_width(a, width) + separator,
        rest_a,
        fixed_width(b, width) + separator,
        rest_b,
    );
    lemma_concat_equal_parts(fixed_width(a, width), separator, fixed_width(b, width), separator);
    lemma_fixed_width_injective(a, b, width);
}

/// A field in fixed width, its separator and what follows: the text with
/// the smaller field sorts first, and with equal fields the texts sort as
/// what follows them does.
proof fn lemma_field_orders(
    a: nat,
    b: nat,
    width: nat,
    separator: Seq<char>,
    rest_a: Seq<char>,
    rest_b: Seq<char>,
)
    requires
        a < pow10(width),
        b < pow10(width),
        a < b || (a == b && text_before(rest_a, rest_b)),
    ensures
        text_before(
            fixed_width(a, width) + separator + rest_a,
            fixed_width(b, width) + separator + rest_b,
        ),
{
    lemma_fixed_width_len(a, width);
    lemma_fixed_width_len(b, width);
    if a < b {
        let at = lemma_fixed_width_order(a, b, width);
        lemma_text_before_by_difference(
            fixed_width(a, width),
            fixed_width(b, width),
            at,
            separator + rest_a,
            separator + rest_b,
        );
        assert(fixed_width(a, width) + separator + rest_a =~= fixed_width(a, width) + (separator
            + rest_a));
        assert(fixed_width(b, width) + separator + rest_b =~= fixed_width(b, width) + (separator
            + rest_b));
    } else {
        lemma_text_before_after_prefix(fixed_width(a, width) + separator, rest_a, rest_b);
    }
}

/// The name of a snapshot is its prefix followed by its fields, year first.
proof fn lemma_name_by_fields(t: Timestamp)
    ensures
        snapshot_name(t) == name_prefix() + from_year(t),
{
    assert(snapshot_name(t) =~= name_prefix() + from_year(t));
}

/// Ten to the power two and four.
proof fn lemma_field_bounds()
    ensures
        pow10(2) == 100,
        pow10(4) == 10000,
{
    reveal_with_fuel(pow10, 5);
}

/// Two valid timestamps have the same snapshot name only if they are the
/// same second: snapshots of different seconds never overwrite one another,
/// and a snapshot taken again within one second takes the place of the
/// first.
pub proof fn law_snapshot_name_identifies_second(a: Timestamp, b: Timestamp)
    requires
        a.wf(),
        b.wf(),
    ensures
        snapshot_name(a) == snapshot_name(b) <==> a == b,
{
    if snapshot_name(a) == snapshot_name(b) {
        lemma_field_bounds();
        lemma_name_by_fields(a);
        lemma_name_by_fields(b);
        lemma_concat_equal_parts(name_prefix(), from_year(a), name_prefix(), from_year(b));
        lemma_field_decides(
            a.year as nat,
            b.year as nat,
            4,
            seq!['-'],
            from_month(a),
            from_month(b),
        );
        lemma_field_decides(
            a.month as nat,
            b.month as nat,
            2,
            seq!['-'],
            from_day(a),
            from_day(b),
        );
        lemma_field_decides(a.day as nat, b.day as nat, 2, seq!['_'], from_hour(a), from_hour(b));
        lemma_field_decides(
            a.hour as nat,
            b.hour as nat,
            2,
            seq!['-'],
            from_minute(a),
            from_minute(b),
        );
        lemma_field_decides(
            a.minute as nat,
            b.minute as nat,
            2,
            seq!['-'],
            from_second(a),
            from_second(b),
        );
        lemma_field_decides(
            a.second as nat,
            b.second as nat,
            2,
            name_suffix(),
            Seq::<char>::empty(),
            Seq::<char>::empty(),
        );
    }
}

/// Snapshot names sort as their seconds do: of two valid timestamps, the
/// earlier one has the name that sorts first.
pub proof fn law_snapshot_names_sort_chronologically(a: Timestamp, b: Timestamp)
    requires
        a.wf(),
        b.wf(),
        earlier(a, b),
    ensures
        text_before(snapshot_name(a), snapshot_name(b)),
{
    lemma_field_bounds();
    lemma_name_by_fields(a);
    lemma_name_by_fields(b);
    if a.year == b.year {
        if a.month == b.month {
            if a.day == b.day {
                if a.hour == b.hour {
                    if a.minute == b.minute {
                        lemma_field_orders(
                            a.second as nat,
                            b.second as nat,
                            2,
                            name_suffix(),
                            Seq::<char>::empty(),
                            Seq::<char>::empty(),
                        );
                    }
                    lemma_field_orders(
                        a.minute as nat,
                        b.minute as nat,
                        2,
                        seq!['-'],
                        from_second(a),
                        from_second(b),
                    );
                }
                lemma_field_orders(
                    a.hour as nat,
                    b.hour as nat,
                    2,
                    seq!['-'],
                    from_minute(a),
                    from_minute(b),
                );
            }
            lemma_field_orders(
                a.day as nat,
                b.day as nat,
                2,
                seq!['_'],
                from_hour(a),
                from_hour(b),
            );
        }
        lemma_field_orders(
            a.month as nat,
            b.month as nat,
            2,
            seq!['-'],
            from_day(a),
            from_day(b),
        );
    }
    lemma_field_orders(a.year as nat, b.year as nat, 4, seq!['-'], from_month(a), from_month(b));
    lemma_text_before_after_prefix(name_prefix(), from_year(a), from_year(b));
}

/// Every snapshot name has the same length, starts with the same prefix and
/// ends with the same suffix: a snapshot can take the place of another
/// snapshot only, never of a file of another kind.
pub proof fn law_snapshot_name_shape(t: Timestamp)
    ensures
        snapshot_name(t).len() == 35,
        snapshot_name(t).subrange(0, 12) == name_prefix(),
        snapshot_name(t).subrange(31, 35) == name_suffix(),
{
    lemma_fixed_width_len(t.year as nat, 4);
    lemma_fixed_width_len(t.month as nat, 2);
    lemma_fixed_width_len(t.day as nat, 2);
    lemma_fixed_width_len(t.hour as nat, 2);
    lemma_fixed_width_len(t.minute as nat, 2);
    lemma_fixed_width_len(t.second as nat, 2);
    assert(snapshot_name(t).subrange(0, 12) =~= name_prefix());
    assert(snapshot_name(t).subrange(31, 35) =~= name_suffix());
}

} // verus!
