use kal::backup::{
    check_folder, copy_verdict, snapshot_file_name, take_backup, Destination, Snapshot,
};
use kal::clock::{ClockReading, DayKey, Timestamp, MAX_YEAR};
use kal::error::BackupError;

fn stamp(year: u32, month: u32, day: u32, hour: u32, minute: u32, second: u32) -> Timestamp {
    Timestamp { year, month, day, hour, minute, second }
}

fn reading(year: i32, month: u32, day: u32, ordinal: u32, hour: u32, minute: u32, second: u32) -> ClockReading {
    ClockReading { year, month, day, ordinal, hour, minute, second }
}

#[test]
fn destination_that_is_no_directory_is_refused() {
    assert_eq!(check_folder(Destination::NotDirectory), Err(BackupError::NotADirectory));
}

#[test]
fn destination_that_is_readonly_is_refused() {
    assert_eq!(
        check_folder(Destination::Directory { readonly: true }),
        Err(BackupError::ReadOnlyDestination)
    );
}

#[test]
fn destination_that_is_a_writable_directory_passes() {
    assert_eq!(check_folder(Destination::Directory { readonly: false }), Ok(()));
}

#[test]
fn snapshot_name_encodes_the_second() {
    assert_eq!(
        snapshot_file_name(&stamp(2024, 2, 14, 9, 5, 0)),
        "kal_backup-[2024-02-14_09-05-00].db"
    );
    assert_eq!(
        snapshot_file_name(&stamp(1999, 12, 31, 23, 59, 59)),
        "kal_backup-[1999-12-31_23-59-59].db"
    );
    assert_eq!(
        snapshot_file_name(&stamp(0, 1, 1, 0, 0, 0)),
        "kal_backup-[0000-01-01_00-00-00].db"
    );
    assert_eq!(
        snapshot_file_name(&stamp(9999, 12, 31, 23, 59, 59)),
        "kal_backup-[9999-12-31_23-59-59].db"
    );
}

#[test]
fn snapshot_name_is_what_chrono_formats() {
    let t = stamp(2031, 7, 4, 6, 30, 9);
    let date = chrono::NaiveDate::from_ymd_opt(2031, 7, 4)
        .unwrap()
        .and_hms_opt(6, 30, 9)
        .unwrap();
    let expected = format!("kal_backup-[{}].db", date.format("%Y-%m-%d_%H-%M-%S"));
    assert_eq!(snapshot_file_name(&t), expected);
}

#[test]
fn snapshots_of_one_second_share_a_name_and_others_do_not() {
    let a = stamp(2024, 2, 14, 9, 5, 0);
    let b = stamp(2024, 2, 14, 9, 5, 0);
    let c = stamp(2024, 2, 14, 9, 5, 1);
    assert_eq!(snapshot_file_name(&a), snapshot_file_name(&b));
    assert_ne!(snapshot_file_name(&a), snapshot_file_name(&c));
}

#[test]
fn snapshot_names_sort_by_time() {
    let stamps = [
        stamp(2023, 12, 31, 23, 59, 59),
        stamp(2024, 1, 1, 0, 0, 0),
        stamp(2024, 1, 2, 0, 0, 0),
        stamp(2024, 2, 1, 0, 0, 0),
        stamp(2024, 2, 1, 10, 0, 0),
        stamp(2024, 2, 1, 10, 9, 59),
        stamp(2024, 2, 1, 10, 10, 0),
        stamp(2024, 2, 1, 10, 10, 1),
        stamp(9999, 1, 1, 0, 0, 0),
    ];
    for pair in stamps.windows(2) {
        assert!(snapshot_file_name(&pair[0]) < snapshot_file_name(&pair[1]));
    }
}

#[test]
fn timestamp_validity_is_checked_field_by_field() {
    assert_eq!(MAX_YEAR, 9999);
    assert!(stamp(2024, 2, 14, 9, 5, 0).is_valid());
    assert!(stamp(0, 1, 1, 0, 0, 0).is_valid());
    assert!(stamp(9999, 12, 31, 23, 59, 59).is_valid());
    assert!(!stamp(10000, 1, 1, 0, 0, 0).is_valid());
    assert!(!stamp(2024, 0, 1, 0, 0, 0).is_valid());
    assert!(!stamp(2024, 13, 1, 0, 0, 0).is_valid());
    assert!(!stamp(2024, 1, 0, 0, 0, 0).is_valid());
    assert!(!stamp(2024, 1, 32, 0, 0, 0).is_valid());
    assert!(!stamp(2024, 1, 1, 24, 0, 0).is_valid());
    assert!(!stamp(2024, 1, 1, 0, 60, 0).is_valid());
    assert!(!stamp(2024, 1, 1, 0, 0, 60).is_valid());
}

#[test]
fn clock_reading_gives_its_timestamp() {
    assert_eq!(
        reading(2024, 2, 14, 45, 9, 5, 0).timestamp(),
        Some(stamp(2024, 2, 14, 9, 5, 0))
    );
    assert_eq!(reading(-1, 2, 14, 45, 9, 5, 0).timestamp(), None);
    assert_eq!(reading(10000, 2, 14, 45, 9, 5, 0).timestamp(), None);
    assert_eq!(reading(2024, 13, 14, 45, 9, 5, 0).timestamp(), None);
    assert_eq!(reading(2024, 2, 14, 45, 9, 5, 60).timestamp(), None);
}

#[test]
fn clock_reading_gives_its_day() {
    assert_eq!(
        reading(2024, 2, 14, 45, 9, 5, 0).today(),
        Some(DayKey { year: 2024, ordinal_day: 45 })
    );
    assert_eq!(
        reading(2024, 12, 31, 366, 0, 0, 0).today(),
        Some(DayKey { year: 2024, ordinal_day: 366 })
    );
    assert_eq!(reading(-5, 2, 14, 45, 9, 5, 0).today(), None);
    assert_eq!(reading(2024, 2, 14, 0, 9, 5, 0).today(), None);
    assert_eq!(reading(2024, 2, 14, 367, 9, 5, 0).today(), None);
}

#[test]
fn backup_plan_names_source_folder_and_file() {
    let plan = take_backup("kal.db", "/backups", &reading(2024, 2, 14, 45, 9, 5, 0));
    assert_eq!(
        plan,
        Ok(Snapshot {
            source: "kal.db".to_string(),
            folder: "/backups".to_string(),
            taken_at: stamp(2024, 2, 14, 9, 5, 0),
            file_name: "kal_backup-[2024-02-14_09-05-00].db".to_string(),
        })
    );
}

#[test]
fn backup_plan_fails_on_an_unusable_reading() {
    assert_eq!(
        take_backup("kal.db", "/backups", &reading(12024, 2, 14, 45, 9, 5, 0)),
        Err(BackupError::SnapshotFailed)
    );
    assert_eq!(
        take_backup("kal.db", "/backups", &reading(2024, 2, 14, 45, 9, 5, 61)),
        Err(BackupError::SnapshotFailed)
    );
}

fn reading_of(now: &chrono::DateTime<chrono::Local>) -> ClockReading {
    ClockReading {
        year: chrono::Datelike::year(now),
        month: chrono::Datelike::month(now),
        day: chrono::Datelike::day(now),
        ordinal: chrono::Datelike::ordinal(now),
        hour: chrono::Timelike::hour(now),
        minute: chrono::Timelike::minute(now),
        second: chrono::Timelike::second(now),
    }
}

#[test]
fn backup_for_a_reading_of_the_clock_is_named_as_chrono_formats_it() {
    let now = chrono::Local::now();
    let plan = take_backup("kal.db", "/backups", &reading_of(&now)).unwrap();
    assert_eq!(plan.source, "kal.db");
    assert_eq!(plan.folder, "/backups");
    assert!(plan.taken_at.is_valid());
    assert_eq!(
        plan.file_name,
        format!("kal_backup-[{}].db", now.format("%Y-%m-%d_%H-%M-%S"))
    );
}

#[test]
fn day_of_a_reading_of_the_clock_is_the_day_chrono_shows() {
    let now = chrono::Local::now();
    let key = reading_of(&now).today().unwrap();
    assert_eq!(key.year, chrono::Datelike::year(&now) as u32);
    assert_eq!(key.ordinal_day, chrono::Datelike::ordinal(&now));
}

#[test]
fn copy_that_failed_is_a_failed_snapshot() {
    assert_eq!(copy_verdict(None), Err(BackupError::SnapshotFailed));
}

#[test]
fn copy_that_was_completed_is_a_snapshot_of_its_bytes() {
    assert_eq!(copy_verdict(Some(0)), Ok(0));
    assert_eq!(copy_verdict(Some(8192)), Ok(8192));
}

#[test]
fn snapshot_name_does_not_depend_on_the_source() {
    let at = reading(2024, 2, 14, 45, 9, 5, 0);
    let one = take_backup("one.db", "/backups", &at).unwrap();
    let other = take_backup("other.db", "/backups", &at).unwrap();
    assert_eq!(one.file_name, other.file_name);
}
