//! A reading of the local clock, and what the library takes from it: the
//! day that entries are logged under, and the second that a snapshot is
//! named after. The clock itself is read by the caller, who hands in the
//! fields as they came; nothing is taken for granted of them.

use vstd::prelude::*;

verus! {

/// The largest year that a snapshot name has room for.
pub const MAX_YEAR: u32 = 9999;

/// The fields of a local date and time as the clock gave them, unchecked.
#[derive(Debug, Clone, Copy, PartialEq, Eq)]
pub struct ClockReading {
    pub year: i32,
    pub month: u32,
    pub day: u32,
    pub ordinal: u32,
    pub hour: u32,
    pub minute: u32,
    pub second: u32,
}

/// A calendar day as entries are logged under it: a year and the day's
/// index within the year.
#[derive(Debug, Clone, Copy, PartialEq, Eq)]
pub struct DayKey {
    pub year: u32,
    pub ordinal_day: u32,
}

/// A local date and time to the second.
#[derive(Debug, Clone, Copy, PartialEq, Eq)]
pub struct Timestamp {
    pub year: u32,
    pub month: u32,
    pub day: u32,
    pub hour: u32,
    pub minute: u32,
    pub second: u32,
}

impl Timestamp {
    /// Whether every field lies in its range: a year of at most four digits,
    /// a month, a day of a month, and a time of day.
    pub open spec fn wf(&self) -> bool {
        &&& self.year <= MAX_YEAR
        &&& 1 <= self.month <= 12
        &&& 1 <= self.day <= 31
        &&& self.hour <= 23
        &&& self.minute <= 59
        &&& self.second <= 59
    }

    /// Whether every field lies in its range.
    pub fn is_valid(&self) -> (ok: bool)
        ensures
            ok == self.wf(),
    {
        self.year <= MAX_YEAR && 1 <= self.month && self.month <= 12 && 1 <= self.day && self.day
            <= 31 && self.hour <= 23 && self.minute <= 59 && self.second <= 59
    }
}

/// Whether `a` is an earlier second than `b`.
pub open spec fn earlier(a: Timestamp, b: Timestamp) -> bool {
    a.year < b.year || (a.year == b.year && (a.month < b.month || (a.month == b.month && (a.day
        < b.day || (a.day == b.day && (a.hour < b.hour || (a.hour == b.hour && (a.minute < b.minute
        || (a.minute == b.minute && a.second < b.second)))))))))
}

impl ClockReading {
    /// The timestamp that the reading stands for, if it stands for one.
    pub open spec fn spec_timestamp(&self) -> Option<Timestamp> {
        let t = Timestamp {
            year: self.year as u32,
            month: self.month,
            day: self.day,
            hour: self.hour,
            minute: self.minute,
            second: self.second,
        };
        if 0 <= self.year && t.wf() {
            Some(t)
        } else {
            None
        }
    }

    /// The day that the reading falls on, if its year is not negative and
    /// its day index is a day of the year.
    pub open spec fn spec_today(&self) -> Option<DayKey> {
        if 0 <= self.year && 1 <= self.ordinal <= 366 {
            Some(DayKey { year: self.year as u32, ordinal_day: self.ordinal })
        } else {
            None
        }
    }

    /// The timestamp that the reading stands for: its fields, where each
    /// lies in its range and the year has at most four digits.
    pub fn timestamp(&self) -> (out: Option<Timestamp>)
        ensures
            out == self.spec_timestamp(),
            out matches Some(t) ==> t.wf(),
    {
        if self.year < 0 {
            return None;
        }
        let t = Timestamp {
            year: self.year as u32,
            month: self.month,
            day: self.day,
            hour: self.hour,
            minute: self.minute,
            second: self.second,
        };
        if t.is_valid() {
            Some(t)
        } else {
            None
        }
    }

    /// The day that the reading falls on.
    pub fn today(&self) -> (out: Option<DayKey>)
        ensures
            out == self.spec_today(),
    {
        if self.year < 0 || self.ordinal < 1 || self.ordinal > 366 {
            None
        } else {
            Some(DayKey { year: self.year as u32, ordinal_day: self.ordinal })
        }
    }
}

} // verus!
