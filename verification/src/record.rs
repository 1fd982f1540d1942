//! The logged entry: its value, the constraints a stored entry meets, and its
//! display line.

use crate::text::{decimal, push_decimal};
use vstd::prelude::*;
use vstd::string::*;

verus! {

/// The largest day-of-year index a record may carry.
pub const MAX_ORDINAL_DAY: u32 = 366;

/// One logged entry.
#[derive(Debug, Clone, PartialEq, Eq)]
pub struct KalRecord {
    pub year: u32,
    pub ordinal_day: u32,
    pub category: String,
    pub details: Option<String>,
}

/// The mathematical value of a [`KalRecord`].
pub struct KalRecordView {
    pub year: u32,
    pub ordinal_day: u32,
    pub category: Seq<char>,
    pub details: Option<Seq<char>>,
}

/// The view of an optional string.
pub open spec fn opt_text(s: Option<String>) -> Option<Seq<char>> {
    match s {
        Some(t) => Some(t@),
        None => None,
    }
}

impl View for KalRecord {
    type V = KalRecordView;

    open spec fn view(&self) -> KalRecordView {
        KalRecordView {
            year: self.year,
            ordinal_day: self.ordinal_day,
            category: self.category@,
            details: opt_text(self.details),
        }
    }
}

/// The views of a sequence of records, in order.
pub open spec fn record_views(records: Seq<KalRecord>) -> Seq<KalRecordView> {
    records.map_values(|r: KalRecord| r@)
}

/// Whether `day` is a day-of-year index.
pub open spec fn is_ordinal_day(day: u32) -> bool {
    1 <= day <= MAX_ORDINAL_DAY
}

/// Details with the empty text turned into "absent".
pub open spec fn normalized_details(details: Option<Seq<char>>) -> Option<Seq<char>> {
    match details {
        Some(text) => if text.len() == 0 {
            None
        } else {
            Some(text)
        },
        None => None,
    }
}

/// A record that the store accepts: its day is a day of the year and its
/// category is not empty.
pub open spec fn storable(r: KalRecordView) -> bool {
    is_ordinal_day(r.ordinal_day) && r.category.len() > 0
}

/// A record as the store holds it: storable, and its details are never the
/// empty text.
pub open spec fn well_formed(r: KalRecordView) -> bool {
    storable(r) && r.details != Some(Seq::<char>::empty())
}

/// The record with its details normalized: what the store holds for `r`.
pub open spec fn normalized(r: KalRecordView) -> KalRecordView {
    KalRecordView {
        year: r.year,
        ordinal_day: r.ordinal_day,
        category: r.category,
        details: normalized_details(r.details),
    }
}

/// The text shown in place of absent details.
pub open spec fn no_details_text() -> Seq<char> {
    seq!['<', 'n', 'o', ' ', 'd', 'e', 't', 'a', 'i', 'l', 's', '>']
}

/// The display line of a record: year, day, category and details, as
/// `2024-45: reading: 30 pages`.
pub open spec fn display_line(r: KalRecordView) -> Seq<char> {
    decimal(r.year as nat) + seq!['-'] + decimal(r.ordinal_day as nat) + seq![':', ' ']
        + r.category + seq![':', ' '] + match r.details {
        Some(text) => text,
        None => no_details_text(),
    }
}

/// Normalizing a storable record gives a well-formed one, and leaves a
/// well-formed one as it is.
pub proof fn lemma_normalized_well_formed(r: KalRecordView)
    ensures
        storable(r) ==> well_formed(normalized(r)),
        well_formed(r) ==> normalized(r) == r,
        normalized(normalized(r)) == normalized(r),
{
    if storable(r) {
        match r.details {
            Some(text) => {
                if text.len() != 0 {
                    assert(text != Seq::<char>::empty());
                }
            },
            None => {},
        }
    }
    if well_formed(r) {
        match r.details {
            Some(text) => {
                assert(text.len() != 0) by {
                    if text.len() == 0 {
                        assert(text =~= Seq::<char>::empty());
                    }
                }
            },
            None => {},
        }
    }
}

/// Turns empty details into absent ones.
pub fn normalize_details(details: Option<String>) -> (out: Option<String>)
    ensures
        opt_text(out) == normalized_details(opt_text(details)),
{
    match details {
        Some(text) => {
            if text.as_str().is_empty() {
                None
            } else {
                Some(text)
            }
        },
        None => None,
    }
}

impl KalRecord {
    /// Whether the store accepts this record.
    pub fn is_storable(&self) -> (ok: bool)
        ensures
            ok == storable(self@),
    {
        1 <= self.ordinal_day && self.ordinal_day <= MAX_ORDINAL_DAY
            && !self.category.as_str().is_empty()
    }

    /// The display line of this record.
    pub fn to_string(&self) -> (line: String)
        ensures
            line@ == display_line(self@),
    {
        proof {
            reveal_strlit("-");
            reveal_strlit(": ");
            reveal_strlit("<no details>");
        }
        assert("-"@ =~= seq!['-']);
        assert(": "@ =~= seq![':', ' ']);
        assert("<no details>"@ =~= no_details_text());
        let mut line = String::new();
        push_decimal(&mut line, self.year);
        line.append("-");
        push_decimal(&mut line, self.ordinal_day);
        line.append(": ");
        line.append(self.category.as_str());
        line.append(": ");
        match &self.details {
            Some(text) => line.append(text.as_str()),
            None => line.append("<no details>"),
        }
        assert(line@ =~= display_line(self@));
        line
    }
}

} // verus!
