//! Dates as CSL-JSON writes them: a list of one to three numbers.

use vstd::prelude::*;

verus! {

/// A date: the year, then the month and the day as far as they are known.
#[derive(Debug, Clone, Copy, PartialEq, Eq, Hash)]
pub struct ClsDate(pub i64, pub Option<i64>, pub Option<i64>);

/// The dates of one CSL date variable.
pub type ClsDatePart = Vec<ClsDate>;

/// The numbers that a date is written as: the year, the month where it is
/// known, and the day where the month is known too.
pub open spec fn parts_of(date: ClsDate) -> Seq<i64> {
    match (date.1, date.2) {
        (Some(month), Some(day)) => seq![date.0, month, day],
        (Some(month), None) => seq![date.0, month],
        (None, _) => seq![date.0],
    }
}

/// The date that a list of numbers is read as: a list of one, two or three
/// numbers is a year, a month and a day, and no other list is a date.
pub open spec fn date_of(parts: Seq<i64>) -> Option<ClsDate> {
    if parts.len() == 1 {
        Some(ClsDate(parts[0], None, None))
    } else if parts.len() == 2 {
        Some(ClsDate(parts[0], Some(parts[1]), None))
    } else if parts.len() == 3 {
        Some(ClsDate(parts[0], Some(parts[1]), Some(parts[2])))
    } else {
        None
    }
}

/// What is written is read back as the same date, unless the date has a
/// day without a month: that day is not written.
pub proof fn lemma_written_date_reads_back(date: ClsDate)
    ensures
        date_of(parts_of(date)) == Some(
            if date.1 is None {
                ClsDate(date.0, None, None)
            } else {
                date
            },
        ),
{
}

/// What is read is written back as the same list.
pub proof fn lemma_read_date_writes_back(parts: Seq<i64>)
    requires
        date_of(parts) is Some,
    ensures
        parts_of(date_of(parts).unwrap()) == parts,
{
    assert(parts_of(date_of(parts).unwrap()) =~= parts);
}

impl ClsDate {
    /// The numbers that the date is written as.
    pub fn to_parts(&self) -> (parts: Vec<i64>)
        ensures
            parts@ == parts_of(*self),
    {
        let mut parts: Vec<i64> = Vec::new();
        parts.push(self.0);
        match (self.1, self.2) {
            (Some(month), Some(day)) => {
                parts.push(month);
                parts.push(day);
            },
            (Some(month), None) => {
                parts.push(month);
            },
            (None, _) => {},
        }
        proof {
            assert(parts@ =~= parts_of(*self));
        }
        parts
    }

    /// The date that a list of numbers is read as.
    pub fn from_parts(parts: &[i64]) -> (date: Option<ClsDate>)
        ensures
            date == date_of(parts@),
    {
        if parts.len() == 1 {
            Some(ClsDate(parts[0], None, None))
        } else if parts.len() == 2 {
            Some(ClsDate(parts[0], Some(parts[1]), None))
        } else if parts.len() == 3 {
            Some(ClsDate(parts[0], Some(parts[1]), Some(parts[2])))
        } else {
            None
        }
    }
}

} // verus!
