//! Calendar days, record timestamps, and the month lookup.

use vstd::prelude::*;

verus! {

/// A calendar date as its day number in the proleptic Gregorian
/// calendar, with January 1 of year 1 being day 1.
pub type Day = i32;

/// The first supported day: January 1 of year 1.
pub const MIN_DAY: Day = 1;

/// The last supported day: December 31 of year 9999.
pub const MAX_DAY: Day = 3_652_059;

/// The month (1 to 12) that a day number falls in.
pub uninterp spec fn month_of(day: int) -> int;

/// Relies on `chrono::NaiveDate`: `from_num_days_from_ce_opt` counts days
/// with the same epoch (day 1 is 0001-01-01) and accepts every day of the
/// supported range, which lies well inside chrono's own limits, and
/// `Datelike::month` is documented to return the month number from 1 to 12.
#[verifier::external_body]
pub(crate) fn month_of_day(day: Day) -> (m: u8)
    requires
        MIN_DAY <= day <= MAX_DAY,
    ensures
        1 <= m <= 12,
        m as int == month_of(day as int),
{
    let date = chrono::NaiveDate::from_num_days_from_ce_opt(day)
        .expect("day within the supported range");
    chrono::Datelike::month(&date) as u8
}

/// One timestamped record: a calendar day plus the time of day, split
/// into whole seconds and nanoseconds.  Records compare equal exactly
/// when every component matches, so an undone action can restore the
/// literal value that was removed.
#[derive(Clone, Copy, Debug, PartialEq, Eq, Structural)]
pub struct Record {
    pub day: Day,
    pub sec: u32,
    pub nano: u32,
}

impl Record {
    /// The day lies in the supported calendar range and the time of day
    /// is a valid wall-clock instant.
    pub open spec fn wf(self) -> bool {
        &&& MIN_DAY <= self.day <= MAX_DAY
        &&& self.sec < 86400
        &&& self.nano < 1_000_000_000
    }

    /// The hour of the day, 0 to 23.
    pub open spec fn spec_hour(self) -> int {
        self.sec as int / 3600
    }

    pub fn hour(&self) -> (h: u8)
        requires
            self.wf(),
        ensures
            h as int == self.spec_hour(),
            h < 24,
    {
        (self.sec / 3600) as u8
    }
}

} // verus!
