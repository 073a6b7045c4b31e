//! Calendar dates as day numbers.
//!
//! A `Date` is a day count in the proleptic Gregorian calendar, with day 1
//! being January 1 of year 1 (CE). All schedule arithmetic is plain integer
//! arithmetic on this day number; turning a day number into human-readable
//! text is delegated to the calendar library at the rendering edge.

use vstd::prelude::*;

verus! {

/// Largest day-number magnitude the planner works with. Day numbers that
/// come from real calendar dates are far smaller (they fit in 32 bits), and
/// keeping every date under this bound lets the propagation pass prove that
/// its date arithmetic never overflows a 64-bit day count.
pub const DAY_BOUND: i64 = 0x40_0000_0000;

/// Largest day-number magnitude that is safely inside the calendar
/// library's supported span (about 262,000 years either side of year 1),
/// so that turning such a day number back into a calendar date cannot
/// fail.
pub const CAL_DAY_BOUND: i64 = 95_000_000;

/// The text the calendar library writes for the given day number: the date
/// as `year-month-day` followed by the abbreviated weekday name. A function
/// of the day number alone.
pub uninterp spec fn date_text_of(days: int) -> Seq<char>;

/// A calendar date, stored as the number of days since December 31 of
/// year 0 in the proleptic Gregorian calendar (so January 1 of year 1 is
/// day 1).
#[derive(Clone, Copy, PartialEq, Eq, Structural, Debug)]
pub struct Date {
    pub days: i64,
}

impl Date {
    /// A date is in range when its day number is small enough for the
    /// planner's overflow argument and for the calendar library's own
    /// supported span.
    pub open spec fn in_range(self) -> bool {
        -DAY_BOUND <= self.days <= DAY_BOUND
    }

    /// Whether the day number is within the planner's bound.
    pub fn check_in_range(self) -> (b: bool)
        ensures
            b == self.in_range(),
    {
        -DAY_BOUND <= self.days && self.days <= DAY_BOUND
    }

    /// The date `delta` days after `self` (before, for negative `delta`).
    pub fn plus_days(self, delta: i64) -> (r: Date)
        requires
            self.days + delta <= i64::MAX,
            self.days + delta >= i64::MIN,
        ensures
            r.days == self.days + delta,
    {
        Date { days: self.days + delta }
    }
}

/// Relies on chrono's `NaiveDate::from_num_days_from_ce_opt` and `format`:
/// the day number is turned back into a proleptic-Gregorian calendar date
/// (chrono counts January 1 of year 1 as day 1, as `Date` does) and written
/// with the format `%Y-%m-%d %a`. chrono returns `Some` for every day
/// number within its supported range, which contains all of
/// `-CAL_DAY_BOUND..=CAL_DAY_BOUND`, and the written text depends on the
/// date alone.
#[verifier::external_body]
pub(crate) fn date_text(d: Date) -> (r: String)
    requires
        -CAL_DAY_BOUND <= d.days <= CAL_DAY_BOUND,
    ensures
        r@ == date_text_of(d.days as int),
{
    let nd = chrono::NaiveDate::from_num_days_from_ce_opt(d.days as i32).unwrap();
    nd.format("%Y-%m-%d %a").to_string()
}

} // verus!
