//! Calendar-length values: a whole number of weeks or of sprints.
//!
//! A sprint is exactly three weeks for conversion purposes, so a duration
//! converts to a signed day count as weeks times seven or sprints times
//! twenty-one. Durations scale by an integer multiplier (used by milestone
//! generators) with the unit preserved.

use crate::numfmt::dec_int;
use vstd::prelude::*;

verus! {

/// Bound on the unit count of a well-formed duration. Every duration a
/// schedule carries stays under this bound, which keeps the day arithmetic
/// of the planning pass inside 64 bits.
pub const DUR_UNIT_BOUND: i64 = 0x1_0000_0000;

/// Largest day count a single well-formed duration can convert to
/// (twenty-one days per sprint times the unit bound).
pub const DUR_DAY_BOUND: i64 = 21 * DUR_UNIT_BOUND;

/// A calendar length in one of the two recognized units.
#[derive(Clone, Copy, Debug, PartialEq, Eq, Structural)]
pub enum SimpleDuration {
    Weeks { weeks: i64 },
    Sprints { sprints: i64 },
}

/// The mathematical value of a duration: a unit tag and an unbounded count.
pub ghost enum DurationView {
    Weeks(int),
    Sprints(int),
}

impl DurationView {
    /// The signed unit count, whatever the unit.
    pub open spec fn unit_count(self) -> int {
        match self {
            DurationView::Weeks(w) => w,
            DurationView::Sprints(s) => s,
        }
    }

    /// The signed day count: seven days per week, twenty-one per sprint.
    pub open spec fn days(self) -> int {
        match self {
            DurationView::Weeks(w) => w * 7,
            DurationView::Sprints(s) => s * 21,
        }
    }

    /// The same duration with the unit count multiplied by `k`.
    pub open spec fn scaled(self, k: int) -> DurationView {
        match self {
            DurationView::Weeks(w) => DurationView::Weeks(w * k),
            DurationView::Sprints(s) => DurationView::Sprints(s * k),
        }
    }

    /// A well-formed duration has a bounded unit count.
    pub open spec fn wf(self) -> bool {
        -DUR_UNIT_BOUND <= self.unit_count() <= DUR_UNIT_BOUND
    }

    /// The textual form: the unit count in decimal, then the unit name.
    pub open spec fn text(self) -> Seq<char> {
        match self {
            DurationView::Weeks(w) => dec_int(w) + " weeks"@,
            DurationView::Sprints(s) => dec_int(s) + " sprints"@,
        }
    }
}

impl View for SimpleDuration {
    type V = DurationView;

    open spec fn view(&self) -> DurationView {
        match *self {
            SimpleDuration::Weeks { weeks } => DurationView::Weeks(weeks as int),
            SimpleDuration::Sprints { sprints } => DurationView::Sprints(sprints as int),
        }
    }
}

impl SimpleDuration {
    /// Converts to an absolute (signed) day count.
    pub fn to_duration(&self) -> (d: i64)
        requires
            self@.wf(),
        ensures
            d == self@.days(),
    {
        match *self {
            SimpleDuration::Weeks { weeks } => weeks * 7,
            SimpleDuration::Sprints { sprints } => sprints * 21,
        }
    }

    /// Multiplies the unit count by `k`, preserving the unit.
    pub fn scaled(&self, k: i64) -> (r: SimpleDuration)
        requires
            -0x4000_0000_0000_0000 <= self@.unit_count() * k <= 0x4000_0000_0000_0000,
        ensures
            r@ == self@.scaled(k as int),
    {
        match *self {
            SimpleDuration::Weeks { weeks } => SimpleDuration::Weeks { weeks: weeks * k },
            SimpleDuration::Sprints { sprints } => SimpleDuration::Sprints { sprints: sprints * k },
        }
    }

    /// Renders as `"<n> weeks"` or `"<n> sprints"`.
    pub fn render(&self) -> (s: String)
        requires
            self@.unit_count() > i64::MIN,
        ensures
            s@ == self@.text(),
    {
        match *self {
            SimpleDuration::Weeks { weeks } => {
                let mut s = crate::numfmt::i64_to_dec_string(weeks);
                s.append(" weeks");
                s
            },
            SimpleDuration::Sprints { sprints } => {
                let mut s = crate::numfmt::i64_to_dec_string(sprints);
                s.append(" sprints");
                s
            },
        }
    }
}

} // verus!
