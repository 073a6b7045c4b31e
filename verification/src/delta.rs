//! Milestone relations: directed "behind / ahead of" edges.
//!
//! A relation says that one milestone's due date is derived from another
//! milestone's due date, shifted earlier (`Behind`) or later (`AheadOf`) by a
//! duration. Relations are identified by their `(milestone, target)` pair
//! when the planning pass checks for duplicates.

use crate::duration::{DurationView, SimpleDuration};
use vstd::prelude::*;

verus! {

/// Milestones are looked up by this string, which may match either a
/// milestone's alias or its display name.
pub type MilestoneAliasOrName = String;

/// A directed edge: `milestone`'s date is `target`'s date minus `by`
/// (`Behind`) or plus `by` (`AheadOf`).
#[derive(Debug)]
pub enum MilestoneDelta {
    Behind { milestone: MilestoneAliasOrName, behind: MilestoneAliasOrName, by: SimpleDuration },
    AheadOf { milestone: MilestoneAliasOrName, ahead_of: MilestoneAliasOrName, by: SimpleDuration },
}

/// The mathematical content of a relation: which milestone is derived, from
/// which target, in which direction, and by how much.
pub ghost struct DeltaView {
    /// The milestone whose date the relation derives.
    pub milestone: Seq<char>,
    /// The milestone whose date the relation reads.
    pub target: Seq<char>,
    /// True for `Behind` (derived date is earlier), false for `AheadOf`.
    pub behind: bool,
    /// The offset between the two dates.
    pub by: DurationView,
}

impl DeltaView {
    /// The signed day shift the relation applies to the target's date.
    pub open spec fn shift_days(self) -> int {
        if self.behind {
            -self.by.days()
        } else {
            self.by.days()
        }
    }

    /// The identifying pair used for duplicate detection.
    pub open spec fn pair(self) -> (Seq<char>, Seq<char>) {
        (self.milestone, self.target)
    }

    /// A well-formed relation carries a well-formed duration.
    pub open spec fn wf(self) -> bool {
        self.by.wf()
    }
}

impl View for MilestoneDelta {
    type V = DeltaView;

    open spec fn view(&self) -> DeltaView {
        match self {
            MilestoneDelta::Behind { milestone, behind, by } => DeltaView {
                milestone: milestone@,
                target: behind@,
                behind: true,
                by: by@,
            },
            MilestoneDelta::AheadOf { milestone, ahead_of, by } => DeltaView {
                milestone: milestone@,
                target: ahead_of@,
                behind: false,
                by: by@,
            },
        }
    }
}

impl Clone for MilestoneDelta {
    fn clone(&self) -> (res: Self)
        ensures
            res@ == self@,
    {
        match self {
            MilestoneDelta::Behind { milestone, behind, by } => MilestoneDelta::Behind {
                milestone: milestone.clone(),
                behind: behind.clone(),
                by: *by,
            },
            MilestoneDelta::AheadOf { milestone, ahead_of, by } => MilestoneDelta::AheadOf {
                milestone: milestone.clone(),
                ahead_of: ahead_of.clone(),
                by: *by,
            },
        }
    }
}

impl MilestoneDelta {
    /// A relation placing `milestone` earlier than `behind` by `by`.
    pub fn new_behind(milestone: &str, behind: &str, by: SimpleDuration) -> (r: MilestoneDelta)
        ensures
            r@ == (DeltaView { milestone: milestone@, target: behind@, behind: true, by: by@ }),
    {
        MilestoneDelta::Behind {
            milestone: String::from_str(milestone),
            behind: String::from_str(behind),
            by,
        }
    }

    /// A relation placing `milestone` later than `ahead_of` by `by`.
    pub fn new_ahead_of(milestone: &str, ahead_of: &str, by: SimpleDuration) -> (r: MilestoneDelta)
        ensures
            r@ == (DeltaView { milestone: milestone@, target: ahead_of@, behind: false, by: by@ }),
    {
        MilestoneDelta::AheadOf {
            milestone: String::from_str(milestone),
            ahead_of: String::from_str(ahead_of),
            by,
        }
    }

    /// The relation's offset as an absolute (signed) day count.
    pub fn to_duration(&self) -> (d: i64)
        requires
            self@.wf(),
        ensures
            d == self@.by.days(),
    {
        match self {
            MilestoneDelta::Behind { by, .. } => by.to_duration(),
            MilestoneDelta::AheadOf { by, .. } => by.to_duration(),
        }
    }
}

} // verus!
