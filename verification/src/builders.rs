//! The built-in example template: a conventional release cycle with four
//! dated phases, a maintenance phase generated from a template, and the
//! baseline relations chaining the milestones together.

use crate::delta::{DeltaView, MilestoneDelta};
use crate::duration::{DurationView, SimpleDuration};
use crate::model::{
    Document, GeneratorView, Milestone, MilestoneGenerator, MilestoneView, Phase, PhaseView,
    Schedule, ScheduleView,
};
use vstd::prelude::*;

verus! {

/// A template milestone: named, aliased, not yet dated.
pub open spec fn template_milestone(name: Seq<char>, alias: Seq<char>) -> MilestoneView {
    MilestoneView { name, alias, due_date: None }
}

/// Builds the phases of the example template.
pub struct PhaseBuilder {}

impl PhaseBuilder {
    /// Planning: requirements gathering, then requirements freeze.
    pub fn planning() -> (p: Phase)
        ensures
            p@ == (PhaseView {
                name: "Planning"@,
                milestones: seq![
                    template_milestone("Requirements Gathering"@, "RG"@),
                    template_milestone("Requirements Freeze"@, "RF"@),
                ],
                generators: Seq::empty(),
            }),
    {
        let mut milestones: Vec<Milestone> = Vec::new();
        milestones.push(Milestone::new("Requirements Gathering", "RG"));
        milestones.push(Milestone::new("Requirements Freeze", "RF"));
        let p = Phase {
            name: String::from_str("Planning"),
            milestones,
            milestone_generators: None,
        };
        proof {
            assert(p.milestones@.len() == 2);
            assert(p@.milestones[0] == p.milestones@[0]@);
            assert(p@.milestones[1] == p.milestones@[1]@);
            assert(p@.milestones =~= seq![
                template_milestone("Requirements Gathering"@, "RG"@),
                template_milestone("Requirements Freeze"@, "RF"@),
            ]);
        }
        p
    }

    /// Development: feature start, then feature freeze.
    pub fn development() -> (p: Phase)
        ensures
            p@ == (PhaseView {
                name: "Development"@,
                milestones: seq![
                    template_milestone("Feature Start"@, "FS"@),
                    template_milestone("Feature Freeze"@, "FF"@),
                ],
                generators: Seq::empty(),
            }),
    {
        let mut milestones: Vec<Milestone> = Vec::new();
        milestones.push(Milestone::new("Feature Start", "FS"));
        milestones.push(Milestone::new("Feature Freeze", "FF"));
        let p = Phase {
            name: String::from_str("Development"),
            milestones,
            milestone_generators: None,
        };
        proof {
            assert(p.milestones@.len() == 2);
            assert(p@.milestones[0] == p.milestones@[0]@);
            assert(p@.milestones[1] == p.milestones@[1]@);
            assert(p@.milestones =~= seq![
                template_milestone("Feature Start"@, "FS"@),
                template_milestone("Feature Freeze"@, "FF"@),
            ]);
        }
        p
    }

    /// Testing: blockers only, then code freeze.
    pub fn testing() -> (p: Phase)
        ensures
            p@ == (PhaseView {
                name: "Testing"@,
                milestones: seq![
                    template_milestone("Blockers Only"@, "BO"@),
                    template_milestone("Code Freeze"@, "CF"@),
                ],
                generators: Seq::empty(),
            }),
    {
        let mut milestones: Vec<Milestone> = Vec::new();
        milestones.push(Milestone::new("Blockers Only", "BO"));
        milestones.push(Milestone::new("Code Freeze", "CF"));
        let p = Phase {
            name: String::from_str("Testing"),
            milestones,
            milestone_generators: None,
        };
        proof {
            assert(p.milestones@.len() == 2);
            assert(p@.milestones[0] == p.milestones@[0]@);
            assert(p@.milestones[1] == p.milestones@[1]@);
            assert(p@.milestones =~= seq![
                template_milestone("Blockers Only"@, "BO"@),
                template_milestone("Code Freeze"@, "CF"@),
            ]);
        }
        p
    }

    /// Release: push to stage, then general availability.
    pub fn release() -> (p: Phase)
        ensures
            p@ == (PhaseView {
                name: "Release"@,
                milestones: seq![
                    template_milestone("Push to Stage"@, "PS"@),
                    template_milestone("General Availability"@, "GA"@),
                ],
                generators: Seq::empty(),
            }),
    {
        let mut milestones: Vec<Milestone> = Vec::new();
        milestones.push(Milestone::new("Push to Stage", "PS"));
        milestones.push(Milestone::new("General Availability", "GA"));
        let p = Phase {
            name: String::from_str("Release"),
            milestones,
            milestone_generators: None,
        };
        proof {
            assert(p.milestones@.len() == 2);
            assert(p@.milestones[0] == p.milestones@[0]@);
            assert(p@.milestones[1] == p.milestones@[1]@);
            assert(p@.milestones =~= seq![
                template_milestone("Push to Stage"@, "PS"@),
                template_milestone("General Availability"@, "GA"@),
            ]);
        }
        p
    }

    /// The maintenance generator: ten z-stream milestones, each four more
    /// weeks behind general availability than the one before.
    pub open spec fn maintenance_generator() -> GeneratorView {
        GeneratorView {
            name: "zstreams"@,
            count: 10,
            delta: DeltaView {
                milestone: "z"@,
                target: "GA"@,
                behind: true,
                by: DurationView::Weeks(4),
            },
            template: template_milestone("zstream"@, "z"@),
        }
    }

    /// Maintenance: no fixed milestones, one generator producing the
    /// z-stream series.
    pub fn maintenance() -> (p: Phase)
        ensures
            p@ == (PhaseView {
                name: "Maintenance"@,
                milestones: Seq::empty(),
                generators: seq![PhaseBuilder::maintenance_generator()],
            }),
    {
        let generator = MilestoneGenerator {
            name: String::from_str("zstreams"),
            count: 10,
            delta_template: MilestoneDelta::Behind {
                milestone: String::from_str("z"),
                behind: String::from_str("GA"),
                by: SimpleDuration::Weeks { weeks: 4 },
            },
            milestone_template: Milestone::new("zstream", "z"),
        };
        let mut gens: Vec<MilestoneGenerator> = Vec::new();
        gens.push(generator);
        let p = Phase {
            name: String::from_str("Maintenance"),
            milestones: Vec::new(),
            milestone_generators: Some(gens),
        };
        proof {
            assert(p@.milestones =~= Seq::<MilestoneView>::empty());
            assert(p.milestone_generators->Some_0@.len() == 1);
            assert(p@.generators[0] == p.milestone_generators->Some_0@[0]@);
            assert(p@.generators =~= seq![PhaseBuilder::maintenance_generator()]);
        }
        p
    }
}

/// The phases of the example template, in order.
pub open spec fn common_phase_views() -> Seq<PhaseView> {
    seq![
        PhaseView {
            name: "Planning"@,
            milestones: seq![
                template_milestone("Requirements Gathering"@, "RG"@),
                template_milestone("Requirements Freeze"@, "RF"@),
            ],
            generators: Seq::empty(),
        },
        PhaseView {
            name: "Development"@,
            milestones: seq![
                template_milestone("Feature Start"@, "FS"@),
                template_milestone("Feature Freeze"@, "FF"@),
            ],
            generators: Seq::empty(),
        },
        PhaseView {
            name: "Testing"@,
            milestones: seq![
                template_milestone("Blockers Only"@, "BO"@),
                template_milestone("Code Freeze"@, "CF"@),
            ],
            generators: Seq::empty(),
        },
        PhaseView {
            name: "Release"@,
            milestones: seq![
                template_milestone("Push to Stage"@, "PS"@),
                template_milestone("General Availability"@, "GA"@),
            ],
            generators: Seq::empty(),
        },
        PhaseView {
            name: "Maintenance"@,
            milestones: Seq::empty(),
            generators: seq![PhaseBuilder::maintenance_generator()],
        },
    ]
}

/// The baseline relations of the example template: general availability
/// four weeks behind code freeze, which is a sprint behind blockers-only,
/// which is a sprint behind feature freeze, which is six sprints behind
/// requirements freeze.
pub open spec fn common_delta_views() -> Seq<DeltaView> {
    seq![
        DeltaView { milestone: "GA"@, target: "CF"@, behind: true, by: DurationView::Weeks(4) },
        DeltaView { milestone: "CF"@, target: "BO"@, behind: true, by: DurationView::Sprints(1) },
        DeltaView { milestone: "BO"@, target: "FF"@, behind: true, by: DurationView::Sprints(1) },
        DeltaView { milestone: "FF"@, target: "RF"@, behind: true, by: DurationView::Sprints(6) },
    ]
}

/// Builds the example schedule template.
pub struct ScheduleBuilder {}

impl ScheduleBuilder {
    /// The example phases, in order.
    fn common_phases() -> (ps: Vec<Phase>)
        ensures
            ps@.map_values(|p: Phase| p@) == common_phase_views(),
    {
        let mut ps: Vec<Phase> = Vec::new();
        ps.push(PhaseBuilder::planning());
        ps.push(PhaseBuilder::development());
        ps.push(PhaseBuilder::testing());
        ps.push(PhaseBuilder::release());
        ps.push(PhaseBuilder::maintenance());
        proof {
            assert(ps@.map_values(|p: Phase| p@) =~= common_phase_views());
        }
        ps
    }

    /// The example baseline relations.
    pub fn common_deltas() -> (ds: Vec<MilestoneDelta>)
        ensures
            ds@.map_values(|d: MilestoneDelta| d@) == common_delta_views(),
    {
        let mut ds: Vec<MilestoneDelta> = Vec::new();
        ds.push(MilestoneDelta::new_behind("GA", "CF", SimpleDuration::Weeks { weeks: 4 }));
        ds.push(MilestoneDelta::new_behind("CF", "BO", SimpleDuration::Sprints { sprints: 1 }));
        ds.push(MilestoneDelta::new_behind("BO", "FF", SimpleDuration::Sprints { sprints: 1 }));
        ds.push(MilestoneDelta::new_behind("FF", "RF", SimpleDuration::Sprints { sprints: 6 }));
        proof {
            assert(ds@.map_values(|d: MilestoneDelta| d@) =~= common_delta_views());
        }
        ds
    }

    /// The example schedule template.
    pub fn schedule() -> (s: Schedule)
        ensures
            s@ == (ScheduleView { phases: common_phase_views(), deltas: common_delta_views() }),
    {
        let draft = Schedule {
            phases: ScheduleBuilder::common_phases(),
            milestone_deltas: ScheduleBuilder::common_deltas(),
        };
        draft
    }
}

impl Document {
    /// The built-in example document: the example template, a name in the
    /// metadata, and no status yet.
    pub fn example() -> (d: Document)
        ensures
            d@.kind == "Schedule"@,
            d@.metadata == seq![("name"@, "example"@)],
            d@.spec == (ScheduleView { phases: common_phase_views(), deltas: common_delta_views() }),
            d@.status is None,
    {
        let mut metadata: Vec<(String, String)> = Vec::new();
        metadata.push((String::from_str("name"), String::from_str("example")));
        let d = Document {
            kind: String::from_str("Schedule"),
            metadata,
            spec: ScheduleBuilder::schedule(),
            status: None,
        };
        proof {
            assert(d@.metadata =~= seq![("name"@, "example"@)]);
        }
        d
    }
}

} // verus!
