use chrono::Datelike;
use deltaplan::date::Date;
use deltaplan::delta::MilestoneDelta;
use deltaplan::duration::SimpleDuration;
use deltaplan::model::{Milestone, Phase, Schedule};
use deltaplan::plan::{plan_backwards, PlanError};

fn day(y: i32, m: u32, d: u32) -> Date {
    Date { days: chrono::NaiveDate::from_ymd_opt(y, m, d).unwrap().num_days_from_ce() as i64 }
}

fn one_phase(milestones: Vec<Milestone>) -> Phase {
    Phase { name: "Main".to_string(), milestones, milestone_generators: None }
}

fn due_of(s: &Schedule, q: &str) -> Option<Date> {
    s.milestone(q).unwrap().due_date
}

#[test]
fn behind_relation_derives_target_minus_duration() {
    let sched = Schedule {
        phases: vec![one_phase(vec![Milestone::new("Alpha", "A"), Milestone::new("Tau", "T")])],
        milestone_deltas: vec![MilestoneDelta::new_behind(
            "A",
            "T",
            SimpleDuration::Weeks { weeks: 1 },
        )],
    };
    let pinned = day(2025, 6, 8);
    let out = plan_backwards(&sched, Some(("T", pinned))).unwrap();
    assert_eq!(due_of(&out, "T"), Some(pinned));
    assert_eq!(due_of(&out, "A"), Some(day(2025, 6, 1)));
}

#[test]
fn ahead_of_relation_derives_target_plus_duration() {
    let sched = Schedule {
        phases: vec![one_phase(vec![Milestone::new("Alpha", "A"), Milestone::new("Tau", "T")])],
        milestone_deltas: vec![MilestoneDelta::new_ahead_of(
            "A",
            "T",
            SimpleDuration::Weeks { weeks: 2 },
        )],
    };
    let pinned = day(2025, 6, 1);
    let out = plan_backwards(&sched, Some(("T", pinned))).unwrap();
    assert_eq!(due_of(&out, "A"), Some(day(2025, 6, 15)));
}

#[test]
fn sprint_counts_as_three_weeks() {
    let sched = Schedule {
        phases: vec![one_phase(vec![Milestone::new("Alpha", "A"), Milestone::new("Tau", "T")])],
        milestone_deltas: vec![MilestoneDelta::new_behind(
            "A",
            "T",
            SimpleDuration::Sprints { sprints: 1 },
        )],
    };
    let out = plan_backwards(&sched, Some(("T", day(2025, 6, 22)))).unwrap();
    assert_eq!(due_of(&out, "A"), Some(day(2025, 6, 1)));
}

#[test]
fn first_write_wins_for_already_dated_milestone() {
    let preset = day(2024, 1, 1);
    let sched = Schedule {
        phases: vec![one_phase(vec![
            Milestone { name: "Alpha".to_string(), alias: "A".to_string(), due_date: Some(preset) },
            Milestone::new("Tau", "T"),
        ])],
        milestone_deltas: vec![MilestoneDelta::new_behind(
            "A",
            "T",
            SimpleDuration::Weeks { weeks: 1 },
        )],
    };
    let out = plan_backwards(&sched, Some(("T", day(2025, 6, 8)))).unwrap();
    assert_eq!(due_of(&out, "A"), Some(preset));
}

#[test]
fn second_pass_changes_no_resolved_date() {
    let sched = Schedule {
        phases: vec![one_phase(vec![
            Milestone::new("Alpha", "A"),
            Milestone::new("Beta", "B"),
            Milestone::new("Tau", "T"),
        ])],
        milestone_deltas: vec![
            MilestoneDelta::new_behind("B", "T", SimpleDuration::Weeks { weeks: 1 }),
            MilestoneDelta::new_behind("A", "B", SimpleDuration::Weeks { weeks: 1 }),
        ],
    };
    let once = plan_backwards(&sched, Some(("T", day(2025, 6, 15)))).unwrap();
    let twice = plan_backwards(&once, None).unwrap();
    assert_eq!(due_of(&twice, "T"), due_of(&once, "T"));
    assert_eq!(due_of(&twice, "B"), due_of(&once, "B"));
    assert_eq!(due_of(&twice, "A"), due_of(&once, "A"));
}

#[test]
fn pin_overwrites_existing_date() {
    let sched = Schedule {
        phases: vec![one_phase(vec![Milestone {
            name: "Xi".to_string(),
            alias: "X".to_string(),
            due_date: Some(day(2020, 1, 1)),
        }])],
        milestone_deltas: vec![],
    };
    let pinned = day(2025, 3, 9);
    let out = plan_backwards(&sched, Some(("X", pinned))).unwrap();
    assert_eq!(due_of(&out, "X"), Some(pinned));
}

#[test]
fn duplicate_relation_pair_aborts() {
    let sched = Schedule {
        phases: vec![one_phase(vec![Milestone::new("Alpha", "A"), Milestone::new("Tau", "T")])],
        milestone_deltas: vec![
            MilestoneDelta::new_behind("A", "T", SimpleDuration::Weeks { weeks: 1 }),
            MilestoneDelta::new_behind("A", "T", SimpleDuration::Weeks { weeks: 2 }),
        ],
    };
    let r = plan_backwards(&sched, Some(("T", day(2025, 6, 1))));
    assert!(matches!(r, Err(PlanError::DuplicateDelta)));
}

#[test]
fn same_pair_in_both_directions_is_not_a_duplicate() {
    let sched = Schedule {
        phases: vec![one_phase(vec![Milestone::new("Alpha", "A"), Milestone::new("Tau", "T")])],
        milestone_deltas: vec![
            MilestoneDelta::new_behind("A", "T", SimpleDuration::Weeks { weeks: 1 }),
            MilestoneDelta::new_behind("T", "A", SimpleDuration::Weeks { weeks: 1 }),
        ],
    };
    assert!(plan_backwards(&sched, Some(("T", day(2025, 6, 1)))).is_ok());
}

#[test]
fn missing_relation_target_is_an_error() {
    let sched = Schedule {
        phases: vec![one_phase(vec![Milestone::new("Alpha", "A")])],
        milestone_deltas: vec![MilestoneDelta::new_behind(
            "A",
            "NOPE",
            SimpleDuration::Weeks { weeks: 1 },
        )],
    };
    match plan_backwards(&sched, Some(("A", day(2025, 6, 1)))) {
        Err(PlanError::MilestoneNotFound { name }) => assert_eq!(name, "NOPE"),
        other => panic!("expected a lookup failure, got {:?}", other),
    }
}

#[test]
fn missing_pin_milestone_is_an_error() {
    let sched = Schedule { phases: vec![one_phase(vec![])], milestone_deltas: vec![] };
    match plan_backwards(&sched, Some(("GHOST", day(2025, 6, 1)))) {
        Err(PlanError::MilestoneNotFound { name }) => assert_eq!(name, "GHOST"),
        other => panic!("expected a lookup failure, got {:?}", other),
    }
}

#[test]
fn undated_target_is_skipped_silently() {
    let sched = Schedule {
        phases: vec![one_phase(vec![Milestone::new("Alpha", "A"), Milestone::new("Tau", "T")])],
        milestone_deltas: vec![MilestoneDelta::new_behind(
            "A",
            "T",
            SimpleDuration::Weeks { weeks: 1 },
        )],
    };
    let out = plan_backwards(&sched, None).unwrap();
    assert_eq!(due_of(&out, "A"), None);
    assert_eq!(due_of(&out, "T"), None);
}

#[test]
fn single_pass_order_sensitivity() {
    // A depends on B, which is only resolved later in the same pass: A's
    // relation has already been skipped and is not retried.
    let sched = Schedule {
        phases: vec![one_phase(vec![
            Milestone::new("Alpha", "A"),
            Milestone::new("Beta", "B"),
            Milestone::new("Gamma", "C"),
        ])],
        milestone_deltas: vec![
            MilestoneDelta::new_behind("A", "B", SimpleDuration::Weeks { weeks: 1 }),
            MilestoneDelta::new_behind("B", "C", SimpleDuration::Weeks { weeks: 1 }),
        ],
    };
    let pinned = day(2025, 6, 15);
    let out = plan_backwards(&sched, Some(("C", pinned))).unwrap();
    assert_eq!(due_of(&out, "C"), Some(pinned));
    assert_eq!(due_of(&out, "B"), Some(day(2025, 6, 8)));
    assert_eq!(due_of(&out, "A"), None);
}

#[test]
fn end_to_end_release_chain() {
    let phases = vec![
        Phase {
            name: "Planning".to_string(),
            milestones: vec![
                Milestone::new("Requirements Gathering", "RG"),
                Milestone::new("Requirements Freeze", "RF"),
            ],
            milestone_generators: None,
        },
        Phase {
            name: "Development".to_string(),
            milestones: vec![
                Milestone::new("Feature Start", "FS"),
                Milestone::new("Feature Freeze", "FF"),
            ],
            milestone_generators: None,
        },
        Phase {
            name: "Testing".to_string(),
            milestones: vec![
                Milestone::new("Blockers Only", "BO"),
                Milestone::new("Code Freeze", "CF"),
            ],
            milestone_generators: None,
        },
        Phase {
            name: "Release".to_string(),
            milestones: vec![
                Milestone::new("Push to Stage", "PS"),
                Milestone::new("General Availability", "GA"),
            ],
            milestone_generators: None,
        },
    ];
    // Each relation derives its milestone from the previously resolved one,
    // starting at the pinned general-availability date.
    let sched = Schedule {
        phases,
        milestone_deltas: vec![
            MilestoneDelta::new_behind("CF", "GA", SimpleDuration::Weeks { weeks: 4 }),
            MilestoneDelta::new_behind("BO", "CF", SimpleDuration::Sprints { sprints: 1 }),
            MilestoneDelta::new_behind("FF", "BO", SimpleDuration::Sprints { sprints: 1 }),
            MilestoneDelta::new_behind("RF", "FF", SimpleDuration::Sprints { sprints: 6 }),
        ],
    };
    let out = plan_backwards(&sched, Some(("GA", day(2025, 6, 1)))).unwrap();
    assert_eq!(due_of(&out, "GA"), Some(day(2025, 6, 1)));
    assert_eq!(due_of(&out, "CF"), Some(day(2025, 5, 4)));
    assert_eq!(due_of(&out, "BO"), Some(day(2025, 4, 13)));
    assert_eq!(due_of(&out, "FF"), Some(day(2025, 3, 23)));
    // Six sprints of three weeks each reach back 126 days from feature
    // freeze.
    assert_eq!(due_of(&out, "RF"), Some(day(2024, 11, 17)));
    assert_eq!(due_of(&out, "PS"), None);
    assert_eq!(due_of(&out, "FS"), None);
    assert_eq!(due_of(&out, "RG"), None);
}

#[test]
fn lookup_matches_alias_or_name_in_scan_order() {
    let sched = Schedule {
        phases: vec![
            Phase {
                name: "First".to_string(),
                milestones: vec![Milestone::new("Shared", "A")],
                milestone_generators: None,
            },
            Phase {
                name: "Second".to_string(),
                milestones: vec![Milestone::new("Other", "Shared")],
                milestone_generators: None,
            },
        ],
        milestone_deltas: vec![],
    };
    // "Shared" matches the first phase's milestone by name before the
    // second phase's milestone by alias.
    let m = sched.milestone("Shared").unwrap();
    assert_eq!(m.alias, "A");
    let by_alias = sched.milestone("A").unwrap();
    assert_eq!(by_alias.name, "Shared");
    assert!(sched.milestone("missing").is_err());
}

#[test]
fn planner_does_not_touch_its_input() {
    let sched = Schedule {
        phases: vec![one_phase(vec![Milestone::new("Alpha", "A"), Milestone::new("Tau", "T")])],
        milestone_deltas: vec![MilestoneDelta::new_behind(
            "A",
            "T",
            SimpleDuration::Weeks { weeks: 1 },
        )],
    };
    let _ = plan_backwards(&sched, Some(("T", day(2025, 6, 8)))).unwrap();
    assert_eq!(due_of(&sched, "A"), None);
    assert_eq!(due_of(&sched, "T"), None);
}

#[test]
fn empty_schedule_plans_to_empty() {
    let sched = Schedule { phases: vec![], milestone_deltas: vec![] };
    let out = plan_backwards(&sched, None).unwrap();
    assert!(out.phases.is_empty());
    assert!(out.milestone_deltas.is_empty());
}

#[test]
fn negative_duration_shifts_the_other_way() {
    let sched = Schedule {
        phases: vec![one_phase(vec![Milestone::new("Alpha", "A"), Milestone::new("Tau", "T")])],
        milestone_deltas: vec![MilestoneDelta::new_behind(
            "A",
            "T",
            SimpleDuration::Weeks { weeks: -1 },
        )],
    };
    let out = plan_backwards(&sched, Some(("T", day(2025, 6, 1)))).unwrap();
    assert_eq!(due_of(&out, "A"), Some(day(2025, 6, 8)));
}
