use deltaplan::date::Date;
use deltaplan::delta::MilestoneDelta;
use deltaplan::duration::SimpleDuration;
use deltaplan::model::{Milestone, Schedule};

#[test]
fn weeks_convert_to_seven_days_each() {
    assert_eq!(SimpleDuration::Weeks { weeks: 4 }.to_duration(), 28);
    assert_eq!(SimpleDuration::Weeks { weeks: 0 }.to_duration(), 0);
    assert_eq!(SimpleDuration::Weeks { weeks: -2 }.to_duration(), -14);
}

#[test]
fn sprints_convert_to_twenty_one_days_each() {
    assert_eq!(SimpleDuration::Sprints { sprints: 1 }.to_duration(), 21);
    assert_eq!(SimpleDuration::Sprints { sprints: 6 }.to_duration(), 126);
    assert_eq!(SimpleDuration::Sprints { sprints: -1 }.to_duration(), -21);
}

#[test]
fn scaling_preserves_the_unit() {
    assert_eq!(
        SimpleDuration::Weeks { weeks: 4 }.scaled(3),
        SimpleDuration::Weeks { weeks: 12 },
    );
    assert_eq!(
        SimpleDuration::Sprints { sprints: 2 }.scaled(-5),
        SimpleDuration::Sprints { sprints: -10 },
    );
}

#[test]
fn relation_constructors_fill_the_fields() {
    match MilestoneDelta::new_behind("A", "B", SimpleDuration::Weeks { weeks: 1 }) {
        MilestoneDelta::Behind { milestone, behind, by } => {
            assert_eq!(milestone, "A");
            assert_eq!(behind, "B");
            assert_eq!(by, SimpleDuration::Weeks { weeks: 1 });
        },
        other => panic!("expected Behind, got {:?}", other),
    }
    match MilestoneDelta::new_ahead_of("C", "D", SimpleDuration::Sprints { sprints: 2 }) {
        MilestoneDelta::AheadOf { milestone, ahead_of, by } => {
            assert_eq!(milestone, "C");
            assert_eq!(ahead_of, "D");
            assert_eq!(by, SimpleDuration::Sprints { sprints: 2 });
        },
        other => panic!("expected AheadOf, got {:?}", other),
    }
    assert_eq!(
        MilestoneDelta::new_behind("A", "B", SimpleDuration::Sprints { sprints: 2 }).to_duration(),
        42,
    );
}

#[test]
fn milestone_new_starts_undated() {
    let m = Milestone::new("General Availability", "GA");
    assert_eq!(m.name, "General Availability");
    assert_eq!(m.alias, "GA");
    assert!(m.due_date.is_none());
}

#[test]
fn date_arithmetic_is_plain_day_arithmetic() {
    let d = Date { days: 100 };
    assert_eq!(d.plus_days(21).days, 121);
    assert_eq!(d.plus_days(-28).days, 72);
    assert!(d.check_in_range());
    assert!(!Date { days: i64::MAX }.check_in_range());
}

#[test]
fn well_formedness_rejects_oversized_durations() {
    let ok = Schedule {
        phases: vec![],
        milestone_deltas: vec![MilestoneDelta::new_behind(
            "A",
            "B",
            SimpleDuration::Weeks { weeks: 52 },
        )],
    };
    assert!(ok.check_wf());
    let bad = Schedule {
        phases: vec![],
        milestone_deltas: vec![MilestoneDelta::new_behind(
            "A",
            "B",
            SimpleDuration::Weeks { weeks: i64::MAX },
        )],
    };
    assert!(!bad.check_wf());
}
