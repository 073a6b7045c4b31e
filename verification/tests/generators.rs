use chrono::Datelike;
use deltaplan::date::Date;
use deltaplan::delta::MilestoneDelta;
use deltaplan::duration::SimpleDuration;
use deltaplan::model::{Document, Milestone, MilestoneGenerator, Phase, Schedule};

fn day(y: i32, m: u32, d: u32) -> Date {
    Date { days: chrono::NaiveDate::from_ymd_opt(y, m, d).unwrap().num_days_from_ce() as i64 }
}

fn zstream_schedule(count: u32) -> Schedule {
    Schedule {
        phases: vec![Phase {
            name: "Maintenance".to_string(),
            milestones: vec![Milestone::new("General Availability", "GA")],
            milestone_generators: Some(vec![MilestoneGenerator {
                name: "zstreams".to_string(),
                count,
                delta_template: MilestoneDelta::Behind {
                    milestone: "z".to_string(),
                    behind: "GA".to_string(),
                    by: SimpleDuration::Weeks { weeks: 4 },
                },
                milestone_template: Milestone::new("zstream", "z"),
            }]),
        }],
        milestone_deltas: vec![],
    }
}

#[test]
fn generator_expands_to_numbered_milestones_and_scaled_relations() {
    let mut sched = zstream_schedule(3);
    sched.generate();

    let ms = &sched.phases[0].milestones;
    assert_eq!(ms.len(), 4);
    assert_eq!(ms[1].alias, "z1");
    assert_eq!(ms[2].alias, "z2");
    assert_eq!(ms[3].alias, "z3");
    assert_eq!(ms[1].name, "zstream1");
    assert_eq!(ms[3].name, "zstream3");
    assert!(ms[1].due_date.is_none());
    assert!(ms[3].due_date.is_none());

    let ds = &sched.milestone_deltas;
    assert_eq!(ds.len(), 3);
    for (k, d) in ds.iter().enumerate() {
        match d {
            MilestoneDelta::Behind { milestone, behind, by } => {
                assert_eq!(*milestone, format!("z{}", k + 1));
                assert_eq!(behind, "GA");
                assert_eq!(*by, SimpleDuration::Weeks { weeks: 4 * (k as i64 + 1) });
            },
            other => panic!("expected a Behind relation, got {:?}", other),
        }
    }
}

#[test]
fn generating_twice_duplicates_entries() {
    let mut sched = zstream_schedule(2);
    sched.generate();
    sched.generate();
    assert_eq!(sched.phases[0].milestones.len(), 5);
    assert_eq!(sched.milestone_deltas.len(), 4);
}

#[test]
fn generated_milestones_receive_dates_from_the_pin() {
    let sched = zstream_schedule(2);
    let out = deltaplan::plan::plan_backwards(&sched, Some(("GA", day(2025, 6, 1)))).unwrap();
    assert_eq!(out.milestone("z1").unwrap().due_date, Some(day(2025, 5, 4)));
    assert_eq!(out.milestone("z2").unwrap().due_date, Some(day(2025, 4, 6)));
}

#[test]
fn example_document_shape() {
    let doc = Document::example();
    assert_eq!(doc.kind, "Schedule");
    assert_eq!(doc.metadata, vec![("name".to_string(), "example".to_string())]);
    assert!(doc.status.is_none());

    let names: Vec<&str> = doc.spec.phases.iter().map(|p| p.name.as_str()).collect();
    assert_eq!(names, vec!["Planning", "Development", "Testing", "Release", "Maintenance"]);
    assert_eq!(doc.spec.milestone_deltas.len(), 4);
    let maintenance = &doc.spec.phases[4];
    let gens = maintenance.milestone_generators.as_ref().unwrap();
    assert_eq!(gens.len(), 1);
    assert_eq!(gens[0].count, 10);
    assert_eq!(gens[0].name, "zstreams");
    assert!(doc.spec.check_wf());
}

#[test]
fn replan_recomputes_status_from_the_template() {
    let mut doc = Document::example();
    doc.replan(None).unwrap();
    let first = doc.status.as_ref().unwrap().phases[4].milestones.len();
    assert_eq!(first, 10);
    doc.replan(None).unwrap();
    let second = doc.status.as_ref().unwrap().phases[4].milestones.len();
    assert_eq!(second, 10);
    // The template is never mutated: its maintenance phase still holds no
    // generated milestones.
    assert_eq!(doc.spec.phases[4].milestones.len(), 0);
}

#[test]
fn replan_with_pin_dates_the_status() {
    let mut doc = Document::example();
    assert!(doc.spec.check_wf());
    let pinned = day(2025, 6, 1);
    assert!(pinned.check_in_range());
    doc.replan(Some(("GA", pinned))).unwrap();
    let status = doc.status.as_ref().unwrap();
    let release = &status.phases[3];
    let ga = release.milestones.iter().find(|m| m.alias == "GA").unwrap();
    assert_eq!(ga.due_date, Some(pinned));
    // The z-streams hang off the pinned date, four more weeks back each.
    let maintenance = &status.phases[4];
    let z1 = maintenance.milestones.iter().find(|m| m.alias == "z1").unwrap();
    assert_eq!(z1.due_date, Some(day(2025, 5, 4)));
    let z10 = maintenance.milestones.iter().find(|m| m.alias == "z10").unwrap();
    assert_eq!(z10.due_date, Some(day(2024, 8, 25)));
}

#[test]
fn example_template_pin_on_ga_leaves_upstream_chain_unresolved() {
    // The template's baseline relations all derive from targets that are
    // themselves undated, so a single pass anchored at general availability
    // resolves nothing else: each relation is skipped silently.
    let mut doc = Document::example();
    doc.replan(Some(("GA", day(2025, 6, 1)))).unwrap();
    let status = doc.status.as_ref().unwrap();
    let testing = &status.phases[2];
    let cf = testing.milestones.iter().find(|m| m.alias == "CF").unwrap();
    assert_eq!(cf.due_date, None);
}

#[test]
fn zero_count_generator_produces_nothing() {
    let mut sched = zstream_schedule(0);
    sched.generate();
    assert_eq!(sched.phases[0].milestones.len(), 1);
    assert!(sched.milestone_deltas.is_empty());
}
