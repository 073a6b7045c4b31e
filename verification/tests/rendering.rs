use chrono::Datelike;
use deltaplan::date::Date;
use deltaplan::duration::SimpleDuration;
use deltaplan::model::Document;
use deltaplan::render::{ScheduleFormatter, TextSchedule};

fn day(y: i32, m: u32, d: u32) -> Date {
    Date { days: chrono::NaiveDate::from_ymd_opt(y, m, d).unwrap().num_days_from_ce() as i64 }
}

#[test]
fn duration_renders_count_and_unit() {
    assert_eq!(SimpleDuration::Weeks { weeks: 4 }.render(), "4 weeks");
    assert_eq!(SimpleDuration::Sprints { sprints: 1 }.render(), "1 sprints");
    assert_eq!(SimpleDuration::Sprints { sprints: -3 }.render(), "-3 sprints");
    assert_eq!(SimpleDuration::Weeks { weeks: 0 }.render(), "0 weeks");
    assert_eq!(SimpleDuration::Weeks { weeks: 128 }.render(), "128 weeks");
}

#[test]
fn undated_milestones_render_the_placeholder() {
    let doc = Document::example();
    let mut renderer = TextSchedule::new();
    let text = renderer.format(&doc);
    assert!(text.contains("  -  ????-??-?? ???   RG   Requirements Gathering"));
    assert!(text.contains("- Planning"));
    assert!(text.contains("# Kind"));
    assert!(text.contains("kind: Schedule"));
}

#[test]
fn metadata_renders_as_yaml() {
    let doc = Document::example();
    let text = ScheduleFormatter {}.as_text(&doc);
    assert!(text.contains("name: example"));
}

#[test]
fn relations_render_reversed_oldest_first() {
    let doc = Document::example();
    let mut renderer = TextSchedule::new();
    let text = renderer.format(&doc);
    let ff = text.find("- FF behind RF: 6 sprints").unwrap();
    let bo = text.find("- BO behind FF: 1 sprints").unwrap();
    let cf = text.find("- CF behind BO: 1 sprints").unwrap();
    let ga = text.find("- GA behind CF: 4 weeks").unwrap();
    assert!(ff < bo && bo < cf && cf < ga);
}

#[test]
fn dated_milestones_render_date_and_weekday() {
    let mut doc = Document::example();
    doc.replan(Some(("GA", day(2025, 6, 1)))).unwrap();
    let mut renderer = TextSchedule::new();
    let text = renderer.format(&doc);
    // The status section holds the planned phases; June 1, 2025 is a
    // Sunday.
    assert!(text.contains("2025-06-01 Sun   GA   General Availability"));
    assert!(text.contains("# Status"));
}

#[test]
fn status_section_is_empty_before_planning() {
    let doc = Document::example();
    let mut renderer = TextSchedule::new();
    let text = renderer.format(&doc);
    assert!(text.ends_with("# Status\n## Phases & Milestones"));
}

#[test]
fn renderability_is_bounded_by_the_calendar_range() {
    let mut doc = Document::example();
    assert!(doc.check_renderable());
    doc.spec.phases[0].milestones[0].due_date = Some(Date { days: i64::MAX / 2 });
    assert!(!doc.check_renderable());
}
