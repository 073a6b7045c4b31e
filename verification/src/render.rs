//! Human-readable rendering of documents and schedules.
//!
//! The text layout follows the visitor that walks a document: a kind
//! header, the metadata as YAML, the schedule template with its phases and
//! relations (relations written oldest first, so the stored list is walked
//! in reverse), and the computed status phases. A milestone without a due
//! date renders the fixed placeholder `????-??-?? ???` instead of a date.

use crate::date::{date_text, date_text_of, Date, CAL_DAY_BOUND};
use crate::delta::{DeltaView, MilestoneDelta};
use crate::model::{
    Document, DocumentView, Milestone, MilestoneGenerator, MilestoneView, Phase, PhaseView,
    Schedule, ScheduleView,
};
use vstd::prelude::*;

verus! {

/// The text serde_yaml writes for a string-to-string mapping holding the
/// given pairs in the given order. A function of the pairs alone.
pub uninterp spec fn yaml_map_text_of(pairs: Seq<(Seq<char>, Seq<char>)>) -> Seq<char>;

/// Relies on serde_yaml's `to_string` over a `serde_yaml::Mapping`: the
/// metadata pairs are serialized as a YAML map, in their stored order
/// (serde_yaml mappings keep insertion order). Serializing a mapping of
/// plain strings cannot fail.
#[verifier::external_body]
fn yaml_of_metadata(pairs: &Vec<(String, String)>) -> (r: String)
    ensures
        r@ == yaml_map_text_of(pairs@.map_values(|kv: (String, String)| (kv.0@, kv.1@))),
{
    let mut mapping = serde_yaml::Mapping::new();
    for (k, v) in pairs {
        mapping.insert(
            serde_yaml::Value::String(k.clone()),
            serde_yaml::Value::String(v.clone()),
        );
    }
    serde_yaml::to_string(&mapping).unwrap()
}

/// The date column of a milestone line: the rendered date, or the
/// placeholder when no due date is set.
pub open spec fn due_text(due: Option<int>) -> Seq<char> {
    match due {
        None => "????-??-?? ???"@,
        Some(d) => date_text_of(d),
    }
}

/// One milestone line: date, alias and name, separated by three spaces.
pub open spec fn milestone_line(m: MilestoneView) -> Seq<char> {
    "  -  "@ + due_text(m.due_date) + "   "@ + m.alias + "   "@ + m.name
}

/// The milestone lines of a phase, each on its own line.
pub open spec fn milestones_text(ms: Seq<MilestoneView>) -> Seq<char>
    decreases ms.len(),
{
    if ms.len() == 0 {
        Seq::empty()
    } else {
        "\n"@ + milestone_line(ms[0]) + milestones_text(ms.drop_first())
    }
}

/// A phase: its name as a list item, then its milestone lines.
pub open spec fn phase_text(p: PhaseView) -> Seq<char> {
    "- "@ + p.name + milestones_text(p.milestones)
}

/// A run of phases, each followed by a blank line.
pub open spec fn phases_block(ps: Seq<PhaseView>) -> Seq<char>
    decreases ps.len(),
{
    if ps.len() == 0 {
        Seq::empty()
    } else {
        "\n"@ + phase_text(ps[0]) + "\n"@ + phases_block(ps.drop_first())
    }
}

/// One relation line: the derived milestone, the direction, the target and
/// the duration.
pub open spec fn delta_line(d: DeltaView) -> Seq<char> {
    "- "@ + d.milestone + (if d.behind {
        " behind "@
    } else {
        " ahead_of "@
    }) + d.target + ": "@ + d.by.text()
}

/// The relation lines for indices `t - 1` down to `0`, one per line; the
/// stored list is walked in reverse so the output reads oldest first.
pub open spec fn deltas_rev_text(ds: Seq<DeltaView>, t: int) -> Seq<char>
    decreases t,
{
    if t <= 0 {
        Seq::empty()
    } else {
        "\n"@ + delta_line(ds[t - 1]) + deltas_rev_text(ds, t - 1)
    }
}

/// A schedule: its phases, then its relations, oldest first.
pub open spec fn schedule_text(s: ScheduleView) -> Seq<char> {
    "## Phases & Milestones"@ + phases_block(s.phases) + "\n## Baseline Deltas"@ + deltas_rev_text(
        s.deltas,
        s.deltas.len() as int,
    )
}

/// The status section: the computed phases, or nothing while no status has
/// been computed.
pub open spec fn status_text(status: Option<Seq<PhaseView>>) -> Seq<char> {
    match status {
        None => Seq::empty(),
        Some(ps) => phases_block(ps),
    }
}

/// A whole document: kind, metadata as YAML, the schedule template, and the
/// computed status phases.
pub open spec fn document_text(d: DocumentView) -> Seq<char> {
    "# Kind\nkind: "@ + d.kind + "\n\n# Metadata\n"@ + yaml_map_text_of(d.metadata)
        + "\n# Spec\n"@ + schedule_text(d.spec) + "\n\n# Status\n## Phases & Milestones"@
        + status_text(d.status)
}

/// A milestone renders only when any due date it carries is within the
/// calendar library's range.
pub open spec fn milestone_renderable(m: MilestoneView) -> bool {
    match m.due_date {
        Some(d) => -CAL_DAY_BOUND <= d <= CAL_DAY_BOUND,
        None => true,
    }
}

/// Every milestone of every phase is renderable.
pub open spec fn phases_renderable(ps: Seq<PhaseView>) -> bool {
    forall|i: int, j: int|
        0 <= i < ps.len() && 0 <= j < ps[i].milestones.len() ==> milestone_renderable(
            #[trigger] ps[i].milestones[j],
        )
}

/// A schedule renders when its phases do and no relation's duration count
/// sits at the far end of the 64-bit range.
pub open spec fn schedule_renderable(s: ScheduleView) -> bool {
    &&& phases_renderable(s.phases)
    &&& forall|k: int| 0 <= k < s.deltas.len() ==> (#[trigger] s.deltas[k]).by.unit_count()
        > i64::MIN
}

/// A document renders when its template schedule and its status phases do.
pub open spec fn document_renderable(d: DocumentView) -> bool {
    &&& schedule_renderable(d.spec)
    &&& match d.status {
        Some(ps) => phases_renderable(ps),
        None => true,
    }
}

/// Decides whether every milestone of every phase is renderable.
#[verifier::loop_isolation(false)]
fn check_phases_renderable(phases: &Vec<Phase>) -> (b: bool)
    ensures
        b == phases_renderable(phases@.map_values(|p: Phase| p@)),
{
    let ghost pvs = phases@.map_values(|p: Phase| p@);
    let mut i: usize = 0;
    while i < phases.len()
        invariant
            0 <= i <= pvs.len(),
            forall|t: int, j: int|
                0 <= t < i as int && 0 <= j < pvs[t].milestones.len() ==> milestone_renderable(
                    #[trigger] pvs[t].milestones[j],
                ),
        decreases pvs.len() - i,
    {
        let ms = &phases[i].milestones;
        let ghost pv = pvs[i as int];
        proof {
            assert(pv == phases@[i as int]@);
        }
        let mut j: usize = 0;
        while j < ms.len()
            invariant
                0 <= j <= pv.milestones.len(),
                ms@.map_values(|m: Milestone| m@) == pv.milestones,
                forall|u: int|
                    0 <= u < j as int ==> milestone_renderable(#[trigger] pv.milestones[u]),
            decreases pv.milestones.len() - j,
        {
            proof {
                assert(pv.milestones[j as int] == ms@[j as int]@);
            }
            match ms[j].due_date {
                Some(d) => {
                    if d.days < -CAL_DAY_BOUND || d.days > CAL_DAY_BOUND {
                        proof {
                            assert(!milestone_renderable(pv.milestones[j as int]));
                        }
                        return false;
                    }
                },
                None => {},
            }
            j = j + 1;
        }
        i = i + 1;
    }
    true
}

impl Document {
    /// Decides the renderer's precondition: every due date, in the template
    /// and in the status, is within the calendar library's range, and no
    /// relation's duration count sits at the far end of the 64-bit range.
    #[verifier::loop_isolation(false)]
    pub fn check_renderable(&self) -> (b: bool)
        ensures
            b == document_renderable(self@),
    {
        if !check_phases_renderable(&self.spec.phases) {
            return false;
        }
        let mut k: usize = 0;
        let ghost dvs = self.spec@.deltas;
        while k < self.spec.milestone_deltas.len()
            invariant
                0 <= k <= dvs.len(),
                forall|t: int|
                    0 <= t < k as int ==> (#[trigger] dvs[t]).by.unit_count() > i64::MIN,
            decreases dvs.len() - k,
        {
            proof {
                assert(dvs[k as int] == self.spec.milestone_deltas@[k as int]@);
            }
            let by = match &self.spec.milestone_deltas[k] {
                MilestoneDelta::Behind { by, .. } => *by,
                MilestoneDelta::AheadOf { by, .. } => *by,
            };
            let unit = match by {
                crate::duration::SimpleDuration::Weeks { weeks } => weeks,
                crate::duration::SimpleDuration::Sprints { sprints } => sprints,
            };
            if unit == i64::MIN {
                proof {
                    assert(!schedule_renderable(self.spec@));
                }
                return false;
            }
            k = k + 1;
        }
        match &self.status {
            None => true,
            Some(st) => check_phases_renderable(&st.phases),
        }
    }
}

/// The plain-text renderer for documents and schedules.
pub struct TextSchedule {}

impl TextSchedule {
    /// A fresh renderer.
    pub fn new() -> (t: TextSchedule) {
        TextSchedule {  }
    }

    /// One milestone line, with the placeholder for an unset due date.
    fn visit_milestone(&self, m: &Milestone) -> (s: String)
        requires
            milestone_renderable(m@),
        ensures
            s@ == milestone_line(m@),
    {
        let due = match m.due_date {
            None => String::from_str("????-??-?? ???"),
            Some(d) => date_text(d),
        };
        let mut s = String::from_str("  -  ");
        s.append(due.as_str());
        s.append("   ");
        s.append(m.alias.as_str());
        s.append("   ");
        s.append(m.name.as_str());
        proof {
            assert(s@ =~= milestone_line(m@));
        }
        s
    }

    /// The generator summary: its count, then its name.
    fn visit_milestone_generator(&self, g: &MilestoneGenerator) -> (s: String)
        ensures
            s@ == crate::numfmt::dec_digits(g@.count) + "x "@ + g@.name,
    {
        let mut s = crate::numfmt::u64_to_dec_string(g.count as u64);
        s.append("x ");
        s.append(g.name.as_str());
        proof {
            assert(s@ =~= crate::numfmt::dec_digits(g@.count) + "x "@ + g@.name);
        }
        s
    }

    /// A phase and its milestones.
    #[verifier::loop_isolation(false)]
    fn visit_phase(&self, p: &Phase) -> (s: String)
        requires
            forall|j: int|
                0 <= j < p@.milestones.len() ==> milestone_renderable(#[trigger] p@.milestones[j]),
        ensures
            s@ == phase_text(p@),
    {
        let ghost msv = p@.milestones;
        let mut s = String::from_str("- ");
        s.append(p.name.as_str());
        let mut j: usize = 0;
        proof {
            assert(msv.skip(0) =~= msv);
        }
        while j < p.milestones.len()
            invariant
                msv == p@.milestones,
                0 <= j <= msv.len(),
                phase_text(p@) == s@ + milestones_text(msv.skip(j as int)),
            decreases msv.len() - j,
        {
            proof {
                assert(msv.skip(j as int)[0] == msv[j as int]);
                assert(msv.skip(j as int).drop_first() =~= msv.skip(j as int + 1));
                assert(p@.milestones[j as int] == p.milestones@[j as int]@);
            }
            let line = self.visit_milestone(&p.milestones[j]);
            s.append("\n");
            s.append(line.as_str());
            proof {
                assert(phase_text(p@) =~= s@ + milestones_text(msv.skip(j as int + 1)));
            }
            j = j + 1;
        }
        proof {
            assert(milestones_text(msv.skip(msv.len() as int)) =~= Seq::<char>::empty());
            assert(phase_text(p@) =~= s@);
        }
        s
    }

    /// One relation line.
    fn visit_delta(&self, d: &MilestoneDelta) -> (s: String)
        requires
            d@.by.unit_count() > i64::MIN,
        ensures
            s@ == delta_line(d@),
    {
        let (m, t, by): (&String, &String, &crate::duration::SimpleDuration) = match d {
            MilestoneDelta::Behind { milestone, behind, by } => (milestone, behind, by),
            MilestoneDelta::AheadOf { milestone, ahead_of, by } => (milestone, ahead_of, by),
        };
        let mut s = String::from_str("- ");
        s.append(m.as_str());
        match d {
            MilestoneDelta::Behind { .. } => s.append(" behind "),
            MilestoneDelta::AheadOf { .. } => s.append(" ahead_of "),
        }
        s.append(t.as_str());
        s.append(": ");
        let dur = by.render();
        s.append(dur.as_str());
        proof {
            assert(s@ =~= delta_line(d@));
        }
        s
    }

    /// A schedule: phases, then relations oldest first.
    #[verifier::loop_isolation(false)]
    fn visit_schedule(&self, sched: &Schedule) -> (s: String)
        requires
            schedule_renderable(sched@),
        ensures
            s@ == schedule_text(sched@),
    {
        let ghost pvs = sched@.phases;
        let ghost dvs = sched@.deltas;
        let mut s = String::from_str("## Phases & Milestones");
        let mut i: usize = 0;
        proof {
            assert(pvs.skip(0) =~= pvs);
        }
        while i < sched.phases.len()
            invariant
                pvs == sched@.phases,
                phases_renderable(pvs),
                0 <= i <= pvs.len(),
                "## Phases & Milestones"@ + phases_block(pvs) == s@ + phases_block(
                    pvs.skip(i as int),
                ),
            decreases pvs.len() - i,
        {
            proof {
                assert(pvs.skip(i as int)[0] == pvs[i as int]);
                assert(pvs.skip(i as int).drop_first() =~= pvs.skip(i as int + 1));
                assert(pvs[i as int] == sched.phases@[i as int]@);
                assert(forall|j: int|
                    0 <= j < pvs[i as int].milestones.len() ==> milestone_renderable(
                        #[trigger] pvs[i as int].milestones[j],
                    ));
            }
            let block = self.visit_phase(&sched.phases[i]);
            s.append("\n");
            s.append(block.as_str());
            s.append("\n");
            proof {
                assert("## Phases & Milestones"@ + phases_block(pvs) =~= s@ + phases_block(
                    pvs.skip(i as int + 1),
                ));
            }
            i = i + 1;
        }
        proof {
            assert(phases_block(pvs.skip(pvs.len() as int)) =~= Seq::<char>::empty());
            assert(s@ =~= "## Phases & Milestones"@ + phases_block(pvs));
        }
        s.append("\n## Baseline Deltas");
        let mut t: usize = sched.milestone_deltas.len();
        proof {
            assert(s@ =~= "## Phases & Milestones"@ + phases_block(pvs) + "\n## Baseline Deltas"@);
        }
        while t > 0
            invariant
                dvs == sched@.deltas,
                0 <= t <= dvs.len(),
                forall|k: int| 0 <= k < dvs.len() ==> (#[trigger] dvs[k]).by.unit_count()
                    > i64::MIN,
                schedule_text(sched@) == s@ + deltas_rev_text(dvs, t as int),
            decreases t,
        {
            t = t - 1;
            proof {
                assert(dvs[t as int] == sched.milestone_deltas@[t as int]@);
            }
            let line = self.visit_delta(&sched.milestone_deltas[t]);
            s.append("\n");
            s.append(line.as_str());
            proof {
                assert(schedule_text(sched@) =~= s@ + deltas_rev_text(dvs, t as int));
            }
        }
        proof {
            assert(schedule_text(sched@) =~= s@);
        }
        s
    }

    /// The whole document.
    #[verifier::loop_isolation(false)]
    fn visit_document(&mut self, doc: &Document) -> (s: String)
        requires
            document_renderable(doc@),
        ensures
            s@ == document_text(doc@),
    {
        let mut s = String::from_str("# Kind\nkind: ");
        s.append(doc.kind.as_str());
        s.append("\n\n# Metadata\n");
        let meta = yaml_of_metadata(&doc.metadata);
        s.append(meta.as_str());
        s.append("\n# Spec\n");
        let sched = self.visit_schedule(&doc.spec);
        s.append(sched.as_str());
        s.append("\n\n# Status\n## Phases & Milestones");
        let ghost before_status = s@;
        proof {
            assert(before_status =~= "# Kind\nkind: "@ + doc@.kind + "\n\n# Metadata\n"@
                + yaml_map_text_of(doc@.metadata) + "\n# Spec\n"@ + schedule_text(doc@.spec)
                + "\n\n# Status\n## Phases & Milestones"@);
        }
        match &doc.status {
            None => {
                proof {
                    assert(s@ =~= document_text(doc@));
                }
            },
            Some(st) => {
                let ghost svs = st@;
                let mut i: usize = 0;
                proof {
                    assert(svs.skip(0) =~= svs);
                }
                while i < st.phases.len()
                    invariant
                        svs == st@,
                        st@ == st.phases@.map_values(|p: Phase| p@),
                        phases_renderable(svs),
                        0 <= i <= svs.len(),
                        before_status + phases_block(svs) == s@ + phases_block(svs.skip(i as int)),
                    decreases svs.len() - i,
                {
                    proof {
                        assert(svs.skip(i as int)[0] == svs[i as int]);
                        assert(svs.skip(i as int).drop_first() =~= svs.skip(i as int + 1));
                        assert(svs[i as int] == st.phases@[i as int]@);
                        assert(forall|j: int|
                            0 <= j < svs[i as int].milestones.len() ==> milestone_renderable(
                                #[trigger] svs[i as int].milestones[j],
                            ));
                    }
                    let block = self.visit_phase(&st.phases[i]);
                    s.append("\n");
                    s.append(block.as_str());
                    s.append("\n");
                    proof {
                        assert(before_status + phases_block(svs) =~= s@ + phases_block(
                            svs.skip(i as int + 1),
                        ));
                    }
                    i = i + 1;
                }
                proof {
                    assert(phases_block(svs.skip(svs.len() as int)) =~= Seq::<char>::empty());
                    assert(s@ =~= before_status + phases_block(svs));
                    assert(s@ =~= document_text(doc@));
                }
            },
        }
        s
    }

    /// Renders the document as plain text.
    pub fn format(&mut self, doc: &Document) -> (s: String)
        requires
            document_renderable(doc@),
        ensures
            s@ == document_text(doc@),
    {
        self.visit_document(doc)
    }
}

/// The formatting facade over the text renderer.
pub struct ScheduleFormatter {}

impl ScheduleFormatter {
    /// Renders the document as plain text.
    pub fn as_text(&self, sched: &Document) -> (s: String)
        requires
            document_renderable(sched@),
        ensures
            s@ == document_text(sched@),
    {
        let mut text = TextSchedule::new();
        text.format(sched)
    }
}

} // verus!
