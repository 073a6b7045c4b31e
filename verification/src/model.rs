//! The schedule data model: milestones, generators, phases, schedules and
//! documents, together with the mathematical views that the planning and
//! rendering contracts are stated over.

use crate::date::{Date, DAY_BOUND};
use crate::delta::{DeltaView, MilestoneDelta};
use crate::duration::DUR_UNIT_BOUND;
use crate::numfmt::dec_digits;
use vstd::prelude::*;

verus! {

/// Bound on the `count` of a well-formed milestone generator.
pub const GEN_COUNT_BOUND: u32 = 0x1000_0000;

/// Bound on how many relations a well-formed schedule may hold once its
/// generators have run. Together with the bounds on durations and dates it
/// keeps the planning pass free of 64-bit overflow.
pub const DELTAS_LEN_BOUND: usize = 0x100_0000;

/// A named, aliased point in time with an optional due date. The alias is
/// the stable identifier that relations refer to; the name is display text.
#[derive(Debug)]
pub struct Milestone {
    pub name: String,
    pub alias: String,
    pub due_date: Option<Date>,
}

/// The mathematical content of a milestone: its two identifying strings and
/// its due date as a day number, when set.
pub ghost struct MilestoneView {
    pub name: Seq<char>,
    pub alias: Seq<char>,
    pub due_date: Option<int>,
}

impl MilestoneView {
    /// Whether the query string matches this milestone, by alias or name.
    pub open spec fn matches(self, q: Seq<char>) -> bool {
        self.alias == q || self.name == q
    }

    /// A set due date stays within the planner's day-number bound.
    pub open spec fn date_wf(self) -> bool {
        match self.due_date {
            Some(d) => -DAY_BOUND <= d <= DAY_BOUND,
            None => true,
        }
    }
}

impl View for Milestone {
    type V = MilestoneView;

    open spec fn view(&self) -> MilestoneView {
        MilestoneView {
            name: self.name@,
            alias: self.alias@,
            due_date: match self.due_date {
                Some(d) => Some(d.days as int),
                None => None,
            },
        }
    }
}

impl Clone for Milestone {
    fn clone(&self) -> (res: Self)
        ensures
            res@ == self@,
    {
        Milestone { name: self.name.clone(), alias: self.alias.clone(), due_date: self.due_date }
    }
}

impl Milestone {
    /// A milestone with the given display name and alias and no due date.
    pub fn new(name: &str, alias: &str) -> (m: Milestone)
        ensures
            m@ == (MilestoneView { name: name@, alias: alias@, due_date: None }),
    {
        Milestone {
            name: String::from_str(name),
            alias: String::from_str(alias),
            due_date: None,
        }
    }
}

/// A declarative template that expands into `count` milestones, each with a
/// relation tying it to the template relation's target.
#[derive(Debug)]
pub struct MilestoneGenerator {
    pub name: String,
    pub count: u32,
    pub delta_template: MilestoneDelta,
    pub milestone_template: Milestone,
}

/// The mathematical content of a generator.
pub ghost struct GeneratorView {
    pub name: Seq<char>,
    pub count: nat,
    pub delta: DeltaView,
    pub template: MilestoneView,
}

impl GeneratorView {
    /// The milestone produced for 1-based index `i`: the template's alias and
    /// name with the decimal index appended, and no due date.
    pub open spec fn expanded_milestone(self, i: int) -> MilestoneView {
        MilestoneView {
            alias: self.template.alias + dec_digits(i as nat),
            name: self.template.name + dec_digits(i as nat),
            due_date: None,
        }
    }

    /// The relation produced for 1-based index `i`: the generated milestone,
    /// the template relation's target and direction, and the template's
    /// duration scaled by `i`.
    pub open spec fn expanded_delta(self, i: int) -> DeltaView {
        DeltaView {
            milestone: self.template.alias + dec_digits(i as nat),
            target: self.delta.target,
            behind: self.delta.behind,
            by: self.delta.by.scaled(i),
        }
    }

    /// All milestones the generator produces, for indices 1 through `count`.
    pub open spec fn expanded_milestones(self) -> Seq<MilestoneView> {
        Seq::new(self.count, |i: int| self.expanded_milestone(i + 1))
    }

    /// All relations the generator produces, for indices 1 through `count`.
    pub open spec fn expanded_deltas(self) -> Seq<DeltaView> {
        Seq::new(self.count, |i: int| self.expanded_delta(i + 1))
    }

    /// A well-formed generator has a bounded count and a duration that stays
    /// well-formed under every scaling the expansion applies.
    pub open spec fn wf(self) -> bool {
        &&& self.delta.wf()
        &&& self.count <= GEN_COUNT_BOUND
        &&& abs(self.delta.by.unit_count()) * self.count <= DUR_UNIT_BOUND
    }
}

/// The absolute value of an integer.
pub open spec fn abs(n: int) -> int {
    if n < 0 {
        -n
    } else {
        n
    }
}

impl View for MilestoneGenerator {
    type V = GeneratorView;

    open spec fn view(&self) -> GeneratorView {
        GeneratorView {
            name: self.name@,
            count: self.count as nat,
            delta: self.delta_template@,
            template: self.milestone_template@,
        }
    }
}

impl Clone for MilestoneGenerator {
    fn clone(&self) -> (res: Self)
        ensures
            res@ == self@,
    {
        MilestoneGenerator {
            name: self.name.clone(),
            count: self.count,
            delta_template: self.delta_template.clone(),
            milestone_template: self.milestone_template.clone(),
        }
    }
}

/// A named grouping of milestones, optionally owning generators that run
/// before the schedule is planned.
#[derive(Debug)]
pub struct Phase {
    pub name: String,
    pub milestones: Vec<Milestone>,
    pub milestone_generators: Option<Vec<MilestoneGenerator>>,
}

/// The mathematical content of a phase. A phase without a generator list is
/// viewed the same as one with an empty list: the two plan and render alike.
pub ghost struct PhaseView {
    pub name: Seq<char>,
    pub milestones: Seq<MilestoneView>,
    pub generators: Seq<GeneratorView>,
}

impl PhaseView {
    /// Every generator of the phase is well-formed.
    pub open spec fn gens_wf(self) -> bool {
        forall|k: int| 0 <= k < self.generators.len() ==> (#[trigger] self.generators[k]).wf()
    }

    /// Every set due date in the phase is within the planner's bound.
    pub open spec fn dates_wf(self) -> bool {
        forall|j: int| 0 <= j < self.milestones.len() ==> (#[trigger] self.milestones[j]).date_wf()
    }
}

impl View for Phase {
    type V = PhaseView;

    open spec fn view(&self) -> PhaseView {
        PhaseView {
            name: self.name@,
            milestones: self.milestones@.map_values(|m: Milestone| m@),
            generators: match self.milestone_generators {
                Some(gens) => gens@.map_values(|g: MilestoneGenerator| g@),
                None => Seq::empty(),
            },
        }
    }
}

impl Clone for Phase {
    fn clone(&self) -> (res: Self)
        ensures
            res@ == self@,
    {
        let res = Phase {
            name: self.name.clone(),
            milestones: self.milestones.clone(),
            milestone_generators: match &self.milestone_generators {
                Some(gens) => Some(gens.clone()),
                None => None,
            },
        };
        proof {
            assert(res@.milestones =~= self@.milestones);
            assert(res@.generators =~= self@.generators);
        }
        res
    }
}

/// The aggregate graph: all phases (the nodes live in their milestone lists)
/// plus the flat list of relations (the edges).
#[derive(Debug)]
pub struct Schedule {
    pub phases: Vec<Phase>,
    pub milestone_deltas: Vec<MilestoneDelta>,
}

/// The mathematical content of a schedule.
pub ghost struct ScheduleView {
    pub phases: Seq<PhaseView>,
    pub deltas: Seq<DeltaView>,
}

impl View for Schedule {
    type V = ScheduleView;

    open spec fn view(&self) -> ScheduleView {
        ScheduleView {
            phases: self.phases@.map_values(|p: Phase| p@),
            deltas: self.milestone_deltas@.map_values(|d: MilestoneDelta| d@),
        }
    }
}

impl Clone for Schedule {
    fn clone(&self) -> (res: Self)
        ensures
            res@ == self@,
    {
        let res = Schedule {
            phases: self.phases.clone(),
            milestone_deltas: self.milestone_deltas.clone(),
        };
        proof {
            assert(res@.phases =~= self@.phases);
            assert(res@.deltas =~= self@.deltas);
        }
        res
    }
}

/// All milestones produced by a list of generators, in generator order.
pub open spec fn gens_expanded_milestones(gens: Seq<GeneratorView>) -> Seq<MilestoneView>
    decreases gens.len(),
{
    if gens.len() == 0 {
        Seq::empty()
    } else {
        gens[0].expanded_milestones() + gens_expanded_milestones(gens.drop_first())
    }
}

/// All relations produced by a list of generators, in generator order.
pub open spec fn gens_expanded_deltas(gens: Seq<GeneratorView>) -> Seq<DeltaView>
    decreases gens.len(),
{
    if gens.len() == 0 {
        Seq::empty()
    } else {
        gens[0].expanded_deltas() + gens_expanded_deltas(gens.drop_first())
    }
}

impl PhaseView {
    /// The phase after its generators have run: generated milestones are
    /// appended to the milestone list; everything else is unchanged.
    pub open spec fn generated(self) -> PhaseView {
        PhaseView {
            name: self.name,
            milestones: self.milestones + gens_expanded_milestones(self.generators),
            generators: self.generators,
        }
    }

    /// The relations the phase's generators contribute to the schedule.
    pub open spec fn generated_deltas(self) -> Seq<DeltaView> {
        gens_expanded_deltas(self.generators)
    }
}

/// The relations contributed by the generators of each phase, in phase order.
pub open spec fn phases_generated_deltas(phases: Seq<PhaseView>) -> Seq<DeltaView>
    decreases phases.len(),
{
    if phases.len() == 0 {
        Seq::empty()
    } else {
        phases[0].generated_deltas() + phases_generated_deltas(phases.drop_first())
    }
}

impl ScheduleView {
    /// The schedule after generation: each phase expanded, and the generated
    /// relations appended (in phase order) after the declared ones.
    pub open spec fn generated(self) -> ScheduleView {
        ScheduleView {
            phases: self.phases.map_values(|p: PhaseView| p.generated()),
            deltas: self.deltas + phases_generated_deltas(self.phases),
        }
    }
}

impl MilestoneGenerator {
    /// Expands the generator: for each 1-based index up to `count`, one new
    /// milestone (template alias and name with the index appended, no due
    /// date) and one relation (template target and direction, duration
    /// scaled by the index).
    fn generate_milestones(&self) -> (r: (Vec<MilestoneDelta>, Vec<Milestone>))
        requires
            self@.wf(),
        ensures
            r.0@.map_values(|d: MilestoneDelta| d@) == self@.expanded_deltas(),
            r.1@.map_values(|m: Milestone| m@) == self@.expanded_milestones(),
    {
        let ghost gv = self@;
        let mut deltas: Vec<MilestoneDelta> = Vec::new();
        let mut milestones: Vec<Milestone> = Vec::new();
        let mut counter: u32 = 1;
        proof {
            assert(milestones@.map_values(|m: Milestone| m@) =~= Seq::new(
                0,
                |i: int| gv.expanded_milestone(i + 1),
            ));
            assert(deltas@.map_values(|d: MilestoneDelta| d@) =~= Seq::new(
                0,
                |i: int| gv.expanded_delta(i + 1),
            ));
        }
        while counter <= self.count
            invariant
                gv == self@,
                gv.wf(),
                1 <= counter <= self.count + 1,
                milestones@.map_values(|m: Milestone| m@) == Seq::new(
                    (counter - 1) as nat,
                    |i: int| gv.expanded_milestone(i + 1),
                ),
                deltas@.map_values(|d: MilestoneDelta| d@) == Seq::new(
                    (counter - 1) as nat,
                    |i: int| gv.expanded_delta(i + 1),
                ),
            decreases self.count + 1 - counter,
        {
            let idx_str = crate::numfmt::u64_to_dec_string(counter as u64);
            let mut alias = self.milestone_template.alias.clone();
            alias.append(idx_str.as_str());
            let mut name = self.milestone_template.name.clone();
            name.append(idx_str.as_str());

            proof {
                assert(abs(gv.delta.by.unit_count()) * gv.count <= DUR_UNIT_BOUND);
                assert(-DUR_UNIT_BOUND <= gv.delta.by.unit_count() * counter <= DUR_UNIT_BOUND)
                    by (nonlinear_arith)
                    requires
                        abs(gv.delta.by.unit_count()) * gv.count <= DUR_UNIT_BOUND,
                        1 <= counter <= gv.count,
                        DUR_UNIT_BOUND > 0,
                ;
            }
            let new_delta = match &self.delta_template {
                MilestoneDelta::Behind { behind, by, .. } => MilestoneDelta::Behind {
                    milestone: alias.clone(),
                    behind: behind.clone(),
                    by: by.scaled(counter as i64),
                },
                MilestoneDelta::AheadOf { ahead_of, by, .. } => MilestoneDelta::AheadOf {
                    milestone: alias.clone(),
                    ahead_of: ahead_of.clone(),
                    by: by.scaled(counter as i64),
                },
            };
            let new_ms = Milestone { name, alias, due_date: None };

            proof {
                assert(new_ms@ == gv.expanded_milestone(counter as int));
                assert(new_delta@ == gv.expanded_delta(counter as int));
            }
            let ghost ms_old = milestones@;
            let ghost ds_old = deltas@;
            milestones.push(new_ms);
            deltas.push(new_delta);
            proof {
                assert(milestones@ == ms_old.push(new_ms));
                assert(ms_old.map_values(|m: Milestone| m@) == Seq::new(
                    (counter - 1) as nat,
                    |i: int| gv.expanded_milestone(i + 1),
                ));
                assert(ms_old.map_values(|m: Milestone| m@).len() == counter as int - 1);
                assert(ms_old.len() == counter as int - 1);
                assert(milestones@.len() == counter as int);
                assert(deltas@ == ds_old.push(new_delta));
                assert(ds_old.map_values(|d: MilestoneDelta| d@) == Seq::new(
                    (counter - 1) as nat,
                    |i: int| gv.expanded_delta(i + 1),
                ));
                assert(ds_old.map_values(|d: MilestoneDelta| d@).len() == counter as int - 1);
                assert(ds_old.len() == counter as int - 1);
                assert(deltas@.len() == counter as int);
                assert forall|i: int| 0 <= i < counter as int implies milestones@.map_values(
                    |m: Milestone| m@,
                )[i] == #[trigger] gv.expanded_milestone(i + 1) by {
                    if i < counter as int - 1 {
                        assert(milestones@[i] == ms_old[i]);
                        assert(ms_old.map_values(|m: Milestone| m@)[i] == ms_old[i]@);
                    } else {
                        assert(milestones@[i] == new_ms);
                    }
                }
                assert forall|i: int| 0 <= i < counter as int implies deltas@.map_values(
                    |d: MilestoneDelta| d@,
                )[i] == #[trigger] gv.expanded_delta(i + 1) by {
                    if i < counter as int - 1 {
                        assert(deltas@[i] == ds_old[i]);
                        assert(ds_old.map_values(|d: MilestoneDelta| d@)[i] == ds_old[i]@);
                    } else {
                        assert(deltas@[i] == new_delta);
                    }
                }
                assert(milestones@.map_values(|m: Milestone| m@) =~= Seq::new(
                    counter as nat,
                    |i: int| gv.expanded_milestone(i + 1),
                ));
                assert(deltas@.map_values(|d: MilestoneDelta| d@) =~= Seq::new(
                    counter as nat,
                    |i: int| gv.expanded_delta(i + 1),
                ));
            }
            counter = counter + 1;
        }
        proof {
            assert(milestones@.map_values(|m: Milestone| m@) =~= gv.expanded_milestones());
            assert(deltas@.map_values(|d: MilestoneDelta| d@) =~= gv.expanded_deltas());
        }
        (deltas, milestones)
    }
}

impl Phase {
    /// Runs every generator of the phase, appending the generated milestones
    /// to the phase and returning the generated relations.
    pub(crate) fn generate_milestones(&mut self) -> (deltas: Vec<MilestoneDelta>)
        requires
            old(self)@.gens_wf(),
        ensures
            final(self)@ == old(self)@.generated(),
            deltas@.map_values(|d: MilestoneDelta| d@) == old(self)@.generated_deltas(),
    {
        let ghost pv = old(self)@;
        let mut more_deltas: Vec<MilestoneDelta> = Vec::new();
        let mut milestones: Vec<Milestone> = Vec::new();

        match &self.milestone_generators {
            None => {
                proof {
                    assert(final(self)@ =~= pv.generated());
                    assert(more_deltas@.map_values(|d: MilestoneDelta| d@) =~= pv.generated_deltas());
                }
                return more_deltas;
            },
            Some(gens) => {
                let ghost gvs = pv.generators;
                let mut k: usize = 0;
                proof {
                    assert(gvs =~= gvs.skip(0));
                }
                while k < gens.len()
                    invariant
                        gens@.map_values(|g: MilestoneGenerator| g@) == gvs,
                        pv.gens_wf(),
                        gvs == pv.generators,
                        0 <= k <= gens.len(),
                        gens_expanded_milestones(gvs) == milestones@.map_values(|m: Milestone| m@)
                            + gens_expanded_milestones(gvs.skip(k as int)),
                        gens_expanded_deltas(gvs) == more_deltas@.map_values(
                            |d: MilestoneDelta| d@,
                        ) + gens_expanded_deltas(gvs.skip(k as int)),
                    decreases gens.len() - k,
                {
                    let (mut d, mut m) = gens[k].generate_milestones();
                    proof {
                        assert(gvs.skip(k as int)[0] == gvs[k as int]);
                        assert(gvs.skip(k as int).drop_first() =~= gvs.skip(k as int + 1));
                    }
                    let ghost old_ms = milestones@;
                    let ghost old_ds = more_deltas@;
                    milestones.append(&mut m);
                    more_deltas.append(&mut d);
                    proof {
                        assert(milestones@.map_values(|mm: Milestone| mm@) =~= old_ms.map_values(
                            |mm: Milestone| mm@,
                        ) + gvs[k as int].expanded_milestones());
                        assert(more_deltas@.map_values(|dd: MilestoneDelta| dd@) =~= old_ds
                            .map_values(|dd: MilestoneDelta| dd@) + gvs[
                            k as int].expanded_deltas());
                        assert(gens_expanded_milestones(gvs) =~= milestones@.map_values(
                            |mm: Milestone| mm@,
                        ) + gens_expanded_milestones(gvs.skip(k as int + 1)));
                        assert(gens_expanded_deltas(gvs) =~= more_deltas@.map_values(
                            |dd: MilestoneDelta| dd@,
                        ) + gens_expanded_deltas(gvs.skip(k as int + 1)));
                    }
                    k = k + 1;
                }
                proof {
                    assert(gvs.skip(gens@.len() as int) =~= Seq::<GeneratorView>::empty());
                    assert(gens_expanded_milestones(gvs) =~= milestones@.map_values(
                        |m: Milestone| m@,
                    ));
                    assert(gens_expanded_deltas(gvs) =~= more_deltas@.map_values(
                        |d: MilestoneDelta| d@,
                    ));
                }
            },
        }

        self.milestones.append(&mut milestones);
        proof {
            assert(final(self)@.milestones =~= pv.generated().milestones);
            assert(final(self)@ =~= pv.generated());
        }
        more_deltas
    }
}

impl ScheduleView {
    /// Every generator in every phase is well-formed.
    pub open spec fn gens_wf(self) -> bool {
        forall|i: int| 0 <= i < self.phases.len() ==> (#[trigger] self.phases[i]).gens_wf()
    }

    /// Every set due date in every phase is within the planner's bound.
    pub open spec fn dates_wf(self) -> bool {
        forall|i: int| 0 <= i < self.phases.len() ==> (#[trigger] self.phases[i]).dates_wf()
    }

    /// Every declared relation carries a well-formed duration.
    pub open spec fn deltas_wf(self) -> bool {
        forall|i: int| 0 <= i < self.deltas.len() ==> (#[trigger] self.deltas[i]).wf()
    }

    /// A schedule the planner accepts: well-formed generators, durations and
    /// dates, and few enough relations (once generated) that the planning
    /// pass cannot overflow its day arithmetic.
    pub open spec fn wf(self) -> bool {
        &&& self.gens_wf()
        &&& self.dates_wf()
        &&& self.deltas_wf()
        &&& self.generated().deltas.len() <= DELTAS_LEN_BOUND
    }
}

/// The computed snapshot stored on a document after planning: the phases of
/// the planned schedule, with due dates filled in where they could be
/// derived.
#[derive(Debug)]
pub struct DocumentStatus {
    pub phases: Vec<Phase>,
}

impl View for DocumentStatus {
    type V = Seq<PhaseView>;

    open spec fn view(&self) -> Seq<PhaseView> {
        self.phases@.map_values(|p: Phase| p@)
    }
}

impl Clone for DocumentStatus {
    fn clone(&self) -> (res: Self)
        ensures
            res@ == self@,
    {
        let res = DocumentStatus { phases: self.phases.clone() };
        proof {
            assert(res@ =~= self@);
        }
        res
    }
}

/// The persisted unit: a kind tag, free-form metadata, the user-authored
/// schedule template (`spec`), and the computed snapshot (`status`), absent
/// until the first planning run.
#[derive(Debug)]
pub struct Document {
    pub kind: String,
    pub metadata: Vec<(String, String)>,
    pub spec: Schedule,
    pub status: Option<DocumentStatus>,
}

/// The mathematical content of a document.
pub ghost struct DocumentView {
    pub kind: Seq<char>,
    pub metadata: Seq<(Seq<char>, Seq<char>)>,
    pub spec: ScheduleView,
    pub status: Option<Seq<PhaseView>>,
}

impl View for Document {
    type V = DocumentView;

    open spec fn view(&self) -> DocumentView {
        DocumentView {
            kind: self.kind@,
            metadata: self.metadata@.map_values(|kv: (String, String)| (kv.0@, kv.1@)),
            spec: self.spec@,
            status: match &self.status {
                Some(st) => Some(st@),
                None => None,
            },
        }
    }
}

impl Clone for Document {
    fn clone(&self) -> (res: Self)
        ensures
            res@ == self@,
    {
        let mut metadata: Vec<(String, String)> = Vec::new();
        let mut i: usize = 0;
        while i < self.metadata.len()
            invariant
                0 <= i <= self.metadata@.len(),
                metadata@.map_values(|kv: (String, String)| (kv.0@, kv.1@)) == self.metadata@.map_values(
                    |kv: (String, String)| (kv.0@, kv.1@),
                ).take(i as int),
            decreases self.metadata@.len() - i,
        {
            let pair = &self.metadata[i];
            let key = pair.0.clone();
            let value = pair.1.clone();
            let ghost md_old = metadata@;
            metadata.push((key, value));
            proof {
                assert(md_old.map_values(|kv: (String, String)| (kv.0@, kv.1@)).len()
                    == i as int);
                assert(md_old.len() == i as int);
                assert(metadata@.len() == i as int + 1);
                assert forall|t: int| #![trigger metadata@[t]] 0 <= t <= i as int implies metadata@.map_values(
                    |kv: (String, String)| (kv.0@, kv.1@),
                )[t] == self.metadata@.map_values(|kv: (String, String)| (kv.0@, kv.1@))[t] by {
                    if t < i as int {
                        assert(metadata@[t] == md_old[t]);
                        assert(md_old.map_values(|kv: (String, String)| (kv.0@, kv.1@))[t]
                            == (md_old[t].0@, md_old[t].1@));
                        assert(self.metadata@.map_values(|kv: (String, String)| (kv.0@, kv.1@)).take(
                            i as int,
                        )[t] == self.metadata@.map_values(
                            |kv: (String, String)| (kv.0@, kv.1@),
                        )[t]);
                    } else {
                        assert(metadata@[t].0@ == self.metadata@[t].0@);
                        assert(metadata@[t].1@ == self.metadata@[t].1@);
                    }
                }
                assert(metadata@.map_values(|kv: (String, String)| (kv.0@, kv.1@))
                    =~= self.metadata@.map_values(|kv: (String, String)| (kv.0@, kv.1@)).take(
                    i as int + 1,
                ));
            }
            i = i + 1;
        }
        let res = Document {
            kind: self.kind.clone(),
            metadata,
            spec: self.spec.clone(),
            status: match &self.status {
                Some(st) => Some(st.clone()),
                None => None,
            },
        };
        proof {
            assert(res@.metadata =~= self@.metadata);
            assert(res@ =~= self@);
        }
        res
    }
}

/// The index of the first milestone in the list that the query matches, by
/// alias or by name.
pub open spec fn find_in_milestones(ms: Seq<MilestoneView>, q: Seq<char>) -> Option<int>
    decreases ms.len(),
{
    if ms.len() == 0 {
        None
    } else if ms[0].matches(q) {
        Some(0)
    } else {
        match find_in_milestones(ms.drop_first(), q) {
            None => None,
            Some(j) => Some(j + 1),
        }
    }
}

/// The position of the first milestone the query matches, scanning phases in
/// order and each phase's milestones in order.
pub open spec fn find_milestone(phases: Seq<PhaseView>, q: Seq<char>) -> Option<(int, int)>
    decreases phases.len(),
{
    if phases.len() == 0 {
        None
    } else {
        match find_in_milestones(phases[0].milestones, q) {
            Some(j) => Some((0, j)),
            None => match find_milestone(phases.drop_first(), q) {
                None => None,
                Some((i, j)) => Some((i + 1, j)),
            },
        }
    }
}

/// A successful lookup returns indices that are in bounds, and the
/// milestone found there matches the query.
pub proof fn lemma_find_in_milestones_bounds(ms: Seq<MilestoneView>, q: Seq<char>)
    ensures
        find_in_milestones(ms, q) matches Some(j) ==> 0 <= j < ms.len() && ms[j].matches(q),
    decreases ms.len(),
{
    if ms.len() != 0 && !ms[0].matches(q) {
        lemma_find_in_milestones_bounds(ms.drop_first(), q);
    }
}

/// A successful lookup returns a phase index and a milestone index that are
/// in bounds, and the milestone found there matches the query.
pub proof fn lemma_find_milestone_bounds(phases: Seq<PhaseView>, q: Seq<char>)
    ensures
        find_milestone(phases, q) matches Some((i, j)) ==> 0 <= i < phases.len() && 0 <= j
            < phases[i].milestones.len() && phases[i].milestones[j].matches(q),
    decreases phases.len(),
{
    if phases.len() != 0 {
        lemma_find_in_milestones_bounds(phases[0].milestones, q);
        lemma_find_milestone_bounds(phases.drop_first(), q);
    }
}

/// Looks a milestone up by alias or name, returning its phase index and its
/// index within the phase.
pub(crate) fn find_milestone_idx(phases: &Vec<Phase>, q: &String) -> (r: Option<(usize, usize)>)
    ensures
        match r {
            None => find_milestone(phases@.map_values(|p: Phase| p@), q@) is None,
            Some((i, j)) => {
                &&& find_milestone(phases@.map_values(|p: Phase| p@), q@) == Some(
                    (i as int, j as int),
                )
                &&& i < phases@.len()
                &&& j < phases@[i as int].milestones@.len()
            },
        },
{
    let ghost pvs = phases@.map_values(|p: Phase| p@);
    let mut i: usize = 0;
    proof {
        assert(pvs.skip(0) =~= pvs);
    }
    while i < phases.len()
        invariant
            pvs == phases@.map_values(|p: Phase| p@),
            0 <= i <= phases@.len(),
            find_milestone(pvs, q@) == match find_milestone(pvs.skip(i as int), q@) {
                None => None::<(int, int)>,
                Some((a, b)) => Some((a + i, b)),
            },
        decreases phases@.len() - i,
    {
        let ms = &phases[i].milestones;
        let ghost msv = pvs[i as int].milestones;
        let mut j: usize = 0;
        proof {
            assert(msv.skip(0) =~= msv);
        }
        while j < ms.len()
            invariant
                pvs == phases@.map_values(|p: Phase| p@),
                0 <= i < pvs.len(),
                ms == &phases@[i as int].milestones,
                msv == pvs[i as int].milestones,
                msv == ms@.map_values(|m: Milestone| m@),
                0 <= j <= ms@.len(),
                find_milestone(pvs, q@) == match find_milestone(pvs.skip(i as int), q@) {
                    None => None::<(int, int)>,
                    Some((a, b)) => Some((a + i, b)),
                },
                find_in_milestones(msv, q@) == match find_in_milestones(
                    msv.skip(j as int),
                    q@,
                ) {
                    None => None::<int>,
                    Some(b) => Some(b + j),
                },
            decreases ms@.len() - j,
        {
            let m = &ms[j];
            if m.alias.eq(q) || m.name.eq(q) {
                proof {
                    assert(msv.skip(j as int)[0] == msv[j as int]);
                    assert(find_in_milestones(msv.skip(j as int), q@) == Some(0int));
                    assert(find_in_milestones(msv, q@) == Some(j as int));
                    assert(pvs.skip(i as int)[0] == pvs[i as int]);
                    assert(find_milestone(pvs.skip(i as int), q@) == Some((0int, j as int)));
                }
                return Some((i, j));
            }
            proof {
                assert(msv.skip(j as int)[0] == msv[j as int]);
                assert(msv.skip(j as int).drop_first() =~= msv.skip(j as int + 1));
            }
            j = j + 1;
        }
        proof {
            assert(msv.skip(ms@.len() as int) =~= Seq::<MilestoneView>::empty());
            assert(find_in_milestones(msv, q@) is None);
            assert(pvs.skip(i as int)[0] == pvs[i as int]);
            assert(pvs.skip(i as int).drop_first() =~= pvs.skip(i as int + 1));
        }
        i = i + 1;
    }
    proof {
        assert(pvs.skip(phases@.len() as int) =~= Seq::<PhaseView>::empty());
    }
    None
}

/// Generator expansion, spelled out: a generator with count `N` produces
/// exactly `N` milestones, whose aliases are the template's alias with the
/// decimal indices `1` through `N` appended and whose due dates start
/// unset, and exactly `N` relations, each tying the generated milestone to
/// the template relation's target, in the template's direction, by the
/// template's duration scaled by the milestone's index.
pub proof fn lemma_generator_expansion(g: GeneratorView, i: int)
    requires
        0 <= i < g.count,
    ensures
        g.expanded_milestones().len() == g.count,
        g.expanded_deltas().len() == g.count,
        g.expanded_milestones()[i].alias == g.template.alias + dec_digits((i + 1) as nat),
        g.expanded_milestones()[i].name == g.template.name + dec_digits((i + 1) as nat),
        g.expanded_milestones()[i].due_date is None,
        g.expanded_deltas()[i].milestone == g.template.alias + dec_digits((i + 1) as nat),
        g.expanded_deltas()[i].target == g.delta.target,
        g.expanded_deltas()[i].behind == g.delta.behind,
        g.expanded_deltas()[i].by == g.delta.by.scaled(i + 1),
{
}

/// The total count of milestones a list of generators will produce.
pub open spec fn gens_count_sum(gens: Seq<GeneratorView>) -> int
    decreases gens.len(),
{
    if gens.len() == 0 {
        0
    } else {
        gens[0].count + gens_count_sum(gens.drop_first())
    }
}

/// The total count of milestones the generators of a phase list will
/// produce.
pub open spec fn phases_gens_count_sum(phases: Seq<PhaseView>) -> int
    decreases phases.len(),
{
    if phases.len() == 0 {
        0
    } else {
        gens_count_sum(phases[0].generators) + phases_gens_count_sum(phases.drop_first())
    }
}

/// Generator counts are never negative.
pub proof fn lemma_gens_count_sum_nonneg(gens: Seq<GeneratorView>)
    ensures
        gens_count_sum(gens) >= 0,
    decreases gens.len(),
{
    if gens.len() != 0 {
        lemma_gens_count_sum_nonneg(gens.drop_first());
    }
}

/// Generator counts are never negative, phase by phase.
pub proof fn lemma_phases_gens_count_sum_nonneg(phases: Seq<PhaseView>)
    ensures
        phases_gens_count_sum(phases) >= 0,
    decreases phases.len(),
{
    if phases.len() != 0 {
        lemma_gens_count_sum_nonneg(phases[0].generators);
        lemma_phases_gens_count_sum_nonneg(phases.drop_first());
    }
}

/// A generator list expands to exactly as many relations as its counts sum
/// to.
pub proof fn lemma_gens_expanded_deltas_len(gens: Seq<GeneratorView>)
    ensures
        gens_expanded_deltas(gens).len() == gens_count_sum(gens),
    decreases gens.len(),
{
    if gens.len() != 0 {
        lemma_gens_expanded_deltas_len(gens.drop_first());
    }
}

/// The generators of a phase list contribute exactly as many relations as
/// their counts sum to.
pub proof fn lemma_phases_generated_deltas_len(phases: Seq<PhaseView>)
    ensures
        phases_generated_deltas(phases).len() == phases_gens_count_sum(phases),
    decreases phases.len(),
{
    if phases.len() != 0 {
        lemma_gens_expanded_deltas_len(phases[0].generators);
        lemma_phases_generated_deltas_len(phases.drop_first());
    }
}

/// Every milestone a generator list expands to starts without a due date.
pub proof fn lemma_gens_expanded_dates_none(gens: Seq<GeneratorView>)
    ensures
        forall|k: int|
            0 <= k < gens_expanded_milestones(gens).len() ==> (#[trigger] gens_expanded_milestones(
                gens,
            )[k]).due_date is None,
    decreases gens.len(),
{
    if gens.len() != 0 {
        lemma_gens_expanded_dates_none(gens.drop_first());
        assert forall|k: int| 0 <= k < gens_expanded_milestones(gens).len() implies (
        #[trigger] gens_expanded_milestones(gens)[k]).due_date is None by {
            let head = gens[0].expanded_milestones();
            if k < head.len() {
                assert(gens_expanded_milestones(gens)[k] == head[k]);
                assert(head[k] == gens[0].expanded_milestone(k + 1));
            } else {
                assert(gens_expanded_milestones(gens)[k] == gens_expanded_milestones(
                    gens.drop_first(),
                )[k - head.len()]);
            }
        }
    }
}

/// Every relation a well-formed generator expands to carries a well-formed
/// duration: the scaled unit count stays within the duration bound.
pub proof fn lemma_gen_expanded_deltas_wf(g: GeneratorView)
    requires
        g.wf(),
    ensures
        forall|k: int|
            0 <= k < g.expanded_deltas().len() ==> (#[trigger] g.expanded_deltas()[k]).wf(),
{
    assert forall|k: int| 0 <= k < g.expanded_deltas().len() implies (#[trigger] g.expanded_deltas()[k]).wf() by {
        assert(g.expanded_deltas()[k] == g.expanded_delta(k + 1));
        let u = g.delta.by.unit_count();
        assert(g.expanded_delta(k + 1).by.unit_count() == u * (k + 1));
        assert(-DUR_UNIT_BOUND <= u * (k + 1) <= DUR_UNIT_BOUND) by (nonlinear_arith)
            requires
                abs(u) * g.count <= DUR_UNIT_BOUND,
                0 <= k < g.count,
                DUR_UNIT_BOUND > 0,
        ;
    }
}

/// Every relation a list of well-formed generators expands to is well-formed.
pub proof fn lemma_gens_expanded_deltas_wf(gens: Seq<GeneratorView>)
    requires
        forall|t: int| 0 <= t < gens.len() ==> (#[trigger] gens[t]).wf(),
    ensures
        forall|k: int|
            0 <= k < gens_expanded_deltas(gens).len() ==> (#[trigger] gens_expanded_deltas(
                gens,
            )[k]).wf(),
    decreases gens.len(),
{
    if gens.len() != 0 {
        lemma_gens_expanded_deltas_wf(gens.drop_first());
        lemma_gen_expanded_deltas_wf(gens[0]);
        assert forall|k: int| 0 <= k < gens_expanded_deltas(gens).len() implies (
        #[trigger] gens_expanded_deltas(gens)[k]).wf() by {
            let head = gens[0].expanded_deltas();
            if k < head.len() {
                assert(gens_expanded_deltas(gens)[k] == head[k]);
            } else {
                assert(gens_expanded_deltas(gens)[k] == gens_expanded_deltas(gens.drop_first())[k
                    - head.len()]);
            }
        }
    }
}

/// Every relation the generators of a list of well-formed phases contribute
/// is well-formed.
pub proof fn lemma_phases_generated_deltas_wf(phases: Seq<PhaseView>)
    requires
        forall|t: int| 0 <= t < phases.len() ==> (#[trigger] phases[t]).gens_wf(),
    ensures
        forall|k: int|
            0 <= k < phases_generated_deltas(phases).len() ==> (#[trigger] phases_generated_deltas(
                phases,
            )[k]).wf(),
    decreases phases.len(),
{
    if phases.len() != 0 {
        lemma_phases_generated_deltas_wf(phases.drop_first());
        lemma_gens_expanded_deltas_wf(phases[0].generators);
        assert forall|k: int| 0 <= k < phases_generated_deltas(phases).len() implies (
        #[trigger] phases_generated_deltas(phases)[k]).wf() by {
            let head = phases[0].generated_deltas();
            if k < head.len() {
                assert(phases_generated_deltas(phases)[k] == head[k]);
            } else {
                assert(phases_generated_deltas(phases)[k] == phases_generated_deltas(
                    phases.drop_first(),
                )[k - head.len()]);
            }
        }
    }
}

impl Schedule {
    /// Runs every phase's generators, appending the generated milestones to
    /// their phases and the generated relations (in phase order) after the
    /// declared ones.
    pub fn generate(&mut self)
        requires
            old(self)@.gens_wf(),
        ensures
            final(self)@ == old(self)@.generated(),
    {
        let ghost sv = old(self)@;
        let ghost pvs = sv.phases;
        let mut i: usize = 0;
        proof {
            assert(pvs.skip(0) =~= pvs);
        }
        while i < self.phases.len()
            invariant
                sv.gens_wf(),
                0 <= i <= pvs.len(),
                self.phases@.len() == pvs.len(),
                sv.phases == pvs,
                forall|t: int|
                    0 <= t < i ==> self.phases@.map_values(|p: Phase| p@)[t] == (
                    #[trigger] pvs[t]).generated(),
                forall|t: int|
                    i <= t < pvs.len() ==> self.phases@.map_values(|p: Phase| p@)[t] == (
                    #[trigger] pvs[t]),
                self.milestone_deltas@.map_values(|d: MilestoneDelta| d@)
                    + phases_generated_deltas(pvs.skip(i as int)) == sv.deltas
                    + phases_generated_deltas(pvs),
            decreases pvs.len() - i,
        {
            proof {
                assert(self.phases@.map_values(|p: Phase| p@)[i as int] == self.phases@[i as int]@);
            }
            let mut more_deltas = self.phases[i].generate_milestones();
            let ghost ds_old = self.milestone_deltas@;
            self.milestone_deltas.append(&mut more_deltas);
            proof {
                assert(pvs.skip(i as int)[0] == pvs[i as int]);
                assert(pvs.skip(i as int).drop_first() =~= pvs.skip(i as int + 1));
                assert(self.milestone_deltas@.map_values(|d: MilestoneDelta| d@) =~= ds_old
                    .map_values(|d: MilestoneDelta| d@) + pvs[i as int].generated_deltas());
                assert(self.milestone_deltas@.map_values(|d: MilestoneDelta| d@)
                    + phases_generated_deltas(pvs.skip(i as int + 1)) =~= sv.deltas
                    + phases_generated_deltas(pvs));
                assert forall|t: int| 0 <= t < i as int + 1 implies self.phases@.map_values(
                    |p: Phase| p@,
                )[t] == (#[trigger] pvs[t]).generated() by {
                    assert(self.phases@.map_values(|p: Phase| p@)[t] == self.phases@[t]@);
                }
                assert forall|t: int| i as int + 1 <= t < pvs.len() implies self.phases@.map_values(
                    |p: Phase| p@,
                )[t] == (#[trigger] pvs[t]) by {
                    assert(self.phases@.map_values(|p: Phase| p@)[t] == self.phases@[t]@);
                }
            }
            i = i + 1;
        }
        proof {
            assert(pvs.skip(pvs.len() as int) =~= Seq::<PhaseView>::empty());
            assert(phases_generated_deltas(pvs.skip(pvs.len() as int))
                =~= Seq::<DeltaView>::empty());
            assert(self.milestone_deltas@.map_values(|d: MilestoneDelta| d@)
                + Seq::<DeltaView>::empty() =~= self.milestone_deltas@.map_values(
                |d: MilestoneDelta| d@,
            ));
            assert(self@.deltas =~= sv.generated().deltas);
            assert(self@.phases =~= sv.generated().phases);
            assert(self@ =~= sv.generated());
        }
    }

    /// Decides the planner's well-formedness condition: every due date and
    /// duration within bounds, every generator count bounded, and few
    /// enough relations once the generators have run.
    #[verifier::loop_isolation(false)]
    pub fn check_wf(&self) -> (b: bool)
        ensures
            b == self@.wf(),
    {
        let ghost sv = self@;

        // Dates and generators, phase by phase.
        let mut i: usize = 0;
        while i < self.phases.len()
            invariant
                0 <= i <= sv.phases.len(),
                forall|t: int|
                    0 <= t < i as int ==> (#[trigger] sv.phases[t]).dates_wf()
                        && sv.phases[t].gens_wf(),
            decreases sv.phases.len() - i,
        {
            let ph = &self.phases[i];
            let ghost pv = sv.phases[i as int];
            proof {
                assert(pv == ph@);
            }
            let mut j: usize = 0;
            while j < ph.milestones.len()
                invariant
                    0 <= j <= pv.milestones.len(),
                    ph@ == pv,
                    forall|t: int| 0 <= t < j as int ==> (#[trigger] pv.milestones[t]).date_wf(),
                decreases pv.milestones.len() - j,
            {
                proof {
                    assert(pv.milestones[j as int] == ph.milestones@[j as int]@);
                }
                match ph.milestones[j].due_date {
                    Some(d) => {
                        if d.days < -DAY_BOUND || d.days > DAY_BOUND {
                            proof {
                                assert(!pv.milestones[j as int].date_wf());
                                assert(!pv.dates_wf());
                                assert(!sv.dates_wf());
                            }
                            return false;
                        }
                    },
                    None => {},
                }
                j = j + 1;
            }
            match &ph.milestone_generators {
                None => {},
                Some(gens) => {
                    let mut k: usize = 0;
                    while k < gens.len()
                        invariant
                            0 <= k <= gens@.len(),
                            ph@ == pv,
                            ph.milestone_generators matches Some(gs) && gs@ == gens@,
                            pv.generators == gens@.map_values(|g: MilestoneGenerator| g@),
                            forall|t: int|
                                0 <= t < k as int ==> (#[trigger] pv.generators[t]).wf(),
                        decreases gens@.len() - k,
                    {
                        let g = &gens[k];
                        let ghost gv = pv.generators[k as int];
                        proof {
                            assert(gv == gens@[k as int]@);
                        }
                        let by = match &g.delta_template {
                            MilestoneDelta::Behind { by, .. } => *by,
                            MilestoneDelta::AheadOf { by, .. } => *by,
                        };
                        let unit = match by {
                            crate::duration::SimpleDuration::Weeks { weeks } => weeks,
                            crate::duration::SimpleDuration::Sprints { sprints } => sprints,
                        };
                        proof {
                            assert(unit == gv.delta.by.unit_count());
                        }
                        if unit < -DUR_UNIT_BOUND || unit > DUR_UNIT_BOUND {
                            proof {
                                assert(!gv.wf());
                                assert(!pv.gens_wf());
                                assert(!sv.gens_wf());
                            }
                            return false;
                        }
                        if g.count > GEN_COUNT_BOUND {
                            proof {
                                assert(!gv.wf());
                                assert(!pv.gens_wf());
                                assert(!sv.gens_wf());
                            }
                            return false;
                        }
                        let au = if unit < 0 {
                            -unit
                        } else {
                            unit
                        };
                        proof {
                            assert(au == abs(gv.delta.by.unit_count()));
                            assert(au * (g.count as i64) <= 0x1_0000_0000i64 * 0x1000_0000i64)
                                by (nonlinear_arith)
                                requires
                                    0 <= au <= 0x1_0000_0000i64,
                                    0 <= g.count <= 0x1000_0000u32,
                            ;
                            assert(au * (g.count as i64) >= 0) by (nonlinear_arith)
                                requires
                                    0 <= au,
                                    0 <= g.count,
                            ;
                        }
                        if au * (g.count as i64) > DUR_UNIT_BOUND {
                            proof {
                                assert(!gv.wf());
                                assert(!pv.gens_wf());
                                assert(!sv.gens_wf());
                            }
                            return false;
                        }
                        proof {
                            assert(gv.wf());
                        }
                        k = k + 1;
                    }
                },
            }
            proof {
                assert(pv.dates_wf());
                assert(pv.gens_wf());
            }
            i = i + 1;
        }
        proof {
            assert(sv.dates_wf());
            assert(sv.gens_wf());
        }

        // Durations of the declared relations.
        let mut k: usize = 0;
        while k < self.milestone_deltas.len()
            invariant
                0 <= k <= sv.deltas.len(),
                forall|t: int| 0 <= t < k as int ==> (#[trigger] sv.deltas[t]).wf(),
            decreases sv.deltas.len() - k,
        {
            proof {
                assert(sv.deltas[k as int] == self.milestone_deltas@[k as int]@);
            }
            let by = match &self.milestone_deltas[k] {
                MilestoneDelta::Behind { by, .. } => *by,
                MilestoneDelta::AheadOf { by, .. } => *by,
            };
            let unit = match by {
                crate::duration::SimpleDuration::Weeks { weeks } => weeks,
                crate::duration::SimpleDuration::Sprints { sprints } => sprints,
            };
            if unit < -DUR_UNIT_BOUND || unit > DUR_UNIT_BOUND {
                proof {
                    assert(!sv.deltas[k as int].wf());
                    assert(!sv.deltas_wf());
                }
                return false;
            }
            k = k + 1;
        }
        proof {
            assert(sv.deltas_wf());
        }

        // How many relations generation will leave in the schedule.
        let ghost total_sum = sv.deltas.len() + phases_gens_count_sum(sv.phases);
        proof {
            lemma_phases_generated_deltas_len(sv.phases);
            assert(sv.generated().deltas.len() == total_sum);
        }
        let mut total: u64 = self.milestone_deltas.len() as u64;
        if total > DELTAS_LEN_BOUND as u64 {
            proof {
                lemma_phases_gens_count_sum_nonneg(sv.phases);
            }
            return false;
        }
        let mut i2: usize = 0;
        proof {
            assert(sv.phases.skip(0) =~= sv.phases);
        }
        while i2 < self.phases.len()
            invariant
                0 <= i2 <= sv.phases.len(),
                total <= DELTAS_LEN_BOUND as u64,
                total_sum == total + phases_gens_count_sum(sv.phases.skip(i2 as int)),
                sv.gens_wf(),
            decreases sv.phases.len() - i2,
        {
            let ghost pv = sv.phases[i2 as int];
            proof {
                assert(sv.phases.skip(i2 as int)[0] == pv);
                assert(sv.phases.skip(i2 as int).drop_first() =~= sv.phases.skip(i2 as int + 1));
            }
            match &self.phases[i2].milestone_generators {
                None => {
                    proof {
                        assert(pv.generators =~= Seq::<GeneratorView>::empty());
                    }
                },
                Some(gens) => {
                    let ghost gvs = pv.generators;
                    let mut k2: usize = 0;
                    proof {
                        assert(gvs.skip(0) =~= gvs);
                    }
                    while k2 < gens.len()
                        invariant
                            0 <= k2 <= gvs.len(),
                            gvs.len() == gens@.len(),
                            gvs == gens@.map_values(|g: MilestoneGenerator| g@),
                            pv.gens_wf(),
                            gvs == pv.generators,
                            total <= DELTAS_LEN_BOUND as u64,
                            total_sum == total + gens_count_sum(gvs.skip(k2 as int))
                                + phases_gens_count_sum(sv.phases.skip(i2 as int + 1)),
                        decreases gvs.len() - k2,
                    {
                        let ghost gv = gvs[k2 as int];
                        proof {
                            assert(gv == gens@[k2 as int]@);
                            assert(gv.wf());
                            assert(gvs.skip(k2 as int)[0] == gv);
                            assert(gvs.skip(k2 as int).drop_first() =~= gvs.skip(k2 as int + 1));
                        }
                        let next = total + gens[k2].count as u64;
                        if next > DELTAS_LEN_BOUND as u64 {
                            proof {
                                lemma_gens_count_sum_nonneg(gvs.skip(k2 as int + 1));
                                lemma_phases_gens_count_sum_nonneg(
                                    sv.phases.skip(i2 as int + 1),
                                );
                                assert(total_sum > DELTAS_LEN_BOUND);
                            }
                            return false;
                        }
                        total = next;
                        k2 = k2 + 1;
                    }
                    proof {
                        assert(gvs.skip(gvs.len() as int) =~= Seq::<GeneratorView>::empty());
                    }
                },
            }
            i2 = i2 + 1;
        }
        proof {
            assert(sv.phases.skip(sv.phases.len() as int) =~= Seq::<PhaseView>::empty());
            assert(total_sum == total);
            assert(sv.wf());
        }
        true
    }

    /// Returns a copy of the first milestone whose alias or name equals the
    /// query, or a lookup error naming the query when there is none.
    pub fn milestone(&self, alias_or_name: &str) -> (r: Result<Milestone, String>)
        ensures
            match r {
                Ok(m) => {
                    &&& find_milestone(self@.phases, alias_or_name@) matches Some((i, j))
                        && self@.phases[i].milestones[j] == m@
                },
                Err(msg) => find_milestone(self@.phases, alias_or_name@) is None && msg@
                    == "Milestone '"@ + alias_or_name@ + "' not found."@,
            },
    {
        let q = String::from_str(alias_or_name);
        match find_milestone_idx(&self.phases, &q) {
            Some((i, j)) => {
                proof {
                    assert(self@.phases[i as int] == self.phases@[i as int]@);
                    assert(self@.phases[i as int].milestones[j as int] == self.phases@[i as int].milestones@[
                        j as int]@);
                }
                Ok(self.phases[i].milestones[j].clone())
            },
            None => {
                let mut msg = String::from_str("Milestone '");
                msg.append(alias_or_name);
                msg.append("' not found.");
                proof {
                    assert(msg@ =~= "Milestone '"@ + alias_or_name@ + "' not found."@);
                }
                Err(msg)
            },
        }
    }
}

} // verus!
