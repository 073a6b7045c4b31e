//! Backward planning: deriving due dates from relations.
//!
//! Planning starts from the schedule template, runs its generators, applies
//! an optional pinned date, checks that no two relations share a
//! `(milestone, target)` pair, and then walks the relation list once, in
//! declaration order. A relation whose target has a date gives its milestone
//! that date shifted by the relation's duration, unless the milestone is
//! already dated (first write wins). A relation whose target is undated is
//! skipped silently and never retried.
//!
//! The whole pipeline is specified by [`spec_plan`], a pure function of the
//! schedule's view, and [`plan_backwards`] is proved to return exactly its
//! result.

use crate::date::{Date, DAY_BOUND};
use crate::delta::{DeltaView, MilestoneDelta};
use crate::duration::DUR_DAY_BOUND;
use crate::model::{
    find_milestone, find_milestone_idx, lemma_gens_expanded_dates_none,
    lemma_phases_generated_deltas_wf, MilestoneView, Phase, PhaseView, Schedule, ScheduleView,
    DELTAS_LEN_BOUND, Document, DocumentStatus,
};
use vstd::prelude::*;

verus! {

/// Why planning failed. A missing milestone is recoverable at the call
/// boundary; a duplicate relation marks the input data as defective and is
/// meant to end the run.
#[derive(Debug)]
pub enum PlanError {
    /// No milestone's alias or name equals the stored string.
    MilestoneNotFound { name: String },
    /// Two relations share the same `(milestone, target)` pair.
    DuplicateDelta,
}

/// The mathematical content of a planning error.
pub ghost enum PlanErrorView {
    MilestoneNotFound(Seq<char>),
    DuplicateDelta,
}

impl View for PlanError {
    type V = PlanErrorView;

    open spec fn view(&self) -> PlanErrorView {
        match self {
            PlanError::MilestoneNotFound { name } => PlanErrorView::MilestoneNotFound(name@),
            PlanError::DuplicateDelta => PlanErrorView::DuplicateDelta,
        }
    }
}

/// The phase list with the due date of the milestone at position `(i, j)`
/// replaced by `due`; everything else is unchanged.
pub open spec fn set_due(phases: Seq<PhaseView>, i: int, j: int, due: Option<int>) -> Seq<
    PhaseView,
> {
    phases.update(
        i,
        PhaseView {
            name: phases[i].name,
            milestones: phases[i].milestones.update(
                j,
                MilestoneView {
                    name: phases[i].milestones[j].name,
                    alias: phases[i].milestones[j].alias,
                    due_date: due,
                },
            ),
            generators: phases[i].generators,
        },
    )
}

/// Applying the pin: the pinned milestone's due date is set to the pinned
/// day unconditionally, overwriting any date it already had; a pin that
/// matches no milestone is a lookup error.
pub open spec fn apply_pin(phases: Seq<PhaseView>, q: Seq<char>, day: int) -> Result<
    Seq<PhaseView>,
    PlanErrorView,
> {
    match find_milestone(phases, q) {
        None => Err(PlanErrorView::MilestoneNotFound(q)),
        Some((i, j)) => Ok(set_due(phases, i, j, Some(day))),
    }
}

/// One step of the pass. A missing target or milestone is a lookup error; an
/// undated target leaves the phases unchanged (the relation is skipped); an
/// already-dated milestone is left as it is (first write wins); otherwise
/// the milestone gets the target's date shifted by the relation.
pub open spec fn apply_delta(phases: Seq<PhaseView>, d: DeltaView) -> Result<
    Seq<PhaseView>,
    PlanErrorView,
> {
    match find_milestone(phases, d.target) {
        None => Err(PlanErrorView::MilestoneNotFound(d.target)),
        Some((ti, tj)) => match phases[ti].milestones[tj].due_date {
            None => Ok(phases),
            Some(td) => match find_milestone(phases, d.milestone) {
                None => Err(PlanErrorView::MilestoneNotFound(d.milestone)),
                Some((mi, mj)) => if phases[mi].milestones[mj].due_date is Some {
                    Ok(phases)
                } else {
                    Ok(set_due(phases, mi, mj, Some(td + d.shift_days())))
                },
            },
        },
    }
}

/// The single pass over the relation list, in order, stopping at the first
/// lookup error.
pub open spec fn run_deltas(phases: Seq<PhaseView>, deltas: Seq<DeltaView>) -> Result<
    Seq<PhaseView>,
    PlanErrorView,
>
    decreases deltas.len(),
{
    if deltas.len() == 0 {
        Ok(phases)
    } else {
        match apply_delta(phases, deltas[0]) {
            Err(e) => Err(e),
            Ok(next) => run_deltas(next, deltas.drop_first()),
        }
    }
}

/// No two relations share the same `(milestone, target)` pair.
pub open spec fn unique_pairs(deltas: Seq<DeltaView>) -> bool {
    forall|a: int, b: int|
        0 <= a < b < deltas.len() ==> (#[trigger] deltas[a]).pair() != (
        #[trigger] deltas[b]).pair()
}

/// The pin argument as a mathematical value.
pub open spec fn pin_view(target: Option<(&str, Date)>) -> Option<(Seq<char>, int)> {
    match target {
        None => None,
        Some((q, d)) => Some((q@, d.days as int)),
    }
}

/// The planner's result as a mathematical value.
pub open spec fn plan_result_view(r: Result<Schedule, PlanError>) -> Result<
    ScheduleView,
    PlanErrorView,
> {
    match r {
        Ok(s) => Ok(s@),
        Err(e) => Err(e@),
    }
}

/// The whole planning pipeline: run the generators, apply the pin if one is
/// given, reject duplicate relations, then run the single pass. The result
/// keeps the generated relation list alongside the final phases.
pub open spec fn spec_plan(s: ScheduleView, pin: Option<(Seq<char>, int)>) -> Result<
    ScheduleView,
    PlanErrorView,
> {
    let g = s.generated();
    let pinned = match pin {
        None => Ok(g.phases),
        Some((q, day)) => apply_pin(g.phases, q, day),
    };
    match pinned {
        Err(e) => Err(e),
        Ok(p0) => if !unique_pairs(g.deltas) {
            Err(PlanErrorView::DuplicateDelta)
        } else {
            match run_deltas(p0, g.deltas) {
                Err(e) => Err(e),
                Ok(pf) => Ok(ScheduleView { phases: pf, deltas: g.deltas }),
            }
        },
    }
}

/// Every set due date in the phase list is within `b` days of day zero.
pub open spec fn phases_dates_bounded(phases: Seq<PhaseView>, b: int) -> bool {
    forall|i: int, j: int|
        0 <= i < phases.len() && 0 <= j < phases[i].milestones.len() ==> match (
        #[trigger] phases[i].milestones[j]).due_date {
            Some(d) => -b <= d <= b,
            None => true,
        }
}

/// Whether two relations share their identifying `(milestone, target)` pair.
fn delta_pair_eq(a: &MilestoneDelta, b: &MilestoneDelta) -> (r: bool)
    ensures
        r == (a@.pair() == b@.pair()),
{
    let (am, at): (&String, &String) = match a {
        MilestoneDelta::Behind { milestone, behind, .. } => (milestone, behind),
        MilestoneDelta::AheadOf { milestone, ahead_of, .. } => (milestone, ahead_of),
    };
    let (bm, bt): (&String, &String) = match b {
        MilestoneDelta::Behind { milestone, behind, .. } => (milestone, behind),
        MilestoneDelta::AheadOf { milestone, ahead_of, .. } => (milestone, ahead_of),
    };
    am.eq(bm) && at.eq(bt)
}

/// Writes a due date at position `(i, j)` of the phase list.
fn set_milestone_date(phases: &mut Vec<Phase>, i: usize, j: usize, d: Option<Date>)
    requires
        i < old(phases)@.len(),
        j < old(phases)@[i as int].milestones@.len(),
    ensures
        final(phases)@.map_values(|p: Phase| p@) == set_due(
            old(phases)@.map_values(|p: Phase| p@),
            i as int,
            j as int,
            match d {
                Some(day) => Some(day.days as int),
                None => None,
            },
        ),
{
    let ghost pvs = phases@.map_values(|p: Phase| p@);
    let ghost old_phases = phases@;
    phases[i].milestones[j].due_date = d;
    proof {
        let dv = match d {
            Some(day) => Some(day.days as int),
            None => None,
        };
        let target = set_due(pvs, i as int, j as int, dv);
        assert(phases@.len() == old_phases.len());
        assert forall|t: int| #![trigger phases@[t]] 0 <= t < phases@.len() implies phases@.map_values(
            |p: Phase| p@,
        )[t] == target[t] by {
            assert(phases@.map_values(|p: Phase| p@)[t] == phases@[t]@);
            assert(pvs[t] == old_phases[t]@);
            if t != i as int {
                assert(phases@[t] == old_phases[t]);
                assert(target[t] == pvs[t]);
            } else {
                let new_p = phases@[t];
                let old_p = old_phases[t];
                assert(new_p.name == old_p.name);
                assert(new_p.milestone_generators == old_p.milestone_generators);
                assert(new_p.milestones@ == old_p.milestones@.update(
                    j as int,
                    new_p.milestones@[j as int],
                ));
                assert forall|u: int| #![trigger new_p.milestones@[u]] 0 <= u
                    < new_p.milestones@.len() implies new_p@.milestones[u] == target[t].milestones[u] by {
                    assert(new_p@.milestones[u] == new_p.milestones@[u]@);
                    if u != j as int {
                        assert(new_p.milestones@[u] == old_p.milestones@[u]);
                        assert(old_p@.milestones[u] == old_p.milestones@[u]@);
                    } else {
                        assert(new_p.milestones@[u].name@ == old_p.milestones@[u].name@);
                        assert(new_p.milestones@[u].alias@ == old_p.milestones@[u].alias@);
                        assert(old_p@.milestones[u] == old_p.milestones@[u]@);
                    }
                }
                assert(new_p@.milestones =~= target[t].milestones);
                assert(new_p@ == target[t]);
            }
        }
        assert(phases@.map_values(|p: Phase| p@) =~= target);
    }
}

/// Plans backward from an optional pinned target date.
///
/// Runs the template's generators, pins the target milestone's date if a
/// target is given (overwriting any date it had), rejects relation lists in
/// which two relations share a `(milestone, target)` pair, and then walks
/// the relation list once, in order, deriving each relation's milestone date
/// from its target's date where the target is dated and the milestone is
/// not. Returns the planned schedule, or the first error, exactly as
/// [`spec_plan`] describes.
#[verifier::loop_isolation(false)]
pub fn plan_backwards(sched: &Schedule, target: Option<(&str, Date)>) -> (r: Result<
    Schedule,
    PlanError,
>)
    requires
        sched@.wf(),
        match target {
            Some((q, d)) => d.in_range(),
            None => true,
        },
    ensures
        plan_result_view(r) == spec_plan(sched@, pin_view(target)),
{
    let ghost sv = sched@;
    let ghost pinv = pin_view(target);

    let mut draft = sched.clone();
    draft.generate();
    let ghost gsched = sv.generated();
    proof {
        assert(draft@ == gsched);
    }

    // Apply the pin, overwriting any existing date on the pinned milestone.
    if let Some((alias, due)) = target {
        let q = String::from_str(alias);
        match find_milestone_idx(&draft.phases, &q) {
            None => {
                proof {
                    assert(apply_pin(gsched.phases, q@, due.days as int) == Err::<
                        Seq<PhaseView>,
                        _,
                    >(PlanErrorView::MilestoneNotFound(q@)));
                }
                return Err(PlanError::MilestoneNotFound { name: q });
            },
            Some((i, j)) => {
                set_milestone_date(&mut draft.phases, i, j, Some(due));
                proof {
                    assert(draft@.phases == set_due(
                        gsched.phases,
                        i as int,
                        j as int,
                        Some(due.days as int),
                    ));
                    assert(draft@.deltas == gsched.deltas);
                }
            },
        }
    }
    let ghost p0 = draft@.phases;
    proof {
        assert(match pinv {
            None => Ok::<_, PlanErrorView>(gsched.phases),
            Some((q, day)) => apply_pin(gsched.phases, q, day),
        } == Ok::<_, PlanErrorView>(p0));
    }

    // Reject relation lists with a repeated (milestone, target) pair.
    let n = draft.milestone_deltas.len();
    let ghost dvs = draft@.deltas;
    proof {
        assert(dvs.len() == n);
    }
    let mut a: usize = 0;
    while a < n
        invariant
            n == dvs.len(),
            dvs == draft@.deltas,
            0 <= a <= n,
            forall|x: int, y: int|
                0 <= x < y < n as int && x < a as int ==> (#[trigger] dvs[x]).pair() != (
                #[trigger] dvs[y]).pair(),
        decreases n - a,
    {
        let mut b: usize = a + 1;
        while b < n
            invariant
                n == dvs.len(),
                dvs == draft@.deltas,
                0 <= a < n,
                a < b <= n,
                forall|x: int, y: int|
                    0 <= x < y < n as int && x < a as int ==> (#[trigger] dvs[x]).pair() != (
                    #[trigger] dvs[y]).pair(),
                forall|y: int|
                    a < y < b as int ==> dvs[a as int].pair() != (#[trigger] dvs[y]).pair(),
            decreases n - b,
        {
            if delta_pair_eq(&draft.milestone_deltas[a], &draft.milestone_deltas[b]) {
                proof {
                    assert(dvs[a as int].pair() == dvs[b as int].pair());
                    assert(!unique_pairs(dvs));
                }
                return Err(PlanError::DuplicateDelta);
            }
            b = b + 1;
        }
        a = a + 1;
    }
    proof {
        assert(unique_pairs(dvs));
    }

    // The single pass over the relations, in declaration order.
    proof {
        assert forall|t: int| 0 <= t < gsched.phases.len() implies (
        #[trigger] gsched.phases[t]).dates_wf() by {
            let gp = sv.phases[t].generated();
            assert(gsched.phases[t] == gp);
            lemma_gens_expanded_dates_none(sv.phases[t].generators);
            assert forall|u: int| 0 <= u < gp.milestones.len() implies (
            #[trigger] gp.milestones[u]).date_wf() by {
                if u < sv.phases[t].milestones.len() {
                    assert(gp.milestones[u] == sv.phases[t].milestones[u]);
                } else {
                    assert(gp.milestones[u] == crate::model::gens_expanded_milestones(
                        sv.phases[t].generators,
                    )[u - sv.phases[t].milestones.len()]);
                }
            }
        }
        assert(phases_dates_bounded(p0, DAY_BOUND as int));
        lemma_phases_generated_deltas_wf(sv.phases);
        assert forall|t: int| 0 <= t < dvs.len() implies (#[trigger] dvs[t]).wf() by {
            if t < sv.deltas.len() {
                assert(dvs[t] == sv.deltas[t]);
            } else {
                assert(dvs[t] == crate::model::phases_generated_deltas(sv.phases)[t
                    - sv.deltas.len()]);
            }
        }
        assert(dvs.skip(0) =~= dvs);
    }

    let mut k: usize = 0;
    while k < n
        invariant
            n == dvs.len(),
            n <= DELTAS_LEN_BOUND,
            dvs == draft@.deltas,
            0 <= k <= n,
            forall|t: int| 0 <= t < dvs.len() ==> (#[trigger] dvs[t]).wf(),
            phases_dates_bounded(draft@.phases, DAY_BOUND as int + k as int * DUR_DAY_BOUND as int),
            run_deltas(p0, dvs) == run_deltas(draft@.phases, dvs.skip(k as int)),
        decreases n - k,
    {
        let ghost cur = draft@.phases;
        let ghost dv = dvs[k as int];
        proof {
            assert(dvs.skip(k as int)[0] == dv);
            assert(dvs.skip(k as int).drop_first() =~= dvs.skip(k as int + 1));
        }
        let (mq, tq, by, behind): (String, String, crate::duration::SimpleDuration, bool) = match &draft.milestone_deltas[k] {
            MilestoneDelta::Behind { milestone, behind, by } => (
                milestone.clone(),
                behind.clone(),
                *by,
                true,
            ),
            MilestoneDelta::AheadOf { milestone, ahead_of, by } => (
                milestone.clone(),
                ahead_of.clone(),
                *by,
                false,
            ),
        };
        proof {
            assert(draft.milestone_deltas@[k as int]@ == dv);
            assert(mq@ == dv.milestone);
            assert(tq@ == dv.target);
            assert(by@ == dv.by);
            assert(behind == dv.behind);
        }

        match find_milestone_idx(&draft.phases, &tq) {
            None => {
                proof {
                    assert(apply_delta(cur, dv) == Err::<Seq<PhaseView>, _>(
                        PlanErrorView::MilestoneNotFound(dv.target),
                    ));
                    assert(run_deltas(p0, dvs) == Err::<Seq<PhaseView>, _>(
                        PlanErrorView::MilestoneNotFound(dv.target),
                    ));
                }
                return Err(PlanError::MilestoneNotFound { name: tq });
            },
            Some((ti, tj)) => {
                let target_due = draft.phases[ti].milestones[tj].due_date;
                proof {
                    assert(cur[ti as int].milestones[tj as int] == draft.phases@[ti as int].milestones@[
                        tj as int]@);
                }
                match target_due {
                    None => {
                        proof {
                            assert(apply_delta(cur, dv) == Ok::<_, PlanErrorView>(cur));
                            assert(run_deltas(p0, dvs) == run_deltas(cur, dvs.skip(k as int + 1)));
                            assert(phases_dates_bounded(
                                draft@.phases,
                                DAY_BOUND as int + (k as int + 1) * DUR_DAY_BOUND as int,
                            ));
                        }
                    },
                    Some(td) => {
                        let by_days = by.to_duration();
                        let shift: i64 = if behind {
                            -by_days
                        } else {
                            by_days
                        };
                        proof {
                            assert(shift == dv.shift_days());
                            assert(dv.by.wf());
                            assert(-DUR_DAY_BOUND <= by_days <= DUR_DAY_BOUND);
                            assert(-DUR_DAY_BOUND <= shift <= DUR_DAY_BOUND);
                            assert(-(DAY_BOUND as int + k as int * DUR_DAY_BOUND as int) <= td.days
                                <= DAY_BOUND as int + k as int * DUR_DAY_BOUND as int);
                            assert(k as int + 1 <= DELTAS_LEN_BOUND as int);
                            assert(-(DAY_BOUND as int + (k as int + 1) * DUR_DAY_BOUND as int)
                                <= td.days + shift <= DAY_BOUND as int + (k as int + 1)
                                * DUR_DAY_BOUND as int);
                            assert(DAY_BOUND as int + (k as int + 1) * DUR_DAY_BOUND as int
                                <= DAY_BOUND as int + DELTAS_LEN_BOUND as int
                                * DUR_DAY_BOUND as int);
                        }
                        let candidate = td.days + shift;
                        match find_milestone_idx(&draft.phases, &mq) {
                            None => {
                                proof {
                                    assert(apply_delta(cur, dv) == Err::<Seq<PhaseView>, _>(
                                        PlanErrorView::MilestoneNotFound(dv.milestone),
                                    ));
                                    assert(run_deltas(p0, dvs) == Err::<Seq<PhaseView>, _>(
                                        PlanErrorView::MilestoneNotFound(dv.milestone),
                                    ));
                                }
                                return Err(PlanError::MilestoneNotFound { name: mq });
                            },
                            Some((mi, mj)) => {
                                let already = draft.phases[mi].milestones[mj].due_date.is_some();
                                proof {
                                    assert(cur[mi as int].milestones[mj as int] == draft.phases@[mi as int].milestones@[
                                        mj as int]@);
                                }
                                if !already {
                                    set_milestone_date(
                                        &mut draft.phases,
                                        mi,
                                        mj,
                                        Some(Date { days: candidate }),
                                    );
                                    proof {
                                        assert(draft@.phases == set_due(
                                            cur,
                                            mi as int,
                                            mj as int,
                                            Some(td.days as int + dv.shift_days()),
                                        ));
                                        assert(apply_delta(cur, dv) == Ok::<_, PlanErrorView>(
                                            draft@.phases,
                                        ));
                                        assert(run_deltas(p0, dvs) == run_deltas(
                                            draft@.phases,
                                            dvs.skip(k as int + 1),
                                        ));
                                        assert forall|x: int, y: int|
                                            0 <= x < draft@.phases.len() && 0 <= y < draft@.phases[x].milestones.len() implies match (
                                        #[trigger] draft@.phases[x].milestones[y]).due_date {
                                            Some(dd) => -(DAY_BOUND as int + (k as int + 1)
                                                * DUR_DAY_BOUND as int) <= dd <= DAY_BOUND as int + (
                                            k as int + 1) * DUR_DAY_BOUND as int,
                                            None => true,
                                        } by {
                                            if x == mi as int && y == mj as int {
                                                assert(draft@.phases[x].milestones[y].due_date
                                                    == Some(td.days as int + dv.shift_days()));
                                            } else {
                                                assert(draft@.phases[x].milestones[y] == cur[x].milestones[y]);
                                            }
                                        }
                                        assert(phases_dates_bounded(
                                            draft@.phases,
                                            DAY_BOUND as int + (k as int + 1)
                                                * DUR_DAY_BOUND as int,
                                        ));
                                    }
                                } else {
                                    proof {
                                        assert(apply_delta(cur, dv) == Ok::<_, PlanErrorView>(cur));
                                        assert(run_deltas(p0, dvs) == run_deltas(
                                            cur,
                                            dvs.skip(k as int + 1),
                                        ));
                                        assert(phases_dates_bounded(
                                            draft@.phases,
                                            DAY_BOUND as int + (k as int + 1)
                                                * DUR_DAY_BOUND as int,
                                        ));
                                    }
                                }
                            },
                        }
                    },
                }
            },
        }
        k = k + 1;
    }
    proof {
        assert(dvs.skip(n as int) =~= Seq::<DeltaView>::empty());
        assert(run_deltas(p0, dvs) == Ok::<_, PlanErrorView>(draft@.phases));
        assert(spec_plan(sv, pinv) == Ok::<_, PlanErrorView>(
            ScheduleView { phases: draft@.phases, deltas: dvs },
        ));
    }
    Ok(draft)
}

/// `b` is `a` after some propagation: the same phases with the same
/// milestone names and aliases, where every milestone dated in `a` keeps
/// exactly its date in `b`.
pub open spec fn preserves_dates(a: Seq<PhaseView>, b: Seq<PhaseView>) -> bool {
    &&& b.len() == a.len()
    &&& forall|i: int|
        0 <= i < a.len() ==> (#[trigger] b[i]).name == a[i].name && b[i].generators
            == a[i].generators && b[i].milestones.len() == a[i].milestones.len()
    &&& forall|i: int, j: int|
        0 <= i < a.len() && 0 <= j < a[i].milestones.len() ==> (
        #[trigger] b[i].milestones[j]).name == a[i].milestones[j].name && b[i].milestones[j].alias
            == a[i].milestones[j].alias && (a[i].milestones[j].due_date is Some
            ==> b[i].milestones[j].due_date == a[i].milestones[j].due_date)
}

/// Date preservation composes.
proof fn lemma_preserves_trans(a: Seq<PhaseView>, b: Seq<PhaseView>, c: Seq<PhaseView>)
    requires
        preserves_dates(a, b),
        preserves_dates(b, c),
    ensures
        preserves_dates(a, c),
{
    assert forall|i: int, j: int| 0 <= i < a.len() && 0 <= j < a[i].milestones.len() implies (
    #[trigger] c[i].milestones[j]).name == a[i].milestones[j].name && c[i].milestones[j].alias
        == a[i].milestones[j].alias && (a[i].milestones[j].due_date is Some
        ==> c[i].milestones[j].due_date == a[i].milestones[j].due_date) by {
        assert(b[i].milestones[j].name == a[i].milestones[j].name);
        assert(c[i].milestones[j].name == b[i].milestones[j].name);
    }
}

/// One step of the pass preserves every date that is already set: a step
/// only ever writes a milestone whose due date is unset.
proof fn lemma_apply_delta_preserves(phases: Seq<PhaseView>, d: DeltaView)
    requires
        apply_delta(phases, d) is Ok,
    ensures
        apply_delta(phases, d) matches Ok(out) && preserves_dates(phases, out),
{
    crate::model::lemma_find_milestone_bounds(phases, d.target);
    crate::model::lemma_find_milestone_bounds(phases, d.milestone);
}

/// The whole pass preserves every date that is set when it starts.
proof fn lemma_run_deltas_preserves(phases: Seq<PhaseView>, deltas: Seq<DeltaView>)
    requires
        run_deltas(phases, deltas) is Ok,
    ensures
        run_deltas(phases, deltas) matches Ok(out) && preserves_dates(phases, out),
    decreases deltas.len(),
{
    if deltas.len() == 0 {
    } else {
        lemma_apply_delta_preserves(phases, deltas[0]);
        let next = apply_delta(phases, deltas[0])->Ok_0;
        lemma_run_deltas_preserves(next, deltas.drop_first());
        lemma_preserves_trans(phases, next, run_deltas(next, deltas.drop_first())->Ok_0);
    }
}

/// First write wins: a milestone already dated when the propagation pass
/// starts ends the pass with exactly that date. In particular, running the
/// pass a second time over a schedule it has already resolved changes no
/// due date.
pub proof fn lemma_first_write_wins(
    phases: Seq<PhaseView>,
    deltas: Seq<DeltaView>,
    out: Seq<PhaseView>,
    i: int,
    j: int,
)
    requires
        run_deltas(phases, deltas) == Ok::<_, PlanErrorView>(out),
        0 <= i < phases.len(),
        0 <= j < phases[i].milestones.len(),
        phases[i].milestones[j].due_date is Some,
    ensures
        out[i].milestones[j].due_date == phases[i].milestones[j].due_date,
{
    lemma_run_deltas_preserves(phases, deltas);
}

/// Running the pass twice: any milestone resolved after the first pass is
/// left unchanged by the second.
pub proof fn lemma_second_pass_keeps_dates(
    phases: Seq<PhaseView>,
    deltas: Seq<DeltaView>,
    once: Seq<PhaseView>,
    twice: Seq<PhaseView>,
    i: int,
    j: int,
)
    requires
        run_deltas(phases, deltas) == Ok::<_, PlanErrorView>(once),
        run_deltas(once, deltas) == Ok::<_, PlanErrorView>(twice),
        0 <= i < once.len(),
        0 <= j < once[i].milestones.len(),
        once[i].milestones[j].due_date is Some,
    ensures
        twice[i].milestones[j].due_date == once[i].milestones[j].due_date,
{
    lemma_first_write_wins(once, deltas, twice, i, j);
}

/// The pass over a relation list splits at any point `k`: run the first `k`
/// relations, then the rest from the intermediate state.
proof fn lemma_run_deltas_split(phases: Seq<PhaseView>, deltas: Seq<DeltaView>, k: int)
    requires
        0 <= k <= deltas.len(),
    ensures
        run_deltas(phases, deltas) == match run_deltas(phases, deltas.take(k)) {
            Err(e) => Err(e),
            Ok(mid) => run_deltas(mid, deltas.skip(k)),
        },
    decreases k,
{
    if k == 0 {
        assert(deltas.take(0) =~= Seq::<DeltaView>::empty());
        assert(deltas.skip(0) =~= deltas);
    } else {
        let d0 = deltas[0];
        let rest = deltas.drop_first();
        match apply_delta(phases, d0) {
            Err(e) => {
                assert(deltas.take(k)[0] == d0);
            },
            Ok(next) => {
                lemma_run_deltas_split(next, rest, k - 1);
                assert(deltas.take(k)[0] == d0);
                assert(deltas.take(k).drop_first() =~= rest.take(k - 1));
                assert(deltas.skip(k) =~= rest.skip(k - 1));
            },
        }
    }
}

/// A relation whose target is dated and whose milestone is undated at the
/// moment the pass reaches it sets the milestone to the target's date
/// shifted by the relation, and the rest of the pass keeps that date.
proof fn lemma_relation_applies(
    phases: Seq<PhaseView>,
    deltas: Seq<DeltaView>,
    out: Seq<PhaseView>,
    k: int,
    mid: Seq<PhaseView>,
    td: int,
)
    requires
        run_deltas(phases, deltas) == Ok::<_, PlanErrorView>(out),
        0 <= k < deltas.len(),
        run_deltas(phases, deltas.take(k)) == Ok::<_, PlanErrorView>(mid),
        find_milestone(mid, deltas[k].target) matches Some((ti, tj)) && mid[ti].milestones[tj].due_date
            == Some(td),
        find_milestone(mid, deltas[k].milestone) matches Some((mi, mj)) && mid[mi].milestones[mj].due_date is None,
    ensures
        find_milestone(mid, deltas[k].milestone) matches Some((mi, mj))
            && out[mi].milestones[mj].due_date == Some(td + deltas[k].shift_days()),
{
    let d = deltas[k];
    let (ti, tj) = find_milestone(mid, d.target)->Some_0;
    let (mi, mj) = find_milestone(mid, d.milestone)->Some_0;
    crate::model::lemma_find_milestone_bounds(mid, d.target);
    crate::model::lemma_find_milestone_bounds(mid, d.milestone);
    lemma_run_deltas_split(phases, deltas, k);
    let stepped = set_due(mid, mi, mj, Some(td + d.shift_days()));
    assert(apply_delta(mid, d) == Ok::<_, PlanErrorView>(stepped));
    assert(deltas.skip(k)[0] == d);
    assert(deltas.skip(k).drop_first() =~= deltas.skip(k + 1));
    assert(run_deltas(stepped, deltas.skip(k + 1)) == Ok::<_, PlanErrorView>(out));
    assert(stepped[mi].milestones[mj].due_date == Some(td + d.shift_days()));
    lemma_run_deltas_preserves(stepped, deltas.skip(k + 1));
}

/// A `Behind` relation whose target is dated `td` when the pass reaches it,
/// and whose own milestone is still undated then, leaves that milestone
/// dated `td` minus the relation's duration (in days) at the end of the
/// pass.
pub proof fn lemma_behind_relation(
    phases: Seq<PhaseView>,
    deltas: Seq<DeltaView>,
    out: Seq<PhaseView>,
    k: int,
    mid: Seq<PhaseView>,
    td: int,
)
    requires
        run_deltas(phases, deltas) == Ok::<_, PlanErrorView>(out),
        0 <= k < deltas.len(),
        run_deltas(phases, deltas.take(k)) == Ok::<_, PlanErrorView>(mid),
        deltas[k].behind,
        find_milestone(mid, deltas[k].target) matches Some((ti, tj)) && mid[ti].milestones[tj].due_date
            == Some(td),
        find_milestone(mid, deltas[k].milestone) matches Some((mi, mj)) && mid[mi].milestones[mj].due_date is None,
    ensures
        find_milestone(mid, deltas[k].milestone) matches Some((mi, mj))
            && out[mi].milestones[mj].due_date == Some(td - deltas[k].by.days()),
{
    lemma_relation_applies(phases, deltas, out, k, mid, td);
}

/// The symmetric law for `AheadOf`: the milestone ends the pass dated the
/// target's date plus the relation's duration.
pub proof fn lemma_ahead_of_relation(
    phases: Seq<PhaseView>,
    deltas: Seq<DeltaView>,
    out: Seq<PhaseView>,
    k: int,
    mid: Seq<PhaseView>,
    td: int,
)
    requires
        run_deltas(phases, deltas) == Ok::<_, PlanErrorView>(out),
        0 <= k < deltas.len(),
        run_deltas(phases, deltas.take(k)) == Ok::<_, PlanErrorView>(mid),
        !deltas[k].behind,
        find_milestone(mid, deltas[k].target) matches Some((ti, tj)) && mid[ti].milestones[tj].due_date
            == Some(td),
        find_milestone(mid, deltas[k].milestone) matches Some((mi, mj)) && mid[mi].milestones[mj].due_date is None,
    ensures
        find_milestone(mid, deltas[k].milestone) matches Some((mi, mj))
            && out[mi].milestones[mj].due_date == Some(td + deltas[k].by.days()),
{
    lemma_relation_applies(phases, deltas, out, k, mid, td);
}

/// The pin overwrites: when planning succeeds with a pin `(q, day)`, the
/// pinned milestone ends the run dated exactly `day`, whatever date it may
/// have carried before.
pub proof fn lemma_pin_overwrites(
    s: ScheduleView,
    q: Seq<char>,
    day: int,
    out: ScheduleView,
    i: int,
    j: int,
)
    requires
        spec_plan(s, Some((q, day))) == Ok::<_, PlanErrorView>(out),
        find_milestone(s.generated().phases, q) == Some((i, j)),
    ensures
        out.phases[i].milestones[j].due_date == Some(day),
{
    let g = s.generated();
    crate::model::lemma_find_milestone_bounds(g.phases, q);
    let p0 = set_due(g.phases, i, j, Some(day));
    assert(apply_pin(g.phases, q, day) == Ok::<_, PlanErrorView>(p0));
    assert(p0[i].milestones[j].due_date == Some(day));
    assert(run_deltas(p0, g.deltas) == Ok::<_, PlanErrorView>(out.phases));
    lemma_run_deltas_preserves(p0, g.deltas);
}

/// Duplicate relations abort the run: two relations sharing a
/// `(milestone, target)` pair make planning return the duplicate-relation
/// error (provided the pin, when present, resolves), so no propagation step
/// ever runs.
pub proof fn lemma_duplicate_aborts(
    s: ScheduleView,
    pin: Option<(Seq<char>, int)>,
    a: int,
    b: int,
)
    requires
        0 <= a < b < s.generated().deltas.len(),
        s.generated().deltas[a].pair() == s.generated().deltas[b].pair(),
        match pin {
            None => true,
            Some((q, day)) => find_milestone(s.generated().phases, q) is Some,
        },
    ensures
        spec_plan(s, pin) == Err::<ScheduleView, _>(PlanErrorView::DuplicateDelta),
{
    assert(!unique_pairs(s.generated().deltas));
}

impl Document {
    /// Plans the document's template and stores the outcome as its status.
    ///
    /// The template itself is never changed: planning works on a copy, and
    /// on success the computed phases replace any previous status. On an
    /// error the document is left exactly as it was.
    pub fn replan(&mut self, target: Option<(&str, Date)>) -> (r: Result<(), PlanError>)
        requires
            old(self).spec@.wf(),
            match target {
                Some((q, d)) => d.in_range(),
                None => true,
            },
        ensures
            match r {
                Ok(()) => {
                    &&& spec_plan(old(self).spec@, pin_view(target)) matches Ok(planned)
                        && final(self)@.status == Some(planned.phases)
                    &&& final(self)@.kind == old(self)@.kind
                    &&& final(self)@.metadata == old(self)@.metadata
                    &&& final(self)@.spec == old(self)@.spec
                },
                Err(e) => {
                    &&& spec_plan(old(self).spec@, pin_view(target)) == Err::<ScheduleView, _>(e@)
                    &&& *final(self) == *old(self)
                },
            },
    {
        match plan_backwards(&self.spec, target) {
            Ok(new_sched) => {
                self.status = Some(DocumentStatus { phases: new_sched.phases });
                Ok(())
            },
            Err(e) => Err(e),
        }
    }
}

} // verus!
