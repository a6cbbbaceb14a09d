use vstd::prelude::*;

use crate::error::{error_is, ErrorKind};
use crate::runner::{advances, distinct_ids, points_at, Action, Cursor, Event, Phase, VerifyStatus};
use crate::state::{StepRecord, StepStatus};

verus! {

/// A verify that finds the goal of a step already reached at the start of a
/// pass ends the pass: the record becomes `Complete` with its apply marked
/// skipped, and the runner never asks for that step's apply.
pub proof fn lemma_complete_at_entry_skips_apply(
    ids: Seq<Seq<char>>,
    dry_run: bool,
    old: Seq<StepRecord>,
    cur: Cursor,
    now: Seq<char>,
    new: Seq<StepRecord>,
    act: Action,
)
    requires
        distinct_ids(ids),
        points_at(ids, old, cur),
        cur.phase == Phase::FirstVerify,
        advances(ids, dry_run, old, cur, Event::Verified(VerifyStatus::Complete), now, new, act),
    ensures
        new[cur.record as int].status == StepStatus::Complete,
        new[cur.record as int].skipped_apply,
        !(act matches Action::Call(c) && c.step == cur.step),
{
}

/// A transition of one step changes no record but that step's own and that
/// of the step it hands over to: the records of the other steps, finished
/// or not, keep their status and times.
pub proof fn lemma_other_records_untouched(
    ids: Seq<Seq<char>>,
    dry_run: bool,
    old: Seq<StepRecord>,
    cur: Cursor,
    ev: Event,
    now: Seq<char>,
    new: Seq<StepRecord>,
    act: Action,
    j: int,
)
    requires
        distinct_ids(ids),
        points_at(ids, old, cur),
        advances(ids, dry_run, old, cur, ev, now, new, act),
        0 <= j < old.len(),
        old[j].id@ != ids[cur.step as int],
        cur.step + 1 < ids.len() ==> old[j].id@ != ids[cur.step + 1],
    ensures
        new[j] == old[j],
{
}

/// A failed apply halts the run with an effect error naming the step: its
/// record is `Failed` with a non-empty error text, and no record is created
/// or changed for any other step.
pub proof fn lemma_failed_apply_halts(
    ids: Seq<Seq<char>>,
    dry_run: bool,
    old: Seq<StepRecord>,
    cur: Cursor,
    cause: String,
    now: Seq<char>,
    new: Seq<StepRecord>,
    act: Action,
)
    requires
        distinct_ids(ids),
        points_at(ids, old, cur),
        cur.phase == Phase::Apply,
        advances(ids, dry_run, old, cur, Event::Raised(cause), now, new, act),
    ensures
        act matches Action::Halt(e) && error_is(e, ErrorKind::Effect, ids[cur.step as int], cause@),
        new[cur.record as int].status == StepStatus::Failed,
        new[cur.record as int].error matches Some(text) && text@.len() > 0,
        new.len() == old.len(),
        forall|j: int| 0 <= j < old.len() && j != cur.record ==> new[j] == old[j],
{
    let text = new[cur.record as int].error->Some_0@;
    let pre = "Apply failed for step "@;
    assert(text.len() >= pre.len()) by {
        reveal_strlit("Apply failed for step ");
    }
    assert(pre.len() > 0) by {
        reveal_strlit("Apply failed for step ");
    }
}

/// Under dry-run, a step whose goal does not hold yet is not applied: its
/// record becomes `DryRun` with its apply marked skipped, and the runner
/// never asks for that step's apply.
pub proof fn lemma_dry_run_skips_apply(
    ids: Seq<Seq<char>>,
    old: Seq<StepRecord>,
    cur: Cursor,
    now: Seq<char>,
    new: Seq<StepRecord>,
    act: Action,
)
    requires
        distinct_ids(ids),
        points_at(ids, old, cur),
        cur.phase == Phase::FirstVerify,
        advances(ids, true, old, cur, Event::Verified(VerifyStatus::Incomplete), now, new, act),
    ensures
        new[cur.record as int].status == StepStatus::DryRun,
        new[cur.record as int].skipped_apply,
        !(act matches Action::Call(c) && c.step == cur.step),
{
}

/// An apply that succeeded but whose goal still does not hold halts the run
/// at once with a postcondition mismatch naming the step, distinct from
/// every other error class; the record is `Failed`.
pub proof fn lemma_mismatch_after_apply_halts(
    ids: Seq<Seq<char>>,
    dry_run: bool,
    old: Seq<StepRecord>,
    cur: Cursor,
    now: Seq<char>,
    new: Seq<StepRecord>,
    act: Action,
)
    requires
        distinct_ids(ids),
        points_at(ids, old, cur),
        cur.phase == Phase::SecondVerify,
        advances(ids, dry_run, old, cur, Event::Verified(VerifyStatus::Incomplete), now, new, act),
    ensures
        act matches Action::Halt(e) && e.kind == ErrorKind::PostconditionMismatch && e.step@
            == ids[cur.step as int],
        new[cur.record as int].status == StepStatus::Failed,
        new.len() == old.len(),
        forall|j: int| 0 <= j < old.len() && j != cur.record ==> new[j] == old[j],
{
}

} // verus!
