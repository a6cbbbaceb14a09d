use vstd::prelude::*;

use crate::error::{error_is, message_of, ErrorKind, RunError};
use crate::state::{
    first_record, has_record, holds_text, same_but_steps, RunContext, StepRecord, StepStatus,
};

verus! {

/// What a step's verify reports: its goal state holds, or it does not.
#[derive(Clone, Copy, Debug, PartialEq, Eq, Structural)]
pub enum VerifyStatus {
    Complete,
    Incomplete,
}

/// The call of a step whose outcome the runner awaits.
#[derive(Clone, Copy, Debug, PartialEq, Eq, Structural)]
pub enum Phase {
    Preflight,
    FirstVerify,
    Apply,
    SecondVerify,
}

/// Where a run stands: the position of the step in the runner's list, the
/// position of its record in the state, and the call awaited.
#[derive(Clone, Copy, Debug, PartialEq, Eq, Structural)]
pub struct Cursor {
    pub step: usize,
    pub record: usize,
    pub phase: Phase,
}

/// The outcome of the call that the runner asked for.
#[derive(Clone, Debug)]
pub enum Event {
    /// A preflight or an apply succeeded.
    Passed,
    /// A verify returned.
    Verified(VerifyStatus),
    /// The call failed, with this cause.
    Raised(String),
}

/// What the caller must do next.
#[derive(Clone, Debug)]
pub enum Action {
    /// Perform the call named by the cursor's phase on the cursor's step.
    Call(Cursor),
    /// Every step has succeeded.
    Finish,
    /// The run stops with this error; no later step is attempted.
    Halt(RunError),
}

/// The ordered list of step ids that a run goes through.
pub struct Runner {
    steps: Vec<String>,
}

/// The ids in `ids` are pairwise distinct.
pub open spec fn distinct_ids(ids: Seq<Seq<char>>) -> bool {
    forall|a: int, b: int| 0 <= a < ids.len() && 0 <= b < ids.len() && a != b ==> ids[a] != ids[b]
}

/// `r` is the record of step `id` reset for a new pass begun at `now`.
pub open spec fn is_running_record(r: StepRecord, id: Seq<char>, now: Seq<char>) -> bool {
    &&& r.id@ == id
    &&& r.status == StepStatus::Running
    &&& holds_text(r.started_at, now)
    &&& r.finished_at is None
    &&& r.error is None
    &&& !r.skipped_apply
}

/// Entering step `id` at `now`: its record, the first one of `old` that
/// carries `id` or else one appended, stands at `i` in `new`, reset to
/// `Running`.
pub open spec fn enters(
    old: Seq<StepRecord>,
    new: Seq<StepRecord>,
    id: Seq<char>,
    now: Seq<char>,
    i: int,
) -> bool {
    &&& if has_record(old, id) {
        first_record(old, id, i) && new.len() == old.len()
    } else {
        i == old.len() && new.len() == old.len() + 1
    }
    &&& is_running_record(new[i], id, now)
}

/// Every record of `old` but those at `a` and `b` stands unchanged in `new`.
pub open spec fn keeps_except(old: Seq<StepRecord>, new: Seq<StepRecord>, a: int, b: int) -> bool {
    forall|j: int| 0 <= j < old.len() && j != a && j != b ==> new[j] == old[j]
}

/// `new` is `old` finished at `now` with `status`, its apply marked skipped
/// or not.
pub open spec fn is_settled(
    old: StepRecord,
    new: StepRecord,
    status: StepStatus,
    skipped: bool,
    now: Seq<char>,
) -> bool {
    &&& new.id == old.id
    &&& new.status == status
    &&& new.started_at == old.started_at
    &&& holds_text(new.finished_at, now)
    &&& new.error == old.error
    &&& new.skipped_apply == skipped
}

/// `new` is `old` marked `Failed` at `now` with the error text `text`.
pub open spec fn is_failed(old: StepRecord, new: StepRecord, text: Seq<char>, now: Seq<char>) -> bool {
    &&& new.id == old.id
    &&& new.status == StepStatus::Failed
    &&& new.started_at == old.started_at
    &&& holds_text(new.finished_at, now)
    &&& holds_text(new.error, text)
    &&& new.skipped_apply == old.skipped_apply
}

/// The event is of the kind that the awaited call produces.
pub open spec fn fits(phase: Phase, ev: Event) -> bool {
    match phase {
        Phase::Preflight | Phase::Apply => ev !is Verified,
        Phase::FirstVerify | Phase::SecondVerify => ev !is Passed,
    }
}

/// The run halts in step `id` with an error of class `kind` and cause
/// `cause`: the record at `r` is marked failed with the error's text, and no
/// other record is created or changed.
pub open spec fn halts(
    old: Seq<StepRecord>,
    new: Seq<StepRecord>,
    r: int,
    id: Seq<char>,
    kind: ErrorKind,
    cause: Seq<char>,
    now: Seq<char>,
    act: Action,
) -> bool {
    &&& new.len() == old.len()
    &&& keeps_except(old, new, r, r)
    &&& is_failed(old[r], new[r], message_of(kind, id, cause), now)
    &&& act matches Action::Halt(e) && error_is(e, kind, id, cause)
}

/// The call awaited moves to `phase`, and nothing else changes.
pub open spec fn awaits(
    old: Seq<StepRecord>,
    new: Seq<StepRecord>,
    cur: Cursor,
    phase: Phase,
    act: Action,
) -> bool {
    new == old && act == Action::Call(Cursor { phase, ..cur })
}

/// The step at `cur` ends with `status`, and the run goes on with the next
/// step of `ids`, or finishes after the last.
pub open spec fn settles(
    ids: Seq<Seq<char>>,
    old: Seq<StepRecord>,
    new: Seq<StepRecord>,
    cur: Cursor,
    status: StepStatus,
    skipped: bool,
    now: Seq<char>,
    act: Action,
) -> bool {
    let r = cur.record as int;
    let k = cur.step as int;
    &&& is_settled(old[r], new[r], status, skipped, now)
    &&& if k + 1 < ids.len() {
        &&& act matches Action::Call(c)
        &&& c.step == k + 1
        &&& c.phase == Phase::Preflight
        &&& enters(old, new, ids[k + 1], now, c.record as int)
        &&& keeps_except(old, new, r, c.record as int)
    } else {
        &&& act is Finish
        &&& new.len() == old.len()
        &&& keeps_except(old, new, r, r)
    }
}

/// One transition of a run in step `ids[cur.step]`, from the records `old`
/// to the records `new`, on the outcome `ev` of the call awaited, at `now`.
pub open spec fn advances(
    ids: Seq<Seq<char>>,
    dry_run: bool,
    old: Seq<StepRecord>,
    cur: Cursor,
    ev: Event,
    now: Seq<char>,
    new: Seq<StepRecord>,
    act: Action,
) -> bool {
    let r = cur.record as int;
    let id = ids[cur.step as int];
    match ev {
        Event::Raised(cause) => {
            let kind = match cur.phase {
                Phase::Preflight => ErrorKind::Precondition,
                Phase::Apply => ErrorKind::Effect,
                _ => ErrorKind::Check,
            };
            halts(old, new, r, id, kind, cause@, now, act)
        },
        Event::Passed => match cur.phase {
            Phase::Preflight => awaits(old, new, cur, Phase::FirstVerify, act),
            _ => awaits(old, new, cur, Phase::SecondVerify, act),
        },
        Event::Verified(VerifyStatus::Complete) => match cur.phase {
            Phase::FirstVerify => settles(ids, old, new, cur, StepStatus::Complete, true, now, act),
            _ => settles(ids, old, new, cur, StepStatus::Complete, false, now, act),
        },
        Event::Verified(VerifyStatus::Incomplete) => match cur.phase {
            Phase::FirstVerify => if dry_run {
                settles(ids, old, new, cur, StepStatus::DryRun, true, now, act)
            } else {
                awaits(old, new, cur, Phase::Apply, act)
            },
            _ => halts(old, new, r, id, ErrorKind::PostconditionMismatch, Seq::empty(), now, act),
        },
    }
}

/// The cursor points at step `cur.step` of `ids` and at its record.
pub open spec fn points_at(ids: Seq<Seq<char>>, steps: Seq<StepRecord>, cur: Cursor) -> bool {
    &&& cur.step < ids.len()
    &&& cur.record < steps.len()
    &&& steps[cur.record as int].id@ == ids[cur.step as int]
}

/// Everything of the context but the step records of its state is kept.
pub open spec fn same_but_records(a: RunContext, b: RunContext) -> bool {
    &&& a.run_id == b.run_id
    &&& a.dry_run == b.dry_run
    &&& a.state_store == b.state_store
    &&& a.inputs == b.inputs
    &&& same_but_steps(a.state, b.state)
}

/// The records of `mid` carry the same ids, one for one, as those of `old`.
proof fn lemma_same_ids(old: Seq<StepRecord>, mid: Seq<StepRecord>)
    requires
        mid.len() == old.len(),
        forall|j: int| 0 <= j < old.len() ==> (#[trigger] mid[j]).id == old[j].id,
    ensures
        forall|id: Seq<char>| has_record(mid, id) == has_record(old, id),
        forall|id: Seq<char>, i: int| first_record(mid, id, i) == first_record(old, id, i),
{
    assert forall|id: Seq<char>| has_record(mid, id) == has_record(old, id) by {
        if has_record(old, id) {
            let j = choose|j: int| 0 <= j < old.len() && (#[trigger] old[j]).id@ == id;
            assert(mid[j].id@ == id);
        }
        if has_record(mid, id) {
            let j = choose|j: int| 0 <= j < mid.len() && (#[trigger] mid[j]).id@ == id;
            assert(old[j].id@ == id);
        }
    }
    assert forall|id: Seq<char>, i: int| first_record(mid, id, i) == first_record(old, id, i) by {
        if 0 <= i < old.len() {
            assert(mid[i].id == old[i].id);
            if first_record(mid, id, i) {
                assert forall|j: int| 0 <= j < i implies (#[trigger] old[j]).id@ != id by {
                    assert(mid[j].id == old[j].id);
                }
            }
            if first_record(old, id, i) {
                assert forall|j: int| 0 <= j < i implies (#[trigger] mid[j]).id@ != id by {
                    assert(mid[j].id == old[j].id);
                }
            }
        }
    }
}

impl Runner {
    /// The ids of the steps, in the order in which they run.
    pub closed spec fn ids(&self) -> Seq<Seq<char>> {
        self.steps@.map_values(|s: String| s@)
    }

    /// A runner over the steps with ids `steps`, in this order.
    pub fn new(steps: Vec<String>) -> (r: Runner)
        requires
            distinct_ids(steps@.map_values(|s: String| s@)),
        ensures
            r.ids() == steps@.map_values(|s: String| s@),
    {
        Runner { steps }
    }

    /// Begin a pass over step `k` at `now`.
    fn enter(&self, ctx: &mut RunContext, k: usize, now: &str) -> (r: usize)
        requires
            k < self.ids().len(),
            old(ctx).state.steps@.len() < usize::MAX,
        ensures
            same_but_records(*old(ctx), *final(ctx)),
            enters(old(ctx).state.steps@, final(ctx).state.steps@, self.ids()[k as int], now@, r as int),
            keeps_except(old(ctx).state.steps@, final(ctx).state.steps@, r as int, r as int),
    {
        let i = ctx.state.ensure_step(self.steps[k].as_str());
        ctx.state.steps[i].status = StepStatus::Running;
        ctx.state.steps[i].started_at = Some(String::from_str(now));
        ctx.state.steps[i].finished_at = None;
        ctx.state.steps[i].error = None;
        ctx.state.steps[i].skipped_apply = false;
        i
    }

    /// End the pass over the record at `r` with `status` at `now`.
    fn settle(ctx: &mut RunContext, r: usize, status: StepStatus, skipped: bool, now: &str)
        requires
            r < old(ctx).state.steps@.len(),
        ensures
            same_but_records(*old(ctx), *final(ctx)),
            final(ctx).state.steps@.len() == old(ctx).state.steps@.len(),
            keeps_except(old(ctx).state.steps@, final(ctx).state.steps@, r as int, r as int),
            is_settled(old(ctx).state.steps@[r as int], final(ctx).state.steps@[r as int], status, skipped, now@),
    {
        ctx.state.steps[r].status = status;
        ctx.state.steps[r].finished_at = Some(String::from_str(now));
        ctx.state.steps[r].skipped_apply = skipped;
    }

    /// Mark the record at `r` failed with `err` at `now`, and hand `err` on.
    fn fail(ctx: &mut RunContext, r: usize, err: RunError, now: &str) -> (act: Action)
        requires
            r < old(ctx).state.steps@.len(),
        ensures
            same_but_records(*old(ctx), *final(ctx)),
            final(ctx).state.steps@.len() == old(ctx).state.steps@.len(),
            keeps_except(old(ctx).state.steps@, final(ctx).state.steps@, r as int, r as int),
            is_failed(old(ctx).state.steps@[r as int], final(ctx).state.steps@[r as int],
                message_of(err.kind, err.step@, err.cause@), now@),
            act matches Action::Halt(e) && error_is(e, err.kind, err.step@, err.cause@),
    {
        ctx.state.steps[r].status = StepStatus::Failed;
        ctx.state.steps[r].finished_at = Some(String::from_str(now));
        ctx.state.steps[r].error = Some(err.message());
        Action::Halt(err)
    }

    /// Settle the step at `cur` and go on with the next one, or finish.
    fn settle_and_move_on(
        &self,
        ctx: &mut RunContext,
        cur: Cursor,
        status: StepStatus,
        skipped: bool,
        now: &str,
    ) -> (act: Action)
        requires
            distinct_ids(self.ids()),
            points_at(self.ids(), old(ctx).state.steps@, cur),
            old(ctx).state.steps@.len() < usize::MAX,
        ensures
            same_but_records(*old(ctx), *final(ctx)),
            settles(self.ids(), old(ctx).state.steps@, final(ctx).state.steps@, cur, status, skipped, now@, act),
    {
        let ghost old_steps = ctx.state.steps@;
        Self::settle(ctx, cur.record, status, skipped, now);
        let ghost mid = ctx.state.steps@;
        let n = self.steps.len();
        assert(self.ids().len() == n);
        if cur.step + 1 < n {
            proof {
                lemma_same_ids(old_steps, mid);
            }
            let k = cur.step + 1;
            let i = self.enter(ctx, k, now);
            proof {
                let ids = self.ids();
                assert(ids[cur.step as int] != ids[k as int]);
                assert(mid[cur.record as int].id@ == ids[cur.step as int]);
                assert(i != cur.record);
            }
            Action::Call(Cursor { step: k, record: i, phase: Phase::Preflight })
        } else {
            Action::Finish
        }
    }

    /// Start the run: take this invocation's mode into the state and enter
    /// the first step, or finish at once when there is none.
    pub fn start(&self, ctx: &mut RunContext, now: &str) -> (act: Action)
        requires
            old(ctx).state.steps@.len() < usize::MAX,
        ensures
            final(ctx).run_id == old(ctx).run_id,
            final(ctx).dry_run == old(ctx).dry_run,
            final(ctx).state_store == old(ctx).state_store,
            final(ctx).inputs == old(ctx).inputs,
            final(ctx).state.dry_run == old(ctx).dry_run,
            same_but_steps(old(ctx).state, final(ctx).state.with_dry_run(old(ctx).state.dry_run)),
            if self.ids().len() == 0 {
                act is Finish && final(ctx).state.steps == old(ctx).state.steps
            } else {
                &&& act matches Action::Call(c)
                &&& c.step == 0
                &&& c.phase == Phase::Preflight
                &&& enters(old(ctx).state.steps@, final(ctx).state.steps@, self.ids()[0], now@, c.record as int)
                &&& keeps_except(old(ctx).state.steps@, final(ctx).state.steps@, c.record as int, c.record as int)
            },
    {
        ctx.state.dry_run = ctx.dry_run;
        if self.steps.len() == 0 {
            Action::Finish
        } else {
            let i = self.enter(ctx, 0, now);
            Action::Call(Cursor { step: 0, record: i, phase: Phase::Preflight })
        }
    }

    /// Take the outcome `ev` of the call awaited at `cur`, record it at
    /// `now`, and say what comes next.
    pub fn advance(&self, ctx: &mut RunContext, cur: Cursor, ev: Event, now: &str) -> (act: Action)
        requires
            distinct_ids(self.ids()),
            points_at(self.ids(), old(ctx).state.steps@, cur),
            old(ctx).state.steps@.len() < usize::MAX,
            fits(cur.phase, ev),
        ensures
            same_but_records(*old(ctx), *final(ctx)),
            advances(self.ids(), old(ctx).dry_run, old(ctx).state.steps@, cur, ev, now@,
                final(ctx).state.steps@, act),
    {
        let id = self.steps[cur.step].as_str();
        assert(id@ == self.ids()[cur.step as int]);
        match &ev {
            Event::Raised(cause) => {
                let kind = match cur.phase {
                    Phase::Preflight => ErrorKind::Precondition,
                    Phase::Apply => ErrorKind::Effect,
                    _ => ErrorKind::Check,
                };
                Self::fail(ctx, cur.record, RunError::new(kind, id, cause.as_str()), now)
            },
            Event::Passed => {
                let phase = match cur.phase {
                    Phase::Preflight => Phase::FirstVerify,
                    _ => Phase::SecondVerify,
                };
                Action::Call(Cursor { phase, ..cur })
            },
            Event::Verified(VerifyStatus::Complete) => {
                let skipped = match cur.phase {
                    Phase::FirstVerify => true,
                    _ => false,
                };
                self.settle_and_move_on(ctx, cur, StepStatus::Complete, skipped, now)
            },
            Event::Verified(VerifyStatus::Incomplete) => match cur.phase {
                Phase::FirstVerify => if ctx.dry_run {
                    self.settle_and_move_on(ctx, cur, StepStatus::DryRun, true, now)
                } else {
                    Action::Call(Cursor { phase: Phase::Apply, ..cur })
                },
                _ => {
                    proof {
                        reveal_strlit("");
                        assert(""@ =~= Seq::<char>::empty());
                    }
                    let err = RunError::new(ErrorKind::PostconditionMismatch, id, "");
                    Self::fail(ctx, cur.record, err, now)
                },
            },
        }
    }
}

} // verus!
