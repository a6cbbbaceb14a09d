use tap_setup::error::{ErrorKind, RunError};
use tap_setup::inputs::{FormulaMode, Inputs, Visibility};
use tap_setup::runner::{Action, Cursor, Event, Phase, Runner, VerifyStatus};
use tap_setup::state::{RunContext, State, StateStore, StepRecord, StepStatus};
use tap_setup::steps::FinalSummaryStep;

fn sample_inputs() -> Inputs {
    Inputs::new(
        "acme".to_string(),
        "tools".to_string(),
        None,
        Visibility::Public,
        "main".to_string(),
        FormulaMode::Stub,
        None,
        None,
    )
    .unwrap()
}

fn fresh(dry_run: bool) -> RunContext {
    RunContext::new(dry_run, sample_inputs(), StateStore::at("/tmp/taps".to_string()))
}

fn runner(ids: &[&str]) -> Runner {
    Runner::new(ids.iter().map(|s| s.to_string()).collect())
}

/// Runs the engine to its end, answering each call with `answer`; returns the
/// final action and the calls asked for, in order.
fn drive(
    r: &Runner,
    ctx: &mut RunContext,
    mut answer: impl FnMut(usize, Phase) -> Event,
) -> (Action, Vec<(usize, Phase)>) {
    let mut calls = Vec::new();
    let mut act = r.start(ctx, "t-start");
    let mut tick = 0;
    loop {
        let cur: Cursor = match act {
            Action::Call(c) => c,
            other => return (other, calls),
        };
        calls.push((cur.step, cur.phase));
        let ev = answer(cur.step, cur.phase);
        tick += 1;
        act = r.advance(ctx, cur, ev, &format!("t{}", tick));
    }
}

fn record<'a>(ctx: &'a RunContext, id: &str) -> Option<&'a StepRecord> {
    ctx.state.steps.iter().find(|s| s.id == id)
}

#[test]
fn fresh_run_completes_every_step() {
    let r = runner(&["one", "two", "three"]);
    let mut ctx = fresh(false);
    let mut applied = vec![false; 3];
    let (act, calls) = drive(&r, &mut ctx, |k, phase| match phase {
        Phase::Apply => {
            applied[k] = true;
            Event::Passed
        }
        Phase::Preflight => Event::Passed,
        _ => Event::Verified(if applied[k] { VerifyStatus::Complete } else { VerifyStatus::Incomplete }),
    });
    assert!(matches!(act, Action::Finish));
    assert_eq!(calls.len(), 12);
    assert_eq!(ctx.state.steps.len(), 3);
    for rec in &ctx.state.steps {
        assert_eq!(rec.status, StepStatus::Complete);
        assert!(!rec.skipped_apply);
        assert!(rec.started_at.is_some());
        assert!(rec.finished_at.is_some());
        assert!(rec.error.is_none());
    }
}

fn resumed_snapshot(ctx: &RunContext) -> State {
    let mut snap = ctx.state.clone();
    snap.steps = vec![
        StepRecord {
            id: "step1".to_string(),
            status: StepStatus::Complete,
            started_at: Some("a0".to_string()),
            finished_at: Some("a1".to_string()),
            error: None,
            skipped_apply: false,
        },
        StepRecord {
            id: "step2".to_string(),
            status: StepStatus::Failed,
            started_at: Some("b0".to_string()),
            finished_at: Some("b1".to_string()),
            error: Some("boom".to_string()),
            skipped_apply: false,
        },
    ];
    snap
}

#[test]
fn resume_reenters_failed_step() {
    let first = fresh(false);
    let snap = resumed_snapshot(&first);
    let mut ctx = RunContext::load(first.run_id.clone(), false, first.state_store.clone(), snap).unwrap();
    let r = runner(&["step1", "step2"]);
    let mut applied = false;
    let (act, calls) = drive(&r, &mut ctx, |k, phase| match (k, phase) {
        (0, Phase::Preflight) => Event::Passed,
        (0, _) => Event::Verified(VerifyStatus::Complete),
        (_, Phase::Apply) => {
            applied = true;
            Event::Passed
        }
        (_, Phase::Preflight) => Event::Passed,
        _ => Event::Verified(if applied { VerifyStatus::Complete } else { VerifyStatus::Incomplete }),
    });
    assert!(matches!(act, Action::Finish));
    assert!(!calls.contains(&(0, Phase::Apply)));
    assert_eq!(
        calls[2..].to_vec(),
        vec![(1, Phase::Preflight), (1, Phase::FirstVerify), (1, Phase::Apply), (1, Phase::SecondVerify)]
    );
    let one = record(&ctx, "step1").unwrap();
    assert_eq!(one.status, StepStatus::Complete);
    assert!(one.skipped_apply);
    let two = record(&ctx, "step2").unwrap();
    assert_eq!(two.status, StepStatus::Complete);
    assert!(two.error.is_none());
    assert!(!two.skipped_apply);
    assert_eq!(ctx.state.steps.len(), 2);
}

#[test]
fn resume_leaves_finished_step_alone_while_next_runs() {
    let first = fresh(false);
    let mut snap = resumed_snapshot(&first);
    snap.steps[1].status = StepStatus::Pending;
    snap.steps[1].error = None;
    let mut ctx = RunContext::load(first.run_id.clone(), false, first.state_store.clone(), snap).unwrap();
    let r = runner(&["step2"]);
    let (act, calls) = drive(&r, &mut ctx, |_, phase| match phase {
        Phase::Preflight => Event::Passed,
        _ => Event::Verified(VerifyStatus::Complete),
    });
    assert!(matches!(act, Action::Finish));
    assert_eq!(calls[0], (0, Phase::Preflight));
    let one = record(&ctx, "step1").unwrap();
    assert_eq!(one.status, StepStatus::Complete);
    assert_eq!(one.started_at.as_deref(), Some("a0"));
    assert_eq!(one.finished_at.as_deref(), Some("a1"));
    assert_eq!(record(&ctx, "step2").unwrap().status, StepStatus::Complete);
}

#[test]
fn dry_run_skips_every_apply() {
    let r = runner(&["one", "two", "three"]);
    let mut ctx = fresh(true);
    let (act, calls) = drive(&r, &mut ctx, |_, phase| match phase {
        Phase::Preflight => Event::Passed,
        Phase::Apply => panic!("apply under dry-run"),
        _ => Event::Verified(VerifyStatus::Incomplete),
    });
    assert!(matches!(act, Action::Finish));
    assert!(calls.iter().all(|(_, p)| *p != Phase::Apply));
    assert!(ctx.state.dry_run);
    assert_eq!(ctx.state.steps.len(), 3);
    for rec in &ctx.state.steps {
        assert_eq!(rec.status, StepStatus::DryRun);
        assert!(rec.skipped_apply);
    }
}

#[test]
fn complete_at_entry_is_not_applied() {
    let r = runner(&["one"]);
    let mut ctx = fresh(false);
    let (act, calls) = drive(&r, &mut ctx, |_, phase| match phase {
        Phase::Preflight => Event::Passed,
        Phase::Apply => panic!("apply of a complete step"),
        _ => Event::Verified(VerifyStatus::Complete),
    });
    assert!(matches!(act, Action::Finish));
    assert_eq!(calls, vec![(0, Phase::Preflight), (0, Phase::FirstVerify)]);
    assert_eq!(ctx.state.steps[0].status, StepStatus::Complete);
    assert!(ctx.state.steps[0].skipped_apply);
}

#[test]
fn apply_error_halts_the_run() {
    let r = runner(&["one", "two", "three"]);
    let mut ctx = fresh(false);
    let (act, _) = drive(&r, &mut ctx, |k, phase| match (k, phase) {
        (_, Phase::Preflight) => Event::Passed,
        (1, Phase::Apply) => Event::Raised("disk full".to_string()),
        (_, Phase::Apply) => Event::Passed,
        (1, _) => Event::Verified(VerifyStatus::Incomplete),
        _ => Event::Verified(VerifyStatus::Complete),
    });
    let err = match act {
        Action::Halt(e) => e,
        _ => panic!("run did not halt"),
    };
    assert_eq!(err.kind, ErrorKind::Effect);
    assert_eq!(err.step, "two");
    assert_eq!(err.cause, "disk full");
    assert_eq!(err.message(), "Apply failed for step two: disk full");
    let two = record(&ctx, "two").unwrap();
    assert_eq!(two.status, StepStatus::Failed);
    assert_eq!(two.error.as_deref(), Some("Apply failed for step two: disk full"));
    assert!(record(&ctx, "three").is_none());
    assert_eq!(ctx.state.steps.len(), 2);
}

#[test]
fn unverified_apply_is_a_mismatch() {
    let r = runner(&["one", "two"]);
    let mut ctx = fresh(false);
    let (act, calls) = drive(&r, &mut ctx, |_, phase| match phase {
        Phase::Preflight | Phase::Apply => Event::Passed,
        _ => Event::Verified(VerifyStatus::Incomplete),
    });
    let err = match act {
        Action::Halt(e) => e,
        _ => panic!("run did not halt"),
    };
    assert_eq!(err.kind, ErrorKind::PostconditionMismatch);
    assert_ne!(err.kind, ErrorKind::Effect);
    assert_eq!(
        err.message(),
        "Step one did not verify after apply. See logs/state for details."
    );
    assert_eq!(calls.len(), 4);
    assert_eq!(ctx.state.steps[0].status, StepStatus::Failed);
    assert!(record(&ctx, "two").is_none());
}

#[test]
fn preflight_and_verify_errors_have_their_own_classes() {
    let r = runner(&["one"]);
    let mut ctx = fresh(false);
    let (act, _) = drive(&r, &mut ctx, |_, _| Event::Raised("no tool".to_string()));
    match act {
        Action::Halt(e) => {
            assert_eq!(e.kind, ErrorKind::Precondition);
            assert_eq!(e.message(), "Preflight failed for step one: no tool");
        }
        _ => panic!("run did not halt"),
    }
    let mut ctx = fresh(false);
    let (act, _) = drive(&r, &mut ctx, |_, phase| match phase {
        Phase::Preflight => Event::Passed,
        _ => Event::Raised("cannot look".to_string()),
    });
    match act {
        Action::Halt(e) => {
            assert_eq!(e.kind, ErrorKind::Check);
            assert_eq!(e.message(), "Verify failed for step one: cannot look");
        }
        _ => panic!("run did not halt"),
    }
    assert_eq!(ctx.state.steps[0].status, StepStatus::Failed);
}

#[test]
fn verdict_of_a_state_is_repeatable() {
    let mut ctx = fresh(false);
    let a = FinalSummaryStep::verdict(&ctx.state);
    let b = FinalSummaryStep::verdict(&ctx.state);
    assert_eq!(a, VerifyStatus::Incomplete);
    assert_eq!(a, b);
    FinalSummaryStep::mark_printed(&mut ctx);
    assert_eq!(FinalSummaryStep::verdict(&ctx.state), VerifyStatus::Complete);
    assert_eq!(FinalSummaryStep::verdict(&ctx.state), VerifyStatus::Complete);
}

#[test]
fn empty_runner_finishes_at_once() {
    let r = runner(&[]);
    let mut ctx = fresh(true);
    assert!(matches!(r.start(&mut ctx, "now"), Action::Finish));
    assert!(ctx.state.steps.is_empty());
    assert!(ctx.state.dry_run);
}

#[test]
fn load_refuses_snapshot_without_inputs() {
    let first = fresh(false);
    let mut snap = first.state.clone();
    snap.inputs = None;
    let err = RunContext::load(first.run_id.clone(), true, first.state_store.clone(), snap).unwrap_err();
    assert_eq!(err.kind, ErrorKind::MissingConfig);
    assert_eq!(err.message(), "state does not contain inputs");
}

#[test]
fn load_takes_this_invocations_mode() {
    let first = fresh(false);
    let snap = resumed_snapshot(&first);
    let ctx = RunContext::load(first.run_id.clone(), true, first.state_store.clone(), snap).unwrap();
    assert!(ctx.dry_run);
    assert!(ctx.state.dry_run);
    assert_eq!(ctx.state.steps.len(), 2);
    assert_eq!(ctx.inputs.owner, "acme");
    assert_eq!(ctx.run_id, first.run_id);
}

#[test]
fn new_run_embeds_inputs() {
    let ctx = fresh(true);
    assert_eq!(ctx.run_id.len(), 36);
    assert_eq!(ctx.state.run_id, ctx.run_id);
    assert_eq!(ctx.state.schema_version, 1);
    assert!(ctx.state.dry_run);
    assert_eq!(ctx.state.inputs.as_ref().unwrap().repo_name, "homebrew-tools");
    assert!(ctx.state.steps.is_empty());
    assert!(!ctx.state.started_at.is_empty());
}

#[test]
fn state_path_is_under_the_run() {
    let store = StateStore::at("/tmp/taps".to_string());
    assert_eq!(store.state_path("abc"), "/tmp/taps/runs/abc/state.json");
    assert_eq!(store.run_dir("abc"), "/tmp/taps/runs/abc");
    assert_eq!(store.base_dir(), "/tmp/taps");
}

#[test]
fn ensure_step_finds_or_appends() {
    let mut ctx = fresh(false);
    assert_eq!(ctx.state.ensure_step("a"), 0);
    assert_eq!(ctx.state.ensure_step("b"), 1);
    assert_eq!(ctx.state.ensure_step("a"), 0);
    assert_eq!(ctx.state.steps.len(), 2);
    assert_eq!(ctx.state.steps[1].status, StepStatus::Pending);
}

#[test]
fn store_errors_report_their_cause() {
    for kind in [ErrorKind::Storage, ErrorKind::NotFound, ErrorKind::CorruptState] {
        let e = RunError::new(kind, "", "Failed to parse state: /x");
        assert_eq!(e.kind, kind);
        assert_eq!(e.message(), "Failed to parse state: /x");
    }
}
