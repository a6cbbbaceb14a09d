use tap_setup::inputs::{FormulaMode, Inputs, Visibility};
use tap_setup::runner::VerifyStatus;
use tap_setup::state::{RunContext, StateStore};
use tap_setup::steps::{
    is_repo_missing, AddFormulaStep, BrewTapNewStep, CommitAndPushStep, FinalSummaryStep,
    GhRepoCreateStep, PreflightStep, StatusInfo, Step, ToolCheck, ValidateTapStep,
};

fn ctx_with(repo: Option<&str>) -> RunContext {
    let inputs = Inputs::new(
        "acme".to_string(),
        "tools".to_string(),
        repo.map(|s| s.to_string()),
        Visibility::Public,
        "main".to_string(),
        FormulaMode::Stub,
        None,
        None,
    )
    .unwrap();
    RunContext::new(false, inputs, StateStore::at("/tmp/taps".to_string()))
}

fn status(dirty: bool, ahead: usize, behind: usize, has_upstream: bool) -> StatusInfo {
    StatusInfo { dirty, ahead, behind, has_upstream, branch: "main".to_string() }
}

#[test]
fn step_ids_are_distinct() {
    let ids = [
        PreflightStep::new().id(),
        BrewTapNewStep::new().id(),
        GhRepoCreateStep::new().id(),
        AddFormulaStep::new().id(),
        CommitAndPushStep::new().id(),
        ValidateTapStep::new().id(),
        FinalSummaryStep::new().id(),
    ];
    assert_eq!(ids[0], "preflight");
    assert_eq!(ids[6], "final_summary");
    for a in 0..ids.len() {
        for b in 0..a {
            assert_ne!(ids[a], ids[b]);
        }
    }
    assert_eq!(AddFormulaStep::new().description(), "Add formula");
}

#[test]
fn tap_candidates_follow_repo_name() {
    let ctx = ctx_with(None);
    assert_eq!(ValidateTapStep::tap_candidates(&ctx), vec!["acme/homebrew-tools", "acme/tools"]);
    assert_eq!(ValidateTapStep::preferred_tap(&ctx), "acme/tools");
    let ctx = ctx_with(Some("custom"));
    assert_eq!(ValidateTapStep::tap_candidates(&ctx), vec!["acme/custom"]);
    assert_eq!(ValidateTapStep::preferred_tap(&ctx), "acme/custom");
}

#[test]
fn tap_path_must_be_recorded() {
    let mut ctx = ctx_with(None);
    let msg = "tap path is not set; brew tap-new must run first";
    assert_eq!(AddFormulaStep::tap_path(&ctx).unwrap_err(), msg);
    BrewTapNewStep::record_tap_path(&mut ctx, "  ".to_string());
    assert_eq!(CommitAndPushStep::tap_path(&ctx).unwrap_err(), msg);
    BrewTapNewStep::record_tap_path(&mut ctx, "/opt/tap".to_string());
    assert_eq!(GhRepoCreateStep::tap_path(&ctx).unwrap(), "/opt/tap");
    assert_eq!(AddFormulaStep::stub_formula_path(&ctx).unwrap(), "/opt/tap/Formula/tools.rb");
    assert_eq!(AddFormulaStep::formula_dir("/opt/tap"), "/opt/tap/Formula");
}

#[test]
fn tap_path_under_repository() {
    let ctx = ctx_with(None);
    let p = BrewTapNewStep::tap_path_under("/opt/homebrew\n", &ctx.inputs).unwrap();
    assert_eq!(p, "/opt/homebrew/Library/Taps/acme/homebrew-tools");
    assert_eq!(
        BrewTapNewStep::tap_path_under(" \n", &ctx.inputs).unwrap_err(),
        "brew --repository returned empty output"
    );
}

#[test]
fn branch_verdicts() {
    assert_eq!(CommitAndPushStep::verdict(&status(false, 0, 0, true)).unwrap(), VerifyStatus::Complete);
    assert_eq!(CommitAndPushStep::verdict(&status(true, 0, 0, true)).unwrap(), VerifyStatus::Incomplete);
    assert_eq!(CommitAndPushStep::verdict(&status(false, 2, 0, true)).unwrap(), VerifyStatus::Incomplete);
    assert_eq!(CommitAndPushStep::verdict(&status(false, 0, 0, false)).unwrap(), VerifyStatus::Incomplete);
    assert_eq!(
        CommitAndPushStep::verdict(&status(false, 0, 1, true)).unwrap_err(),
        "local branch is behind origin; pull is required before pushing"
    );
    assert!(CommitAndPushStep::needs_push(&status(false, 0, 0, false)));
    assert!(!CommitAndPushStep::needs_push(&status(true, 0, 0, true)));
    assert!(CommitAndPushStep::nothing_to_commit("On branch main\nNothing To Commit, working tree clean"));
    assert!(!CommitAndPushStep::nothing_to_commit("fatal: bad"));
}

#[test]
fn remote_lookups_are_classified() {
    assert!(is_repo_missing("GraphQL: Could not resolve to a Repository with the name 'x'"));
    assert!(is_repo_missing("HTTP 404: Not Found"));
    assert!(!is_repo_missing("network unreachable"));
    assert!(GhRepoCreateStep::remote_is_absent("error: No such remote 'origin'"));
    assert!(!GhRepoCreateStep::remote_is_absent("fatal: unknown"));
    let ssh = "git@github.com:acme/homebrew-tools.git".to_string();
    let web = "https://github.com/acme/homebrew-tools".to_string();
    assert!(GhRepoCreateStep::remote_matches(&ssh, &ssh, &web));
    assert!(GhRepoCreateStep::remote_matches(&format!("{}.git", web), &ssh, &web));
    assert!(!GhRepoCreateStep::remote_matches(&"https://example.com/x".to_string(), &ssh, &web));
    assert_eq!(GhRepoCreateStep::visibility_flag(Visibility::Private), "--private");
}

#[test]
fn tool_checks_are_summarized() {
    let p = PreflightStep::new();
    assert_eq!(p.required().len(), 3);
    assert!(p.check_required(&vec![ToolCheck::Ran, ToolCheck::Ran, ToolCheck::Ran]).is_ok());
    let e = p
        .check_required(&vec![ToolCheck::NotFound, ToolCheck::Failed("exit 1".to_string()), ToolCheck::NotFound])
        .unwrap_err();
    assert_eq!(e, "Missing required tools: git, GitHub CLI");
    let e = p
        .check_required(&vec![ToolCheck::Failed("a".to_string()), ToolCheck::Ran, ToolCheck::Failed("b".to_string())])
        .unwrap_err();
    assert_eq!(e, "Required tools failed to run: git: a; GitHub CLI: b");
}

#[test]
fn formula_name_is_chosen_and_recorded() {
    let mut ctx = ctx_with(None);
    let one = vec!["found".to_string()];
    assert_eq!(AddFormulaStep::chosen_formula_name(&one, "asked".to_string()), "found");
    let two = vec!["a".to_string(), "b".to_string()];
    assert_eq!(AddFormulaStep::chosen_formula_name(&two, "asked".to_string()), "asked");
    assert_eq!(FinalSummaryStep::install_formula(&ctx), "tools");
    AddFormulaStep::set_formula_name(&mut ctx, "widget".to_string());
    assert_eq!(ctx.state.formula_name.as_deref(), Some("widget"));
    assert_eq!(FinalSummaryStep::install_formula(&ctx), "widget");
}
