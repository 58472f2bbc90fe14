use workspace_manager::backend::BackendCommand;
use workspace_manager::branch_ops::{
    branch_creation_plan, choice_label, cleanup_choice, cleanup_choice_list,
    create_and_commit_to_branch, create_and_commit_to_branch_step, create_and_switch_to_branch,
    discard_changes, ensure_clean_workspace, ensure_clean_workspace_step, input_commit_message,
    new_branch_url, text_is_blank, BranchSaveAction, BranchSaveEvent, BranchSavePhase,
    CleanAction, CleanEnd, CleanEvent, CleanPhase, CleanupChoice,
};
use workspace_manager::commit::CommitResult;
use workspace_manager::context::SvnContext;
use workspace_manager::error::AppError;
use workspace_manager::project_commands::{
    branch_or_trunk_url, branch_route, branch_source_log, commit_report, copy_source_log,
    delete_branch, existence_failure_report, given_commit_message, handle_branch, handle_commit,
    handle_commit_step, handle_pull, handle_push, handle_review, handle_revert,
    handle_revert_step, line_url_of, merge_from, other_branch, restore_branch, revert_plan,
    revert_target, review_commit_choice, review_commit_choices, review_outcome, review_target,
    BranchRoute, BranchStep, CommitEnd, CommitFlowAction, CommitFlowEvent, CommitFlowPhase,
    RevertAction, RevertEvent, RevertPhase, ReviewCommitChoice,
};
use workspace_manager::projects::ProjectStatus;
use workspace_manager::revision::Revision;
use workspace_manager::workspace_commands::{
    after_move, after_new, checkout_target, delete_route, failure_report,
    find_a_project_in_ws_store, get_repo_path, get_repo_url, handle_delete, handle_link_folder,
    handle_new, handle_restore, handle_switch, init_repo, launch_terminal, new_project_plan,
    not_checked_out, report_error_gui, restore_project, target_of, soft_delete, spawn_internal_switcher, switch_project_via_symlink,
    switch_report, switch_target, switch_to_empty, without_working_copy, AfterNew, CommandKind,
    DeleteRoute, LinkStep, StartupRoute, SwitchRoute,
};

fn words(cmd: &BackendCommand) -> Vec<String> {
    let mut v = vec![cmd.program.clone()];
    v.extend(cmd.args.iter().cloned());
    v
}

fn lines(plan: &[BackendCommand]) -> Vec<Vec<String>> {
    plan.iter().map(words).collect()
}

fn context(current: u64, latest: u64) -> SvnContext {
    SvnContext::new(
        "file:///r".to_string(),
        "demo".to_string(),
        "/r".to_string(),
        Revision::Number(current),
        Revision::Number(latest),
        true,
    )
}

fn message(e: AppError) -> String {
    e.message()
}

#[test]
fn a_clean_working_copy_needs_no_cleanup() {
    for is_review in [false, true] {
        let (phase, action) = ensure_clean_workspace(false, is_review);
        assert_eq!(phase, CleanPhase::Done);
        assert!(matches!(action, CleanAction::Finish(Ok(CleanEnd::Clean))));
    }
}

#[test]
fn a_dirty_working_copy_is_put_before_the_operator() {
    let (phase, action) = ensure_clean_workspace(true, false);
    assert_eq!(phase, CleanPhase::Asking);
    match action {
        CleanAction::Ask(choices) => assert_eq!(
            choices,
            vec![CleanupChoice::Commit, CleanupChoice::SaveToBranch, CleanupChoice::Discard, CleanupChoice::Cancel]
        ),
        _ => panic!("expected the question"),
    }
    let (_, action) = ensure_clean_workspace(true, true);
    match action {
        CleanAction::Ask(choices) => assert_eq!(
            choices,
            vec![CleanupChoice::SaveToBranch, CleanupChoice::Discard, CleanupChoice::Cancel]
        ),
        _ => panic!("expected the question"),
    }
    assert_eq!(cleanup_choice_list(true).len(), 3);
    assert_eq!(cleanup_choice(false, 0), CleanupChoice::Commit);
    assert_eq!(cleanup_choice(false, 3), CleanupChoice::Cancel);
    assert_eq!(cleanup_choice(true, 0), CleanupChoice::SaveToBranch);
    assert_eq!(cleanup_choice(true, 1), CleanupChoice::Discard);
    assert_eq!(cleanup_choice(true, 2), CleanupChoice::Cancel);
    assert_eq!(choice_label(CleanupChoice::Commit), "Commit changes and Continue in current branch");
    assert_eq!(choice_label(CleanupChoice::Cancel), "Cancel operation");
    assert_eq!(
        lines(&discard_changes()),
        vec![vec!["svn", "revert", "-R", "."], vec!["svn", "cleanup", "."]]
    );
}

#[test]
fn the_choice_about_a_dirty_working_copy_decides_what_follows() {
    let choose = |is_review: bool, i: usize| {
        ensure_clean_workspace_step(is_review, CleanPhase::Asking, CleanEvent::Chosen(i))
    };
    let (phase, action) = choose(true, 2);
    assert_eq!(phase, CleanPhase::Done);
    assert!(matches!(action, CleanAction::Finish(Err(AppError::OperationCancelled))));
    let (phase, action) = choose(false, 3);
    assert_eq!(phase, CleanPhase::Done);
    assert!(matches!(action, CleanAction::Finish(Err(AppError::OperationCancelled))));
    let (phase, action) = choose(true, 1);
    assert_eq!(phase, CleanPhase::Discarding);
    match action {
        CleanAction::Discard(plan) => assert_eq!(
            lines(&plan),
            vec![vec!["svn", "revert", "-R", "."], vec!["svn", "cleanup", "."]]
        ),
        _ => panic!("expected the discard"),
    }
    let (phase, action) =
        ensure_clean_workspace_step(true, CleanPhase::Discarding, CleanEvent::Completed);
    assert_eq!(phase, CleanPhase::Done);
    assert!(matches!(action, CleanAction::Finish(Ok(CleanEnd::Discarded))));
    let (phase, action) = choose(true, 0);
    assert_eq!(phase, CleanPhase::Saving);
    assert!(matches!(action, CleanAction::SaveToBranch));
    let (phase, action) =
        ensure_clean_workspace_step(true, CleanPhase::Saving, CleanEvent::Completed);
    assert_eq!(phase, CleanPhase::Done);
    assert!(matches!(action, CleanAction::Finish(Ok(CleanEnd::SavedToBranch))));
    let (phase, action) = choose(false, 0);
    assert_eq!(phase, CleanPhase::AskMessage);
    assert!(matches!(action, CleanAction::AskMessage));
    let (phase, action) = ensure_clean_workspace_step(
        false,
        CleanPhase::AskMessage,
        CleanEvent::Entered("m".into()),
    );
    assert_eq!(phase, CleanPhase::Committing);
    assert!(matches!(action, CleanAction::Commit(ref m) if m == "m"));
    let (phase, action) =
        ensure_clean_workspace_step(false, CleanPhase::Committing, CleanEvent::Completed);
    assert_eq!(phase, CleanPhase::Done);
    assert!(matches!(action, CleanAction::Finish(Ok(CleanEnd::Committed))));
    for (is_review, i) in [(true, 3), (false, 4), (true, usize::MAX)] {
        let (phase, action) = choose(is_review, i);
        assert_eq!(phase, CleanPhase::Done);
        assert!(matches!(action, CleanAction::Finish(Err(AppError::Validation(_)))));
    }
    let (phase, action) = ensure_clean_workspace_step(
        false,
        CleanPhase::Discarding,
        CleanEvent::Failed(AppError::RevisionParse("x".into())),
    );
    assert_eq!(phase, CleanPhase::Done);
    assert!(matches!(action, CleanAction::Finish(Err(AppError::RevisionParse(_)))));
}

#[test]
fn makes_a_branch_off_the_current_revision() {
    let ctx = context(5, 10);
    assert_eq!(new_branch_url(&ctx, "fix").unwrap(), "file:///r/demo/branches/fix");
    let plan = create_and_switch_to_branch(&ctx, "fix", false, "file:///r/demo/trunk").unwrap();
    assert_eq!(
        lines(&plan),
        vec![
            vec![
                "svn",
                "copy",
                "file:///r/demo/trunk@r5",
                "file:///r/demo/branches/fix",
                "-m",
                "[WS-BRANCH] Create fix",
                "--parents"
            ],
            vec!["svn", "switch", "file:///r/demo/branches/fix", ".", "--ignore-ancestry"],
        ]
    );
    assert_eq!(
        message(create_and_switch_to_branch(&ctx, "fix", true, "u").unwrap_err()),
        "Error: Branch fix already exists"
    );
    assert_eq!(
        message(create_and_switch_to_branch(&ctx, "trunk", false, "u").unwrap_err()),
        "Error: Invalid branch name: trunk, trunk is a reserved keyword."
    );
    assert!(new_branch_url(&ctx, "a/b").is_err());
}

#[test]
fn saving_to_a_branch_retries_until_the_operator_gives_up() {
    let (phase, action) = create_and_commit_to_branch();
    assert_eq!(phase, BranchSavePhase::AskName);
    assert!(matches!(action, BranchSaveAction::AskName));
    let (phase, action) =
        create_and_commit_to_branch_step(None, phase, BranchSaveEvent::Entered("fix".into()));
    assert_eq!(phase, BranchSavePhase::Creating);
    assert!(matches!(action, BranchSaveAction::Create(ref n) if n == "fix"));
    let (phase, action) = create_and_commit_to_branch_step(
        None,
        phase,
        BranchSaveEvent::Failed(AppError::Validation("Branch fix already exists".into())),
    );
    assert_eq!(phase, BranchSavePhase::AskRetry);
    assert!(matches!(action, BranchSaveAction::AskRetry(AppError::Validation(_))));
    let (phase, action) = create_and_commit_to_branch_step(None, phase, BranchSaveEvent::Answer(true));
    assert_eq!(phase, BranchSavePhase::AskName);
    assert!(matches!(action, BranchSaveAction::AskName));
    let (phase, _) =
        create_and_commit_to_branch_step(None, phase, BranchSaveEvent::Entered("fix2".into()));
    let (phase, action) = create_and_commit_to_branch_step(None, phase, BranchSaveEvent::Completed);
    assert_eq!(phase, BranchSavePhase::AskMessage);
    assert!(matches!(action, BranchSaveAction::AskMessage));
    let (phase, action) =
        create_and_commit_to_branch_step(None, phase, BranchSaveEvent::Entered("msg".into()));
    assert_eq!(phase, BranchSavePhase::Committing);
    assert!(matches!(action, BranchSaveAction::Commit(ref m) if m == "msg"));
    let (phase, action) = create_and_commit_to_branch_step(None, phase, BranchSaveEvent::Completed);
    assert_eq!(phase, BranchSavePhase::Done);
    assert!(matches!(action, BranchSaveAction::Finish(Ok(()))));

    let (phase, action) = create_and_commit_to_branch_step(
        Some("given"),
        BranchSavePhase::Creating,
        BranchSaveEvent::Completed,
    );
    assert_eq!(phase, BranchSavePhase::Committing);
    assert!(matches!(action, BranchSaveAction::Commit(ref m) if m == "given"));
    let (phase, action) = create_and_commit_to_branch_step(
        None,
        BranchSavePhase::AskRetry,
        BranchSaveEvent::Answer(false),
    );
    assert_eq!(phase, BranchSavePhase::Done);
    assert!(matches!(action, BranchSaveAction::Finish(Err(AppError::OperationCancelled))));
    let (phase, action) = create_and_commit_to_branch_step(
        None,
        BranchSavePhase::Committing,
        BranchSaveEvent::Failed(AppError::OperationCancelled),
    );
    assert_eq!(phase, BranchSavePhase::Done);
    assert!(matches!(action, BranchSaveAction::Finish(Err(AppError::OperationCancelled))));
    let (phase, action) =
        create_and_commit_to_branch_step(None, BranchSavePhase::AskName, BranchSaveEvent::Completed);
    assert_eq!(phase, BranchSavePhase::Done);
    assert!(matches!(action, BranchSaveAction::Finish(Err(AppError::Validation(_)))));
}

#[test]
fn a_blank_commit_message_becomes_an_automatic_one() {
    assert_eq!(input_commit_message("fix bug", "2024-01-01 10:00:00"), "fix bug");
    assert_eq!(input_commit_message("", "2024-01-01 10:00:00"), "Auto commit 2024-01-01 10:00:00");
    assert_eq!(input_commit_message("  \n", "T"), "Auto commit T");
    assert_eq!(input_commit_message(" x ", "T"), " x ");
    assert!(text_is_blank("\u{3000}\t"));
    assert!(!text_is_blank("."));
}

#[test]
fn a_review_goes_to_any_revision_up_to_the_latest() {
    let latest = Revision::Number(10);
    assert_eq!(review_target("r7", &latest).unwrap(), Revision::Number(7));
    assert_eq!(review_target("10", &latest).unwrap(), Revision::Number(10));
    match review_target("11", &latest) {
        Err(AppError::RevisionParse(m)) => {
            assert_eq!(m, "Target revision r11 is not latest revision r10, cannot review")
        }
        _ => panic!("expected a revision failure"),
    }
    assert_eq!(review_target("HEAD", &latest).unwrap(), Revision::Head);
    assert_eq!(review_target("12", &Revision::Head).unwrap(), Revision::Number(12));
    assert_eq!(review_target("HEAD", &Revision::Head).unwrap(), Revision::Head);
    match review_target("seven", &latest) {
        Err(AppError::RevisionParse(m)) => assert_eq!(m, "seven"),
        _ => panic!("expected a revision failure"),
    }
    assert_eq!(words(&handle_review(&Revision::Number(7))), vec!["svn", "update", "-r", "r7"]);
    assert_eq!(words(&handle_review(&Revision::Head)), vec!["svn", "update", "-r", "HEAD"]);
    assert_eq!(review_outcome(Ok(())).unwrap(), true);
    let failed = AppError::SvnCommandFailed { command: "c".into(), _stdout: "".into(), _stderr: "".into() };
    assert_eq!(review_outcome(Err(failed)).unwrap(), false);
    assert!(matches!(review_outcome(Err(AppError::OperationCancelled)), Err(AppError::OperationCancelled)));
}

#[test]
fn a_revert_goes_to_a_revision_before_the_latest() {
    let latest = Revision::Number(10);
    assert_eq!(revert_target("9", &latest).unwrap(), Revision::Number(9));
    for bad in ["10", "11", "HEAD"] {
        match revert_target(bad, &latest) {
            Err(AppError::RevisionParse(m)) => assert!(
                m.starts_with("Target revision ") && m.ends_with(" is not older than current revision r10, cannot revert"),
                "{}",
                m
            ),
            _ => panic!("expected a revision failure"),
        }
    }
    assert!(matches!(revert_target("?", &latest), Err(AppError::RevisionParse(m)) if m == "?"));
    let plan = revert_plan(&context(10, 10), &Revision::Number(4), "file:///r/demo/trunk", "20240101-120000");
    assert_eq!(plan.tag_name, "rollback-20240101-120000");
    assert_eq!(
        words(&plan.snapshot),
        vec![
            "svn",
            "copy",
            "file:///r/demo/trunk@r4",
            "file:///r/demo/tags/rollback-20240101-120000",
            "-m",
            "[WS-REVERT] Anchor for revert: rollback-20240101-120000",
            "--parents"
        ]
    );
    assert_eq!(words(&plan.merge), vec!["svn", "merge", "-r", "HEAD:r4", "."]);
    assert_eq!(words(&plan.recover), vec!["svn", "revert", "-R", "."]);
    assert_eq!(plan.commit_message, "[WS-ROLLBACK] tags/rollback-20240101-120000");
}

#[test]
fn a_commit_from_behind_is_put_before_the_operator() {
    let none: Option<String> = None;
    let given = Some("fix".to_string());
    let (phase, action) = handle_commit(false, true, &given);
    assert_eq!(phase, CommitFlowPhase::Done);
    assert!(matches!(action, CommitFlowAction::Finish(Ok(CommitEnd::NothingToCommit))));
    let (phase, action) = handle_commit(true, true, &given);
    assert_eq!(phase, CommitFlowPhase::AskChoice);
    assert!(matches!(action, CommitFlowAction::AskChoice));
    let (phase, action) = handle_commit(true, false, &given);
    assert_eq!(phase, CommitFlowPhase::Committing);
    assert!(matches!(action, CommitFlowAction::Commit(ref m) if m == "fix"));
    let (phase, action) = handle_commit(true, false, &Some("  ".to_string()));
    assert_eq!(phase, CommitFlowPhase::AskMessage(false));
    assert!(matches!(action, CommitFlowAction::AskMessage));

    let choose = |message: &Option<String>, choice| {
        handle_commit_step(message, CommitFlowPhase::AskChoice, CommitFlowEvent::Chosen(choice))
    };
    let (phase, action) = choose(&given, ReviewCommitChoice::Cancel);
    assert_eq!(phase, CommitFlowPhase::Done);
    assert!(matches!(action, CommitFlowAction::Finish(Err(AppError::OperationCancelled))));
    let (phase, action) = choose(&given, ReviewCommitChoice::CommitHere);
    assert_eq!(phase, CommitFlowPhase::Committing);
    assert!(matches!(action, CommitFlowAction::Commit(ref m) if m == "fix"));
    let (phase, action) = choose(&given, ReviewCommitChoice::CommitOnBranch);
    assert_eq!(phase, CommitFlowPhase::Saving);
    assert!(matches!(action, CommitFlowAction::SaveToBranch(ref m) if m == "fix"));
    let (phase, action) = choose(&none, ReviewCommitChoice::CommitOnBranch);
    assert_eq!(phase, CommitFlowPhase::AskMessage(true));
    assert!(matches!(action, CommitFlowAction::AskMessage));
    let (phase, action) = handle_commit_step(&none, phase, CommitFlowEvent::Entered("typed".into()));
    assert_eq!(phase, CommitFlowPhase::Saving);
    assert!(matches!(action, CommitFlowAction::SaveToBranch(ref m) if m == "typed"));
    let (phase, action) = handle_commit_step(&none, phase, CommitFlowEvent::Saved);
    assert_eq!(phase, CommitFlowPhase::Done);
    assert!(matches!(action, CommitFlowAction::Finish(Ok(CommitEnd::SavedToBranch))));
    let (phase, action) = handle_commit_step(
        &none,
        CommitFlowPhase::Committing,
        CommitFlowEvent::Committed(CommitResult::NoChanges),
    );
    assert_eq!(phase, CommitFlowPhase::Done);
    assert!(matches!(
        action,
        CommitFlowAction::Finish(Ok(CommitEnd::Committed(CommitResult::NoChanges)))
    ));
    let (phase, action) = handle_commit_step(
        &none,
        CommitFlowPhase::Committing,
        CommitFlowEvent::Failed(AppError::IncompleteState),
    );
    assert_eq!(phase, CommitFlowPhase::Done);
    assert!(matches!(action, CommitFlowAction::Finish(Err(AppError::IncompleteState))));
    let (phase, action) = handle_commit_step(&none, CommitFlowPhase::Saving, CommitFlowEvent::Entered("x".into()));
    assert_eq!(phase, CommitFlowPhase::Done);
    assert!(matches!(action, CommitFlowAction::Finish(Err(AppError::Validation(_)))));

    assert_eq!(
        review_commit_choices(),
        vec![
            "Continue to commit (may get conflicts!)",
            "Create a new branch and commit there (no conflicts)",
            "No, cancel operation"
        ]
    );
    assert_eq!(review_commit_choice(0), ReviewCommitChoice::CommitHere);
    assert_eq!(review_commit_choice(1), ReviewCommitChoice::CommitOnBranch);
    assert_eq!(review_commit_choice(2), ReviewCommitChoice::Cancel);
    assert_eq!(given_commit_message(&Some("m".to_string())), Some("m".to_string()));
    assert_eq!(given_commit_message(&Some("  ".to_string())), None);
    assert_eq!(given_commit_message(&None), None);
    assert_eq!(commit_report(CommitResult::NoChanges, "m"), "No changes to commit");
    assert_eq!(
        commit_report(CommitResult::Success, "m"),
        "Changes committed successfully. Commit message: m"
    );
}

fn revert_trace(fail_at: Option<&str>) -> (Vec<String>, Result<Revision, AppError>) {
    let ctx = context(10, 10);
    let (mut phase, mut action) = handle_revert("r4", ctx.get_latest_revision());
    let mut trace = Vec::new();
    loop {
        let label = match &action {
            RevertAction::EnsureClean => "clean".to_string(),
            RevertAction::ReadContext => "read".to_string(),
            RevertAction::Run(cmd) => words(cmd)[..2].join(" "),
            RevertAction::Commit(m) => format!("commit {}", m),
            RevertAction::Finish(_) => break,
        };
        trace.push(label.clone());
        let event = if fail_at == Some(label.as_str()) {
            RevertEvent::Failed(AppError::Validation(format!("{} failed", label)))
        } else if label == "read" {
            RevertEvent::Context { work_copy_root: "file:///r/demo/trunk".into(), timestamp: "T".into() }
        } else {
            RevertEvent::Completed
        };
        let next = handle_revert_step(&ctx, phase, event);
        phase = next.0;
        action = next.1;
    }
    assert!(matches!(phase, RevertPhase::Done));
    match action {
        RevertAction::Finish(result) => (trace, result),
        _ => unreachable!(),
    }
}

#[test]
fn a_revert_runs_its_steps_and_recovers_from_a_failed_merge() {
    let (trace, result) = revert_trace(None);
    assert_eq!(
        trace,
        vec!["clean", "read", "svn copy", "svn merge", "commit [WS-ROLLBACK] tags/rollback-T"]
    );
    assert_eq!(result.unwrap(), Revision::Number(4));

    let (trace, result) = revert_trace(Some("svn merge"));
    assert_eq!(trace, vec!["clean", "read", "svn copy", "svn merge", "svn revert"]);
    assert_eq!(result.unwrap_err().message(), "Error: svn merge failed");

    let (trace, result) = revert_trace(Some("svn copy"));
    assert_eq!(trace, vec!["clean", "read", "svn copy"]);
    assert_eq!(result.unwrap_err().message(), "Error: svn copy failed");

    let (trace, result) = revert_trace(Some("clean"));
    assert_eq!(trace, vec!["clean"]);
    assert!(result.is_err());

    let ctx = context(10, 10);
    let (phase, action) = handle_revert("10", ctx.get_latest_revision());
    assert!(matches!(phase, RevertPhase::Done));
    assert!(matches!(action, RevertAction::Finish(Err(AppError::RevisionParse(_)))));
    let (phase, action) = handle_revert_step(
        &ctx,
        RevertPhase::Recovering(AppError::Validation("merge".into())),
        RevertEvent::Failed(AppError::Validation("recover".into())),
    );
    assert!(matches!(phase, RevertPhase::Done));
    assert!(matches!(action, RevertAction::Finish(Err(AppError::Validation(ref m))) if m == "recover"));
    let (phase, action) = handle_revert_step(&ctx, RevertPhase::Done, RevertEvent::Completed);
    assert!(matches!(phase, RevertPhase::Done));
    assert!(matches!(action, RevertAction::Finish(Err(AppError::Validation(_)))));
}

#[test]
fn asks_the_history_where_a_copy_came_from() {
    let ctx = context(5, 10);
    assert_eq!(
        words(&copy_source_log(&ctx, "//tags/rollback-1")),
        vec!["svn", "log", "-v", "--xml", "--stop-on-copy", "--limit", "1", "file:///r/demo/tags/rollback-1"]
    );
    assert_eq!(
        words(&branch_source_log(&ctx, "fix")),
        vec![
            "svn", "log", "-v", "--xml", "--stop-on-copy", "--limit", "1", "-r", "1:HEAD",
            "file:///r/demo/branches/fix"
        ]
    );
}

#[test]
fn the_branch_command_goes_by_its_flags() {
    assert_eq!(handle_branch(None, true, true, true).unwrap(), BranchRoute::ShowLog);
    assert_eq!(handle_branch(Some("x"), true, true, true).unwrap(), BranchRoute::Restore);
    assert_eq!(handle_branch(Some("x"), true, true, false).unwrap(), BranchRoute::Delete);
    assert_eq!(handle_branch(Some("x"), true, false, false).unwrap(), BranchRoute::Create);
    assert_eq!(handle_branch(Some("x"), false, false, false).unwrap(), BranchRoute::Nothing);
    assert!(matches!(handle_branch(Some("tags"), true, false, false), Err(AppError::Validation(_))));
    assert!(matches!(handle_branch(Some(""), false, true, false), Err(AppError::Validation(_))));
}

fn step(s: BranchStep) -> Result<Vec<String>, String> {
    match s {
        BranchStep::Run(cmd) => Ok(words(&cmd)),
        BranchStep::Warn(text) => Err(text),
    }
}

#[test]
fn restores_a_branch_from_before_its_deletion() {
    let ctx = context(5, 10);
    assert_eq!(
        step(restore_branch(&ctx, "fix", false, 8)).unwrap(),
        vec![
            "svn",
            "copy",
            "file:///r/demo/branches/fix@7",
            "file:///r/demo/branches/fix",
            "-m",
            "Restore branch fix"
        ]
    );
    assert_eq!(step(restore_branch(&ctx, "fix", true, 8)).unwrap_err(), "Branch fix already exists");
    assert_eq!(
        step(restore_branch(&ctx, "fix", false, 0)).unwrap_err(),
        "No deleted branch named fix found in history"
    );
    assert_eq!(step(restore_branch(&ctx, "fix", false, 1)).unwrap()[2], "file:///r/demo/branches/fix@0");
}

#[test]
fn deletes_a_branch_unless_it_is_in_use() {
    let ctx = context(5, 10);
    assert_eq!(
        step(delete_branch(&ctx, "fix", "other", true)).unwrap(),
        vec!["svn", "delete", "file:///r/demo/branches/fix", "-m", "[WS-BRANCH-DELETE] Delete fix"]
    );
    assert_eq!(step(delete_branch(&ctx, "trunk", "trunk", true)).unwrap_err(), "Cannot delete trunk branch");
    assert_eq!(step(delete_branch(&ctx, "fix", "fix", true)).unwrap_err(), "Cannot delete current branch");
    assert_eq!(step(delete_branch(&ctx, "fix", "other", false)).unwrap_err(), "Branch fix does not exist");
}

#[test]
fn pull_and_push_work_with_another_branch_only_where_one_is_named() {
    assert_eq!(other_branch(Some("fix"), "trunk"), Some("fix".to_string()));
    assert_eq!(other_branch(Some("trunk"), "trunk"), None);
    assert_eq!(other_branch(Some("  "), "trunk"), None);
    assert_eq!(other_branch(Some(""), "trunk"), None);
    assert_eq!(other_branch(None, "trunk"), None);
    let ctx = context(5, 10);
    assert_eq!(branch_or_trunk_url(&ctx, "trunk").unwrap(), "file:///r/demo/trunk");
    assert_eq!(branch_or_trunk_url(&ctx, "fix").unwrap(), "file:///r/demo/branches/fix");
    assert!(branch_or_trunk_url(&ctx, "a/b").is_err());
    assert_eq!(words(&handle_pull()), vec!["svn", "update", "--accept", "postpone"]);
    assert_eq!(words(&merge_from("u")), vec!["svn", "merge", "--accept", "postpone", "u", "."]);
    assert_eq!(
        lines(&handle_push("file:///r/demo/trunk", "file:///r/demo/branches/fix")),
        vec![
            vec!["svn", "switch", "file:///r/demo/trunk", ".", "--ignore-ancestry"],
            vec!["svn", "merge", "--accept", "postpone", "file:///r/demo/branches/fix", "."],
        ]
    );
    assert_eq!(
        existence_failure_report("branch", &AppError::Validation("boom".into())),
        "Failed to check branch existence: Error: boom"
    );
}

#[test]
fn makes_a_project_with_its_directories_and_ignore_rules() {
    let ctx = context(1, 1);
    let plan = handle_new(&ctx, "fresh", false, "C:\\.ws_store\\repo\\fresh").unwrap().unwrap();
    assert_eq!(
        lines(&plan.create),
        vec![
            vec![
                "svn",
                "mkdir",
                "--parents",
                "file:///r/fresh/trunk",
                "file:///r/fresh/branches",
                "file:///r/fresh/tags",
                "-m",
                "[WS-INIT] fresh"
            ],
            vec![
                "svnmucc",
                "put",
                "NUL",
                "file:///r/fresh/.gitignore",
                "-m",
                "[WS-INIT] Add default .gitignore file"
            ],
        ]
    );
    assert_eq!(
        lines(&plan.checkout),
        vec![
            vec!["svn", "checkout", "file:///r/fresh/trunk", "C:\\.ws_store\\repo\\fresh"],
            vec![
                "svn",
                "propset",
                "svn:externals",
                "^/fresh/.gitignore .gitignore",
                "C:\\.ws_store\\repo\\fresh"
            ],
            vec!["svn", "update", "C:\\.ws_store\\repo\\fresh"],
            vec![
                "svn",
                "commit",
                "C:\\.ws_store\\repo\\fresh",
                "-m",
                "Update svn:externals for .gitignore"
            ],
        ]
    );
    assert!(handle_new(&ctx, "fresh", true, "d").unwrap().is_none());
    assert!(matches!(handle_new(&ctx, "a:b", false, "d"), Err(AppError::Validation(_))));
    assert_eq!(after_new(&ctx), AfterNew::AskSwitch);
    let bare = SvnContext::default("file:///r".into(), "/r".into());
    assert_eq!(after_new(&bare), AfterNew::LinkFolder);
}

#[test]
fn a_switch_goes_to_the_trunk_of_the_current_project_by_default() {
    let ctx = context(10, 10);
    let t = switch_target(&ctx, None, None).unwrap();
    assert_eq!((t.project.as_str(), t.subpath.as_str(), t.url.as_str()), ("demo", "trunk", "file:///r/demo/trunk"));
    let t = switch_target(&ctx, Some("other"), Some("fix")).unwrap();
    assert_eq!(
        (t.project.as_str(), t.subpath.as_str(), t.url.as_str()),
        ("other", "branches/fix", "file:///r/other/branches/fix")
    );
    assert!(switch_target(&ctx, Some("a/b"), None).is_err());
    assert!(switch_target(&ctx, None, Some("")).is_err());

    let here = switch_target(&ctx, None, None).unwrap();
    assert_eq!(handle_switch(&ctx, &here, false, "file:///r/demo/trunk"), SwitchRoute::Missing);
    assert_eq!(handle_switch(&ctx, &here, true, "file:///r/demo/trunk"), SwitchRoute::AlreadyThere);
    assert_eq!(handle_switch(&ctx, &here, true, "file:///r/demo/branches/x"), SwitchRoute::SameProject);
    assert_eq!(handle_switch(&context(5, 10), &here, true, "file:///r/demo/trunk"), SwitchRoute::SameProject);
    assert_eq!(handle_switch(&ctx, &t, true, "file:///r/demo/trunk"), SwitchRoute::OtherProject);
    assert_eq!(
        switch_report(SwitchRoute::Missing, &t).unwrap(),
        "The target project other does not exist or branch branches/fix do not exist in that project"
    );
    assert_eq!(
        switch_report(SwitchRoute::AlreadyThere, &here).unwrap(),
        "Already on the latest revision of project demo, branch trunk"
    );
    assert_eq!(switch_report(SwitchRoute::SameProject, &here), None);
    assert_eq!(
        words(&switch_to_empty(&ctx)),
        vec!["svn", "switch", "file:///r/.ws_empty", ".", "--ignore-ancestry"]
    );
    assert_eq!(
        words(&checkout_target(&t, "D:\\.ws_store\\r\\other")),
        vec!["svn", "checkout", "file:///r/other/branches/fix", "D:\\.ws_store\\r\\other", "--force"]
    );
}

#[test]
fn deletes_a_project_softly_unless_forced() {
    let ctx = context(10, 10);
    assert_eq!(handle_delete(&ctx, "other").unwrap(), "file:///r/other");
    assert_eq!(
        message(handle_delete(&ctx, "demo").unwrap_err()),
        "Error: Cannot delete the current project. Please switch to another project first"
    );
    assert!(handle_delete(&ctx, "a?b").is_err());
    assert_eq!(delete_route(ProjectStatus::NonExistent, false), DeleteRoute::ReportMissing);
    assert_eq!(delete_route(ProjectStatus::NonExistent, true), DeleteRoute::ReportMissing);
    assert_eq!(delete_route(ProjectStatus::Active, false), DeleteRoute::SoftDelete);
    assert_eq!(delete_route(ProjectStatus::Active, true), DeleteRoute::ForceDelete);
    assert_eq!(delete_route(ProjectStatus::Deleted, false), DeleteRoute::ReportDeleted);
    assert_eq!(delete_route(ProjectStatus::Deleted, true), DeleteRoute::ForceDelete);
    assert_eq!(
        words(&soft_delete("file:///r/other", "other")),
        vec!["svn", "delete", "file:///r/other", "-m", "Delete project other"]
    );
}

#[test]
fn restores_a_project_from_before_its_deletion() {
    let ctx = context(10, 10);
    assert_eq!(
        words(&handle_restore(&ctx, "old", false, 7).unwrap().unwrap()),
        vec!["svn", "copy", "file:///r/old@6", "file:///r/old", "-m", "Restore project old"]
    );
    assert!(handle_restore(&ctx, "old", true, 7).unwrap().is_none());
    assert!(handle_restore(&ctx, "old", true, 0).unwrap().is_none());
    assert_eq!(
        message(handle_restore(&ctx, "old", false, 0).unwrap_err()),
        "Error: Could not find deletion record for project old"
    );
    assert!(handle_restore(&ctx, "", false, 7).is_err());
}

#[test]
fn a_busy_folder_is_given_up_after_five_attempts() {
    assert_eq!(handle_link_folder(0, true), LinkStep::TryMove);
    assert_eq!(handle_link_folder(4, true), LinkStep::TryMove);
    assert_eq!(handle_link_folder(5, true), LinkStep::ReportBusy);
    assert_eq!(handle_link_folder(5, false), LinkStep::ReportBusy);
    assert_eq!(handle_link_folder(0, false), LinkStep::MakeLink);
    assert_eq!(handle_link_folder(3, false), LinkStep::MakeLink);
    assert_eq!(after_move(true), LinkStep::MakeLink);
    assert_eq!(after_move(false), LinkStep::Wait(200));
}

#[test]
fn names_the_places_of_a_repository() {
    assert_eq!(get_repo_path(None).unwrap(), "repo");
    assert_eq!(get_repo_path(Some("mine")).unwrap(), "mine");
    assert!(get_repo_path(Some("a/b")).is_err());
    assert!(get_repo_path(Some("")).is_err());
    assert_eq!(get_repo_url("C:\\tools\\repo", true), "file:///C:/tools/repo");
    assert_eq!(get_repo_url("/srv/repo", true), "file:///srv/repo");
    assert_eq!(get_repo_url("/srv/repo", false), "file:///srv/repo");
    assert_eq!(get_repo_url("rel\\repo", false), "file://rel/repo");
    assert_eq!(get_repo_url("", true), "file:///");
    assert_eq!(
        lines(&init_repo("C:\\tools\\repo", "file:///C:/tools/repo")),
        vec![
            vec!["svnadmin", "create", "C:\\tools\\repo"],
            vec![
                "svnmucc",
                "put",
                "NUL",
                "file:///C:/tools/repo/.gitignore",
                "-m",
                "Add default .gitignore file"
            ],
        ]
    );
    assert_eq!(find_a_project_in_ws_store("D:\\", "repo", "demo"), "D:\\.ws_store\\repo\\demo");
    assert_eq!(
        message(switch_project_via_symlink("demo", "repo")),
        "Error: Cannot find target project 'demo' in any .ws_store/repo folder"
    );
    assert_eq!(
        message(not_checked_out("demo")),
        "Error: Current project demo is not checked out in any workspace."
    );
}

#[test]
fn builds_the_commands_of_the_desktop() {
    assert_eq!(spawn_internal_switcher("demo", "C:\\work"), vec!["__link_folder", "demo", "C:\\work"]);
    assert_eq!(
        lines(&launch_terminal("C:\\work")),
        vec![
            vec![
                "powershell",
                "-NoExit",
                "-Command",
                "cd 'C:\\work'; $Host.UI.RawUI.WindowTitle = 'Windows PowerShell'"
            ],
            vec!["cmd", "/k", "cd /d \"C:\\work\""],
        ]
    );
    assert_eq!(
        words(&report_error_gui("no link")),
        vec!["cmd", "/c", "echo [WS ERROR] & echo. & echo no link & echo. & pause"]
    );
}

#[test]
fn only_new_and_link_run_outside_a_working_copy() {
    let backend = AppError::SvnCommandFailed { command: "svn info".into(), _stdout: "".into(), _stderr: "".into() };
    assert_eq!(without_working_copy(&backend, CommandKind::New), StartupRoute::RunNew);
    assert_eq!(without_working_copy(&backend, CommandKind::LinkFolder), StartupRoute::RunLinkFolder);
    assert_eq!(without_working_copy(&backend, CommandKind::Other), StartupRoute::ReportNoWorkingCopy);
    let other = AppError::Validation("x".into());
    assert_eq!(without_working_copy(&other, CommandKind::New), StartupRoute::ReportFailure);
    assert_eq!(failure_report(&AppError::OperationCancelled), (false, "Operation cancelled by user.".to_string()));
    assert_eq!(failure_report(&other), (true, "Error: x".to_string()));
}

#[test]
fn the_parts_behind_a_checked_name_work_on_any_name() {
    let ctx = context(5, 10);
    let plan = branch_creation_plan(&ctx, "trunk", false, "u").unwrap();
    assert_eq!(words(&plan[0])[2..4], ["u@r5".to_string(), "file:///r/demo/branches/trunk".to_string()]);
    assert_eq!(
        message(branch_creation_plan(&ctx, "fix", true, "u").unwrap_err()),
        "Error: Branch fix already exists"
    );
    assert_eq!(line_url_of(&ctx, "trunk"), "file:///r/demo/trunk");
    assert_eq!(line_url_of(&ctx, "a/b"), "file:///r/demo/branches/a/b");
    assert_eq!(branch_route(false, true, true, true), BranchRoute::ShowLog);
    assert_eq!(branch_route(true, false, true, false), BranchRoute::Delete);
    let plan = new_project_plan(&ctx, "p", "d");
    assert_eq!(plan.create.len(), 2);
    assert_eq!(plan.checkout.len(), 4);
    assert_eq!(words(&plan.checkout[0]), vec!["svn", "checkout", "file:///r/p/trunk", "d"]);
    let t = target_of(&ctx, "p", "b");
    assert_eq!((t.project.as_str(), t.subpath.as_str(), t.url.as_str()), ("p", "branches/b", "file:///r/p/branches/b"));
    let t = target_of(&ctx, "p", "trunk");
    assert_eq!((t.subpath.as_str(), t.url.as_str()), ("trunk", "file:///r/p/trunk"));
    assert_eq!(words(&restore_project(&ctx, "p", false, 2).unwrap().unwrap())[2], "file:///r/p@1");
    assert!(restore_project(&ctx, "p", true, 2).unwrap().is_none());
    assert!(restore_project(&ctx, "p", false, 0).is_err());
}
