use workspace_manager::error::AppError;
use workspace_manager::lock_count::{
    adjust, change_lock_file, ensure_delete, get_lock_file_path, read_count, ChangeLockType,
};
use workspace_manager::prune::{
    force_delete, force_delete_step, repo_name, PruneAction, PruneEvent, PruneJob, PrunePhase,
};

#[test]
fn reads_the_count_and_takes_anything_else_for_zero() {
    assert_eq!(read_count("3"), 3);
    assert_eq!(read_count(" 12\n"), 12);
    assert_eq!(read_count(""), 0);
    assert_eq!(read_count("abc"), 0);
    assert_eq!(read_count("-1"), 0);
    assert_eq!(read_count("1.5"), 0);
    assert_eq!(read_count("18446744073709551616"), 0);
    assert_eq!(read_count("18446744073709551615"), u64::MAX);
}

#[test]
fn adjusts_the_count_by_the_request() {
    assert_eq!(adjust(0, ChangeLockType::Add), 1);
    assert_eq!(adjust(41, ChangeLockType::Add), 42);
    assert_eq!(adjust(1, ChangeLockType::Sub), 0);
    assert_eq!(adjust(0, ChangeLockType::Sub), 0);
    assert_eq!(adjust(7, ChangeLockType::Delete), 7);
    assert_eq!(adjust(0, ChangeLockType::Delete), 0);
    assert_eq!(adjust(u64::MAX, ChangeLockType::Sub), u64::MAX - 1);
}

#[test]
fn rewrites_the_file_of_the_count() {
    assert_eq!(change_lock_file("", ChangeLockType::Add), (1, "1".to_string()));
    assert_eq!(change_lock_file("9", ChangeLockType::Add), (10, "10".to_string()));
    assert_eq!(change_lock_file("garbage", ChangeLockType::Sub), (0, "0".to_string()));
    assert_eq!(change_lock_file(" 2 ", ChangeLockType::Sub), (1, "1".to_string()));
    assert_eq!(change_lock_file("5\n", ChangeLockType::Delete), (5, "5".to_string()));
}

#[test]
fn the_count_never_goes_negative_and_delete_needs_zero() {
    let mut content = String::new();
    let ops = [
        ChangeLockType::Sub,
        ChangeLockType::Add,
        ChangeLockType::Add,
        ChangeLockType::Sub,
        ChangeLockType::Sub,
        ChangeLockType::Sub,
    ];
    let mut seen = Vec::new();
    for op in ops {
        let (value, next) = change_lock_file(&content, op);
        seen.push(value);
        content = next;
    }
    assert_eq!(seen, vec![0, 1, 2, 1, 0, 0]);
    let (value, _) = change_lock_file(&content, ChangeLockType::Delete);
    assert!(ensure_delete(value));
    let (_, content) = change_lock_file(&content, ChangeLockType::Add);
    let (value, after) = change_lock_file(&content, ChangeLockType::Delete);
    assert_eq!(after, content);
    assert!(!ensure_delete(value));
}

#[test]
fn names_the_file_of_the_count() {
    assert_eq!(get_lock_file_path("demo"), "demo.lock");
    assert_eq!(get_lock_file_path(""), ".lock");
}

#[test]
fn a_prune_job_puts_its_repositories_beside_the_source() {
    let job = PruneJob::new("C:\\tools\\repo", "demo").unwrap();
    assert_eq!(job.source_repo_path, "C:\\tools\\repo");
    assert_eq!(job.excluded_project_name, "demo");
    assert_eq!(job.temp_repo_path, "C:\\tools\\repo_gc");
    assert_eq!(job.backup_path, "C:\\tools\\repo_backup");
    let slashed = PruneJob::new("/srv/svn/main//", "p").unwrap();
    assert_eq!(slashed.source_repo_path, "/srv/svn/main//");
    assert_eq!(slashed.temp_repo_path, "/srv/svn/main_gc");
    assert_eq!(slashed.backup_path, "/srv/svn/main_backup");
    assert_eq!(repo_name("/srv/svn/main//"), "main");
    assert_eq!(repo_name("C:\\tools\\repo"), "repo");
    assert_eq!(repo_name("repo"), "repo");
    for bad in ["", "/", "\\\\", "///", ".", "..", "/srv/..", "a/./"] {
        match PruneJob::new(bad, "p") {
            Err(AppError::Validation(m)) => assert_eq!(m, "Cannot determine repository name"),
            _ => panic!("expected a validation error for {:?}", bad),
        }
    }
}

fn line(cmd: &workspace_manager::backend::BackendCommand) -> String {
    let mut v = vec![cmd.program.clone()];
    v.extend(cmd.args.iter().cloned());
    v.join(" ")
}

fn show(action: &PruneAction) -> String {
    match action {
        PruneAction::AskSwitch => "ask switch".into(),
        PruneAction::AskConfirm => "ask confirm".into(),
        PruneAction::Switch => "switch".into(),
        PruneAction::RemoveDir(p) => format!("rmdir {}", p),
        PruneAction::Run(cmd) => line(cmd),
        PruneAction::Pipe { dump, filter, load } => {
            format!("{} | {} | {}", line(dump), line(filter), line(load))
        }
        PruneAction::Rename { from, to } => format!("rename {} -> {}", from, to),
        PruneAction::RepairWorkspace => "repair".into(),
        PruneAction::RemoveCheckout => "remove checkout".into(),
        PruneAction::Finish(Ok(())) => "done".into(),
        PruneAction::Finish(Err(e)) => format!("failed: {}", e.message()),
    }
}

fn drive(job: &PruneJob, review: bool, mut answer: impl FnMut(usize, &PruneAction) -> PruneEvent) -> Vec<String> {
    let (mut phase, mut action) = force_delete(review);
    let mut trace = vec![show(&action)];
    let mut step = 0;
    while !matches!(action, PruneAction::Finish(_)) {
        let event = answer(step, &action);
        let next = force_delete_step(job, phase, event);
        phase = next.0;
        action = next.1;
        trace.push(show(&action));
        step += 1;
    }
    assert!(matches!(phase, PrunePhase::Done));
    trace
}

fn agree(action: &PruneAction) -> PruneEvent {
    match action {
        PruneAction::AskSwitch | PruneAction::AskConfirm => PruneEvent::Answer(true),
        _ => PruneEvent::Completed,
    }
}

#[test]
fn a_prune_runs_its_steps_in_order() {
    let job = PruneJob::new("/srv/repo", "demo").unwrap();
    let trace = drive(&job, true, |_, a| agree(a));
    assert_eq!(
        trace,
        vec![
            "ask switch",
            "switch",
            "ask confirm",
            "rmdir /srv/repo_gc",
            "svnadmin create /srv/repo_gc",
            "svnadmin dump /srv/repo --quiet | svndumpfilter exclude demo --drop-empty-revs --renumber-revs --quiet | svnadmin load /srv/repo_gc --quiet --ignore-uuid",
            "rmdir /srv/repo_backup",
            "rename /srv/repo -> /srv/repo_backup",
            "rename /srv/repo_gc -> /srv/repo",
            "repair",
            "remove checkout",
            "done",
        ]
    );
    let trace = drive(&job, false, |_, a| agree(a));
    assert_eq!(trace[0], "ask confirm");
    assert_eq!(trace.len(), 10);
}

#[test]
fn declining_a_prune_is_a_cancellation() {
    let job = PruneJob::new("/srv/repo", "demo").unwrap();
    let trace = drive(&job, true, |_, _| PruneEvent::Answer(false));
    assert_eq!(trace, vec!["ask switch", "failed: Operation cancelled"]);
    let trace = drive(&job, false, |_, _| PruneEvent::Answer(false));
    assert_eq!(trace, vec!["ask confirm", "failed: Operation cancelled"]);
}

#[test]
fn a_failed_import_leaves_the_source_untouched() {
    let job = PruneJob::new("/srv/repo", "demo").unwrap();
    let trace = drive(&job, false, |_, a| match a {
        PruneAction::Pipe { .. } => PruneEvent::LoadRejected,
        other => agree(other),
    });
    assert!(trace.iter().all(|t| !t.starts_with("rename")));
    assert_eq!(trace.last().unwrap(), "failed: Error: Loading into temporary repository failed");
    let trace = drive(&job, false, |_, a| match a {
        PruneAction::Pipe { .. } => PruneEvent::Failed(AppError::Validation("pipe broke".into())),
        other => agree(other),
    });
    assert!(trace.iter().all(|t| !t.starts_with("rename")));
    assert_eq!(trace.last().unwrap(), "failed: Error: pipe broke");
}

#[test]
fn a_failed_swap_restores_the_backup_and_still_fails() {
    let job = PruneJob::new("/srv/repo", "demo").unwrap();
    let trace = drive(&job, false, |_, a| match a {
        PruneAction::Rename { from, .. } if from == "/srv/repo_gc" => {
            PruneEvent::Failed(AppError::Validation("swap failed".into()))
        }
        other => agree(other),
    });
    let n = trace.len();
    assert_eq!(trace[n - 4], "rename /srv/repo -> /srv/repo_backup");
    assert_eq!(trace[n - 3], "rename /srv/repo_gc -> /srv/repo");
    assert_eq!(trace[n - 2], "rename /srv/repo_backup -> /srv/repo");
    assert_eq!(trace[n - 1], "failed: Error: swap failed");
    let trace = drive(&job, false, |_, a| match a {
        PruneAction::Rename { from, .. } if from == "/srv/repo_gc" => {
            PruneEvent::Failed(AppError::Validation("swap failed".into()))
        }
        PruneAction::Rename { from, .. } if from == "/srv/repo_backup" => {
            PruneEvent::Failed(AppError::Validation("restore failed".into()))
        }
        other => agree(other),
    });
    assert_eq!(trace.last().unwrap(), "failed: Error: restore failed");
}

#[test]
fn a_checkout_that_cannot_be_removed_is_no_failure() {
    let job = PruneJob::new("/srv/repo", "demo").unwrap();
    let trace = drive(&job, false, |_, a| match a {
        PruneAction::RemoveCheckout => PruneEvent::Failed(AppError::Validation("busy".into())),
        other => agree(other),
    });
    assert_eq!(trace.last().unwrap(), "done");
    let trace = drive(&job, false, |_, a| match a {
        PruneAction::RepairWorkspace => PruneEvent::Failed(AppError::Validation("no repair".into())),
        other => agree(other),
    });
    assert_eq!(trace.last().unwrap(), "failed: Error: no repair");
}

#[test]
fn a_prune_refuses_events_out_of_turn() {
    let job = PruneJob::new("/srv/repo", "demo").unwrap();
    let (phase, action) = force_delete_step(&job, PrunePhase::Pipeline, PruneEvent::Answer(true));
    assert!(matches!(phase, PrunePhase::Done));
    assert!(matches!(action, PruneAction::Finish(Err(AppError::Validation(_)))));
    let (phase, action) = force_delete_step(&job, PrunePhase::Done, PruneEvent::Completed);
    assert!(matches!(phase, PrunePhase::Done));
    assert!(matches!(action, PruneAction::Finish(Err(AppError::Validation(_)))));
}
