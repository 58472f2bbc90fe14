use workspace_manager::context::{
    build_context, check_and_repair_workspace, decode_url, get_svn_context, project_segment_of,
    repo_fs_path_from_url, status_output_dirty, SvnContext, WorkingCopyReport,
};
use workspace_manager::error::AppError;
use workspace_manager::revision::Revision;

fn context() -> SvnContext {
    SvnContext::new(
        "file:///C:/tools/repo".to_string(),
        "demo".to_string(),
        "C:/tools/repo".to_string(),
        Revision::Number(5),
        Revision::Number(10),
        true,
    )
}

#[test]
fn builds_the_urls_of_projects_and_branches() {
    let ctx = context();
    assert_eq!(ctx.get_repo_root_url(), "file:///C:/tools/repo");
    assert_eq!(ctx.get_project_root_url("other"), "file:///C:/tools/repo/other");
    assert_eq!(ctx.get_project_branches_url("other"), "file:///C:/tools/repo/other/branches");
    assert_eq!(ctx.get_project_trunk_url("other"), "file:///C:/tools/repo/other/trunk");
    assert_eq!(ctx.get_branch_url("fix"), "file:///C:/tools/repo/demo/branches/fix");
    assert_eq!(ctx.get_current_trunk_url(), "file:///C:/tools/repo/demo/trunk");
    assert_eq!(ctx.get_current_branches_url(), "file:///C:/tools/repo/demo/branches");
    assert_eq!(ctx.get_current_project_repo_root_url(), "file:///C:/tools/repo/demo");
    assert_eq!(ctx.get_current_project_name(), "demo");
    assert_eq!(ctx.get_repo_fs_path(), "C:/tools/repo");
    assert_eq!(*ctx.get_current_revision(), Revision::Number(5));
    assert_eq!(*ctx.get_latest_revision(), Revision::Number(10));
    assert!(ctx.is_dirty());
}

#[test]
fn review_state_is_true_while_behind_and_false_once_caught_up() {
    let ctx = context();
    assert!(ctx.check_review_state());
    assert!(ctx.revision_state().review_state());
    let caught_up = SvnContext::new(
        "u".to_string(),
        "p".to_string(),
        "f".to_string(),
        Revision::Number(10),
        Revision::Number(10),
        false,
    );
    assert!(!caught_up.check_review_state());
    assert!(!ctx.revision_state().caught_up().review_state());
}

#[test]
fn tells_the_branch_from_the_work_copy_url() {
    let ctx = context();
    assert_eq!(ctx.get_current_branch_name("file:///C:/tools/repo/demo/trunk"), "trunk");
    assert_eq!(ctx.get_current_branch_name("file:///C:/tools/repo/demo/trunk/sub"), "trunk");
    assert_eq!(ctx.get_current_branch_name("file:///C:/tools/repo/demo/branches/fix"), "fix");
    assert_eq!(
        ctx.get_current_branch_name("file:///C:/tools/repo/demo/branches/branches/fix/x"),
        "fix/x"
    );
    assert_eq!(ctx.get_current_branch_name("file:///C:/tools/repo/demo/tags/v1"), "unknown");
    assert_eq!(ctx.get_current_branch_name("file:///elsewhere/demo/branches/fix"), "unknown");
    assert_eq!(ctx.get_current_branch_name(""), "unknown");
}

#[test]
fn decodes_percent_encoded_urls() {
    assert_eq!(decode_url("file:///C:/my%20repo/%E4%B8%AD").unwrap(), "file:///C:/my repo/中");
    assert_eq!(decode_url("plain+text").unwrap(), "plain+text");
    assert_eq!(decode_url("100%").unwrap(), "100%");
    assert!(matches!(decode_url("%FF%FE"), Err(AppError::UrlDecode(_))));
    let ctx = context();
    assert_eq!(ctx.get_current_work_copy_root("a%2Fb").unwrap(), "a/b");
}

#[test]
fn a_plain_status_is_dirty_unless_blank_or_the_ignore_link() {
    assert!(!status_output_dirty(""));
    assert!(!status_output_dirty("  \n\t "));
    assert!(!status_output_dirty("X       .gitignore\n"));
    assert!(status_output_dirty("M       src/main.rs"));
    assert!(status_output_dirty("X       .gitignore\nM       a.txt"));
    assert!(status_output_dirty("M       .gitignore"));
    assert!(status_output_dirty("X       other"));
}

#[test]
fn finds_the_repository_on_disk() {
    assert_eq!(repo_fs_path_from_url("file:///C:/tools/repo", true), "C:/tools/repo");
    assert_eq!(repo_fs_path_from_url("file:///srv/repo", false), "/srv/repo");
    assert_eq!(repo_fs_path_from_url("file://file://x", false), "x");
    assert_eq!(repo_fs_path_from_url("http://host/repo", true), "http://host/repo");
    assert_eq!(repo_fs_path_from_url("file://", true), "");
}

#[test]
fn takes_the_project_from_the_relative_url() {
    assert_eq!(project_segment_of("^/demo/trunk"), "demo");
    assert_eq!(project_segment_of("^^//my%20project/branches/x"), "my%20project");
    assert_eq!(project_segment_of("demo"), "demo");
    assert_eq!(project_segment_of("^/"), "");
    assert_eq!(project_segment_of(""), "");
}

fn report(current: &str, latest: &str) -> WorkingCopyReport {
    WorkingCopyReport {
        repo_root_url: "file:///C:/my%20repo".to_string(),
        relative_url: "^/my%20project/trunk".to_string(),
        status_output: "M   a.txt".to_string(),
        current_revision: current.to_string(),
        latest_revision: latest.to_string(),
    }
}

#[test]
fn builds_the_context_of_a_working_copy() {
    let ctx = get_svn_context(&report("5", "10\n"), true).unwrap();
    assert_eq!(ctx.get_repo_root_url(), "file:///C:/my repo");
    assert_eq!(ctx.get_current_project_name(), "my project");
    assert_eq!(ctx.get_repo_fs_path(), "C:/my repo");
    assert_eq!(*ctx.get_current_revision(), Revision::Number(5));
    assert_eq!(*ctx.get_latest_revision(), Revision::Number(10));
    assert!(ctx.is_dirty());
    assert!(ctx.check_review_state());
    let unix = get_svn_context(&report("5", "5"), false).unwrap();
    assert_eq!(unix.get_repo_fs_path(), "/C:/my repo");
    assert!(!unix.check_review_state());
}

#[test]
fn a_context_fails_on_the_first_thing_that_cannot_be_read() {
    match get_svn_context(&report("x", "y"), true) {
        Err(AppError::RevisionParse(text)) => assert_eq!(text, "x"),
        _ => panic!("expected a revision failure"),
    }
    match get_svn_context(&report("5", "y"), true) {
        Err(AppError::RevisionParse(text)) => assert_eq!(text, "y"),
        _ => panic!("expected a revision failure"),
    }
    let mut bad = report("x", "y");
    bad.repo_root_url = "%FF".to_string();
    assert!(matches!(get_svn_context(&bad, true), Err(AppError::UrlDecode(_))));
    let mut bad = report("5", "6");
    bad.relative_url = "^/%C3%28/trunk".to_string();
    assert!(matches!(get_svn_context(&bad, true), Err(AppError::UrlDecode(_))));
    let built = build_context("file://r".into(), "p".into(), "", "HEAD", "head", false).unwrap();
    assert_eq!(*built.get_current_revision(), Revision::Head);
    assert!(!built.is_dirty());
    assert!(!built.check_review_state());
}

#[test]
fn a_default_context_knows_the_repository_alone() {
    let ctx = SvnContext::default("file:///r".to_string(), "/r".to_string());
    assert_eq!(ctx.get_repo_root_url(), "file:///r");
    assert_eq!(ctx.get_current_project_name(), "");
    assert_eq!(ctx.get_repo_fs_path(), "/r");
    assert_eq!(*ctx.get_current_revision(), Revision::Number(0));
    assert_eq!(*ctx.get_latest_revision(), Revision::Number(0));
    assert!(!ctx.is_dirty());
    assert!(!ctx.check_review_state());
}

#[test]
fn a_working_copy_of_another_repository_needs_repair() {
    assert!(!check_and_repair_workspace("abc-1", "abc-1"));
    assert!(check_and_repair_workspace("abc-1", "abc-2"));
    assert!(check_and_repair_workspace("", "abc-2"));
}
