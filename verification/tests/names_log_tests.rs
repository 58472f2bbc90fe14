use workspace_manager::backend::BackendCommand;
use workspace_manager::error::AppError;
use workspace_manager::log::{
    branch_deletion_revision, callback_for_log_xml, first_segment_of, get_branch_source,
    get_copy_source_rev, log_command, log_mentions_project, log_paths,
    project_deletion_revision, revision_number_of, SVNLogType,
};
use workspace_manager::names::{
    extract_branch_name_from_path, validate_folder_name, validate_folder_name_with,
};
use workspace_manager::projects::{
    active_project_names, add_active_project, handle_list, check_project_exists, check_url_exists,
    deleted_project, deleted_project_names, get_project_branches, project_status_from_log,
    BranchInfo, ProjectInfo, ProjectStatus,
};

fn words(cmd: &BackendCommand) -> Vec<String> {
    let mut v = vec![cmd.program.clone()];
    v.extend(cmd.args.iter().cloned());
    v
}

fn validation(r: Result<(), AppError>) -> String {
    match r {
        Err(AppError::Validation(m)) => m,
        other => panic!("expected a validation error, got {:?}", other),
    }
}

const INVALID_TAIL: &str =
    ". Only alphanumeric characters, underscores (_), hyphens (-), and periods (.) are allowed.";

#[test]
fn accepts_ordinary_folder_names() {
    for good in ["demo", "my-project_1.2", "a", ".", "with space", "中文", "trunk"] {
        assert!(validate_folder_name(good, true).is_ok(), "{:?}", good);
    }
    assert!(validate_folder_name(&"a".repeat(255), true).is_ok());
    assert!(validate_folder_name("feature", false).is_ok());
}

#[test]
fn refuses_blank_names() {
    assert_eq!(validation(validate_folder_name("", true)), "Name cannot be empty");
    assert_eq!(validation(validate_folder_name(" \t\n", false)), "Name cannot be empty");
}

#[test]
fn refuses_reserved_names_for_branches_only() {
    for reserved in ["trunk", "branches", "tags"] {
        assert_eq!(
            validation(validate_folder_name(reserved, false)),
            format!("Invalid branch name: {}, {} is a reserved keyword.", reserved, reserved)
        );
        assert!(validate_folder_name(reserved, true).is_ok());
    }
    assert_eq!(
        validation(validate_folder_name(" tags ", false)),
        "Invalid branch name:  tags ,  tags  is a reserved keyword."
    );
    assert!(validate_folder_name("Trunk", false).is_ok());
}

#[test]
fn refuses_names_that_break_the_pattern() {
    for bad in ["a/b", "a\\b", "a:b", "a*", "what?", "<x>", "a|b", "say \"x\"", "a.", "a ", "tab\tname", "x\u{7f}"] {
        assert_eq!(
            validation(validate_folder_name(bad, true)),
            format!("Invalid folder name: {}{}", bad, INVALID_TAIL),
            "{:?}",
            bad
        );
    }
    let long = "a".repeat(256);
    assert_eq!(
        validation(validate_folder_name(&long, false)),
        format!("Invalid folder name: {}{}", long, INVALID_TAIL)
    );
}

#[test]
fn decides_on_a_name_from_what_the_pattern_says() {
    assert!(validate_folder_name_with("demo", true, Some(true)).is_ok());
    assert_eq!(
        validation(validate_folder_name_with("demo", true, Some(false))),
        format!("Invalid folder name: demo{}", INVALID_TAIL)
    );
    assert_eq!(
        validation(validate_folder_name_with("demo", false, None)),
        format!("Invalid folder name: demo{}", INVALID_TAIL)
    );
    assert_eq!(validation(validate_folder_name_with("  ", true, Some(true))), "Name cannot be empty");
    assert_eq!(
        validation(validate_folder_name_with("tags", false, Some(true))),
        "Invalid branch name: tags, tags is a reserved keyword."
    );
}

#[test]
fn tells_the_branch_of_a_path() {
    let branch = |path: &str| extract_branch_name_from_path("demo", path);
    assert_eq!(branch("/demo/branches/fix/src/a.rs").unwrap(), "fix");
    assert_eq!(branch("/demo/branches/fix").unwrap(), "fix");
    assert_eq!(branch("/demo/trunk/a.txt").unwrap(), "trunk");
    assert_eq!(branch("/demo/trunk").unwrap(), "trunk");
    assert_eq!(branch("demo/trunkish").unwrap(), "trunk");
    assert_eq!(branch("//demodemo//branches/branches/x/y").unwrap(), "x");
    assert_eq!(branch("/demo/branches/").unwrap(), "");
    assert_eq!(branch("branches/solo").unwrap(), "solo");
    match branch("/demo/tags/v1") {
        Err(AppError::Validation(m)) => {
            assert_eq!(m, "Path /demo/tags/v1 is not under branches/ or trunk/")
        }
        _ => panic!("expected a validation error"),
    }
    assert!(branch("/other/trunk").is_err());
    assert!(branch("").is_err());
}

const LOG: &str = r#"
<?xml version="1.0" encoding="UTF-8"?>
<log>
<logentry revision="7">
<author>a</author>
<date>2024-01-01T00:00:00.000000Z</date>
<paths>
<path action="D" kind="dir">/old/branches/fix</path>
<path action="A" copyfrom-path="/demo/trunk" copyfrom-rev="5" kind="dir">/demo/branches/new</path>
</paths>
<msg>made a branch</msg>
</logentry>
<logentry revision="3">
<paths>
<path action="D">/gone</path>
<path action="M">/demo/trunk/a.txt</path>
<path action="D">/old</path>
</paths>
</logentry>
<logentry>
<paths>
<path action="D">/unnumbered/branches/fix</path>
</paths>
</logentry>
<logentry revision="2"><msg>no paths</msg></logentry>
</log>
"#;

#[test]
fn asks_for_the_history_in_each_form() {
    assert_eq!(
        words(&log_command("file:///r", SVNLogType::Default)),
        vec!["svn", "log", "-v", "-q", "--xml", "file:///r"]
    );
    assert_eq!(
        words(&log_command("u", SVNLogType::WsLog)),
        vec!["svn", "log", "-v", "-g", "--xml", "--stop-on-copy", "--limit", "100", "u"]
    );
    assert_eq!(
        words(&log_command("u", SVNLogType::WsLogFull)),
        vec!["svn", "log", "-v", "-g", "--xml", "u"]
    );
}

#[test]
fn reads_the_paths_of_a_log() {
    let paths = log_paths(LOG).unwrap();
    let seen: Vec<(Option<&str>, Option<&str>, &str, Option<&str>, Option<&str>)> = paths
        .iter()
        .map(|p| {
            (
                p.revision.as_deref(),
                p.action.as_deref(),
                p.path.as_str(),
                p.copyfrom_path.as_deref(),
                p.copyfrom_rev.as_deref(),
            )
        })
        .collect();
    assert_eq!(
        seen,
        vec![
            (Some("7"), Some("D"), "/old/branches/fix", None, None),
            (Some("7"), Some("A"), "/demo/branches/new", Some("/demo/trunk"), Some("5")),
            (Some("3"), Some("D"), "/gone", None, None),
            (Some("3"), Some("M"), "/demo/trunk/a.txt", None, None),
            (Some("3"), Some("D"), "/old", None, None),
            (None, Some("D"), "/unnumbered/branches/fix", None, None),
        ]
    );
    assert!(matches!(log_paths("<log>"), Err(AppError::XmlParse(_))));
    assert!(log_paths("  <log/>\n").unwrap().is_empty());
}

#[test]
fn hands_the_parsed_log_to_a_callback() {
    let count = callback_for_log_xml(LOG, |nodes| Ok(nodes.iter().filter(|n| n.name == "logentry").count()));
    assert_eq!(count.unwrap(), 4);
    let failed: Result<usize, AppError> =
        callback_for_log_xml("<log>", |_| panic!("must not be called"));
    assert!(matches!(failed, Err(AppError::XmlParse(_))));
    let refused: Result<(), AppError> =
        callback_for_log_xml("<log/>", |_| Err(AppError::OperationCancelled));
    assert!(matches!(refused, Err(AppError::OperationCancelled)));
}

#[test]
fn finds_where_a_copy_came_from() {
    let paths = log_paths(LOG).unwrap();
    assert_eq!(get_copy_source_rev(Some(&paths)), "r5");
    assert_eq!(get_copy_source_rev(Some(&Vec::new())), "Unknown Rev");
    assert_eq!(get_copy_source_rev(None), "Unknown Rev");
    assert_eq!(get_branch_source("new", &paths).unwrap(), "trunk@r5");
    match get_branch_source("new", &Vec::new()) {
        Err(AppError::Validation(m)) => {
            assert_eq!(m, "Failed to get source revision for branch new")
        }
        _ => panic!("expected a validation error"),
    }
}

#[test]
fn finds_the_revision_of_a_deletion() {
    let paths = log_paths(LOG).unwrap();
    assert_eq!(project_deletion_revision(&paths, "old"), 7);
    assert_eq!(project_deletion_revision(&paths, "gone"), 3);
    assert_eq!(project_deletion_revision(&paths, "demo"), 0);
    assert_eq!(project_deletion_revision(&paths, "unnumbered"), 0);
    assert_eq!(branch_deletion_revision(&paths, "fix"), 7);
    assert_eq!(branch_deletion_revision(&paths, "new"), 0);
    assert_eq!(branch_deletion_revision(&paths, "x"), 0);
    assert_eq!(revision_number_of("12"), 12);
    assert_eq!(revision_number_of("r12"), 0);
    assert_eq!(revision_number_of(""), 0);
}

#[test]
fn tells_deleted_projects_from_those_that_never_were() {
    let paths = log_paths(LOG).unwrap();
    assert!(log_mentions_project(&paths, "demo"));
    assert!(log_mentions_project(&paths, "gone"));
    assert!(!log_mentions_project(&paths, "never"));
    assert_eq!(project_status_from_log(&paths, "gone"), ProjectStatus::Deleted);
    assert_eq!(project_status_from_log(&paths, "never"), ProjectStatus::NonExistent);
    assert_eq!(check_project_exists(true, false), Some(ProjectStatus::Active));
    assert_eq!(check_project_exists(true, true), Some(ProjectStatus::Active));
    assert_eq!(check_project_exists(false, true), Some(ProjectStatus::NonExistent));
    assert_eq!(check_project_exists(false, false), None);
    assert_eq!(first_segment_of("//a/b/c"), vec!['a']);
    assert_eq!(first_segment_of(""), Vec::<char>::new());
}

#[test]
fn a_url_exists_where_the_backend_says_anything_of_it() {
    assert!(check_url_exists(Ok("Path: x".to_string())).unwrap());
    assert!(!check_url_exists(Ok(String::new())).unwrap());
    let failed = AppError::SvnCommandFailed {
        command: "svn info".into(),
        _stdout: String::new(),
        _stderr: "E200009".into(),
    };
    assert!(!check_url_exists(Err(failed)).unwrap());
    assert!(matches!(
        check_url_exists(Err(AppError::Validation("x".into()))),
        Err(AppError::Validation(_))
    ));
}

#[test]
fn lists_the_branches_of_a_project() {
    let seen = |branches: Vec<BranchInfo>| -> Vec<(String, bool)> {
        branches.into_iter().map(|b| (b.branch_name, b.is_current_branch)).collect()
    };
    assert_eq!(
        seen(get_project_branches(true, "fix", "fix/\r\n  feature/  \nREADME.txt\n\nnested//\n")),
        vec![
            ("trunk".to_string(), false),
            ("fix".to_string(), true),
            ("feature".to_string(), false),
            ("nested".to_string(), false),
        ]
    );
    assert_eq!(
        seen(get_project_branches(false, "fix", "fix/")),
        vec![("trunk".to_string(), false), ("fix".to_string(), false)]
    );
    assert_eq!(seen(get_project_branches(true, "trunk", "")), vec![("trunk".to_string(), true)]);
    assert_eq!(
        seen(get_project_branches(true, "", "/\n")),
        vec![("trunk".to_string(), false), ("".to_string(), true)]
    );
}

#[test]
fn lists_the_projects_of_a_repository() {
    assert_eq!(
        active_project_names("demo/\n.ws_empty/\n.gitignore\nother/\r\n\n/\n"),
        vec!["demo", ".gitignore", "other"]
    );
    assert!(active_project_names("").is_empty());
    let mut list: Vec<ProjectInfo> = Vec::new();
    add_active_project(&mut list, "a", "demo", vec![]);
    add_active_project(&mut list, "demo", "demo", vec![]);
    add_active_project(&mut list, "z", "demo", vec![]);
    let names: Vec<(&str, bool, bool)> =
        list.iter().map(|p| (p.name.as_str(), p.is_current, p.is_deleted)).collect();
    assert_eq!(names, vec![("demo", true, false), ("a", false, false), ("z", false, false)]);
    assert!(list.iter().all(|p| p.branches.is_some()));
}

#[test]
fn lists_deleted_projects_once_each() {
    let paths = log_paths(LOG).unwrap();
    assert_eq!(deleted_project_names(&paths, &vec!["demo".to_string()]), vec!["old", "gone", "unnumbered"]);
    assert_eq!(
        deleted_project_names(&paths, &vec!["old".to_string(), "unnumbered".to_string()]),
        vec!["gone"]
    );
    assert!(deleted_project_names(&Vec::new(), &Vec::new()).is_empty());
    let gone = deleted_project("gone");
    assert_eq!(gone.name, "gone");
    assert!(gone.is_deleted && !gone.is_current && gone.branches.is_none());
}

#[test]
fn assembles_the_list_with_the_current_project_first() {
    let names = vec!["a".to_string(), "demo".to_string(), "z".to_string()];
    let branch = |name: &str| BranchInfo { branch_name: name.to_string(), is_current_branch: false };
    let branches = vec![vec![branch("trunk")], vec![branch("trunk"), branch("fix")], vec![]];
    let list = handle_list(&names, branches, "demo");
    let seen: Vec<(&str, bool, usize)> = list
        .iter()
        .map(|p| (p.name.as_str(), p.is_current, p.branches.as_ref().map_or(0, |b| b.len())))
        .collect();
    assert_eq!(seen, vec![("demo", true, 2), ("a", false, 1), ("z", false, 0)]);
    assert!(handle_list(&names, Vec::new(), "demo").is_empty());
    assert_eq!(handle_list(&names, vec![vec![]], "none").len(), 1);
    assert!(handle_list(&Vec::new(), vec![vec![]], "demo").is_empty());
}
