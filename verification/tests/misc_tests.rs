use workspace_manager::backend::{
    svn_add, svn_checkout, svn_cleanup, svn_cleanup_workspace, svn_commit, svn_commit_externals,
    svn_commit_gitignore, svn_copy, svn_delete, svn_info, svn_list, svn_log, svn_merge, svn_mkdir,
    svn_propdel, svn_propget, svn_propset, svn_resolve, svn_revert, svn_status, svn_svnmucc,
    svn_switch, svn_update, svnadmin_create, svnadmin_dump, svnadmin_load, svndumpfilter,
    BackendCommand, StatusType,
};
use workspace_manager::decode::auto_decode;
use workspace_manager::display::{
    add_project_row, format_relative_time, relative_time, relative_time_label, rule,
    show_project_list, width_of, RelativeTime,
};
use workspace_manager::error::{validation, AppError};
use workspace_manager::history::{classify_message, handle_log, log_entry, LogNote, LogRecord};
use workspace_manager::projects::{BranchInfo, ProjectInfo};
use workspace_manager::revision::Revision;
use workspace_manager::text::{chars_to_string, str_chars, trim_chars};
use workspace_manager::xml::parse_document;

fn words(cmd: &BackendCommand) -> Vec<String> {
    let mut v = vec![cmd.program.clone()];
    v.extend(cmd.args.iter().cloned());
    v
}

#[test]
fn builds_each_backend_command() {
    assert_eq!(words(&svn_cleanup()), vec!["svn", "cleanup", "."]);
    assert_eq!(words(&svn_cleanup_workspace()), vec!["svn", "cleanup", "."]);
    assert_eq!(words(&svn_update(&["-r", "5"])), vec!["svn", "update", "-r", "5"]);
    assert_eq!(words(&svn_update(&[])), vec!["svn", "update"]);
    assert_eq!(words(&svn_status(StatusType::Dirty)), vec!["svn", "status"]);
    assert_eq!(words(&svn_status(StatusType::Commit)), vec!["svn", "status", "--xml"]);
    assert_eq!(
        words(&svn_status(StatusType::CheckIgnore)),
        vec!["svn", "status", "--xml", "--no-ignore"]
    );
    assert_eq!(
        words(&svn_status(StatusType::CheckGitignore)),
        vec!["svn", "status", "--xml", ".gitignore"]
    );
    assert_eq!(words(&svn_log(&["-v"])), vec!["svn", "log", "-v"]);
    assert_eq!(words(&svn_info(&["--show-item", "url"])), vec!["svn", "info", "--show-item", "url"]);
    assert_eq!(words(&svn_list(&["u"])), vec!["svn", "list", "u"]);
    assert_eq!(
        words(&svn_add(&["a", "b"])),
        vec!["svn", "add", "--parents", "--depth", "empty", "--force", "a", "b"]
    );
    assert_eq!(words(&svn_commit("a message")), vec!["svn", "commit", "-m", "a message"]);
    assert_eq!(
        words(&svn_commit_gitignore()),
        vec!["svn", "commit", ".gitignore", "-m", "Auto update .gitignore"]
    );
    assert_eq!(
        words(&svn_commit_externals(".")),
        vec!["svn", "commit", ".", "-m", "Update svn:externals for .gitignore"]
    );
    assert_eq!(words(&svn_delete(&["x"])), vec!["svn", "delete", "x"]);
    assert_eq!(words(&svn_switch("u")), vec!["svn", "switch", "u", ".", "--ignore-ancestry"]);
    assert_eq!(words(&svn_merge(&["a"])), vec!["svn", "merge", "a"]);
    assert_eq!(words(&svn_revert(&["-R", "."])), vec!["svn", "revert", "-R", "."]);
    assert_eq!(words(&svn_mkdir(&["u"])), vec!["svn", "mkdir", "u"]);
    assert_eq!(words(&svn_copy(&["a", "b"])), vec!["svn", "copy", "a", "b"]);
    assert_eq!(words(&svn_checkout(&["u", "."])), vec!["svn", "checkout", "u", "."]);
    assert_eq!(words(&svn_resolve(&["--accept", "working"])), vec!["svn", "resolve", "--accept", "working"]);
    assert_eq!(words(&svn_propget(&["p", "."])), vec!["svn", "propget", "p", "."]);
    assert_eq!(words(&svn_propset(&["p", "v", "."])), vec!["svn", "propset", "p", "v", "."]);
    assert_eq!(words(&svn_propdel(&["p", "."])), vec!["svn", "propdel", "p", "."]);
    assert_eq!(words(&svn_svnmucc(&["put", "NUL", "u"])), vec!["svnmucc", "put", "NUL", "u"]);
    assert_eq!(words(&svnadmin_create("/r")), vec!["svnadmin", "create", "/r"]);
    assert_eq!(words(&svnadmin_dump(&["/r", "--quiet"])), vec!["svnadmin", "dump", "/r", "--quiet"]);
    assert_eq!(words(&svnadmin_load(&["/t"])), vec!["svnadmin", "load", "/t"]);
    assert_eq!(words(&svndumpfilter(&["exclude", "p"])), vec!["svndumpfilter", "exclude", "p"]);
    assert_eq!(
        words(&BackendCommand::build("prog", &["a"], &["b", "c"])),
        vec!["prog", "a", "b", "c"]
    );
}

#[test]
fn words_each_failure() {
    assert_eq!(AppError::OperationCancelled.message(), "Operation cancelled");
    assert_eq!(AppError::RevisionParse("x1".into()).message(), "Failed to parse revision: x1");
    assert_eq!(AppError::Validation("bad name".into()).message(), "Error: bad name");
    assert_eq!(validation("bad").message(), "Error: bad");
    let failed = AppError::SvnCommandFailed {
        command: "\"svn\" \"info\"".into(),
        _stdout: "out".into(),
        _stderr: "err".into(),
    };
    assert_eq!(failed.message(), "SVN command failed: \"svn\" \"info\"\n");
    assert!(failed.is_backend_failure() && !failed.is_cancellation());
    assert!(AppError::OperationCancelled.is_cancellation());
    assert_eq!(
        AppError::IncompleteState.message(),
        "Error: Workspace is in an incomplete state. Please run 'svn cleanup' and try again."
    );
    assert!(AppError::IncompleteState.is_incomplete_state());
    assert!(!AppError::OperationCancelled.is_incomplete_state());
    let io = AppError::Io(std::io::Error::new(std::io::ErrorKind::NotFound, "no file"));
    assert_eq!(io.message(), "I/O Error: no file");
    let utf8 = String::from_utf8(vec![0xff]).unwrap_err();
    let text = utf8.to_string();
    assert_eq!(AppError::Utf8(utf8.clone()).message(), format!("UTF-8 Conversion Error: {}", text));
    assert_eq!(AppError::UrlDecode(utf8).message(), format!("URL/Path Decoding Error: {}", text));
    match parse_document("<a>") {
        Err(e) => assert!(e.message().starts_with("XML Parsing Error: ")),
        Ok(_) => panic!("expected a parse failure"),
    }
}

#[test]
fn decodes_output_in_the_encoding_that_it_is_in() {
    assert_eq!(auto_decode(b"  hello world \r\n").unwrap(), "hello world");
    assert_eq!(auto_decode("  \u{4e2d}\u{6587} ".as_bytes()).unwrap(), "中文");
    assert_eq!(auto_decode(b"").unwrap(), "");
    assert_eq!(
        auto_decode(&[0xD6, 0xD0, 0xCE, 0xC4, 0xB2, 0xE2, 0xCA, 0xD4, 0xCE, 0xC4, 0xBC, 0xFE]).unwrap(),
        "中文测试文件"
    );
    assert_eq!(auto_decode(b" caf\xe9 au lait \n").unwrap(), "café au lait");
    assert!(matches!(auto_decode(&[0xFF, 0xFE, 0xFD, 0x80, 0x81]), Err(AppError::Utf8(_))));
}

#[test]
fn reads_a_document_node_by_node() {
    let nodes = parse_document("<a x=\"1\" y=\"2\">t<b/><!--c--><d>u</d></a>").unwrap();
    let seen: Vec<(bool, &str, Option<usize>, usize, Option<&str>)> = nodes
        .iter()
        .map(|n| (n.element, n.name.as_str(), n.parent, n.span, n.text.as_deref()))
        .collect();
    assert_eq!(
        seen,
        vec![
            (false, "", None, 7, None),
            (true, "a", Some(0), 6, Some("t")),
            (false, "", Some(1), 1, Some("t")),
            (true, "b", Some(1), 1, None),
            (false, "", Some(1), 1, Some("c")),
            (true, "d", Some(1), 2, Some("u")),
            (false, "", Some(5), 1, Some("u")),
        ]
    );
    let attrs: Vec<(&str, &str)> =
        nodes[1].attributes.iter().map(|a| (a.name.as_str(), a.value.as_str())).collect();
    assert_eq!(attrs, vec![("x", "1"), ("y", "2")]);
    assert_eq!(workspace_manager::xml::node_attribute(&nodes[1], "y"), Some("2"));
    assert_eq!(workspace_manager::xml::node_attribute(&nodes[1], "z"), None);
    assert_eq!(workspace_manager::xml::node_first_child(&nodes, 1, "d"), Some(5));
    assert_eq!(workspace_manager::xml::node_first_child(&nodes, 1, "a"), None);
    assert_eq!(workspace_manager::xml::node_first_descendant(&nodes, 0, "d"), Some(5));
}

#[test]
fn trims_unicode_white_space() {
    let t = |s: &str| chars_to_string(&trim_chars(&str_chars(s)));
    assert_eq!(t("  a b \t\r\n"), "a b");
    assert_eq!(t("\u{a0}\u{3000}x\u{2003}\u{85}"), "x");
    assert_eq!(t("\u{200b}x"), "\u{200b}x");
    assert_eq!(t(" \n "), "");
    for s in ["", " a", "a ", "\u{1680}a\u{2028}\u{2029}\u{202f}\u{205f}", "\u{b}\u{c}x\u{1f}"] {
        assert_eq!(t(s), s.trim());
    }
}

const HISTORY: &str = r#"<log>
<logentry revision="9"><author>a</author><date>2024-01-03T00:00:00Z</date><msg>plain change</msg></logentry>
<logentry revision="8"><date>2024-01-02T12:00:00Z</date>
<logentry revision="6"><date>2023-12-01T00:00:00Z</date>
<paths><path action="M">/demo/trunk/a.txt</path><path action="M">/demo/branches/fix/a.txt</path></paths>
<msg>inner</msg></logentry>
<msg>merged it</msg></logentry>
<logentry revision="7"><date>d</date><msg>[WS-ROLLBACK] tags/rollback-1  </msg></logentry>
<logentry revision="5"><msg>[WS-BRANCH] Create fix</msg></logentry>
<logentry><msg/></logentry>
</log>"#;

#[test]
fn reads_the_history_of_a_project() {
    let nodes = parse_document(HISTORY).unwrap();
    let records = handle_log(&nodes, "demo", "trunk");
    let seen: Vec<(&str, &str, &str, String)> = records
        .iter()
        .map(|r| {
            let note = match &r.note {
                LogNote::Rollback(t) => format!("rollback {}", t),
                LogNote::BranchCreated(b) => format!("branch {}", b),
                LogNote::Merged(s) => format!("merged {}", s),
                LogNote::Plain => "plain".to_string(),
            };
            (r.revision.as_str(), r.date.as_str(), r.message.as_str(), note)
        })
        .collect();
    assert_eq!(
        seen,
        vec![
            ("9", "2024-01-03T00:00:00Z", "plain change", "plain".to_string()),
            ("8", "2024-01-02T12:00:00Z", "inner", "merged fix".to_string()),
            ("7", "d", "[WS-ROLLBACK] tags/rollback-1  ", "rollback tags/rollback-1".to_string()),
            ("5", "", "[WS-BRANCH] Create fix", "branch fix".to_string()),
            ("0", "", "", "plain".to_string()),
        ]
    );
    let on_fix = handle_log(&nodes, "demo", "fix");
    assert!(matches!(&on_fix[1].note, LogNote::Merged(s) if s == "trunk"));
}

#[test]
fn classifies_messages_by_their_mark() {
    assert!(matches!(classify_message("[WS-ROLLBACK] tags/t", Some("x".into())), LogNote::Rollback(t) if t == "tags/t"));
    assert!(matches!(classify_message("[WS-ROLLBACK]tags/t", None), LogNote::Rollback(t) if t == "[WS-ROLLBACK]tags/t"));
    assert!(matches!(classify_message("[WS-BRANCH] Create a b", None), LogNote::BranchCreated(b) if b == "a b"));
    assert!(matches!(classify_message("x", Some("fix".into())), LogNote::Merged(s) if s == "fix"));
    assert!(matches!(classify_message("x", None), LogNote::Plain));
}

#[test]
fn shows_a_line_of_the_history() {
    let record = |revision: &str, note: LogNote| LogRecord {
        revision: revision.to_string(),
        date: "d".to_string(),
        message: "the message".to_string(),
        note,
    };
    let current = Revision::Number(7);
    let e = log_entry(&record("7", LogNote::Plain), &current, "unused", "just now".into()).unwrap();
    assert_eq!((e.revision.as_str(), e.date.as_str(), e.message.as_str()), ("> r7", "just now", "the message"));
    assert!(e.is_current && !e.is_rollback);
    let e = log_entry(&record("6", LogNote::Rollback("tags/t".into())), &current, "r3", "x".into()).unwrap();
    assert_eq!((e.revision.as_str(), e.message.as_str()), ("  r6", "↩ Reverted from r3"));
    assert!(!e.is_current && e.is_rollback);
    let e = log_entry(&record("5", LogNote::BranchCreated("fix".into())), &current, "trunk@r4", "x".into()).unwrap();
    assert_eq!(e.message, "⎇ Branch created from trunk@r4");
    let e = log_entry(&record("4", LogNote::Merged("fix".into())), &current, "", "x".into()).unwrap();
    assert_eq!(e.message, "⇄ Merged from fix");
    assert!(matches!(
        log_entry(&record("four", LogNote::Plain), &current, "", "x".into()),
        Err(AppError::RevisionParse(m)) if m == "four"
    ));
}

#[test]
fn words_how_far_back_a_time_lies() {
    let then = 1704067200;
    let at = |secs: i64| format_relative_time("2024-01-01T00:00:00Z", then + secs, 0);
    assert_eq!(at(0), RelativeTime::JustNow);
    assert_eq!(at(-500), RelativeTime::JustNow);
    assert_eq!(at(59), RelativeTime::JustNow);
    assert_eq!(at(60), RelativeTime::Minutes(1));
    assert_eq!(at(3599), RelativeTime::Minutes(59));
    assert_eq!(at(3600), RelativeTime::Hours(1));
    assert_eq!(at(86399), RelativeTime::Hours(23));
    assert_eq!(at(86400), RelativeTime::Date);
    assert_eq!(format_relative_time("2024-01-01T00:00:00.5Z", then + 60, 0), RelativeTime::JustNow);
    assert_eq!(format_relative_time("2024-01-01T08:00:00+08:00", then + 120, 0), RelativeTime::Minutes(2));
    assert_eq!(format_relative_time("yesterday", then, 0), RelativeTime::Unparsed);
    assert_eq!(format_relative_time("", then, 0), RelativeTime::Unparsed);
    assert_eq!(relative_time(None), RelativeTime::Unparsed);
    assert_eq!(relative_time(Some(i64::MIN)), RelativeTime::JustNow);
    assert_eq!(relative_time(Some(i64::MAX)), RelativeTime::Date);
    assert_eq!(relative_time_label(RelativeTime::Unparsed, "raw", "local"), "raw");
    assert_eq!(relative_time_label(RelativeTime::JustNow, "raw", "local"), "just now");
    assert_eq!(relative_time_label(RelativeTime::Minutes(5), "raw", "local"), "5 mins ago");
    assert_eq!(relative_time_label(RelativeTime::Hours(23), "raw", "local"), "23 hours ago");
    assert_eq!(relative_time_label(RelativeTime::Date, "raw", "2024-01-01 08:00"), "2024-01-01 08:00");
}

fn branch(name: &str, current: bool) -> BranchInfo {
    BranchInfo { branch_name: name.to_string(), is_current_branch: current }
}

#[test]
fn lays_out_the_rows_of_a_project() {
    let project = ProjectInfo {
        name: "demo".to_string(),
        is_deleted: false,
        is_current: true,
        branches: Some(vec![branch("trunk", false), branch("fix", true), branch("中文", false)]),
    };
    let (rows, (name_width, branch_width)) = add_project_row(&project);
    let seen: Vec<(&str, &str, &str, bool, bool, bool)> = rows
        .iter()
        .map(|r| (r.project.as_str(), r.branch.as_str(), r.status.as_str(), r.current_project, r.current_branch, r.deleted))
        .collect();
    assert_eq!(
        seen,
        vec![
            ("> demo", "trunk", "Active", true, false, false),
            ("", "  ├─ * fix", "", false, true, false),
            ("", "  └─ 中文", "", false, false, false),
        ]
    );
    assert_eq!(name_width, 4);
    assert_eq!(branch_width, 10);
    let solo = ProjectInfo {
        name: "中文".to_string(),
        is_deleted: false,
        is_current: false,
        branches: Some(vec![branch("trunk", true)]),
    };
    let (rows, widths) = add_project_row(&solo);
    assert_eq!((rows[0].project.as_str(), rows[0].branch.as_str()), ("  中文", "* trunk"));
    assert_eq!(widths, (4, 7));
    let gone = ProjectInfo { name: "old".to_string(), is_deleted: true, is_current: false, branches: None };
    let (rows, widths) = add_project_row(&gone);
    assert_eq!(rows.len(), 1);
    assert_eq!(
        (rows[0].project.as_str(), rows[0].branch.as_str(), rows[0].status.as_str(), rows[0].deleted),
        ("  old", "-", "Deleted", true)
    );
    assert_eq!(widths, (3, 0));
    let empty = ProjectInfo { name: "e".to_string(), is_deleted: false, is_current: false, branches: Some(vec![]) };
    assert!(add_project_row(&empty).0.is_empty());
}

#[test]
fn sizes_the_columns_of_the_list() {
    let l = show_project_list(4, 7, None);
    assert_eq!((l.project_column, l.branch_column, l.status_rule), (16, 12, 9));
    let l = show_project_list(20, 30, None);
    assert_eq!((l.project_column, l.branch_column), (24, 32));
    let l = show_project_list(4, 7, Some(12));
    assert_eq!(l.project_column, 16);
    let l = show_project_list(4, 7, Some(40));
    assert_eq!(l.project_column, 44);
    let l = show_project_list(50, 7, Some(40));
    assert_eq!(l.project_column, 54);
    assert_eq!(rule(0), "");
    assert_eq!(rule(9), "---------");
    assert_eq!(width_of("abc"), 3);
    assert_eq!(width_of("中文"), 4);
    assert_eq!(width_of(""), 0);
}
