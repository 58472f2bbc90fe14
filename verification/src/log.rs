//! The repository's history, as far as the commands read it: the paths
//! that each log entry lists.

use crate::backend::{svn_log, BackendCommand};
use crate::error::AppError;
use crate::text::{
    chars_end_with, chars_eq, chars_index_of, chars_last_piece, chars_parse_u64, chars_range,
    chars_to_string, ends_with, index_of, join2, join3, last_piece, parse_u64, str_chars,
    str_eq, trim, trim_chars, trim_start_class, trim_start_in, CharClass,
};
use crate::xml::{
    attribute, first_child, has_tag, node_attribute, node_first_child, node_has_tag,
    node_subtree_end, node_text_or_empty, node_views, parse_document, subtree_end,
    text_or_empty, xml_nodes, NodeModel, XmlNode,
};
use vstd::prelude::*;
use vstd::string::*;

verus! {

/// The forms of the history that are asked for.
#[derive(Debug, Clone, Copy, PartialEq, Eq, Structural)]
pub enum SVNLogType {
    /// Paths without messages.
    Default,
    /// Messages and merges of the current line of history, the last
    /// hundred entries.
    WsLog,
    /// Messages and merges of the whole history.
    WsLogFull,
}

/// The arguments that ask for the history of `url` in the given form.
pub open spec fn log_args(url: Seq<char>, log_type: SVNLogType) -> Seq<Seq<char>> {
    match log_type {
        SVNLogType::Default => seq!["-v"@, "-q"@, "--xml"@, url],
        SVNLogType::WsLog => seq![
            "-v"@,
            "-g"@,
            "--xml"@,
            "--stop-on-copy"@,
            "--limit"@,
            "100"@,
            url,
        ],
        SVNLogType::WsLogFull => seq!["-v"@, "-g"@, "--xml"@, url],
    }
}

/// The command that asks for the history of `url` in the given form.
pub fn log_command(url: &str, log_type: SVNLogType) -> (r: BackendCommand)
    ensures
        r.line() == seq!["svn"@, "log"@] + log_args(url@, log_type),
{
    match log_type {
        SVNLogType::Default => svn_log(vec!["-v", "-q", "--xml", url].as_slice()),
        SVNLogType::WsLog => svn_log(
            vec!["-v", "-g", "--xml", "--stop-on-copy", "--limit", "100", url].as_slice(),
        ),
        SVNLogType::WsLogFull => svn_log(vec!["-v", "-g", "--xml", url].as_slice()),
    }
}

/// One path that a log entry lists.
#[derive(Debug)]
pub struct LogPath {
    /// The revision of the entry, where it states one.
    pub revision: Option<String>,
    /// What happened to the path: `A`, `D`, `M` or `R`.
    pub action: Option<String>,
    /// The path itself.
    pub path: String,
    /// Where the path was copied from, where it was copied.
    pub copyfrom_path: Option<String>,
    /// The revision that the path was copied from.
    pub copyfrom_rev: Option<String>,
}

/// What a `LogPath` holds, as mathematical values.
pub struct LogPathModel {
    pub revision: Option<Seq<char>>,
    pub action: Option<Seq<char>>,
    pub path: Seq<char>,
    pub copyfrom_path: Option<Seq<char>>,
    pub copyfrom_rev: Option<Seq<char>>,
}

/// The view of a string that may be missing.
pub open spec fn opt_view(o: Option<String>) -> Option<Seq<char>> {
    match o {
        Some(s) => Some(s@),
        None => None,
    }
}

impl View for LogPath {
    type V = LogPathModel;

    open spec fn view(&self) -> LogPathModel {
        LogPathModel {
            revision: opt_view(self.revision),
            action: opt_view(self.action),
            path: self.path@,
            copyfrom_path: opt_view(self.copyfrom_path),
            copyfrom_rev: opt_view(self.copyfrom_rev),
        }
    }
}

/// The models of the paths of `paths`.
pub open spec fn path_views(paths: Seq<LogPath>) -> Seq<LogPathModel> {
    paths.map_values(|p: LogPath| p@)
}

/// The record of the `path` element `j` of the log entry `e`.
pub open spec fn path_record(nodes: Seq<NodeModel>, e: int, j: int) -> LogPathModel {
    LogPathModel {
        revision: attribute(nodes[e], "revision"@),
        action: attribute(nodes[j], "action"@),
        path: text_or_empty(nodes, j),
        copyfrom_path: attribute(nodes[j], "copyfrom-path"@),
        copyfrom_rev: attribute(nodes[j], "copyfrom-rev"@),
    }
}

/// The records of the `path` children of `paths`, a child of the log entry
/// `e`, among the nodes from `j` up to `end`.
pub open spec fn records_from(nodes: Seq<NodeModel>, e: int, paths: int, j: int, end: int) -> Seq<
    LogPathModel,
>
    decreases end - j,
{
    if j < 0 || j >= end || end > nodes.len() {
        Seq::empty()
    } else if nodes[j].parent == Some(paths) && has_tag(nodes, j, "path"@) {
        seq![path_record(nodes, e, j)] + records_from(nodes, e, paths, j + 1, end)
    } else {
        records_from(nodes, e, paths, j + 1, end)
    }
}

/// The records of the log entry at node `e`: those of the `path` children
/// of its first `paths` child. A node that is no log entry has none.
pub open spec fn records_of(nodes: Seq<NodeModel>, e: int) -> Seq<LogPathModel> {
    if has_tag(nodes, e, "logentry"@) {
        match first_child(nodes, e, "paths"@) {
            Some(p) => records_from(nodes, e, p, p + 1, subtree_end(nodes, p)),
            None => Seq::empty(),
        }
    } else {
        Seq::empty()
    }
}

/// The records of the log entries among the nodes from `i` on, in document
/// order.
pub open spec fn log_records_from(nodes: Seq<NodeModel>, i: int) -> Seq<LogPathModel>
    decreases nodes.len() - i,
{
    if i < 0 || i >= nodes.len() {
        Seq::empty()
    } else {
        records_of(nodes, i) + log_records_from(nodes, i + 1)
    }
}

/// The paths that a parsed log lists, entry by entry in document order.
pub open spec fn log_records(nodes: Seq<NodeModel>) -> Seq<LogPathModel> {
    log_records_from(nodes, 0)
}

/// An owned copy of an attribute's value.
fn owned(value: Option<&str>) -> (r: Option<String>)
    ensures
        match value {
            Some(v) => opt_view(r) == Some(v@),
            None => r is None,
        },
{
    match value {
        Some(v) => Some(String::from_str(v)),
        None => None,
    }
}

/// Appends the records of the log entry at node `e` to `out`.
fn push_records(nodes: &Vec<XmlNode>, e: usize, out: &mut Vec<LogPath>)
    requires
        e < nodes.len(),
    ensures
        path_views(final(out)@) == path_views(old(out)@) + records_of(node_views(nodes@), e as int),
{
    if !node_has_tag(nodes, e, "logentry") {
        return ;
    }
    let paths = match node_first_child(nodes, e, "paths") {
        Some(p) => p,
        None => {
            return ;
        },
    };
    let end = node_subtree_end(nodes, paths);
    let mut j: usize = paths + 1;
    while j < end
        invariant
            e < nodes.len(),
            paths < nodes.len(),
            paths < j,
            end <= nodes.len(),
            end == subtree_end(node_views(nodes@), paths as int),
            path_views(old(out)@) + records_of(node_views(nodes@), e as int) == path_views(out@)
                + records_from(node_views(nodes@), e as int, paths as int, j as int, end as int),
        decreases end - j,
    {
        let is_child = match nodes[j].parent {
            Some(p) => p == paths,
            None => false,
        };
        if is_child && node_has_tag(nodes, j, "path") {
            let record = LogPath {
                revision: owned(node_attribute(&nodes[e], "revision")),
                action: owned(node_attribute(&nodes[j], "action")),
                path: String::from_str(node_text_or_empty(nodes, j)),
                copyfrom_path: owned(node_attribute(&nodes[j], "copyfrom-path")),
                copyfrom_rev: owned(node_attribute(&nodes[j], "copyfrom-rev")),
            };
            out.push(record);
        }
        j += 1;
    }
}

/// The paths that a parsed log lists, entry by entry in document order.
pub fn log_paths_of_nodes(nodes: &Vec<XmlNode>) -> (r: Vec<LogPath>)
    ensures
        path_views(r@) == log_records(node_views(nodes@)),
{
    let mut out: Vec<LogPath> = Vec::new();
    let mut i: usize = 0;
    while i < nodes.len()
        invariant
            i <= nodes.len(),
            log_records(node_views(nodes@)) == path_views(out@) + log_records_from(
                node_views(nodes@),
                i as int,
            ),
        decreases nodes.len() - i,
    {
        push_records(nodes, i, &mut out);
        i += 1;
    }
    out
}

/// Reads the output of a log command into the paths that it lists. White
/// space around the output is dropped; the rest is rejected exactly where
/// the parser rejects it.
pub fn log_paths(log_output: &str) -> (r: Result<Vec<LogPath>, AppError>)
    ensures
        match r {
            Ok(paths) => xml_nodes(trim(log_output@)) matches Some(nodes) && path_views(paths@)
                == log_records(nodes),
            Err(e) => xml_nodes(trim(log_output@)) is None && e is XmlParse,
        },
{
    let trimmed = chars_to_string(&trim_chars(&str_chars(log_output)));
    match parse_document(trimmed.as_str()) {
        Ok(nodes) => Ok(log_paths_of_nodes(&nodes)),
        Err(e) => Err(e),
    }
}

/// The first segment of a path: what stands between its leading slashes
/// and the next slash.
pub open spec fn first_segment(path: Seq<char>) -> Seq<char> {
    let rel = trim_start_class(path, CharClass::One('/'));
    rel.take(index_of(rel, '/', 0))
}

/// The first segment of a path.
pub fn first_segment_of(path: &str) -> (r: Vec<char>)
    ensures
        r@ == first_segment(path@),
{
    let rel = trim_start_in(&str_chars(path), CharClass::One('/'));
    let end = chars_index_of(&rel, '/', 0);
    chars_range(&rel, 0, end)
}

/// The revision that a number in a log stands for; zero where it is no
/// number.
pub open spec fn revision_number(text: Seq<char>) -> u64 {
    match parse_u64(text) {
        Some(n) => n,
        None => 0,
    }
}

/// The revision that a number in a log stands for.
pub fn revision_number_of(text: &str) -> (r: u64)
    ensures
        r == revision_number(text@),
{
    match chars_parse_u64(&str_chars(text)) {
        Some(n) => n,
        None => 0,
    }
}

/// The first path from index `k` on that was copied from a stated
/// revision.
pub open spec fn first_copy_revision(paths: Seq<LogPathModel>, k: int) -> Option<Seq<char>>
    decreases paths.len() - k,
{
    if k < 0 || k >= paths.len() {
        None
    } else if paths[k].copyfrom_rev is Some {
        paths[k].copyfrom_rev
    } else {
        first_copy_revision(paths, k + 1)
    }
}

/// How the revision that a tag or branch was copied from is shown: `r` and
/// the revision of the first path of the log that was copied, or `Unknown
/// Rev` where the log lists none or could not be had.
pub open spec fn copy_source_text(paths: Option<Seq<LogPathModel>>) -> Seq<char> {
    match paths {
        Some(p) => match first_copy_revision(p, 0) {
            Some(rev) => "r"@ + rev,
            None => "Unknown Rev"@,
        },
        None => "Unknown Rev"@,
    }
}

/// The views of the paths of a log that may be missing.
pub open spec fn opt_path_views(paths: Option<&Vec<LogPath>>) -> Option<Seq<LogPathModel>> {
    match paths {
        Some(p) => Some(path_views(p@)),
        None => None,
    }
}

/// How the revision that a tag or branch was copied from is shown, from the
/// paths of its log; `paths` is nothing where the log could not be had.
pub fn get_copy_source_rev(paths: Option<&Vec<LogPath>>) -> (r: String)
    ensures
        r@ == copy_source_text(opt_path_views(paths)),
{
    let list = match paths {
        Some(p) => p,
        None => {
            return String::from_str("Unknown Rev");
        },
    };
    let mut k: usize = 0;
    while k < list.len()
        invariant
            k <= list.len(),
            opt_path_views(paths) == Some(path_views(list@)),
            first_copy_revision(path_views(list@), 0) == first_copy_revision(
                path_views(list@),
                k as int,
            ),
        decreases list.len() - k,
    {
        match &list[k].copyfrom_rev {
            Some(rev) => {
                return join2("r", rev.as_str());
            },
            None => {},
        }
        k += 1;
    }
    String::from_str("Unknown Rev")
}

/// The first path from index `k` on that states both where it was copied
/// from and at which revision, as `{name}@r{revision}`, `name` being the
/// last segment of where it was copied from.
pub open spec fn first_branch_source(paths: Seq<LogPathModel>, k: int) -> Option<Seq<char>>
    decreases paths.len() - k,
{
    if k < 0 || k >= paths.len() {
        None
    } else {
        match (paths[k].copyfrom_path, paths[k].copyfrom_rev) {
            (Some(from), Some(rev)) => Some(
                last_piece(from, CharClass::One('/')) + "@r"@ + rev,
            ),
            _ => first_branch_source(paths, k + 1),
        }
    }
}

/// What the message of the failure on a branch without a source says.
pub open spec fn no_source_message(branch_name: Seq<char>) -> Seq<char> {
    "Failed to get source revision for branch "@ + branch_name
}

/// Where a branch was taken from, as `{name}@r{revision}`, from the paths
/// of the branch's log. A log that lists no copied path is an error.
pub fn get_branch_source(branch_name: &str, paths: &Vec<LogPath>) -> (r: Result<String, AppError>)
    ensures
        match r {
            Ok(s) => first_branch_source(path_views(paths@), 0) == Some(s@),
            Err(e) => first_branch_source(path_views(paths@), 0) is None && e@
                == crate::error::ErrorModel::Validation(no_source_message(branch_name@)),
        },
{
    let mut k: usize = 0;
    while k < paths.len()
        invariant
            k <= paths.len(),
            first_branch_source(path_views(paths@), 0) == first_branch_source(
                path_views(paths@),
                k as int,
            ),
        decreases paths.len() - k,
    {
        match (&paths[k].copyfrom_path, &paths[k].copyfrom_rev) {
            (Some(from), Some(rev)) => {
                let name = chars_to_string(
                    &chars_last_piece(&str_chars(from.as_str()), CharClass::One('/')),
                );
                return Ok(join3(name.as_str(), "@r", rev.as_str()));
            },
            _ => {},
        }
        k += 1;
    }
    let message = join2("Failed to get source revision for branch ", branch_name);
    Err(AppError::Validation(message))
}

/// Whether a path was deleted.
pub open spec fn is_deletion(p: LogPathModel) -> bool {
    p.action == Some("D"@)
}

/// Whether some path from index `k` on lies in the project `project`.
pub open spec fn mentions_project(paths: Seq<LogPathModel>, project: Seq<char>, k: int) -> bool
    decreases paths.len() - k,
{
    if k < 0 || k >= paths.len() {
        false
    } else {
        first_segment(paths[k].path) == project || mentions_project(paths, project, k + 1)
    }
}

/// Whether the history of the repository lists a path of the project
/// `project_name`.
pub fn log_mentions_project(paths: &Vec<LogPath>, project_name: &str) -> (r: bool)
    ensures
        r == mentions_project(path_views(paths@), project_name@, 0),
{
    let wanted = str_chars(project_name);
    let mut k: usize = 0;
    while k < paths.len()
        invariant
            k <= paths.len(),
            wanted@ == project_name@,
            mentions_project(path_views(paths@), project_name@, 0) == mentions_project(
                path_views(paths@),
                project_name@,
                k as int,
            ),
        decreases paths.len() - k,
    {
        let segment = first_segment_of(paths[k].path.as_str());
        if chars_eq(&segment, &wanted) {
            return true;
        }
        k += 1;
    }
    false
}

/// The revision of the first deletion from index `k` on of a path that
/// `matches[k]` accepts and whose entry states a revision; zero where there
/// is none.
pub open spec fn deletion_from(paths: Seq<LogPathModel>, matches: spec_fn(Seq<char>) -> bool, k: int)
    -> u64
    decreases paths.len() - k,
{
    if k < 0 || k >= paths.len() {
        0
    } else if is_deletion(paths[k]) && matches(paths[k].path) && paths[k].revision is Some {
        revision_number(paths[k].revision->0)
    } else {
        deletion_from(paths, matches, k + 1)
    }
}

/// The revision in which the project `project` was deleted: that of the
/// first deletion of a path whose first segment is the project's name; zero
/// where the log lists none.
pub open spec fn project_deletion(paths: Seq<LogPathModel>, project: Seq<char>) -> u64 {
    deletion_from(paths, |path: Seq<char>| first_segment(path) == project, 0)
}

/// The revision in which a branch was deleted: that of the first deletion
/// of a path that ends in `/branches/{branch}`; zero where the log lists
/// none.
pub open spec fn branch_deletion(paths: Seq<LogPathModel>, branch: Seq<char>) -> u64 {
    deletion_from(paths, |path: Seq<char>| ends_with(path, "/branches/"@ + branch), 0)
}

/// Whether `record` is a deletion.
fn record_is_deletion(record: &LogPath) -> (r: bool)
    ensures
        r == is_deletion(record@),
{
    match &record.action {
        Some(a) => str_eq(a.as_str(), "D"),
        None => false,
    }
}

/// The revision in which the project `project_name` was deleted, from the
/// history of the repository; zero where it lists no such deletion.
pub fn project_deletion_revision(paths: &Vec<LogPath>, project_name: &str) -> (r: u64)
    ensures
        r == project_deletion(path_views(paths@), project_name@),
{
    let wanted = str_chars(project_name);
    let ghost matches = |path: Seq<char>| first_segment(path) == project_name@;
    let mut k: usize = 0;
    while k < paths.len()
        invariant
            k <= paths.len(),
            wanted@ == project_name@,
            matches == (|path: Seq<char>| first_segment(path) == project_name@),
            project_deletion(path_views(paths@), project_name@) == deletion_from(
                path_views(paths@),
                matches,
                k as int,
            ),
        decreases paths.len() - k,
    {
        if record_is_deletion(&paths[k]) {
            let segment = first_segment_of(paths[k].path.as_str());
            if chars_eq(&segment, &wanted) {
                match &paths[k].revision {
                    Some(rev) => {
                        return revision_number_of(rev.as_str());
                    },
                    None => {},
                }
            }
        }
        k += 1;
    }
    0
}

/// The revision in which the branch `branch_name` was deleted, from the
/// history of the project's branches; zero where it lists no such deletion.
pub fn branch_deletion_revision(paths: &Vec<LogPath>, branch_name: &str) -> (r: u64)
    ensures
        r == branch_deletion(path_views(paths@), branch_name@),
{
    let suffix = str_chars(join2("/branches/", branch_name).as_str());
    let ghost matches = |path: Seq<char>| ends_with(path, "/branches/"@ + branch_name@);
    let mut k: usize = 0;
    while k < paths.len()
        invariant
            k <= paths.len(),
            suffix@ == "/branches/"@ + branch_name@,
            matches == (|path: Seq<char>| ends_with(path, "/branches/"@ + branch_name@)),
            branch_deletion(path_views(paths@), branch_name@) == deletion_from(
                path_views(paths@),
                matches,
                k as int,
            ),
        decreases paths.len() - k,
    {
        if record_is_deletion(&paths[k]) {
            let path = str_chars(paths[k].path.as_str());
            if chars_end_with(&path, &suffix) {
                match &paths[k].revision {
                    Some(rev) => {
                        return revision_number_of(rev.as_str());
                    },
                    None => {},
                }
            }
        }
        k += 1;
    }
    0
}

/// Parses the output of a log command and hands the document to
/// `callback`, whose result is the result. White space around the output is
/// dropped; output that the parser rejects is an error and `callback` is not
/// called.
pub fn callback_for_log_xml<F, T>(log_output: &str, callback: F) -> (r: Result<T, AppError>) where
    F: FnOnce(&Vec<XmlNode>) -> Result<T, AppError>,

    requires
        forall|nodes: &Vec<XmlNode>| callback.requires((nodes,)),
    ensures
        match xml_nodes(trim(log_output@)) {
            Some(document) => exists|nodes: &Vec<XmlNode>|
                node_views(nodes@) == document && callback.ensures((nodes,), r),
            None => r matches Err(e) && e is XmlParse,
        },
{
    let trimmed = chars_to_string(&trim_chars(&str_chars(log_output)));
    match parse_document(trimmed.as_str()) {
        Ok(nodes) => callback(&nodes),
        Err(e) => Err(e),
    }
}

} // verus!
