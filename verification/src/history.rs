//! The history of a project as the log command shows it: one entry for
//! each revision, with what the revision was made for.

use crate::error::AppError;
use crate::names::{branch_of_path, extract_branch_name_from_path};
use crate::revision::{parse_revision, parse_revision_arg, Revision};
use crate::text::{
    chars_start_with, chars_to_string, join2, starts_with, str_chars, str_eq, trim, trim_chars,
    trim_start_matching, trim_start_str,
};
use crate::xml::{
    attribute_or, first_child, first_descendant, has_tag, node_attribute_or, node_first_child,
    node_first_descendant, node_has_tag, node_subtree_end, node_text_or_empty, node_views,
    subtree_end, text_or_empty, NodeModel, XmlNode,
};
use vstd::prelude::*;
use vstd::string::*;

verus! {

/// One line of the history as it is shown.
#[derive(Debug)]
pub struct LogEntry {
    pub revision: String,
    pub date: String,
    pub message: String,
    pub is_rollback: bool,
    pub is_current: bool,
}

/// What a revision was made for, as far as its message and its merges
/// tell.
#[derive(Debug)]
pub enum LogNote {
    /// A revert, anchored by the tag at this path.
    Rollback(String),
    /// The making of the branch of this name.
    BranchCreated(String),
    /// A merge from the branch of this name.
    Merged(String),
    /// Anything else.
    Plain,
}

/// One revision of the history as the backend reports it.
#[derive(Debug)]
pub struct LogRecord {
    pub revision: String,
    pub date: String,
    pub message: String,
    pub note: LogNote,
}

/// A note as a mathematical value.
pub enum NoteModel {
    Rollback(Seq<char>),
    BranchCreated(Seq<char>),
    Merged(Seq<char>),
    Plain,
}

/// What a `LogRecord` holds, as mathematical values.
pub struct RecordModel {
    pub revision: Seq<char>,
    pub date: Seq<char>,
    pub message: Seq<char>,
    pub note: NoteModel,
}

impl View for LogNote {
    type V = NoteModel;

    open spec fn view(&self) -> NoteModel {
        match self {
            LogNote::Rollback(tag) => NoteModel::Rollback(tag@),
            LogNote::BranchCreated(name) => NoteModel::BranchCreated(name@),
            LogNote::Merged(source) => NoteModel::Merged(source@),
            LogNote::Plain => NoteModel::Plain,
        }
    }
}

impl View for LogRecord {
    type V = RecordModel;

    open spec fn view(&self) -> RecordModel {
        RecordModel {
            revision: self.revision@,
            date: self.date@,
            message: self.message@,
            note: self.note@,
        }
    }
}

/// The models of the records of `records`.
pub open spec fn record_views(records: Seq<LogRecord>) -> Seq<RecordModel> {
    records.map_values(|r: LogRecord| r@)
}

/// The branch other than `current` that the first fitting path names,
/// among the `path` children of `paths` from node `j` up to `end`.
pub open spec fn source_in_paths(
    nodes: Seq<NodeModel>,
    project: Seq<char>,
    current: Seq<char>,
    paths: int,
    j: int,
    end: int,
) -> Option<Seq<char>>
    decreases end - j,
{
    if j < 0 || j >= end || end > nodes.len() {
        None
    } else if nodes[j].parent == Some(paths) && has_tag(nodes, j, "path"@) {
        match branch_of_path(project, text_or_empty(nodes, j)) {
            Some(branch) => if branch != current {
                Some(branch)
            } else {
                source_in_paths(nodes, project, current, paths, j + 1, end)
            },
            None => source_in_paths(nodes, project, current, paths, j + 1, end),
        }
    } else {
        source_in_paths(nodes, project, current, paths, j + 1, end)
    }
}

/// The branch that the merged entry at node `m` names.
pub open spec fn source_of_merged(
    nodes: Seq<NodeModel>,
    project: Seq<char>,
    current: Seq<char>,
    m: int,
) -> Option<Seq<char>> {
    match first_child(nodes, m, "paths"@) {
        Some(p) => source_in_paths(nodes, project, current, p, p + 1, subtree_end(nodes, p)),
        None => None,
    }
}

/// The branch that a revision was merged from: the first branch other than
/// `current` that a path of one of the entries merged into the entry at node
/// `e` lies on, among the children of `e` from node `m` up to `end`.
pub open spec fn merge_source_from(
    nodes: Seq<NodeModel>,
    project: Seq<char>,
    current: Seq<char>,
    e: int,
    m: int,
    end: int,
) -> Option<Seq<char>>
    decreases end - m,
{
    if m < 0 || m >= end || end > nodes.len() {
        None
    } else if nodes[m].parent == Some(e) && has_tag(nodes, m, "logentry"@) {
        match source_of_merged(nodes, project, current, m) {
            Some(branch) => Some(branch),
            None => merge_source_from(nodes, project, current, e, m + 1, end),
        }
    } else {
        merge_source_from(nodes, project, current, e, m + 1, end)
    }
}

/// The branch that the revision of the entry at node `e` was merged from.
pub open spec fn merge_source(
    nodes: Seq<NodeModel>,
    project: Seq<char>,
    current: Seq<char>,
    e: int,
) -> Option<Seq<char>> {
    merge_source_from(nodes, project, current, e, e + 1, subtree_end(nodes, e))
}

/// The text of the first node tagged `tag` in the subtree of node `e`, or
/// nothing.
pub open spec fn descendant_text(nodes: Seq<NodeModel>, e: int, tag: Seq<char>) -> Seq<char> {
    match first_descendant(nodes, e, tag) {
        Some(d) => text_or_empty(nodes, d),
        None => Seq::empty(),
    }
}

/// What a revision was made for: a message that starts with the mark of a
/// revert or of the making of a branch says so itself; otherwise a merge
/// shows in the entries merged in.
pub open spec fn note_of(message: Seq<char>, merged_from: Option<Seq<char>>) -> NoteModel {
    if starts_with(message, "[WS-ROLLBACK]"@) {
        NoteModel::Rollback(trim(trim_start_str(message, "[WS-ROLLBACK] "@)))
    } else if starts_with(message, "[WS-BRANCH]"@) {
        NoteModel::BranchCreated(trim_start_str(message, "[WS-BRANCH] Create "@))
    } else {
        match merged_from {
            Some(branch) => NoteModel::Merged(branch),
            None => NoteModel::Plain,
        }
    }
}

/// Whether node `e` is an entry of the history itself, and not one merged
/// into another.
pub open spec fn is_top_entry(nodes: Seq<NodeModel>, e: int) -> bool {
    has_tag(nodes, e, "logentry"@) && !(nodes[e].parent matches Some(p) && has_tag(
        nodes,
        p,
        "logentry"@,
    ))
}

/// The record of the entry at node `e`.
pub open spec fn record_at(
    nodes: Seq<NodeModel>,
    project: Seq<char>,
    current: Seq<char>,
    e: int,
) -> RecordModel {
    let message = descendant_text(nodes, e, "msg"@);
    RecordModel {
        revision: attribute_or(nodes[e], "revision"@, "0"@),
        date: descendant_text(nodes, e, "date"@),
        message,
        note: note_of(message, merge_source(nodes, project, current, e)),
    }
}

/// The records of the entries among the nodes from `i` on, in document
/// order.
pub open spec fn history_from(
    nodes: Seq<NodeModel>,
    project: Seq<char>,
    current: Seq<char>,
    i: int,
) -> Seq<RecordModel>
    decreases nodes.len() - i,
{
    if i < 0 || i >= nodes.len() {
        Seq::empty()
    } else if is_top_entry(nodes, i) {
        seq![record_at(nodes, project, current, i)] + history_from(nodes, project, current, i + 1)
    } else {
        history_from(nodes, project, current, i + 1)
    }
}

/// The branch that the merged entry at node `m` names.
fn merged_source(nodes: &Vec<XmlNode>, project_name: &str, current_branch: &str, m: usize) -> (r:
    Option<String>)
    ensures
        crate::log::opt_view(r) == source_of_merged(
            node_views(nodes@),
            project_name@,
            current_branch@,
            m as int,
        ),
{
    let paths = match node_first_child(nodes, m, "paths") {
        Some(p) => p,
        None => {
            return None;
        },
    };
    let end = node_subtree_end(nodes, paths);
    let mut j: usize = paths + 1;
    while j < end
        invariant
            paths < nodes.len(),
            paths < j,
            end <= nodes.len(),
            end == subtree_end(node_views(nodes@), paths as int),
            source_of_merged(node_views(nodes@), project_name@, current_branch@, m as int)
                == source_in_paths(
                node_views(nodes@),
                project_name@,
                current_branch@,
                paths as int,
                j as int,
                end as int,
            ),
        decreases end - j,
    {
        let is_child = match nodes[j].parent {
            Some(p) => p == paths,
            None => false,
        };
        if is_child && node_has_tag(nodes, j, "path") {
            match extract_branch_name_from_path(project_name, node_text_or_empty(nodes, j)) {
                Ok(branch) => {
                    if !str_eq(branch.as_str(), current_branch) {
                        return Some(branch);
                    }
                },
                Err(_) => {},
            }
        }
        j += 1;
    }
    None
}

/// The branch that the revision of the entry at node `e` was merged from.
fn merge_source_of(nodes: &Vec<XmlNode>, project_name: &str, current_branch: &str, e: usize) -> (r:
    Option<String>)
    requires
        e < nodes.len(),
    ensures
        crate::log::opt_view(r) == merge_source(
            node_views(nodes@),
            project_name@,
            current_branch@,
            e as int,
        ),
{
    let end = node_subtree_end(nodes, e);
    let mut m: usize = e + 1;
    while m < end
        invariant
            e < nodes.len(),
            e < m,
            end <= nodes.len(),
            end == subtree_end(node_views(nodes@), e as int),
            merge_source(node_views(nodes@), project_name@, current_branch@, e as int)
                == merge_source_from(
                node_views(nodes@),
                project_name@,
                current_branch@,
                e as int,
                m as int,
                end as int,
            ),
        decreases end - m,
    {
        let is_child = match nodes[m].parent {
            Some(p) => p == e,
            None => false,
        };
        if is_child && node_has_tag(nodes, m, "logentry") {
            match merged_source(nodes, project_name, current_branch, m) {
                Some(branch) => {
                    return Some(branch);
                },
                None => {},
            }
        }
        m += 1;
    }
    None
}

/// The text of the first node tagged `tag` in the subtree of node `e`.
fn descendant_text_of(nodes: &Vec<XmlNode>, e: usize, tag: &str) -> (r: String)
    ensures
        r@ == descendant_text(node_views(nodes@), e as int, tag@),
{
    match node_first_descendant(nodes, e, tag) {
        Some(d) => String::from_str(node_text_or_empty(nodes, d)),
        None => String::new(),
    }
}

/// What a revision was made for.
pub fn classify_message(message: &str, merged_from: Option<String>) -> (r: LogNote)
    ensures
        r@ == note_of(message@, crate::log::opt_view(merged_from)),
{
    let text = str_chars(message);
    if chars_start_with(&text, &str_chars("[WS-ROLLBACK]")) {
        let rest = trim_start_matching(&text, &str_chars("[WS-ROLLBACK] "));
        LogNote::Rollback(chars_to_string(&trim_chars(&rest)))
    } else if chars_start_with(&text, &str_chars("[WS-BRANCH]")) {
        let rest = trim_start_matching(&text, &str_chars("[WS-BRANCH] Create "));
        LogNote::BranchCreated(chars_to_string(&rest))
    } else {
        match merged_from {
            Some(branch) => LogNote::Merged(branch),
            None => LogNote::Plain,
        }
    }
}

/// Whether node `e` is an entry of the history itself.
fn node_is_top_entry(nodes: &Vec<XmlNode>, e: usize) -> (r: bool)
    requires
        e < nodes.len(),
    ensures
        r == is_top_entry(node_views(nodes@), e as int),
{
    if !node_has_tag(nodes, e, "logentry") {
        return false;
    }
    match nodes[e].parent {
        Some(p) => !node_has_tag(nodes, p, "logentry"),
        None => true,
    }
}

/// The revisions of a parsed log, in the order of the log: each entry of
/// the history with its revision, its date, its message and what it was
/// made for. Entries merged into another are read for the branch that the
/// merge came from and are no revisions of their own.
pub fn handle_log(nodes: &Vec<XmlNode>, project_name: &str, current_branch: &str) -> (r: Vec<
    LogRecord,
>)
    ensures
        record_views(r@) == history_from(node_views(nodes@), project_name@, current_branch@, 0),
{
    let mut out: Vec<LogRecord> = Vec::new();
    let mut i: usize = 0;
    while i < nodes.len()
        invariant
            i <= nodes.len(),
            history_from(node_views(nodes@), project_name@, current_branch@, 0) == record_views(
                out@,
            ) + history_from(node_views(nodes@), project_name@, current_branch@, i as int),
        decreases nodes.len() - i,
    {
        if node_is_top_entry(nodes, i) {
            let message = descendant_text_of(nodes, i, "msg");
            let merged_from = merge_source_of(nodes, project_name, current_branch, i);
            let note = classify_message(message.as_str(), merged_from);
            let record = LogRecord {
                revision: String::from_str(node_attribute_or(&nodes[i], "revision", "0")),
                date: descendant_text_of(nodes, i, "date"),
                message,
                note,
            };
            out.push(record);
        }
        i += 1;
    }
    out
}

/// What is shown as the message of a revision. `detail` is what was found
/// out about a revert's source revision or a branch's source; it is not read
/// for any other revision.
pub open spec fn shown_message(record: RecordModel, detail: Seq<char>) -> Seq<char> {
    match record.note {
        NoteModel::Rollback(_) => "\u{21a9} Reverted from "@ + detail,
        NoteModel::BranchCreated(_) => "\u{2387} Branch created from "@ + detail,
        NoteModel::Merged(source) => "\u{21c4} Merged from "@ + source,
        NoteModel::Plain => record.message,
    }
}

/// What is shown as the revision: marked where it is the revision of the
/// working copy.
pub open spec fn shown_revision(revision: Seq<char>, is_current: bool) -> Seq<char> {
    if is_current {
        "> r"@ + revision
    } else {
        "  r"@ + revision
    }
}

/// The line of the history that is shown for `record`. `date` is the date
/// as it is shown. A revision that cannot be read is an error.
pub fn log_entry(record: &LogRecord, current_rev: &Revision, detail: &str, date: String) -> (r:
    Result<LogEntry, AppError>)
    ensures
        match r {
            Ok(entry) => parse_revision(record.revision@) matches Some(rev) && entry.is_current == (
            rev == *current_rev) && entry.revision@ == shown_revision(
                record.revision@,
                rev == *current_rev,
            ) && entry.date@ == date@ && entry.message@ == shown_message(record@, detail@)
                && entry.is_rollback == (record.note is Rollback),
            Err(e) => parse_revision(record.revision@) is None && e@
                == crate::error::ErrorModel::RevisionParse(record.revision@),
        },
{
    let message = match &record.note {
        LogNote::Rollback(_) => join2("\u{21a9} Reverted from ", detail),
        LogNote::BranchCreated(_) => join2("\u{2387} Branch created from ", detail),
        LogNote::Merged(source) => join2("\u{21c4} Merged from ", source.as_str()),
        LogNote::Plain => record.message.clone(),
    };
    let is_rollback = match &record.note {
        LogNote::Rollback(_) => true,
        _ => false,
    };
    let rev = match parse_revision_arg(record.revision.as_str()) {
        Ok(rev) => rev,
        Err(e) => {
            return Err(e);
        },
    };
    let is_current = rev == *current_rev;
    let revision = if is_current {
        join2("> r", record.revision.as_str())
    } else {
        join2("  r", record.revision.as_str())
    };
    Ok(LogEntry { revision, date, message, is_rollback, is_current })
}

} // verus!
