//! The commit protocol: what is staged, and the order of its phases.

use crate::backend::{
    svn_add, svn_cleanup, svn_commit, svn_commit_externals, svn_delete, svn_propdel,
    svn_propset, svn_revert, svn_update, BackendCommand,
};
use crate::error::{validation, AppError, ErrorModel};
use crate::ignore_rules::{
    assessment_views, find_assessment, lookup_assessment, AssessmentModel, PathAssessment,
};
use crate::status::{entry_views, ItemKind, StatusEntry, StatusModel};
use crate::text::{join3, str_chars, str_eq, string_views, trim, trim_chars};
use crate::xml::{
    attribute, attribute_or, first_tagged, node_attribute, node_attribute_or, node_tagged_from,
    node_views, parse_document, xml_nodes, NodeModel, XmlNode,
};
use vstd::prelude::*;
use vstd::string::*;

verus! {

/// How a commit ended.
#[derive(Debug, Clone, Copy, PartialEq, Eq, Structural)]
pub enum CommitResult {
    /// A change set was transmitted.
    Success,
    /// There was nothing to transmit.
    NoChanges,
}

/// The command lines of `cmds`.
pub open spec fn command_lines(cmds: Seq<BackendCommand>) -> Seq<Seq<Seq<char>>> {
    cmds.map_values(|c: BackendCommand| c.line())
}

/// The value of the link that makes the project's ignore-rule file appear
/// in a working copy: `^/{project}/.gitignore .gitignore`.
pub open spec fn ignore_link(project: Seq<char>) -> Seq<char> {
    "^/"@ + project + "/.gitignore .gitignore"@
}

/// What the status of the ignore-rule file says of it, where the file is in
/// the working copy: whether its content was edited locally, and whether its
/// link points somewhere else than the working copy does.
pub open spec fn rule_file_state(nodes: Seq<NodeModel>) -> Option<(bool, bool)> {
    match first_tagged(nodes, "wc-status"@) {
        Some(w) => Some(
            (
                attribute_or(nodes[w], "item"@, ""@) == "modified"@,
                attribute(nodes[w], "switched"@) == Some("true"@),
            ),
        ),
        None => None,
    }
}

/// The command that throws the local edit of the ignore-rule file away.
pub open spec fn discard_edit_line() -> Seq<Seq<char>> {
    seq!["svn"@, "revert"@, ".gitignore"@]
}

/// The command that takes the server's copy of the ignore-rule file.
pub open spec fn take_server_copy_line() -> Seq<Seq<char>> {
    seq!["svn"@, "update"@, ".gitignore"@, "--accept"@, "theirs-full"@]
}

/// The commands that set the link to the project's ignore-rule file where
/// the working copy has none: the link is set, committed and followed.
pub open spec fn link_lines(project: Seq<char>) -> Seq<Seq<Seq<char>>> {
    seq![
        seq!["svn"@, "propset"@, "svn:externals"@, ignore_link(project), "."@],
        seq!["svn"@, "commit"@, "."@, "-m"@, "Update svn:externals for .gitignore"@],
        seq!["svn"@, "update"@, "."@],
    ]
}

/// The commands that bring the ignore rules of a working copy up to date,
/// from the status of the ignore-rule file. Where the file is not in the
/// working copy, the link to the project's file is set. Where it is, a local
/// edit is thrown away, so that the local content is the server's and the
/// server's copy stays as it is; then a link that has drifted is taken away
/// and set anew, and a link that has not is followed to the server's copy.
pub open spec fn ignore_sync_lines(nodes: Seq<NodeModel>, project: Seq<char>) -> Seq<
    Seq<Seq<char>>,
> {
    match rule_file_state(nodes) {
        Some((edited, drifted)) => (if edited {
            seq![discard_edit_line()]
        } else {
            Seq::empty()
        }) + (if drifted {
            relink_lines(project)
        } else {
            seq![take_server_copy_line()]
        }),
        None => link_lines(project),
    }
}

/// The link to the ignore-rule file, ready to be set.
fn link_value(project_name: &str) -> (r: String)
    ensures
        r@ == ignore_link(project_name@),
{
    join3("^/", project_name, "/.gitignore .gitignore")
}

/// Appends the commands that take a drifted link away and set it anew.
fn push_relink(plan: &mut Vec<BackendCommand>, project_name: &str)
    ensures
        command_lines(final(plan)@) == command_lines(old(plan)@) + relink_lines(project_name@),
{
    let propdel = svn_propdel(vec!["svn:externals", "."].as_slice());
    assert(propdel.line() =~= seq!["svn"@, "propdel"@, "svn:externals"@, "."@]);
    plan.push(propdel);
    let update = svn_update(vec!["."].as_slice());
    assert(update.line() =~= seq!["svn"@, "update"@, "."@]);
    plan.push(update);
    let link = link_value(project_name);
    let propset = svn_propset(vec!["svn:externals", link.as_str(), "."].as_slice());
    assert(propset.line() =~= seq![
        "svn"@,
        "propset"@,
        "svn:externals"@,
        ignore_link(project_name@),
        "."@,
    ]);
    plan.push(propset);
    let again = svn_update(vec!["."].as_slice());
    assert(again.line() =~= seq!["svn"@, "update"@, "."@]);
    plan.push(again);
    assert(command_lines(plan@) =~= command_lines(old(plan)@) + relink_lines(project_name@));
}

/// The commands that bring the ignore rules up to date, from the parsed
/// status of the ignore-rule file.
pub fn ignore_sync_plan(project_name: &str, nodes: &Vec<XmlNode>) -> (r: Vec<BackendCommand>)
    ensures
        command_lines(r@) == ignore_sync_lines(node_views(nodes@), project_name@),
{
    let mut plan: Vec<BackendCommand> = Vec::new();
    match node_tagged_from(nodes, "wc-status", 0, nodes.len()) {
        Some(w) => {
            assert(node_views(nodes@)[w as int] == nodes[w as int]@);
            let edited = str_eq(node_attribute_or(&nodes[w], "item", ""), "modified");
            let drifted = match node_attribute(&nodes[w], "switched") {
                Some(v) => str_eq(v, "true"),
                None => false,
            };
            assert(rule_file_state(node_views(nodes@)) == Some((edited, drifted)));
            if edited {
                let revert = svn_revert(vec![".gitignore"].as_slice());
                assert(revert.line() =~= discard_edit_line());
                plan.push(revert);
            }
            if drifted {
                push_relink(&mut plan, project_name);
            } else {
                let update = svn_update(vec![".gitignore", "--accept", "theirs-full"].as_slice());
                assert(update.line() =~= take_server_copy_line());
                plan.push(update);
            }
            assert(command_lines(plan@) =~= ignore_sync_lines(node_views(nodes@), project_name@));
        },
        None => {
            let link = link_value(project_name);
            let propset = svn_propset(vec!["svn:externals", link.as_str(), "."].as_slice());
            assert(propset.line() =~= seq![
                "svn"@,
                "propset"@,
                "svn:externals"@,
                ignore_link(project_name@),
                "."@,
            ]);
            plan.push(propset);
            plan.push(svn_commit_externals("."));
            let update = svn_update(vec!["."].as_slice());
            assert(update.line() =~= seq!["svn"@, "update"@, "."@]);
            plan.push(update);
            assert(command_lines(plan@) =~= link_lines(project_name@));
        },
    }
    plan
}

/// Whether a command line is a commit.
pub open spec fn is_commit_line(line: Seq<Seq<char>>) -> bool {
    line.len() > 1 && line[1] == "commit"@
}

/// Where the ignore-rule file is in the working copy, nothing is sent
/// upstream to bring it up to date: no command of the plan is a commit, so a
/// local edit never reaches the server's copy; and an edited file is reverted
/// before anything else.
pub proof fn lemma_sync_keeps_server_copy(nodes: Seq<NodeModel>, project: Seq<char>, k: int)
    requires
        rule_file_state(nodes) is Some,
        0 <= k < ignore_sync_lines(nodes, project).len(),
    ensures
        !is_commit_line(ignore_sync_lines(nodes, project)[k]),
        rule_file_state(nodes) matches Some((edited, _)) && edited ==> ignore_sync_lines(
            nodes,
            project,
        )[0] == discard_edit_line(),
{
    reveal_strlit("commit");
    reveal_strlit("revert");
    reveal_strlit("update");
    reveal_strlit("propdel");
    reveal_strlit("propset");
    let c = "commit"@;
    assert("revert"@[0] != c[0]);
    assert("update"@[0] != c[0]);
    assert("propdel"@[0] != c[0]);
    assert("propset"@[0] != c[0]);
}

/// The commands that bring the ignore rules of a working copy up to date,
/// from the structured status of the ignore-rule file. They are to be run in
/// order, each only if the one before succeeded. The status is rejected
/// exactly where the parser rejects it.
pub fn auto_sync_ignore_rules(project_name: &str, status_xml: &str) -> (r: Result<
    Vec<BackendCommand>,
    AppError,
>)
    ensures
        match r {
            Ok(plan) => xml_nodes(status_xml@) matches Some(nodes) && command_lines(plan@)
                == ignore_sync_lines(nodes, project_name@),
            Err(e) => xml_nodes(status_xml@) is None && e is XmlParse,
        },
{
    match parse_document(status_xml) {
        Ok(nodes) => Ok(ignore_sync_plan(project_name, &nodes)),
        Err(e) => Err(e),
    }
}

/// Whether an entry is the link to the ignore-rule file, pointing somewhere
/// else than the working copy does.
pub open spec fn is_drifted_link(e: StatusModel) -> bool {
    e.switched && e.path == ".gitignore"@
}

/// The commands that take a drifted link away and set it anew.
pub open spec fn relink_lines(project: Seq<char>) -> Seq<Seq<Seq<char>>> {
    seq![
        seq!["svn"@, "propdel"@, "svn:externals"@, "."@],
        seq!["svn"@, "update"@, "."@],
        seq!["svn"@, "propset"@, "svn:externals"@, ignore_link(project), "."@],
        seq!["svn"@, "update"@, "."@],
    ]
}

/// The commands for the entries from index `i` on: those of `relink_lines`
/// for each drifted link.
pub open spec fn relink_from(entries: Seq<StatusModel>, project: Seq<char>, i: int) -> Seq<
    Seq<Seq<char>>,
>
    decreases entries.len() - i,
{
    if i < 0 || i >= entries.len() {
        Seq::empty()
    } else if is_drifted_link(entries[i]) {
        relink_lines(project) + relink_from(entries, project, i + 1)
    } else {
        relink_from(entries, project, i + 1)
    }
}

/// The commands that keep the ignore state of a working copy in step after
/// staging: the link to the ignore-rule file is set anew wherever it has
/// drifted.
pub fn set_remaining_unversioned_as_ignored(project_name: &str, entries: &Vec<StatusEntry>) -> (r:
    Vec<BackendCommand>)
    ensures
        command_lines(r@) == relink_from(entry_views(entries@), project_name@, 0),
{
    let mut plan: Vec<BackendCommand> = Vec::new();
    let mut i: usize = 0;
    while i < entries.len()
        invariant
            i <= entries.len(),
            relink_from(entry_views(entries@), project_name@, 0) == command_lines(plan@)
                + relink_from(entry_views(entries@), project_name@, i as int),
        decreases entries.len() - i,
    {
        if entries[i].switched && str_eq(entries[i].path.as_str(), ".gitignore") {
            push_relink(&mut plan, project_name);
        }
        i += 1;
    }
    plan
}

/// What is staged before a commit: the paths to add and the paths to
/// remove.
#[derive(Debug)]
pub struct StagePlan {
    pub adds: Vec<String>,
    pub dels: Vec<String>,
}

/// The paths that an entry schedules for addition. An unversioned path that
/// the rules do not ignore is added; for a directory the files below it that
/// the rules do not ignore are added in its place, never the directory
/// itself. A path that was not assessed counts as a file that is not ignored.
pub open spec fn adds_of(e: StatusModel, a: Seq<AssessmentModel>) -> Seq<Seq<char>> {
    if e.item_kind == ItemKind::Unversioned {
        match find_assessment(a, e.path, 0) {
            Some(x) => if x.ignored {
                Seq::empty()
            } else if x.is_dir {
                x.unignored_files
            } else {
                seq![e.path]
            },
            None => seq![e.path],
        }
    } else {
        Seq::empty()
    }
}

/// The additions that the entries from index `i` on schedule, in order.
pub open spec fn adds_from(entries: Seq<StatusModel>, a: Seq<AssessmentModel>, i: int) -> Seq<
    Seq<char>,
>
    decreases entries.len() - i,
{
    if i < 0 || i >= entries.len() {
        Seq::empty()
    } else {
        adds_of(entries[i], a) + adds_from(entries, a, i + 1)
    }
}

/// The removals that the entries from index `i` on schedule: the paths of
/// the missing ones, in order.
pub open spec fn dels_from(entries: Seq<StatusModel>, i: int) -> Seq<Seq<char>>
    decreases entries.len() - i,
{
    if i < 0 || i >= entries.len() {
        Seq::empty()
    } else if entries[i].item_kind == ItemKind::Missing {
        seq![entries[i].path] + dels_from(entries, i + 1)
    } else {
        dels_from(entries, i + 1)
    }
}

/// A directory is never added itself: what an unversioned directory
/// schedules are the files below it that the rules do not ignore, and a
/// path that the rules ignore schedules nothing.
pub proof fn lemma_directory_is_never_added(e: StatusModel, a: Seq<AssessmentModel>)
    requires
        e.item_kind == ItemKind::Unversioned,
        find_assessment(a, e.path, 0) is Some,
    ensures
        ({
            let x = find_assessment(a, e.path, 0)->0;
            &&& x.ignored ==> adds_of(e, a).len() == 0
            &&& !x.ignored && x.is_dir ==> adds_of(e, a) == x.unignored_files
            &&& !x.ignored && !x.is_dir ==> adds_of(e, a) == seq![e.path]
        }),
{
}

/// Appends copies of the strings of `tail` to `out`.
fn push_all(out: &mut Vec<String>, tail: &Vec<String>)
    ensures
        string_views(final(out)@) == string_views(old(out)@) + string_views(tail@),
{
    let mut k: usize = 0;
    while k < tail.len()
        invariant
            k <= tail.len(),
            string_views(out@) == string_views(old(out)@) + string_views(tail@).take(k as int),
        decreases tail.len() - k,
    {
        let ghost before = out@;
        let item = tail[k].clone();
        out.push(item);
        assert(string_views(out@) =~= string_views(before).push(item@));
        k += 1;
    }
}

/// Decides what is staged before a commit, from the entries of the working
/// copy and what the ignore rules say of its unversioned paths.
pub fn svn_add_and_delete(entries: &Vec<StatusEntry>, a: &Vec<PathAssessment>) -> (r: StagePlan)
    ensures
        string_views(r.adds@) == adds_from(entry_views(entries@), assessment_views(a@), 0),
        string_views(r.dels@) == dels_from(entry_views(entries@), 0),
{
    let mut adds: Vec<String> = Vec::new();
    let mut dels: Vec<String> = Vec::new();
    let mut i: usize = 0;
    while i < entries.len()
        invariant
            i <= entries.len(),
            adds_from(entry_views(entries@), assessment_views(a@), 0) == string_views(adds@)
                + adds_from(entry_views(entries@), assessment_views(a@), i as int),
            dels_from(entry_views(entries@), 0) == string_views(dels@) + dels_from(
                entry_views(entries@),
                i as int,
            ),
        decreases entries.len() - i,
    {
        let entry = &entries[i];
        match entry.item_kind {
            ItemKind::Unversioned => {
                match lookup_assessment(a, entry.path.as_str()) {
                    Some(x) => {
                        if !x.ignored {
                            if x.is_dir {
                                push_all(&mut adds, &x.unignored_files);
                            } else {
                                adds.push(entry.path.clone());
                            }
                        }
                    },
                    None => {
                        adds.push(entry.path.clone());
                    },
                }
            },
            ItemKind::Missing => {
                dels.push(entry.path.clone());
            },
            _ => {},
        }
        i += 1;
    }
    StagePlan { adds, dels }
}

/// The string slices of `v`.
fn as_strs(v: &Vec<String>) -> (r: Vec<&str>)
    ensures
        crate::backend::strs(r@) == string_views(v@),
{
    let mut r: Vec<&str> = Vec::new();
    let mut k: usize = 0;
    while k < v.len()
        invariant
            k <= v.len(),
            crate::backend::strs(r@) == string_views(v@).take(k as int),
        decreases v.len() - k,
    {
        let ghost before = r@;
        let item = v[k].as_str();
        r.push(item);
        assert(crate::backend::strs(r@) =~= crate::backend::strs(before).push(item@));
        k += 1;
    }
    r
}

/// The commands that carry a stage plan out: one addition of all the paths
/// to add, if there are any, then one removal of all the paths to remove, if
/// there are any.
pub open spec fn stage_lines(adds: Seq<Seq<char>>, dels: Seq<Seq<char>>) -> Seq<Seq<Seq<char>>> {
    (if adds.len() > 0 {
        seq![seq!["svn"@, "add"@, "--parents"@, "--depth"@, "empty"@, "--force"@] + adds]
    } else {
        Seq::empty()
    }) + (if dels.len() > 0 {
        seq![seq!["svn"@, "delete"@] + dels]
    } else {
        Seq::empty()
    })
}

impl StagePlan {
    /// Whether nothing is staged.
    pub fn is_empty(&self) -> (r: bool)
        ensures
            r == (self.adds@.len() == 0 && self.dels@.len() == 0),
    {
        self.adds.len() == 0 && self.dels.len() == 0
    }

    /// The commands that carry the plan out, as one batch each.
    pub fn commands(&self) -> (r: Vec<BackendCommand>)
        ensures
            command_lines(r@) == stage_lines(string_views(self.adds@), string_views(self.dels@)),
    {
        let mut plan: Vec<BackendCommand> = Vec::new();
        if self.adds.len() > 0 {
            let paths = as_strs(&self.adds);
            plan.push(svn_add(paths.as_slice()));
        }
        if self.dels.len() > 0 {
            let paths = as_strs(&self.dels);
            plan.push(svn_delete(paths.as_slice()));
        }
        plan
    }
}

/// What the output of the commit command says of its outcome: nothing was
/// transmitted exactly where the output is blank.
pub open spec fn commit_outcome(output: Seq<char>) -> CommitResult {
    if trim(output).len() == 0 {
        CommitResult::NoChanges
    } else {
        CommitResult::Success
    }
}

/// Reads the outcome of a commit off the output of the commit command.
pub fn commit_result_of(output: &str) -> (r: CommitResult)
    ensures
        r == commit_outcome(output@),
{
    let t = trim_chars(&str_chars(output));
    if t.len() == 0 {
        CommitResult::NoChanges
    } else {
        CommitResult::Success
    }
}

/// The phases of the commit protocol, in their order.
#[derive(Debug, Clone, Copy, PartialEq, Eq, Structural)]
pub enum CommitPhase {
    /// Additions and removals are being staged.
    Stage,
    /// The latest upstream state is being merged in.
    Reconcile,
    /// Conflicts of the merge are being resolved.
    Resolve,
    /// The change set is being submitted.
    Commit,
    /// The upstream state is being merged in once more.
    ReReconcile(CommitResult),
    /// Conflicts of the second merge are being resolved.
    ReResolve(CommitResult),
    /// Stale locks are being cleared.
    Housekeeping(CommitResult),
    /// The protocol has ended.
    Done,
}

/// What the caller reports back of the phase it was asked to carry out.
#[derive(Debug)]
pub enum CommitEvent {
    /// The phase succeeded; for a phase that is one command, with its output.
    Completed(String),
    /// The phase failed.
    Failed(AppError),
}

/// What the caller is to do next.
#[derive(Debug)]
pub enum CommitAction {
    /// Stage additions and removals.
    Stage,
    /// Run this command, which merges the upstream state in.
    Reconcile(BackendCommand),
    /// Resolve the conflicts of the working copy.
    Resolve,
    /// Run this command, which submits the change set.
    Commit(BackendCommand),
    /// Run this command, which clears stale locks.
    Housekeeping(BackendCommand),
    /// Stop, with this outcome.
    Finish(Result<CommitResult, AppError>),
}

/// A commit event as a mathematical value.
pub enum CommitEventModel {
    Completed(Seq<char>),
    Failed(ErrorModel),
}

/// A commit action as a mathematical value.
pub enum CommitActionModel {
    Stage,
    Reconcile(Seq<Seq<char>>),
    Resolve,
    Commit(Seq<Seq<char>>),
    Housekeeping(Seq<Seq<char>>),
    Finish(Result<CommitResult, ErrorModel>),
}

impl View for CommitEvent {
    type V = CommitEventModel;

    open spec fn view(&self) -> CommitEventModel {
        match self {
            CommitEvent::Completed(output) => CommitEventModel::Completed(output@),
            CommitEvent::Failed(e) => CommitEventModel::Failed(e@),
        }
    }
}

impl View for CommitAction {
    type V = CommitActionModel;

    open spec fn view(&self) -> CommitActionModel {
        match self {
            CommitAction::Stage => CommitActionModel::Stage,
            CommitAction::Reconcile(cmd) => CommitActionModel::Reconcile(cmd.line()),
            CommitAction::Resolve => CommitActionModel::Resolve,
            CommitAction::Commit(cmd) => CommitActionModel::Commit(cmd.line()),
            CommitAction::Housekeeping(cmd) => CommitActionModel::Housekeeping(cmd.line()),
            CommitAction::Finish(Ok(result)) => CommitActionModel::Finish(Ok(*result)),
            CommitAction::Finish(Err(e)) => CommitActionModel::Finish(Err(e@)),
        }
    }
}

/// The merge that never overwrites local edits: conflicts are left marked
/// for the resolution that follows.
pub open spec fn reconcile_line() -> Seq<Seq<char>> {
    seq!["svn"@, "update"@, "--accept"@, "postpone"@]
}

/// What the message of the failure on an event after the end says.
pub open spec fn after_end_message() -> Seq<char> {
    "The commit protocol has already ended"@
}

/// The next phase and action of the commit protocol. A failure ends the
/// protocol with that failure and nothing further is attempted. Otherwise
/// the phases follow each other: stage, reconcile, resolve, commit,
/// reconcile and resolve once more, housekeeping; the outcome is read off
/// the output of the commit command.
pub open spec fn commit_step(message: Seq<char>, phase: CommitPhase, event: CommitEventModel) -> (
    CommitPhase,
    CommitActionModel,
) {
    match (phase, event) {
        (CommitPhase::Done, _) => (
            CommitPhase::Done,
            CommitActionModel::Finish(Err(ErrorModel::Validation(after_end_message()))),
        ),
        (_, CommitEventModel::Failed(e)) => (CommitPhase::Done, CommitActionModel::Finish(Err(e))),
        (CommitPhase::Stage, _) => (
            CommitPhase::Reconcile,
            CommitActionModel::Reconcile(reconcile_line()),
        ),
        (CommitPhase::Reconcile, _) => (CommitPhase::Resolve, CommitActionModel::Resolve),
        (CommitPhase::Resolve, _) => (
            CommitPhase::Commit,
            CommitActionModel::Commit(seq!["svn"@, "commit"@, "-m"@, message]),
        ),
        (CommitPhase::Commit, CommitEventModel::Completed(output)) => (
            CommitPhase::ReReconcile(commit_outcome(output)),
            CommitActionModel::Reconcile(reconcile_line()),
        ),
        (CommitPhase::ReReconcile(result), _) => (
            CommitPhase::ReResolve(result),
            CommitActionModel::Resolve,
        ),
        (CommitPhase::ReResolve(result), _) => (
            CommitPhase::Housekeeping(result),
            CommitActionModel::Housekeeping(seq!["svn"@, "cleanup"@, "."@]),
        ),
        (CommitPhase::Housekeeping(result), _) => (
            CommitPhase::Done,
            CommitActionModel::Finish(Ok(result)),
        ),
    }
}

/// The merge that never overwrites local edits.
fn reconcile_command() -> (r: BackendCommand)
    ensures
        r.line() == reconcile_line(),
{
    svn_update(vec!["--accept", "postpone"].as_slice())
}

/// Begins the commit protocol: staging comes first.
pub fn commit_with_conflict_resolution() -> (r: (CommitPhase, CommitAction))
    ensures
        r.0 == CommitPhase::Stage,
        r.1@ == CommitActionModel::Stage,
{
    (CommitPhase::Stage, CommitAction::Stage)
}

/// Takes the commit protocol one step on: from the phase that the caller
/// was asked to carry out and what it reports to the next phase and what it
/// is to do.
pub fn commit_protocol_step(commit_message: &str, phase: CommitPhase, event: CommitEvent) -> (r: (
    CommitPhase,
    CommitAction,
))
    ensures
        (r.0, r.1@) == commit_step(commit_message@, phase, event@),
        phase != CommitPhase::Done ==> (event matches CommitEvent::Failed(e) ==> r.1
            == CommitAction::Finish(Err(e))),
{
    match (phase, event) {
        (CommitPhase::Done, _) => (
            CommitPhase::Done,
            CommitAction::Finish(Err(validation("The commit protocol has already ended"))),
        ),
        (_, CommitEvent::Failed(e)) => (CommitPhase::Done, CommitAction::Finish(Err(e))),
        (CommitPhase::Stage, _) => (
            CommitPhase::Reconcile,
            CommitAction::Reconcile(reconcile_command()),
        ),
        (CommitPhase::Reconcile, _) => (CommitPhase::Resolve, CommitAction::Resolve),
        (CommitPhase::Resolve, _) => (
            CommitPhase::Commit,
            CommitAction::Commit(svn_commit(commit_message)),
        ),
        (CommitPhase::Commit, CommitEvent::Completed(output)) => (
            CommitPhase::ReReconcile(commit_result_of(output.as_str())),
            CommitAction::Reconcile(reconcile_command()),
        ),
        (CommitPhase::ReReconcile(result), _) => (
            CommitPhase::ReResolve(result),
            CommitAction::Resolve,
        ),
        (CommitPhase::ReResolve(result), _) => (
            CommitPhase::Housekeeping(result),
            CommitAction::Housekeeping(svn_cleanup()),
        ),
        (CommitPhase::Housekeeping(result), _) => (
            CommitPhase::Done,
            CommitAction::Finish(Ok(result)),
        ),
    }
}

/// A run of the protocol in which every phase succeeds ends after its seven
/// phases, and it reports that nothing changed exactly where the commit
/// command printed nothing but white space: a commit with nothing to
/// transmit is no error.
pub proof fn lemma_commit_outcome(message: Seq<char>, outputs: Seq<Seq<char>>)
    requires
        outputs.len() == 7,
    ensures
        ({
            let staged = commit_step(message, CommitPhase::Stage, CommitEventModel::Completed(outputs[0])).0;
            let merged = commit_step(message, staged, CommitEventModel::Completed(outputs[1])).0;
            let resolved = commit_step(message, merged, CommitEventModel::Completed(outputs[2])).0;
            let committed = commit_step(message, resolved, CommitEventModel::Completed(outputs[3])).0;
            let merged_again = commit_step(message, committed, CommitEventModel::Completed(outputs[4])).0;
            let resolved_again = commit_step(message, merged_again, CommitEventModel::Completed(outputs[5])).0;
            let last = commit_step(message, resolved_again, CommitEventModel::Completed(outputs[6]));
            &&& resolved == CommitPhase::Commit
            &&& last.0 == CommitPhase::Done
            &&& last.1 == CommitActionModel::Finish(
                Ok::<CommitResult, ErrorModel>(commit_outcome(outputs[3])),
            )
            &&& (last.1 == CommitActionModel::Finish(
                Ok::<CommitResult, ErrorModel>(CommitResult::NoChanges),
            ) <==> trim(outputs[3]).len() == 0)
        }),
{
}

/// No phase is attempted after a failure: whatever phase fails, the
/// protocol ends with that failure, and whatever is reported after the end
/// is refused.
pub proof fn lemma_commit_failure_is_final(
    message: Seq<char>,
    phase: CommitPhase,
    e: ErrorModel,
    later: CommitEventModel,
)
    requires
        phase != CommitPhase::Done,
    ensures
        commit_step(message, phase, CommitEventModel::Failed(e)) == (
            CommitPhase::Done,
            CommitActionModel::Finish(Err::<CommitResult, ErrorModel>(e)),
        ),
        commit_step(message, CommitPhase::Done, later).0 == CommitPhase::Done,
        commit_step(message, CommitPhase::Done, later).1 is Finish,
{
}

/// The change set is submitted only after staging, a merge and a resolution
/// have succeeded, and the outcome is reported only after a second merge, a
/// second resolution and housekeeping.
pub proof fn lemma_commit_order(message: Seq<char>, phase: CommitPhase, event: CommitEventModel)
    ensures
        commit_step(message, phase, event).1 is Commit ==> phase == CommitPhase::Resolve,
        commit_step(message, phase, event).1 matches CommitActionModel::Finish(Ok(r))
            ==> phase == CommitPhase::Housekeeping(r),
{
}

} // verus!
