//! The decisions of the commands that work on the current project: review,
//! revert, commit, branch, pull and push.

use crate::backend::{
    svn_copy, svn_delete, svn_merge, svn_revert, svn_switch, svn_update, BackendCommand,
};
use crate::branch_ops::{is_blank, text_is_blank};
use crate::commit::{command_lines, CommitResult};
use crate::context::{branch_url, project_root_url, project_trunk_url, ContextModel, SvnContext};
use crate::error::{AppError, ErrorModel};
use crate::names::{folder_name_pattern, folder_name_verdict, regex_accepts, validate_folder_name};
use crate::revision::{parse_revision, parse_revision_arg, Revision};
use crate::text::{chars_to_string, decimal_digits, join2, join3, join4, str_eq, u64_to_chars};
use vstd::prelude::*;
use vstd::string::*;

verus! {

/// What the message of the failure on a review target beyond the latest
/// revision says.
pub open spec fn beyond_latest_message(target: Revision, latest: Revision) -> Seq<char> {
    "Target revision "@ + target.text() + " is not latest revision "@ + latest.text()
        + ", cannot review"@
}

/// What the message of the failure on a revert target that is not older
/// than the latest revision says.
pub open spec fn not_older_message(target: Revision, latest: Revision) -> Seq<char> {
    "Target revision "@ + target.text() + " is not older than current revision "@ + latest.text()
        + ", cannot revert"@
}

/// Whether a revision lies beyond the latest one: a number above it. The
/// marker for the latest revision stands for that revision and never lies
/// beyond it.
pub open spec fn beyond_latest(target: Revision, latest: Revision) -> bool {
    target is Number && latest.is_before(target)
}

/// The revision that a review goes to: what the argument reads as, unless
/// it lies beyond the latest revision.
pub open spec fn review_target_of(revision: Seq<char>, latest: Revision) -> Result<
    Revision,
    ErrorModel,
> {
    match parse_revision(revision) {
        None => Err(ErrorModel::RevisionParse(revision)),
        Some(target) => if beyond_latest(target, latest) {
            Err(ErrorModel::RevisionParse(beyond_latest_message(target, latest)))
        } else {
            Ok(target)
        },
    }
}

/// The revision that a revert goes to: what the argument reads as, unless
/// it is not before the latest revision.
pub open spec fn revert_target_of(revision: Seq<char>, latest: Revision) -> Result<
    Revision,
    ErrorModel,
> {
    match parse_revision(revision) {
        None => Err(ErrorModel::RevisionParse(revision)),
        Some(target) => if !target.is_before(latest) {
            Err(ErrorModel::RevisionParse(not_older_message(target, latest)))
        } else {
            Ok(target)
        },
    }
}

/// The view of a revision or the failure in its place.
pub open spec fn revision_view(r: Result<Revision, AppError>) -> Result<Revision, ErrorModel> {
    match r {
        Ok(rev) => Ok(rev),
        Err(e) => Err(e@),
    }
}

/// The revision that a review of `revision_str` goes to.
pub fn review_target(revision_str: &str, latest: &Revision) -> (r: Result<Revision, AppError>)
    ensures
        revision_view(r) == review_target_of(revision_str@, *latest),
{
    let target = match parse_revision_arg(revision_str) {
        Ok(t) => t,
        Err(e) => {
            return Err(e);
        },
    };
    let numbered = match target {
        Revision::Number(_) => true,
        Revision::Head => false,
    };
    if numbered && latest.precedes(&target) {
        let a = join4(
            "Target revision ",
            target.to_string().as_str(),
            " is not latest revision ",
            latest.to_string().as_str(),
        );
        return Err(AppError::RevisionParse(join2(a.as_str(), ", cannot review")));
    }
    Ok(target)
}

/// The command that takes the working copy to the revision under review.
pub fn handle_review(target: &Revision) -> (r: BackendCommand)
    ensures
        r.line() == seq!["svn"@, "update"@, "-r"@, target.text()],
{
    let text = target.to_string();
    svn_update(vec!["-r", text.as_str()].as_slice())
}

/// What the outcome of the update of a review comes to: a failure that the
/// backend reports is taken for a revision at which the project did not
/// exist yet, which is worth a warning and no error.
pub fn review_outcome(update: Result<(), AppError>) -> (r: Result<bool, AppError>)
    ensures
        match r {
            Ok(reviewed) => reviewed == (update is Ok) && (update matches Err(e)
                ==> e is SvnCommandFailed),
            Err(e) => update == Err::<(), AppError>(e) && !(e is SvnCommandFailed),
        },
{
    match update {
        Ok(_) => Ok(true),
        Err(e) => {
            if e.is_backend_failure() {
                Ok(false)
            } else {
                Err(e)
            }
        },
    }
}

/// The revision that a revert to `revision_str` goes to.
pub fn revert_target(revision_str: &str, latest: &Revision) -> (r: Result<Revision, AppError>)
    ensures
        revision_view(r) == revert_target_of(revision_str@, *latest),
{
    let target = match parse_revision_arg(revision_str) {
        Ok(t) => t,
        Err(e) => {
            return Err(e);
        },
    };
    if !target.precedes(latest) {
        let a = join4(
            "Target revision ",
            target.to_string().as_str(),
            " is not older than current revision ",
            latest.to_string().as_str(),
        );
        return Err(AppError::RevisionParse(join2(a.as_str(), ", cannot revert")));
    }
    Ok(target)
}

/// What a revert is made of.
#[derive(Debug)]
pub struct RevertPlan {
    /// The name of the tag that anchors the revert.
    pub tag_name: String,
    /// The copy of the target revision to the tag.
    pub snapshot: BackendCommand,
    /// The merge that takes the working copy back to the target revision.
    pub merge: BackendCommand,
    /// What is run if the merge fails, before its failure is passed on.
    pub recover: BackendCommand,
    /// The message that the revert is committed with.
    pub commit_message: String,
}

/// The name of the tag that anchors a revert made at `timestamp`.
pub open spec fn rollback_tag(timestamp: Seq<char>) -> Seq<char> {
    "rollback-"@ + timestamp
}

/// The copy that anchors a revert: of the target revision of what the
/// working copy is checked out from, to the tag.
pub open spec fn snapshot_line(
    ctx: ContextModel,
    target: Revision,
    work_copy_root: Seq<char>,
    timestamp: Seq<char>,
) -> Seq<Seq<char>> {
    seq![
        "svn"@,
        "copy"@,
        work_copy_root + "@"@ + target.text(),
        project_root_url(ctx.repo_root_url, ctx.current_project_name) + "/tags/"@ + rollback_tag(
            timestamp,
        ),
        "-m"@,
        "[WS-REVERT] Anchor for revert: "@ + rollback_tag(timestamp),
        "--parents"@,
    ]
}

/// The merge that takes the working copy back to the target revision.
pub open spec fn revert_merge_line(target: Revision) -> Seq<Seq<char>> {
    seq!["svn"@, "merge"@, "-r"@, "HEAD:"@ + target.text(), "."@]
}

/// What is run where the merge of a revert fails: the working copy is put
/// back as it was.
pub open spec fn recover_line() -> Seq<Seq<char>> {
    seq!["svn"@, "revert"@, "-R"@, "."@]
}

/// The message that a revert is committed with.
pub open spec fn rollback_message(timestamp: Seq<char>) -> Seq<char> {
    "[WS-ROLLBACK] tags/"@ + rollback_tag(timestamp)
}

/// The plan of a revert to `target`, made at `timestamp`, of a working copy
/// that is checked out from `work_copy_root`.
pub fn revert_plan(ctx: &SvnContext, target: &Revision, work_copy_root: &str, timestamp: &str)
    -> (r: RevertPlan)
    ensures
        r.tag_name@ == rollback_tag(timestamp@),
        r.snapshot.line() == snapshot_line(ctx@, *target, work_copy_root@, timestamp@),
        r.merge.line() == revert_merge_line(*target),
        r.recover.line() == recover_line(),
        r.commit_message@ == rollback_message(timestamp@),
{
    let tag_name = join2("rollback-", timestamp);
    let tag_url = join3(
        ctx.get_current_project_repo_root_url().as_str(),
        "/tags/",
        tag_name.as_str(),
    );
    let rev = target.to_string();
    let source = join3(work_copy_root, "@", rev.as_str());
    let note = join2("[WS-REVERT] Anchor for revert: ", tag_name.as_str());
    let snapshot = svn_copy(
        vec![source.as_str(), tag_url.as_str(), "-m", note.as_str(), "--parents"].as_slice(),
    );
    let range = join2("HEAD:", rev.as_str());
    let merge = svn_merge(vec!["-r", range.as_str(), "."].as_slice());
    let recover = svn_revert(vec!["-R", "."].as_slice());
    let commit_message = join2("[WS-ROLLBACK] tags/", tag_name.as_str());
    RevertPlan { tag_name, snapshot, merge, recover, commit_message }
}

/// What the operator decides of a commit from a working copy that lags the
/// repository.
#[derive(Debug, Clone, Copy, PartialEq, Eq, Structural)]
pub enum ReviewCommitChoice {
    /// Commit on the current branch and accept possible conflicts.
    CommitHere,
    /// Commit on a branch made at the working copy's revision.
    CommitOnBranch,
    /// Give the commit up.
    Cancel,
}

/// The three choices that are put before the operator, in order.
pub fn review_commit_choices() -> (r: Vec<String>)
    ensures
        r.len() == 3,
        r[0]@ == "Continue to commit (may get conflicts!)"@,
        r[1]@ == "Create a new branch and commit there (no conflicts)"@,
        r[2]@ == "No, cancel operation"@,
{
    let mut r: Vec<String> = Vec::new();
    r.push(String::from_str("Continue to commit (may get conflicts!)"));
    r.push(String::from_str("Create a new branch and commit there (no conflicts)"));
    r.push(String::from_str("No, cancel operation"));
    r
}

/// The decision that the index of a choice stands for.
pub fn review_commit_choice(selection: usize) -> (r: ReviewCommitChoice)
    requires
        selection < 3,
    ensures
        r == if selection == 0 {
            ReviewCommitChoice::CommitHere
        } else if selection == 1 {
            ReviewCommitChoice::CommitOnBranch
        } else {
            ReviewCommitChoice::Cancel
        },
{
    if selection == 0 {
        ReviewCommitChoice::CommitHere
    } else if selection == 1 {
        ReviewCommitChoice::CommitOnBranch
    } else {
        ReviewCommitChoice::Cancel
    }
}

/// The commit message that was given on the command line, unless none was
/// given or the one given is blank; the operator is then asked for one.
pub fn given_commit_message(commit_message: &Option<String>) -> (r: Option<String>)
    ensures
        match r {
            Some(m) => *commit_message matches Some(given) && !is_blank(given@) && m@ == given@,
            None => *commit_message matches Some(given) ==> is_blank(given@),
        },
{
    match commit_message {
        Some(given) => {
            if text_is_blank(given.as_str()) {
                None
            } else {
                Some(given.clone())
            }
        },
        None => None,
    }
}

/// What the operator is told of a commit that ended well.
pub fn commit_report(result: CommitResult, commit_message: &str) -> (r: String)
    ensures
        r@ == match result {
            CommitResult::NoChanges => "No changes to commit"@,
            CommitResult::Success => "Changes committed successfully. Commit message: "@
                + commit_message@,
        },
{
    match result {
        CommitResult::NoChanges => String::from_str("No changes to commit"),
        CommitResult::Success => join2(
            "Changes committed successfully. Commit message: ",
            commit_message,
        ),
    }
}

/// What the branch command is asked to do.
#[derive(Debug, Clone, Copy, PartialEq, Eq, Structural)]
pub enum BranchRoute {
    /// No name was given: the history is shown.
    ShowLog,
    /// A deleted branch is brought back.
    Restore,
    /// A branch is deleted.
    Delete,
    /// A branch is made and switched to.
    Create,
    /// A name was given and nothing was asked of it.
    Nothing,
}

/// What the branch command is asked to do, given the flags alone: to
/// restore comes before to delete, and to delete before to create.
pub open spec fn branch_route_of(named: bool, is_new: bool, is_delete: bool, is_restore: bool)
    -> BranchRoute {
    if !named {
        BranchRoute::ShowLog
    } else if is_restore {
        BranchRoute::Restore
    } else if is_delete {
        BranchRoute::Delete
    } else if is_new {
        BranchRoute::Create
    } else {
        BranchRoute::Nothing
    }
}

/// What the branch command is asked to do. A name that is not allowed for
/// a branch is refused whatever is asked of it.
pub fn handle_branch(
    new_branch_name: Option<&str>,
    is_new: bool,
    is_delete: bool,
    is_restore: bool,
) -> (r: Result<BranchRoute, AppError>)
    ensures
        match new_branch_name {
            None => r == Ok::<BranchRoute, AppError>(BranchRoute::ShowLog),
            Some(name) => match folder_name_verdict(
                name@,
                false,
                regex_accepts(folder_name_pattern(), name@),
            ) {
                Ok(_) => r == Ok::<BranchRoute, AppError>(
                    branch_route_of(true, is_new, is_delete, is_restore),
                ),
                Err(e) => r matches Err(x) && x@ == e,
            },
        },
{
    let name = match new_branch_name {
        Some(name) => name,
        None => {
            return Ok(branch_route(false, is_new, is_delete, is_restore));
        },
    };
    match validate_folder_name(name, false) {
        Ok(_) => Ok(branch_route(true, is_new, is_delete, is_restore)),
        Err(e) => Err(e),
    }
}

/// What the branch command is asked to do, given whether a branch is named
/// and the flags.
pub fn branch_route(named: bool, is_new: bool, is_delete: bool, is_restore: bool) -> (r:
    BranchRoute)
    ensures
        r == branch_route_of(named, is_new, is_delete, is_restore),
{
    if !named {
        BranchRoute::ShowLog
    } else if is_restore {
        BranchRoute::Restore
    } else if is_delete {
        BranchRoute::Delete
    } else if is_new {
        BranchRoute::Create
    } else {
        BranchRoute::Nothing
    }
}

/// What a step of the branch command comes to: a command to run, or a
/// warning in its place.
#[derive(Debug)]
pub enum BranchStep {
    Warn(String),
    Run(BackendCommand),
}

/// A step of the branch command as a mathematical value.
pub enum BranchStepModel {
    Warn(Seq<char>),
    Run(Seq<Seq<char>>),
}

impl View for BranchStep {
    type V = BranchStepModel;

    open spec fn view(&self) -> BranchStepModel {
        match self {
            BranchStep::Warn(text) => BranchStepModel::Warn(text@),
            BranchStep::Run(cmd) => BranchStepModel::Run(cmd.line()),
        }
    }
}

/// What bringing a branch back comes to: a branch that exists is left
/// alone; one whose deletion the history does not show cannot be brought
/// back; otherwise the branch is copied from the revision before its
/// deletion.
pub open spec fn branch_restoration(
    ctx: ContextModel,
    branch: Seq<char>,
    exists: bool,
    deleted_rev: u64,
) -> BranchStepModel {
    let url = branch_url(ctx.repo_root_url, ctx.current_project_name, branch);
    if exists {
        BranchStepModel::Warn("Branch "@ + branch + " already exists"@)
    } else if deleted_rev == 0 {
        BranchStepModel::Warn("No deleted branch named "@ + branch + " found in history"@)
    } else {
        BranchStepModel::Run(
            seq![
                "svn"@,
                "copy"@,
                url + "@"@ + decimal_digits((deleted_rev - 1) as nat),
                url,
                "-m"@,
                "Restore branch "@ + branch,
            ],
        )
    }
}

/// Decides how the branch `branch_name` is brought back. `exists` says
/// whether the branch's URL exists; `deleted_rev` is the revision of its
/// deletion as the history shows it, zero where it shows none.
pub fn restore_branch(ctx: &SvnContext, branch_name: &str, exists: bool, deleted_rev: u64) -> (r:
    BranchStep)
    ensures
        r@ == branch_restoration(ctx@, branch_name@, exists, deleted_rev),
{
    if exists {
        return BranchStep::Warn(join3("Branch ", branch_name, " already exists"));
    }
    if deleted_rev == 0 {
        return BranchStep::Warn(
            join3("No deleted branch named ", branch_name, " found in history"),
        );
    }
    let url = ctx.get_branch_url(branch_name);
    let rev = chars_to_string(&u64_to_chars(deleted_rev - 1));
    let source = join3(url.as_str(), "@", rev.as_str());
    let message = join2("Restore branch ", branch_name);
    let cmd = svn_copy(vec![source.as_str(), url.as_str(), "-m", message.as_str()].as_slice());
    assert(cmd.line() =~= seq!["svn"@, "copy"@, source@, url@, "-m"@, message@]);
    BranchStep::Run(cmd)
}

/// What deleting a branch comes to: the trunk and the branch that the
/// working copy is on are never deleted, and a branch that does not exist
/// cannot be.
pub open spec fn branch_deletion_step(
    ctx: ContextModel,
    branch: Seq<char>,
    current: Seq<char>,
    exists: bool,
) -> BranchStepModel {
    if branch == "trunk"@ {
        BranchStepModel::Warn("Cannot delete trunk branch"@)
    } else if branch == current {
        BranchStepModel::Warn("Cannot delete current branch"@)
    } else if !exists {
        BranchStepModel::Warn("Branch "@ + branch + " does not exist"@)
    } else {
        BranchStepModel::Run(
            seq![
                "svn"@,
                "delete"@,
                branch_url(ctx.repo_root_url, ctx.current_project_name, branch),
                "-m"@,
                "[WS-BRANCH-DELETE] Delete "@ + branch,
            ],
        )
    }
}

/// Decides how the branch `branch_name` is deleted. `current_branch` is the
/// branch that the working copy is on; `exists` says whether the branch's
/// URL exists.
pub fn delete_branch(ctx: &SvnContext, branch_name: &str, current_branch: &str, exists: bool) -> (r:
    BranchStep)
    ensures
        r@ == branch_deletion_step(ctx@, branch_name@, current_branch@, exists),
{
    if str_eq(branch_name, "trunk") {
        return BranchStep::Warn(String::from_str("Cannot delete trunk branch"));
    }
    if str_eq(branch_name, current_branch) {
        return BranchStep::Warn(String::from_str("Cannot delete current branch"));
    }
    if !exists {
        return BranchStep::Warn(join3("Branch ", branch_name, " does not exist"));
    }
    let url = ctx.get_branch_url(branch_name);
    let message = join2("[WS-BRANCH-DELETE] Delete ", branch_name);
    let cmd = svn_delete(vec![url.as_str(), "-m", message.as_str()].as_slice());
    assert(cmd.line() =~= seq!["svn"@, "delete"@, url@, "-m"@, message@]);
    BranchStep::Run(cmd)
}

/// The branch that a pull or a push works with: the one named, unless none
/// is named, the name is blank, or it is the branch that the working copy is
/// on. Without one, a pull is an update and a push a commit.
pub open spec fn other_branch_of(named: Option<Seq<char>>, current: Seq<char>) -> Option<
    Seq<char>,
> {
    match named {
        Some(name) => if !is_blank(name) && name != current {
            Some(name)
        } else {
            None
        },
        None => None,
    }
}

/// The branch that a pull or a push works with, other than the one that
/// the working copy is on.
pub fn other_branch(named: Option<&str>, current_branch: &str) -> (r: Option<String>)
    ensures
        crate::log::opt_view(r) == other_branch_of(
            crate::branch_ops::message_view(named),
            current_branch@,
        ),
{
    match named {
        Some(name) => {
            if !text_is_blank(name) && !str_eq(name, current_branch) {
                Some(String::from_str(name))
            } else {
                None
            }
        },
        None => None,
    }
}

/// The URL of a line of the current project: that of the trunk for
/// `trunk`, that of the branch of that name otherwise.
pub open spec fn line_url(ctx: ContextModel, name: Seq<char>) -> Seq<char> {
    if name == "trunk"@ {
        project_trunk_url(ctx.repo_root_url, ctx.current_project_name)
    } else {
        branch_url(ctx.repo_root_url, ctx.current_project_name, name)
    }
}

/// The URL of the line `name` of the current project, once the name is
/// found to be allowed as a folder's name.
pub fn branch_or_trunk_url(ctx: &SvnContext, name: &str) -> (r: Result<String, AppError>)
    ensures
        match r {
            Ok(url) => folder_name_verdict(
                name@,
                true,
                regex_accepts(folder_name_pattern(), name@),
            ) is Ok && url@ == line_url(ctx@, name@),
            Err(e) => folder_name_verdict(name@, true, regex_accepts(folder_name_pattern(), name@))
                == Err::<(), ErrorModel>(e@),
        },
{
    match validate_folder_name(name, true) {
        Ok(_) => Ok(line_url_of(ctx, name)),
        Err(e) => Err(e),
    }
}

/// The URL of the line `name` of the current project.
pub fn line_url_of(ctx: &SvnContext, name: &str) -> (r: String)
    ensures
        r@ == line_url(ctx@, name@),
{
    if str_eq(name, "trunk") {
        ctx.get_current_trunk_url()
    } else {
        ctx.get_branch_url(name)
    }
}

/// The command that asks for the first entry of the history of what lies
/// at `path` below the current project, with the paths that it lists: where a
/// tag was copied from.
pub fn copy_source_log(ctx: &SvnContext, path_below_project: &str) -> (r: BackendCommand)
    ensures
        r.line() == seq![
            "svn"@,
            "log"@,
            "-v"@,
            "--xml"@,
            "--stop-on-copy"@,
            "--limit"@,
            "1"@,
            project_root_url(ctx@.repo_root_url, ctx@.current_project_name) + "/"@
                + crate::text::trim_start_class(
                path_below_project@,
                crate::text::CharClass::One('/'),
            ),
        ],
{
    let below = chars_to_string(
        &crate::text::trim_start_in(
            &crate::text::str_chars(path_below_project),
            crate::text::CharClass::One('/'),
        ),
    );
    let url = join3(ctx.get_current_project_repo_root_url().as_str(), "/", below.as_str());
    let cmd = crate::backend::svn_log(
        vec!["-v", "--xml", "--stop-on-copy", "--limit", "1", url.as_str()].as_slice(),
    );
    assert(cmd.line() =~= seq![
        "svn"@,
        "log"@,
        "-v"@,
        "--xml"@,
        "--stop-on-copy"@,
        "--limit"@,
        "1"@,
        url@,
    ]);
    cmd
}

/// The command that asks for the first entry of the history of a branch of
/// the current project, from its beginning: where the branch was copied from.
pub fn branch_source_log(ctx: &SvnContext, branch_name: &str) -> (r: BackendCommand)
    ensures
        r.line() == seq![
            "svn"@,
            "log"@,
            "-v"@,
            "--xml"@,
            "--stop-on-copy"@,
            "--limit"@,
            "1"@,
            "-r"@,
            "1:HEAD"@,
            branch_url(ctx@.repo_root_url, ctx@.current_project_name, branch_name@),
        ],
{
    let url = ctx.get_branch_url(branch_name);
    let cmd = crate::backend::svn_log(
        vec![
            "-v",
            "--xml",
            "--stop-on-copy",
            "--limit",
            "1",
            "-r",
            "1:HEAD",
            url.as_str(),
        ].as_slice(),
    );
    assert(cmd.line() =~= seq![
        "svn"@,
        "log"@,
        "-v"@,
        "--xml"@,
        "--stop-on-copy"@,
        "--limit"@,
        "1"@,
        "-r"@,
        "1:HEAD"@,
        url@,
    ]);
    cmd
}

/// The update of a pull that names no other branch: conflicts are left
/// marked for the resolution that follows.
pub fn handle_pull() -> (r: BackendCommand)
    ensures
        r.line() == seq!["svn"@, "update"@, "--accept"@, "postpone"@],
{
    svn_update(vec!["--accept", "postpone"].as_slice())
}

/// The merge of what is at `source_url` into the working copy: conflicts
/// are left marked for the resolution that follows.
pub fn merge_from(source_url: &str) -> (r: BackendCommand)
    ensures
        r.line() == seq!["svn"@, "merge"@, "--accept"@, "postpone"@, source_url@, "."@],
{
    svn_merge(vec!["--accept", "postpone", source_url, "."].as_slice())
}

/// The commands of a push to another branch: the working copy is switched
/// to the target, then what it was checked out from is merged in.
pub fn handle_push(target_url: &str, source_url: &str) -> (r: Vec<BackendCommand>)
    ensures
        command_lines(r@) == seq![
            seq!["svn"@, "switch"@, target_url@, "."@, "--ignore-ancestry"@],
            seq!["svn"@, "merge"@, "--accept"@, "postpone"@, source_url@, "."@],
        ],
{
    let mut plan: Vec<BackendCommand> = Vec::new();
    plan.push(svn_switch(target_url));
    plan.push(merge_from(source_url));
    plan
}

/// What the operator is told where the existence of a branch could not be
/// found out: the failure is reported and the command ends without one.
pub fn existence_failure_report(what: &str, failure: &AppError) -> (r: String)
    ensures
        crate::text::starts_with(r@, "Failed to check "@ + what@ + " existence: "@),
{
    let head = join3("Failed to check ", what, " existence: ");
    let r = join2(head.as_str(), failure.message().as_str());
    assert(r@.subrange(0, head@.len() as int) =~= head@);
    r
}

/// Where a commit stands.
#[derive(Debug, Clone, Copy, PartialEq, Eq, Structural)]
pub enum CommitFlowPhase {
    /// The operator is asked what to do about a working copy that lags the
    /// repository.
    AskChoice,
    /// The operator is asked for the commit message; the flag says whether
    /// the commit goes to a new branch.
    AskMessage(bool),
    /// The changes are being committed on the current branch.
    Committing,
    /// The changes are being saved to a new branch.
    Saving,
    /// The commit has ended.
    Done,
}

/// How a commit ended well.
#[derive(Debug, Clone, Copy, PartialEq, Eq, Structural)]
pub enum CommitEnd {
    /// The working copy held no changes.
    NothingToCommit,
    /// The changes were committed on the current branch, with this outcome.
    Committed(CommitResult),
    /// The changes were committed on a new branch.
    SavedToBranch,
}

/// What the caller reports back.
#[derive(Debug)]
pub enum CommitFlowEvent {
    /// The operator chose.
    Chosen(ReviewCommitChoice),
    /// The operator gave this commit message.
    Entered(String),
    /// The commit protocol ended well, with this outcome.
    Committed(CommitResult),
    /// The changes were saved to a new branch.
    Saved,
    /// A prompt or an action failed.
    Failed(AppError),
}

/// What the caller is to do next.
#[derive(Debug)]
pub enum CommitFlowAction {
    /// Put the three choices before the operator.
    AskChoice,
    /// Ask for the commit message.
    AskMessage,
    /// Run the commit protocol with this message.
    Commit(String),
    /// Make a new branch and commit there with this message.
    SaveToBranch(String),
    /// Stop, with this outcome.
    Finish(Result<CommitEnd, AppError>),
}

/// An event of a commit as a mathematical value.
pub enum CommitFlowEventModel {
    Chosen(ReviewCommitChoice),
    Entered(Seq<char>),
    Committed(CommitResult),
    Saved,
    Failed(ErrorModel),
}

/// An action of a commit as a mathematical value.
pub enum CommitFlowActionModel {
    AskChoice,
    AskMessage,
    Commit(Seq<char>),
    SaveToBranch(Seq<char>),
    Finish(Result<CommitEnd, ErrorModel>),
}

impl View for CommitFlowEvent {
    type V = CommitFlowEventModel;

    open spec fn view(&self) -> CommitFlowEventModel {
        match self {
            CommitFlowEvent::Chosen(c) => CommitFlowEventModel::Chosen(*c),
            CommitFlowEvent::Entered(m) => CommitFlowEventModel::Entered(m@),
            CommitFlowEvent::Committed(r) => CommitFlowEventModel::Committed(*r),
            CommitFlowEvent::Saved => CommitFlowEventModel::Saved,
            CommitFlowEvent::Failed(e) => CommitFlowEventModel::Failed(e@),
        }
    }
}

impl View for CommitFlowAction {
    type V = CommitFlowActionModel;

    open spec fn view(&self) -> CommitFlowActionModel {
        match self {
            CommitFlowAction::AskChoice => CommitFlowActionModel::AskChoice,
            CommitFlowAction::AskMessage => CommitFlowActionModel::AskMessage,
            CommitFlowAction::Commit(m) => CommitFlowActionModel::Commit(m@),
            CommitFlowAction::SaveToBranch(m) => CommitFlowActionModel::SaveToBranch(m@),
            CommitFlowAction::Finish(Ok(end)) => CommitFlowActionModel::Finish(Ok(*end)),
            CommitFlowAction::Finish(Err(e)) => CommitFlowActionModel::Finish(Err(e@)),
        }
    }
}

/// The commit message that was given beforehand, unless none was given or
/// the one given is blank.
pub open spec fn given_message(commit_message: Option<String>) -> Option<Seq<char>> {
    match commit_message {
        Some(m) => if is_blank(m@) {
            None
        } else {
            Some(m@)
        },
        None => None,
    }
}

/// What follows once it is settled where the commit goes: the commit with
/// the message that was given beforehand, or the question for one.
pub open spec fn with_message(given: Option<Seq<char>>, on_branch: bool) -> (
    CommitFlowPhase,
    CommitFlowActionModel,
) {
    match given {
        Some(m) => commit_with(m, on_branch),
        None => (CommitFlowPhase::AskMessage(on_branch), CommitFlowActionModel::AskMessage),
    }
}

/// The commit with the message `m`, on a new branch or on the current one.
pub open spec fn commit_with(m: Seq<char>, on_branch: bool) -> (
    CommitFlowPhase,
    CommitFlowActionModel,
) {
    if on_branch {
        (CommitFlowPhase::Saving, CommitFlowActionModel::SaveToBranch(m))
    } else {
        (CommitFlowPhase::Committing, CommitFlowActionModel::Commit(m))
    }
}

/// How a commit begins: a clean working copy has nothing to commit; a
/// commit from a working copy that lags the repository is put before the
/// operator before anything is staged; otherwise the commit goes ahead on the
/// current branch.
pub open spec fn commit_flow_start(is_dirty: bool, is_review: bool, given: Option<Seq<char>>) -> (
    CommitFlowPhase,
    CommitFlowActionModel,
) {
    if !is_dirty {
        (CommitFlowPhase::Done, CommitFlowActionModel::Finish(Ok(CommitEnd::NothingToCommit)))
    } else if is_review {
        (CommitFlowPhase::AskChoice, CommitFlowActionModel::AskChoice)
    } else {
        with_message(given, false)
    }
}

/// The end of a flow on an event that does not fit the phase.
pub open spec fn flow_out_of_turn() -> ErrorModel {
    ErrorModel::Validation("The command received an event out of turn"@)
}

/// The next phase and action of a commit. To cancel ends the commit with
/// the cancellation and nothing is staged, committed or made; to commit on a
/// new branch or on the current one leads to the commit message and then to
/// that commit. Any failure ends the commit with that failure.
pub open spec fn commit_flow_step(
    given: Option<Seq<char>>,
    phase: CommitFlowPhase,
    event: CommitFlowEventModel,
) -> (CommitFlowPhase, CommitFlowActionModel) {
    let out_of_turn = (
        CommitFlowPhase::Done,
        CommitFlowActionModel::Finish(Err(flow_out_of_turn())),
    );
    match (phase, event) {
        (CommitFlowPhase::Done, _) => out_of_turn,
        (_, CommitFlowEventModel::Failed(e)) => (
            CommitFlowPhase::Done,
            CommitFlowActionModel::Finish(Err(e)),
        ),
        (CommitFlowPhase::AskChoice, CommitFlowEventModel::Chosen(choice)) => match choice {
            ReviewCommitChoice::Cancel => (
                CommitFlowPhase::Done,
                CommitFlowActionModel::Finish(Err(ErrorModel::OperationCancelled)),
            ),
            ReviewCommitChoice::CommitHere => with_message(given, false),
            ReviewCommitChoice::CommitOnBranch => with_message(given, true),
        },
        (CommitFlowPhase::AskMessage(on_branch), CommitFlowEventModel::Entered(m)) => commit_with(
            m,
            on_branch,
        ),
        (CommitFlowPhase::Committing, CommitFlowEventModel::Committed(result)) => (
            CommitFlowPhase::Done,
            CommitFlowActionModel::Finish(Ok(CommitEnd::Committed(result))),
        ),
        (CommitFlowPhase::Saving, CommitFlowEventModel::Saved) => (
            CommitFlowPhase::Done,
            CommitFlowActionModel::Finish(Ok(CommitEnd::SavedToBranch)),
        ),
        _ => out_of_turn,
    }
}

/// The failure on an event that does not fit the phase.
pub fn out_of_turn_failure() -> (e: AppError)
    ensures
        e@ == flow_out_of_turn(),
{
    AppError::Validation(String::from_str("The command received an event out of turn"))
}

/// The commit with the message `m`.
fn commit_with_message(m: String, on_branch: bool) -> (r: (CommitFlowPhase, CommitFlowAction))
    ensures
        (r.0, r.1@) == commit_with(m@, on_branch),
{
    if on_branch {
        (CommitFlowPhase::Saving, CommitFlowAction::SaveToBranch(m))
    } else {
        (CommitFlowPhase::Committing, CommitFlowAction::Commit(m))
    }
}

/// The commit with the message that was given beforehand, or the question
/// for one.
fn commit_or_ask(commit_message: &Option<String>, on_branch: bool) -> (r: (
    CommitFlowPhase,
    CommitFlowAction,
))
    ensures
        (r.0, r.1@) == with_message(given_message(*commit_message), on_branch),
{
    match given_commit_message(commit_message) {
        Some(m) => commit_with_message(m, on_branch),
        None => (CommitFlowPhase::AskMessage(on_branch), CommitFlowAction::AskMessage),
    }
}

/// Begins a commit. `commit_message` is the message given on the command
/// line, if any.
pub fn handle_commit(is_dirty: bool, is_review: bool, commit_message: &Option<String>) -> (r: (
    CommitFlowPhase,
    CommitFlowAction,
))
    ensures
        (r.0, r.1@) == commit_flow_start(is_dirty, is_review, given_message(*commit_message)),
{
    if !is_dirty {
        (CommitFlowPhase::Done, CommitFlowAction::Finish(Ok(CommitEnd::NothingToCommit)))
    } else if is_review {
        (CommitFlowPhase::AskChoice, CommitFlowAction::AskChoice)
    } else {
        commit_or_ask(commit_message, false)
    }
}

/// Takes a commit one step on: from the phase and what the caller reports
/// to the next phase and what the caller is to do.
pub fn handle_commit_step(
    commit_message: &Option<String>,
    phase: CommitFlowPhase,
    event: CommitFlowEvent,
) -> (r: (CommitFlowPhase, CommitFlowAction))
    ensures
        (r.0, r.1@) == commit_flow_step(given_message(*commit_message), phase, event@),
        phase != CommitFlowPhase::Done ==> (event matches CommitFlowEvent::Failed(e) ==> r.1
            == CommitFlowAction::Finish(Err(e))),
{
    match (phase, event) {
        (CommitFlowPhase::Done, _) => (
            CommitFlowPhase::Done,
            CommitFlowAction::Finish(Err(out_of_turn_failure())),
        ),
        (_, CommitFlowEvent::Failed(e)) => (CommitFlowPhase::Done, CommitFlowAction::Finish(Err(e))),
        (CommitFlowPhase::AskChoice, CommitFlowEvent::Chosen(choice)) => match choice {
            ReviewCommitChoice::Cancel => (
                CommitFlowPhase::Done,
                CommitFlowAction::Finish(Err(AppError::OperationCancelled)),
            ),
            ReviewCommitChoice::CommitHere => commit_or_ask(commit_message, false),
            ReviewCommitChoice::CommitOnBranch => commit_or_ask(commit_message, true),
        },
        (CommitFlowPhase::AskMessage(on_branch), CommitFlowEvent::Entered(m)) => {
            commit_with_message(m, on_branch)
        },
        (CommitFlowPhase::Committing, CommitFlowEvent::Committed(result)) => (
            CommitFlowPhase::Done,
            CommitFlowAction::Finish(Ok(CommitEnd::Committed(result))),
        ),
        (CommitFlowPhase::Saving, CommitFlowEvent::Saved) => (
            CommitFlowPhase::Done,
            CommitFlowAction::Finish(Ok(CommitEnd::SavedToBranch)),
        ),
        _ => (CommitFlowPhase::Done, CommitFlowAction::Finish(Err(out_of_turn_failure()))),
    }
}

/// A commit from a dirty working copy that lags the repository begins with
/// the question to the operator, before anything is staged, committed or
/// made; and where the operator cancels, it ends with the cancellation and
/// with nothing else.
pub proof fn lemma_commit_in_review_asks_first(given: Option<Seq<char>>)
    ensures
        commit_flow_start(true, true, given) == (
            CommitFlowPhase::AskChoice,
            CommitFlowActionModel::AskChoice,
        ),
        commit_flow_step(
            given,
            CommitFlowPhase::AskChoice,
            CommitFlowEventModel::Chosen(ReviewCommitChoice::Cancel),
        ) == (
            CommitFlowPhase::Done,
            CommitFlowActionModel::Finish(
                Err::<CommitEnd, ErrorModel>(ErrorModel::OperationCancelled),
            ),
        ),
{
}

/// Where a revert stands.
#[derive(Debug)]
pub enum RevertPhase {
    /// The working copy is being made clean.
    Cleaning(Revision),
    /// What the working copy is checked out from and the time are being
    /// read.
    Planning(Revision),
    /// The target revision is being copied to the tag.
    Snapshot { target: Revision, merge: BackendCommand, recover: BackendCommand, message: String },
    /// The working copy is being merged back to the target revision.
    Merging { target: Revision, recover: BackendCommand, message: String },
    /// The working copy is being put back as it was, after the merge failed
    /// with the failure held here.
    Recovering(AppError),
    /// The revert is being committed.
    Committing(Revision),
    /// The revert has ended.
    Done,
}

/// What the caller reports back.
#[derive(Debug)]
pub enum RevertEvent {
    /// The action succeeded.
    Completed,
    /// What the working copy is checked out from, and the time.
    Context { work_copy_root: String, timestamp: String },
    /// The action failed.
    Failed(AppError),
}

/// What the caller is to do next.
#[derive(Debug)]
pub enum RevertAction {
    /// Make sure that the working copy holds no changes.
    EnsureClean,
    /// Read what the working copy is checked out from, and the time.
    ReadContext,
    /// Run the command.
    Run(BackendCommand),
    /// Run the commit protocol with this message.
    Commit(String),
    /// Stop, with the revision that was reverted to or with the failure.
    Finish(Result<Revision, AppError>),
}

/// A phase of a revert as a mathematical value.
pub enum RevertPhaseModel {
    Cleaning(Revision),
    Planning(Revision),
    Snapshot { target: Revision, merge: Seq<Seq<char>>, recover: Seq<Seq<char>>, message: Seq<char> },
    Merging { target: Revision, recover: Seq<Seq<char>>, message: Seq<char> },
    Recovering(ErrorModel),
    Committing(Revision),
    Done,
}

/// An event of a revert as a mathematical value.
pub enum RevertEventModel {
    Completed,
    Context { work_copy_root: Seq<char>, timestamp: Seq<char> },
    Failed(ErrorModel),
}

/// An action of a revert as a mathematical value.
pub enum RevertActionModel {
    EnsureClean,
    ReadContext,
    Run(Seq<Seq<char>>),
    Commit(Seq<char>),
    Finish(Result<Revision, ErrorModel>),
}

impl View for RevertPhase {
    type V = RevertPhaseModel;

    open spec fn view(&self) -> RevertPhaseModel {
        match self {
            RevertPhase::Cleaning(t) => RevertPhaseModel::Cleaning(*t),
            RevertPhase::Planning(t) => RevertPhaseModel::Planning(*t),
            RevertPhase::Snapshot { target, merge, recover, message } => RevertPhaseModel::Snapshot {
                target: *target,
                merge: merge.line(),
                recover: recover.line(),
                message: message@,
            },
            RevertPhase::Merging { target, recover, message } => RevertPhaseModel::Merging {
                target: *target,
                recover: recover.line(),
                message: message@,
            },
            RevertPhase::Recovering(e) => RevertPhaseModel::Recovering(e@),
            RevertPhase::Committing(t) => RevertPhaseModel::Committing(*t),
            RevertPhase::Done => RevertPhaseModel::Done,
        }
    }
}

impl View for RevertEvent {
    type V = RevertEventModel;

    open spec fn view(&self) -> RevertEventModel {
        match self {
            RevertEvent::Completed => RevertEventModel::Completed,
            RevertEvent::Context { work_copy_root, timestamp } => RevertEventModel::Context {
                work_copy_root: work_copy_root@,
                timestamp: timestamp@,
            },
            RevertEvent::Failed(e) => RevertEventModel::Failed(e@),
        }
    }
}

impl View for RevertAction {
    type V = RevertActionModel;

    open spec fn view(&self) -> RevertActionModel {
        match self {
            RevertAction::EnsureClean => RevertActionModel::EnsureClean,
            RevertAction::ReadContext => RevertActionModel::ReadContext,
            RevertAction::Run(cmd) => RevertActionModel::Run(cmd.line()),
            RevertAction::Commit(m) => RevertActionModel::Commit(m@),
            RevertAction::Finish(Ok(t)) => RevertActionModel::Finish(Ok(*t)),
            RevertAction::Finish(Err(e)) => RevertActionModel::Finish(Err(e@)),
        }
    }
}

/// How a revert begins: a target that cannot be read or that is not before
/// the latest revision is refused before anything is run; otherwise the
/// working copy is made clean first.
pub open spec fn revert_start(revision: Seq<char>, latest: Revision) -> (
    RevertPhaseModel,
    RevertActionModel,
) {
    match revert_target_of(revision, latest) {
        Ok(target) => (RevertPhaseModel::Cleaning(target), RevertActionModel::EnsureClean),
        Err(e) => (RevertPhaseModel::Done, RevertActionModel::Finish(Err(e))),
    }
}

/// The next phase and action of a revert. The target revision is copied to
/// a tag, the working copy is merged back to it, and the result is
/// committed. Where the merge fails, the working copy is put back as it was
/// and the revert ends with the failure of the merge, without a commit; where
/// even that fails, with that failure. Any other failure ends the revert with
/// that failure.
pub open spec fn revert_step(ctx: ContextModel, phase: RevertPhaseModel, event: RevertEventModel)
    -> (RevertPhaseModel, RevertActionModel) {
    let out_of_turn = (
        RevertPhaseModel::Done,
        RevertActionModel::Finish(Err(flow_out_of_turn())),
    );
    match (phase, event) {
        (RevertPhaseModel::Done, _) => out_of_turn,
        (RevertPhaseModel::Merging { recover, .. }, RevertEventModel::Failed(e)) => (
            RevertPhaseModel::Recovering(e),
            RevertActionModel::Run(recover),
        ),
        (RevertPhaseModel::Recovering(e), RevertEventModel::Completed) => (
            RevertPhaseModel::Done,
            RevertActionModel::Finish(Err(e)),
        ),
        (_, RevertEventModel::Failed(e)) => (
            RevertPhaseModel::Done,
            RevertActionModel::Finish(Err(e)),
        ),
        (RevertPhaseModel::Cleaning(target), RevertEventModel::Completed) => (
            RevertPhaseModel::Planning(target),
            RevertActionModel::ReadContext,
        ),
        (
            RevertPhaseModel::Planning(target),
            RevertEventModel::Context { work_copy_root, timestamp },
        ) => (
            RevertPhaseModel::Snapshot {
                target,
                merge: revert_merge_line(target),
                recover: recover_line(),
                message: rollback_message(timestamp),
            },
            RevertActionModel::Run(snapshot_line(ctx, target, work_copy_root, timestamp)),
        ),
        (
            RevertPhaseModel::Snapshot { target, merge, recover, message },
            RevertEventModel::Completed,
        ) => (RevertPhaseModel::Merging { target, recover, message }, RevertActionModel::Run(merge)),
        (RevertPhaseModel::Merging { target, message, .. }, RevertEventModel::Completed) => (
            RevertPhaseModel::Committing(target),
            RevertActionModel::Commit(message),
        ),
        (RevertPhaseModel::Committing(target), RevertEventModel::Completed) => (
            RevertPhaseModel::Done,
            RevertActionModel::Finish(Ok(target)),
        ),
        _ => out_of_turn,
    }
}

/// Begins a revert to the revision that `revision_str` names.
pub fn handle_revert(revision_str: &str, latest: &Revision) -> (r: (RevertPhase, RevertAction))
    ensures
        (r.0@, r.1@) == revert_start(revision_str@, *latest),
{
    match revert_target(revision_str, latest) {
        Ok(target) => (RevertPhase::Cleaning(target), RevertAction::EnsureClean),
        Err(e) => (RevertPhase::Done, RevertAction::Finish(Err(e))),
    }
}

/// Takes a revert one step on: from the phase and what the caller reports
/// to the next phase and what the caller is to do.
pub fn handle_revert_step(ctx: &SvnContext, phase: RevertPhase, event: RevertEvent) -> (r: (
    RevertPhase,
    RevertAction,
))
    ensures
        (r.0@, r.1@) == revert_step(ctx@, phase@, event@),
        phase is Merging ==> (event matches RevertEvent::Failed(e) ==> r.0 == RevertPhase::Recovering(
            e,
        )),
        event is Completed ==> (phase matches RevertPhase::Recovering(e) ==> r.1
            == RevertAction::Finish(Err(e))),
        !(phase is Merging) && !(phase is Done) ==> (event matches RevertEvent::Failed(e) ==> r.1
            == RevertAction::Finish(Err(e))),
{
    match (phase, event) {
        (RevertPhase::Done, _) => (
            RevertPhase::Done,
            RevertAction::Finish(Err(out_of_turn_failure())),
        ),
        (RevertPhase::Merging { target, recover, message }, RevertEvent::Failed(e)) => (
            RevertPhase::Recovering(e),
            RevertAction::Run(recover),
        ),
        (RevertPhase::Recovering(e), RevertEvent::Completed) => (
            RevertPhase::Done,
            RevertAction::Finish(Err(e)),
        ),
        (_, RevertEvent::Failed(e)) => (RevertPhase::Done, RevertAction::Finish(Err(e))),
        (RevertPhase::Cleaning(target), RevertEvent::Completed) => (
            RevertPhase::Planning(target),
            RevertAction::ReadContext,
        ),
        (RevertPhase::Planning(target), RevertEvent::Context { work_copy_root, timestamp }) => {
            let plan = revert_plan(ctx, &target, work_copy_root.as_str(), timestamp.as_str());
            let RevertPlan { tag_name, snapshot, merge, recover, commit_message } = plan;
            (
                RevertPhase::Snapshot { target, merge, recover, message: commit_message },
                RevertAction::Run(snapshot),
            )
        },
        (RevertPhase::Snapshot { target, merge, recover, message }, RevertEvent::Completed) => (
            RevertPhase::Merging { target, recover, message },
            RevertAction::Run(merge),
        ),
        (RevertPhase::Merging { target, recover, message }, RevertEvent::Completed) => (
            RevertPhase::Committing(target),
            RevertAction::Commit(message),
        ),
        (RevertPhase::Committing(target), RevertEvent::Completed) => (
            RevertPhase::Done,
            RevertAction::Finish(Ok(target)),
        ),
        _ => (RevertPhase::Done, RevertAction::Finish(Err(out_of_turn_failure()))),
    }
}

/// Where the merge of a revert fails, the working copy is put back as it
/// was, the revert ends with the failure of the merge, and nothing is
/// committed: no step from the failed merge on asks for a commit.
pub proof fn lemma_failed_merge_recovers(
    ctx: ContextModel,
    target: Revision,
    work_copy_root: Seq<char>,
    timestamp: Seq<char>,
    e: ErrorModel,
)
    ensures
        ({
            let planned = revert_step(
                ctx,
                RevertPhaseModel::Planning(target),
                RevertEventModel::Context { work_copy_root, timestamp },
            );
            let merging = revert_step(ctx, planned.0, RevertEventModel::Completed);
            let recovering = revert_step(ctx, merging.0, RevertEventModel::Failed(e));
            let end = revert_step(ctx, recovering.0, RevertEventModel::Completed);
            &&& merging.1 == RevertActionModel::Run(revert_merge_line(target))
            &&& recovering.1 == RevertActionModel::Run(recover_line())
            &&& end == (
                RevertPhaseModel::Done,
                RevertActionModel::Finish(Err::<Revision, ErrorModel>(e)),
            )
        }),
{
}

} // verus!
