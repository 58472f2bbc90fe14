//! The decisions of the commands that work on the whole workspace: new,
//! switch, delete and restore of projects, and where a repository and its
//! checkouts lie.

use crate::backend::{
    svn_checkout, svn_commit_externals, svn_copy, svn_delete, svn_mkdir, svn_propset,
    svn_svnmucc, svn_switch, svn_update, svnadmin_create, BackendCommand,
};
use crate::commit::{command_lines, ignore_link};
use crate::context::{project_root_url, ContextModel, SvnContext};
use crate::error::{AppError, ErrorModel};
use crate::names::{folder_name_pattern, folder_name_verdict, regex_accepts, validate_folder_name};
use crate::projects::ProjectStatus;
use crate::text::{
    chars_replace, chars_to_string, decimal_digits, first_char, join2, join3, join4, join5,
    replace_char, str_chars, str_eq, u64_to_chars,
};
use vstd::prelude::*;
use vstd::string::*;

verus! {

/// What the name `name` is found to be as a folder's name.
pub open spec fn folder_verdict(name: Seq<char>) -> Result<(), ErrorModel> {
    folder_name_verdict(name, true, regex_accepts(folder_name_pattern(), name))
}

/// What making a project is made of.
#[derive(Debug)]
pub struct NewProjectPlan {
    /// The commands that make the project in the repository.
    pub create: Vec<BackendCommand>,
    /// The commands that check the project out and link its ignore rules.
    pub checkout: Vec<BackendCommand>,
}

/// The commands that make the project `project` in the repository: its
/// three directories at once, and an empty ignore-rule file.
pub open spec fn project_creation_lines(ctx: ContextModel, project: Seq<char>) -> Seq<
    Seq<Seq<char>>,
> {
    let root = project_root_url(ctx.repo_root_url, project);
    seq![
        seq![
            "svn"@,
            "mkdir"@,
            "--parents"@,
            root + "/trunk"@,
            root + "/branches"@,
            root + "/tags"@,
            "-m"@,
            "[WS-INIT] "@ + project,
        ],
        seq![
            "svnmucc"@,
            "put"@,
            "NUL"@,
            root + "/.gitignore"@,
            "-m"@,
            "[WS-INIT] Add default .gitignore file"@,
        ],
    ]
}

/// The commands that check the trunk of `project` out to `dir` and link the
/// project's ignore rules there.
pub open spec fn project_checkout_lines(ctx: ContextModel, project: Seq<char>, dir: Seq<char>)
    -> Seq<Seq<Seq<char>>> {
    let root = project_root_url(ctx.repo_root_url, project);
    seq![
        seq!["svn"@, "checkout"@, root + "/trunk"@, dir],
        seq!["svn"@, "propset"@, "svn:externals"@, ignore_link(project), dir],
        seq!["svn"@, "update"@, dir],
        seq!["svn"@, "commit"@, dir, "-m"@, "Update svn:externals for .gitignore"@],
    ]
}

/// Decides how the project `project_name` is made. A name that is not
/// allowed is refused. A project that exists is left as it is: there is
/// nothing to do. Otherwise the project is made and checked out to
/// `project_dir`.
pub fn handle_new(ctx: &SvnContext, project_name: &str, exists: bool, project_dir: &str) -> (r:
    Result<Option<NewProjectPlan>, AppError>)
    ensures
        match r {
            Ok(Some(plan)) => folder_verdict(project_name@) is Ok && !exists && command_lines(
                plan.create@,
            ) == project_creation_lines(ctx@, project_name@) && command_lines(plan.checkout@)
                == project_checkout_lines(ctx@, project_name@, project_dir@),
            Ok(None) => folder_verdict(project_name@) is Ok && exists,
            Err(e) => folder_verdict(project_name@) == Err::<(), ErrorModel>(e@),
        },
{
    match validate_folder_name(project_name, true) {
        Ok(_) => {},
        Err(e) => {
            return Err(e);
        },
    }
    if exists {
        return Ok(None);
    }
    Ok(Some(new_project_plan(ctx, project_name, project_dir)))
}

/// The commands that make the project `project_name` and check it out to
/// `project_dir`.
pub fn new_project_plan(ctx: &SvnContext, project_name: &str, project_dir: &str) -> (plan:
    NewProjectPlan)
    ensures
        command_lines(plan.create@) == project_creation_lines(ctx@, project_name@),
        command_lines(plan.checkout@) == project_checkout_lines(
            ctx@,
            project_name@,
            project_dir@,
        ),
{
    let root = ctx.get_project_root_url(project_name);
    let trunk = join2(root.as_str(), "/trunk");
    let branches = join2(root.as_str(), "/branches");
    let tags = join2(root.as_str(), "/tags");
    let init = join2("[WS-INIT] ", project_name);
    let ignore_file = join2(root.as_str(), "/.gitignore");
    let mut create: Vec<BackendCommand> = Vec::new();
    let mkdir = svn_mkdir(
        vec!["--parents", trunk.as_str(), branches.as_str(), tags.as_str(), "-m", init.as_str()].as_slice(),
    );
    assert(mkdir.line() =~= seq![
        "svn"@,
        "mkdir"@,
        "--parents"@,
        trunk@,
        branches@,
        tags@,
        "-m"@,
        init@,
    ]);
    create.push(mkdir);
    let put = svn_svnmucc(
        vec![
            "put",
            "NUL",
            ignore_file.as_str(),
            "-m",
            "[WS-INIT] Add default .gitignore file",
        ].as_slice(),
    );
    assert(put.line() =~= seq![
        "svnmucc"@,
        "put"@,
        "NUL"@,
        ignore_file@,
        "-m"@,
        "[WS-INIT] Add default .gitignore file"@,
    ]);
    create.push(put);
    let link = join3("^/", project_name, "/.gitignore .gitignore");
    let mut checkout: Vec<BackendCommand> = Vec::new();
    let co = svn_checkout(vec![trunk.as_str(), project_dir].as_slice());
    assert(co.line() =~= seq!["svn"@, "checkout"@, trunk@, project_dir@]);
    checkout.push(co);
    let propset = svn_propset(vec!["svn:externals", link.as_str(), project_dir].as_slice());
    assert(propset.line() =~= seq!["svn"@, "propset"@, "svn:externals"@, link@, project_dir@]);
    checkout.push(propset);
    let update = svn_update(vec![project_dir].as_slice());
    assert(update.line() =~= seq!["svn"@, "update"@, project_dir@]);
    checkout.push(update);
    checkout.push(svn_commit_externals(project_dir));
    NewProjectPlan { create, checkout }
}

/// What follows the making of a project.
#[derive(Debug, Clone, Copy, PartialEq, Eq, Structural)]
pub enum AfterNew {
    /// The directory is no working copy yet: its content is moved to the
    /// store and the directory becomes a link to the project.
    LinkFolder,
    /// The operator is asked whether to switch to the project.
    AskSwitch,
}

/// What follows the making of a project: a directory that belongs to no
/// project yet is linked to the new one.
pub fn after_new(ctx: &SvnContext) -> (r: AfterNew)
    ensures
        r == if ctx@.current_project_name.len() == 0 {
            AfterNew::LinkFolder
        } else {
            AfterNew::AskSwitch
        },
{
    if str_chars(ctx.get_current_project_name()).len() == 0 {
        AfterNew::LinkFolder
    } else {
        AfterNew::AskSwitch
    }
}

/// Where a switch goes.
#[derive(Debug)]
pub struct SwitchTarget {
    pub project: String,
    /// `trunk`, or `branches/` and the branch.
    pub subpath: String,
    pub url: String,
}

/// What a `SwitchTarget` holds, as mathematical values.
pub struct TargetModel {
    pub project: Seq<char>,
    pub subpath: Seq<char>,
    pub url: Seq<char>,
}

impl View for SwitchTarget {
    type V = TargetModel;

    open spec fn view(&self) -> TargetModel {
        TargetModel { project: self.project@, subpath: self.subpath@, url: self.url@ }
    }
}

/// The project that a switch goes to: the one named, or the current one.
pub open spec fn target_project(ctx: ContextModel, named: Option<Seq<char>>) -> Seq<char> {
    match named {
        Some(p) => p,
        None => ctx.current_project_name,
    }
}

/// The branch that a switch goes to: the one named, or the trunk.
pub open spec fn target_branch(named: Option<Seq<char>>) -> Seq<char> {
    match named {
        Some(b) => b,
        None => "trunk"@,
    }
}

/// The path of a branch below its project.
pub open spec fn subpath_of(branch: Seq<char>) -> Seq<char> {
    if branch == "trunk"@ {
        branch
    } else {
        "branches/"@ + branch
    }
}

/// Where a switch to the named project and branch goes, or the failure of
/// the first of the two names that is not allowed.
pub open spec fn switch_target_of(
    ctx: ContextModel,
    project: Option<Seq<char>>,
    branch: Option<Seq<char>>,
) -> Result<TargetModel, ErrorModel> {
    let p = target_project(ctx, project);
    let b = target_branch(branch);
    match folder_verdict(p) {
        Err(e) => Err(e),
        Ok(_) => match folder_verdict(b) {
            Err(e) => Err(e),
            Ok(_) => Ok(
                TargetModel {
                    project: p,
                    subpath: subpath_of(b),
                    url: ctx.repo_root_url + "/"@ + p + "/"@ + subpath_of(b),
                },
            ),
        },
    }
}

/// Decides where a switch goes: to the trunk of the current project unless
/// a project or a branch is named.
pub fn switch_target(ctx: &SvnContext, project_name: Option<&str>, branch: Option<&str>) -> (r:
    Result<SwitchTarget, AppError>)
    ensures
        match r {
            Ok(t) => switch_target_of(
                ctx@,
                crate::branch_ops::message_view(project_name),
                crate::branch_ops::message_view(branch),
            ) == Ok::<TargetModel, ErrorModel>(t@),
            Err(e) => switch_target_of(
                ctx@,
                crate::branch_ops::message_view(project_name),
                crate::branch_ops::message_view(branch),
            ) == Err::<TargetModel, ErrorModel>(e@),
        },
{
    let project = match project_name {
        Some(p) => p,
        None => ctx.get_current_project_name(),
    };
    let target = match branch {
        Some(b) => b,
        None => "trunk",
    };
    match validate_folder_name(project, true) {
        Ok(_) => {},
        Err(e) => {
            return Err(e);
        },
    }
    match validate_folder_name(target, true) {
        Ok(_) => {},
        Err(e) => {
            return Err(e);
        },
    }
    Ok(target_of(ctx, project, target))
}

/// The target of a switch to the branch `branch` of the project `project`.
pub fn target_of(ctx: &SvnContext, project: &str, branch: &str) -> (r: SwitchTarget)
    ensures
        r@ == (TargetModel {
            project: project@,
            subpath: subpath_of(branch@),
            url: ctx@.repo_root_url + "/"@ + project@ + "/"@ + subpath_of(branch@),
        }),
{
    let subpath = if str_eq(branch, "trunk") {
        String::from_str(branch)
    } else {
        join2("branches/", branch)
    };
    let url = join5(ctx.get_repo_root_url(), "/", project, "/", subpath.as_str());
    SwitchTarget { project: String::from_str(project), subpath, url }
}

/// How a switch goes on once its target is known.
#[derive(Debug, Clone, Copy, PartialEq, Eq, Structural)]
pub enum SwitchRoute {
    /// The target does not exist: the operator is warned.
    Missing,
    /// The working copy is on the target already, at the latest revision.
    AlreadyThere,
    /// The target lies in another project: the working copy is emptied and
    /// the project's checkout takes its place.
    OtherProject,
    /// The target is a line of the current project: the working copy is
    /// switched.
    SameProject,
}

/// How a switch goes on: a target that does not exist is reported; a
/// working copy that is on the target and does not lag the repository stays
/// as it is; otherwise it matters whether the target lies in the current
/// project.
pub open spec fn switch_route_of(
    ctx: ContextModel,
    target: TargetModel,
    exists: bool,
    work_copy_root: Seq<char>,
) -> SwitchRoute {
    let lags = ctx.current_revision.is_before(ctx.latest_revision);
    if !exists {
        SwitchRoute::Missing
    } else if target.url == work_copy_root && !lags {
        SwitchRoute::AlreadyThere
    } else if target.project != ctx.current_project_name {
        SwitchRoute::OtherProject
    } else {
        SwitchRoute::SameProject
    }
}

/// How a switch goes on. `exists` says whether the target's URL exists;
/// `work_copy_root` is the URL that the working copy is checked out from.
pub fn handle_switch(ctx: &SvnContext, target: &SwitchTarget, exists: bool, work_copy_root: &str)
    -> (r: SwitchRoute)
    ensures
        r == switch_route_of(ctx@, target@, exists, work_copy_root@),
{
    if !exists {
        SwitchRoute::Missing
    } else if str_eq(target.url.as_str(), work_copy_root) && !ctx.check_review_state() {
        SwitchRoute::AlreadyThere
    } else if !str_eq(target.project.as_str(), ctx.get_current_project_name()) {
        SwitchRoute::OtherProject
    } else {
        SwitchRoute::SameProject
    }
}

/// What the operator is told of a switch that did not take place.
pub fn switch_report(route: SwitchRoute, target: &SwitchTarget) -> (r: Option<String>)
    ensures
        crate::log::opt_view(r) == match route {
            SwitchRoute::Missing => Some(
                "The target project "@ + target.project@ + " does not exist or branch "@
                    + target.subpath@ + " do not exist in that project"@,
            ),
            SwitchRoute::AlreadyThere => Some(
                "Already on the latest revision of project "@ + target.project@ + ", branch "@
                    + target.subpath@,
            ),
            _ => None,
        },
{
    match route {
        SwitchRoute::Missing => Some(
            join5(
                "The target project ",
                target.project.as_str(),
                " does not exist or branch ",
                target.subpath.as_str(),
                " do not exist in that project",
            ),
        ),
        SwitchRoute::AlreadyThere => Some(
            join4(
                "Already on the latest revision of project ",
                target.project.as_str(),
                ", branch ",
                target.subpath.as_str(),
            ),
        ),
        _ => None,
    }
}

/// The switch that empties the working copy before another project takes
/// its place: to the repository's empty placeholder.
pub fn switch_to_empty(ctx: &SvnContext) -> (r: BackendCommand)
    ensures
        r.line() == seq![
            "svn"@,
            "switch"@,
            ctx@.repo_root_url + "/.ws_empty"@,
            "."@,
            "--ignore-ancestry"@,
        ],
{
    let url = join2(ctx.get_repo_root_url(), "/.ws_empty");
    svn_switch(url.as_str())
}

/// The checkout of the target into the project's directory, over what is
/// there.
pub fn checkout_target(target: &SwitchTarget, path: &str) -> (r: BackendCommand)
    ensures
        r.line() == seq!["svn"@, "checkout"@, target.url@, path@, "--force"@],
{
    svn_checkout(vec![target.url.as_str(), path, "--force"].as_slice())
}

/// The removal of a project from the latest revision; its history stays.
pub fn soft_delete(target_url: &str, project_name: &str) -> (r: BackendCommand)
    ensures
        r.line() == seq!["svn"@, "delete"@, target_url@, "-m"@, "Delete project "@ + project_name@],
{
    let message = join2("Delete project ", project_name);
    svn_delete(vec![target_url, "-m", message.as_str()].as_slice())
}

/// What the message of the failure on deleting the current project says.
pub open spec fn delete_current_message() -> Seq<char> {
    "Cannot delete the current project. Please switch to another project first"@
}

/// The URL of the project that is to be deleted. The current project cannot
/// be deleted, and a name that is not allowed is refused.
pub fn handle_delete(ctx: &SvnContext, project_name: &str) -> (r: Result<String, AppError>)
    ensures
        match r {
            Ok(url) => project_name@ != ctx@.current_project_name && folder_verdict(
                project_name@,
            ) is Ok && url@ == project_root_url(ctx@.repo_root_url, project_name@),
            Err(e) => if project_name@ == ctx@.current_project_name {
                e@ == ErrorModel::Validation(delete_current_message())
            } else {
                folder_verdict(project_name@) == Err::<(), ErrorModel>(e@)
            },
        },
{
    if str_eq(project_name, ctx.get_current_project_name()) {
        return Err(
            AppError::Validation(
                String::from_str(
                    "Cannot delete the current project. Please switch to another project first",
                ),
            ),
        );
    }
    match validate_folder_name(project_name, true) {
        Ok(_) => Ok(ctx.get_project_root_url(project_name)),
        Err(e) => Err(e),
    }
}

/// How a project is deleted.
#[derive(Debug, Clone, Copy, PartialEq, Eq, Structural)]
pub enum DeleteRoute {
    /// The project never existed: the operator is told.
    ReportMissing,
    /// The project is removed from the latest revision; its history stays.
    SoftDelete,
    /// The project's history is erased.
    ForceDelete,
    /// The project is deleted already: the operator is told.
    ReportDeleted,
}

/// How a project of the given status is deleted: without force an active
/// project is removed from the latest revision and a deleted one is left;
/// with force the history of either is erased.
pub fn delete_route(status: ProjectStatus, force: bool) -> (r: DeleteRoute)
    ensures
        r == match status {
            ProjectStatus::NonExistent => DeleteRoute::ReportMissing,
            ProjectStatus::Active => if force {
                DeleteRoute::ForceDelete
            } else {
                DeleteRoute::SoftDelete
            },
            ProjectStatus::Deleted => if force {
                DeleteRoute::ForceDelete
            } else {
                DeleteRoute::ReportDeleted
            },
        },
{
    match status {
        ProjectStatus::NonExistent => DeleteRoute::ReportMissing,
        ProjectStatus::Active => if force {
            DeleteRoute::ForceDelete
        } else {
            DeleteRoute::SoftDelete
        },
        ProjectStatus::Deleted => if force {
            DeleteRoute::ForceDelete
        } else {
            DeleteRoute::ReportDeleted
        },
    }
}

/// What bringing a project back comes to: a name that is not allowed is
/// refused; otherwise see `checked_restoration`.
pub open spec fn project_restoration(
    ctx: ContextModel,
    project: Seq<char>,
    is_active: bool,
    deleted_rev: u64,
) -> Result<Option<Seq<Seq<char>>>, ErrorModel> {
    match folder_verdict(project) {
        Err(e) => Err(e),
        Ok(_) => checked_restoration(ctx, project, is_active, deleted_rev),
    }
}

/// Decides how the project `project_name` is brought back. `is_active`
/// says whether the project is in the repository; `deleted_rev` is the
/// revision of its deletion as the history shows it, zero where it shows
/// none.
pub fn handle_restore(ctx: &SvnContext, project_name: &str, is_active: bool, deleted_rev: u64) -> (r:
    Result<Option<BackendCommand>, AppError>)
    ensures
        restoration_view(r) == project_restoration(ctx@, project_name@, is_active, deleted_rev),
{
    match validate_folder_name(project_name, true) {
        Ok(_) => restore_project(ctx, project_name, is_active, deleted_rev),
        Err(e) => Err(e),
    }
}

/// What bringing back a project of an allowed name comes to: nothing for a
/// project that is in the repository; a failure where the history shows no
/// deletion of it; otherwise the copy of the project from the revision before
/// its deletion.
pub open spec fn checked_restoration(
    ctx: ContextModel,
    project: Seq<char>,
    is_active: bool,
    deleted_rev: u64,
) -> Result<Option<Seq<Seq<char>>>, ErrorModel> {
    let url = project_root_url(ctx.repo_root_url, project);
    if is_active {
        Ok(None)
    } else if deleted_rev == 0 {
        Err(ErrorModel::Validation("Could not find deletion record for project "@ + project))
    } else {
        Ok(
            Some(
                seq![
                    "svn"@,
                    "copy"@,
                    url + "@"@ + decimal_digits((deleted_rev - 1) as nat),
                    url,
                    "-m"@,
                    "Restore project "@ + project,
                ],
            ),
        )
    }
}

/// The view of a command that may be missing, or the failure in its place.
pub open spec fn restoration_view(r: Result<Option<BackendCommand>, AppError>) -> Result<
    Option<Seq<Seq<char>>>,
    ErrorModel,
> {
    match r {
        Ok(Some(cmd)) => Ok(Some(cmd.line())),
        Ok(None) => Ok(None),
        Err(e) => Err(e@),
    }
}

/// Decides how the project `project_name`, whose name has been found to be
/// allowed, is brought back.
pub fn restore_project(ctx: &SvnContext, project_name: &str, is_active: bool, deleted_rev: u64)
    -> (r: Result<Option<BackendCommand>, AppError>)
    ensures
        restoration_view(r) == checked_restoration(ctx@, project_name@, is_active, deleted_rev),
{
    if is_active {
        return Ok(None);
    }
    if deleted_rev == 0 {
        return Err(
            AppError::Validation(join2("Could not find deletion record for project ", project_name)),
        );
    }
    let url = ctx.get_project_root_url(project_name);
    let rev = chars_to_string(&u64_to_chars(deleted_rev - 1));
    let source = join3(url.as_str(), "@", rev.as_str());
    let message = join2("Restore project ", project_name);
    let cmd = svn_copy(vec![source.as_str(), url.as_str(), "-m", message.as_str()].as_slice());
    assert(cmd.line() =~= seq!["svn"@, "copy"@, source@, url@, "-m"@, message@]);
    Ok(Some(cmd))
}

/// What is done next about a folder that is to become a link.
#[derive(Debug, Clone, Copy, PartialEq, Eq, Structural)]
pub enum LinkStep {
    /// Move the content of the folder to the store.
    TryMove,
    /// Wait this many milliseconds, then look again.
    Wait(u64),
    /// The folder is out of the way: make the link.
    MakeLink,
    /// The folder is held by another program: tell the operator.
    ReportBusy,
}

/// The number of attempts at moving a folder out of the way.
pub open spec fn link_attempts() -> u32 {
    5
}

/// What is done next about a folder that is to become a link, after
/// `failed` attempts at moving it: a folder that is gone needs no moving;
/// after five failed attempts the folder is given up as busy.
pub fn handle_link_folder(failed: u32, origin_exists: bool) -> (r: LinkStep)
    ensures
        r == if failed >= link_attempts() {
            LinkStep::ReportBusy
        } else if !origin_exists {
            LinkStep::MakeLink
        } else {
            LinkStep::TryMove
        },
{
    if failed >= 5 {
        LinkStep::ReportBusy
    } else if !origin_exists {
        LinkStep::MakeLink
    } else {
        LinkStep::TryMove
    }
}

/// What follows an attempt at moving the folder: the link where the move
/// succeeded, a wait of 200 milliseconds before the next look where it did
/// not.
pub fn after_move(moved: bool) -> (r: LinkStep)
    ensures
        r == if moved {
            LinkStep::MakeLink
        } else {
            LinkStep::Wait(200)
        },
{
    if moved {
        LinkStep::MakeLink
    } else {
        LinkStep::Wait(200)
    }
}

/// The folder of a repository beside the program: the one named, or `repo`.
/// A name that is not allowed as a folder's name is refused.
pub fn get_repo_path(repo_name: Option<&str>) -> (r: Result<String, AppError>)
    ensures
        match repo_name {
            Some(name) => match r {
                Ok(folder) => folder_verdict(name@) is Ok && folder@ == name@,
                Err(e) => folder_verdict(name@) == Err::<(), ErrorModel>(e@),
            },
            None => r matches Ok(folder) && folder@ == "repo"@,
        },
{
    match repo_name {
        Some(name) => match validate_folder_name(name, true) {
            Ok(_) => Ok(String::from_str(name)),
            Err(e) => Err(e),
        },
        None => Ok(String::from_str("repo")),
    }
}

/// The URL of a repository on disk: `file://` and its path with forward
/// slashes. On Windows a path that starts with a drive letter gets a third
/// slash in front.
pub open spec fn repo_url_of(path: Seq<char>, on_windows: bool) -> Seq<char> {
    let p = replace_char(path, '\\', '/');
    if on_windows && first_char(p) != Some('/') {
        "file:///"@ + p
    } else {
        "file://"@ + p
    }
}

/// The URL of the repository at `path`.
pub fn get_repo_url(path: &str, on_windows: bool) -> (r: String)
    ensures
        r@ == repo_url_of(path@, on_windows),
{
    let p = chars_replace(&str_chars(path), '\\', '/');
    let text = chars_to_string(&p);
    if on_windows && !(p.len() > 0 && p[0] == '/') {
        join2("file:///", text.as_str())
    } else {
        join2("file://", text.as_str())
    }
}

/// The commands that make a repository at `path` where there is none yet:
/// the repository, and an empty ignore-rule file at its root.
pub fn init_repo(path: &str, url: &str) -> (r: Vec<BackendCommand>)
    ensures
        command_lines(r@) == seq![
            seq!["svnadmin"@, "create"@, path@],
            seq![
                "svnmucc"@,
                "put"@,
                "NUL"@,
                url@ + "/.gitignore"@,
                "-m"@,
                "Add default .gitignore file"@,
            ],
        ],
{
    let mut plan: Vec<BackendCommand> = Vec::new();
    plan.push(svnadmin_create(path));
    let file = join2(url, "/.gitignore");
    let put = svn_svnmucc(
        vec!["put", "NUL", file.as_str(), "-m", "Add default .gitignore file"].as_slice(),
    );
    assert(put.line() =~= seq![
        "svnmucc"@,
        "put"@,
        "NUL"@,
        file@,
        "-m"@,
        "Add default .gitignore file"@,
    ]);
    plan.push(put);
    plan
}

/// Where the checkout of a project lies on a drive:
/// `{drive}.ws_store\{repository}\{project}`.
pub fn find_a_project_in_ws_store(drive: &str, repo_name: &str, target_project: &str) -> (r: String)
    ensures
        r@ == drive@ + ".ws_store\\"@ + repo_name@ + "\\"@ + target_project@,
{
    join5(drive, ".ws_store\\", repo_name, "\\", target_project)
}

/// The failure of a switch to a project that is checked out nowhere.
pub fn switch_project_via_symlink(target_project: &str, repo_name: &str) -> (e: AppError)
    ensures
        e@ == ErrorModel::Validation(
            "Cannot find target project '"@ + target_project@ + "' in any .ws_store/"@ + repo_name@
                + " folder"@,
        ),
{
    AppError::Validation(
        join5(
            "Cannot find target project '",
            target_project,
            "' in any .ws_store/",
            repo_name,
            " folder",
        ),
    )
}

/// The failure of a teardown of a project that is checked out nowhere.
pub fn not_checked_out(project_name: &str) -> (e: AppError)
    ensures
        e@ == ErrorModel::Validation(
            "Current project "@ + project_name@ + " is not checked out in any workspace."@,
        ),
{
    AppError::Validation(
        join3("Current project ", project_name, " is not checked out in any workspace."),
    )
}

/// The arguments with which the program starts itself anew to turn a
/// folder into a link: the hidden command, the project and the folder.
pub fn spawn_internal_switcher(project_name: &str, origin_dir: &str) -> (r: Vec<String>)
    ensures
        crate::text::string_views(r@) == seq!["__link_folder"@, project_name@, origin_dir@],
{
    let mut args: Vec<String> = Vec::new();
    args.push(String::from_str("__link_folder"));
    args.push(String::from_str(project_name));
    args.push(String::from_str(origin_dir));
    args
}

/// The commands that open a terminal in `work_dir`, the one to try first
/// in front: PowerShell, then the command prompt.
pub fn launch_terminal(work_dir: &str) -> (r: Vec<BackendCommand>)
    ensures
        command_lines(r@) == seq![
            seq![
                "powershell"@,
                "-NoExit"@,
                "-Command"@,
                "cd '"@ + work_dir@ + "'; $Host.UI.RawUI.WindowTitle = 'Windows PowerShell'"@,
            ],
            seq!["cmd"@, "/k"@, "cd /d \""@ + work_dir@ + "\""@],
        ],
{
    let mut plan: Vec<BackendCommand> = Vec::new();
    let script = join3("cd '", work_dir, "'; $Host.UI.RawUI.WindowTitle = 'Windows PowerShell'");
    let shell = BackendCommand::build(
        "powershell",
        vec!["-NoExit", "-Command", script.as_str()].as_slice(),
        vec![].as_slice(),
    );
    assert(shell.line() =~= seq!["powershell"@, "-NoExit"@, "-Command"@, script@]);
    plan.push(shell);
    let change = join3("cd /d \"", work_dir, "\"");
    let prompt = BackendCommand::build(
        "cmd",
        vec!["/k", change.as_str()].as_slice(),
        vec![].as_slice(),
    );
    assert(prompt.line() =~= seq!["cmd"@, "/k"@, change@]);
    plan.push(prompt);
    plan
}

/// The command that shows a failure in a window of its own and waits for
/// a key.
pub fn report_error_gui(msg: &str) -> (r: BackendCommand)
    ensures
        r.line() == seq![
            "cmd"@,
            "/c"@,
            "echo [WS ERROR] & echo. & echo "@ + msg@ + " & echo. & pause"@,
        ],
{
    let script = join3("echo [WS ERROR] & echo. & echo ", msg, " & echo. & pause");
    BackendCommand::build(
        "cmd",
        vec!["/c", script.as_str()].as_slice(),
        vec![].as_slice(),
    )
}

/// The commands that can run outside a working copy.
#[derive(Debug, Clone, Copy, PartialEq, Eq, Structural)]
pub enum CommandKind {
    /// The making of a project.
    New,
    /// The turning of a folder into a link.
    LinkFolder,
    /// Any other command.
    Other,
}

/// What is done where the context of the working copy cannot be had.
#[derive(Debug, Clone, Copy, PartialEq, Eq, Structural)]
pub enum StartupRoute {
    /// Make the project from the default context.
    RunNew,
    /// Turn the folder into a link.
    RunLinkFolder,
    /// Tell the operator that the directory is no working copy.
    ReportNoWorkingCopy,
    /// Report the failure.
    ReportFailure,
}

/// What is done where the context of the working copy cannot be had: a
/// failure that the backend reports means that the directory is no working
/// copy, where only a project can be made or a folder linked.
pub fn without_working_copy(failure: &AppError, command: CommandKind) -> (r: StartupRoute)
    ensures
        r == if failure is SvnCommandFailed {
            match command {
                CommandKind::New => StartupRoute::RunNew,
                CommandKind::LinkFolder => StartupRoute::RunLinkFolder,
                CommandKind::Other => StartupRoute::ReportNoWorkingCopy,
            }
        } else {
            StartupRoute::ReportFailure
        },
{
    if failure.is_backend_failure() {
        match command {
            CommandKind::New => StartupRoute::RunNew,
            CommandKind::LinkFolder => StartupRoute::RunLinkFolder,
            CommandKind::Other => StartupRoute::ReportNoWorkingCopy,
        }
    } else {
        StartupRoute::ReportFailure
    }
}

/// How the failure of a command is reported: a cancellation is no error.
pub fn failure_report(failure: &AppError) -> (r: (bool, String))
    ensures
        r.0 == !(failure is OperationCancelled),
        failure is OperationCancelled ==> r.1@ == "Operation cancelled by user."@,
        !(failure is OperationCancelled) ==> crate::text::starts_with(
            r.1@,
            failure.message_prefix(),
        ),
        !(failure is OperationCancelled) ==> (failure.message_text() matches Some(t) ==> r.1@
            == t),
{
    if failure.is_cancellation() {
        (false, String::from_str("Operation cancelled by user."))
    } else {
        (true, failure.message())
    }
}

} // verus!
