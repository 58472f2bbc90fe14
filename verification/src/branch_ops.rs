//! What is done about a dirty working copy, and how a branch is made.

use crate::backend::{svn_cleanup_workspace, svn_copy, svn_revert, svn_switch, BackendCommand};
use crate::commit::command_lines;
use crate::context::{branch_url, ContextModel, SvnContext};
use crate::error::{AppError, ErrorModel};
use crate::names::{folder_name_pattern, folder_name_verdict, regex_accepts, validate_folder_name};
use crate::text::{join2, join3, str_chars, trim, trim_chars};
use vstd::prelude::*;
use vstd::string::*;

verus! {

/// What the operator can have done about a dirty working copy.
#[derive(Debug, Clone, Copy, PartialEq, Eq, Structural)]
pub enum CleanupChoice {
    /// Commit the changes on the current branch.
    Commit,
    /// Commit the changes on a branch made for them.
    SaveToBranch,
    /// Throw the changes away.
    Discard,
    /// Leave everything as it is and give the operation up.
    Cancel,
}

/// The choices that are put before the operator, in order. A working copy
/// that lags the repository cannot commit on its branch, so that choice is
/// left out.
pub open spec fn cleanup_choices(is_review: bool) -> Seq<CleanupChoice> {
    if is_review {
        seq![CleanupChoice::SaveToBranch, CleanupChoice::Discard, CleanupChoice::Cancel]
    } else {
        seq![
            CleanupChoice::Commit,
            CleanupChoice::SaveToBranch,
            CleanupChoice::Discard,
            CleanupChoice::Cancel,
        ]
    }
}

/// How a choice is worded.
pub open spec fn choice_text(choice: CleanupChoice) -> Seq<char> {
    match choice {
        CleanupChoice::Commit => "Commit changes and Continue in current branch"@,
        CleanupChoice::SaveToBranch => "Save changes to a new branch (Create a new branch and commit changes there)"@,
        CleanupChoice::Discard => "Discard changes and Continue (Delete all changes!)"@,
        CleanupChoice::Cancel => "Cancel operation"@,
    }
}

/// How a choice is worded.
pub fn choice_label(choice: CleanupChoice) -> (r: String)
    ensures
        r@ == choice_text(choice),
{
    match choice {
        CleanupChoice::Commit => String::from_str("Commit changes and Continue in current branch"),
        CleanupChoice::SaveToBranch => String::from_str(
            "Save changes to a new branch (Create a new branch and commit changes there)",
        ),
        CleanupChoice::Discard => String::from_str(
            "Discard changes and Continue (Delete all changes!)",
        ),
        CleanupChoice::Cancel => String::from_str("Cancel operation"),
    }
}

/// The choices that are put before the operator, in order.
pub fn cleanup_choice_list(is_review: bool) -> (r: Vec<CleanupChoice>)
    ensures
        r@ == cleanup_choices(is_review),
{
    let mut choices: Vec<CleanupChoice> = Vec::new();
    if !is_review {
        choices.push(CleanupChoice::Commit);
    }
    choices.push(CleanupChoice::SaveToBranch);
    choices.push(CleanupChoice::Discard);
    choices.push(CleanupChoice::Cancel);
    assert(choices@ =~= cleanup_choices(is_review));
    choices
}

/// The choice that the operator made, from the index that was selected.
pub fn cleanup_choice(is_review: bool, selection: usize) -> (r: CleanupChoice)
    requires
        selection < cleanup_choices(is_review).len(),
    ensures
        r == cleanup_choices(is_review)[selection as int],
{
    let index = if is_review {
        selection + 1
    } else {
        selection
    };
    if index == 0 {
        CleanupChoice::Commit
    } else if index == 1 {
        CleanupChoice::SaveToBranch
    } else if index == 2 {
        CleanupChoice::Discard
    } else {
        CleanupChoice::Cancel
    }
}

/// The commands that throw the changes of a working copy away.
pub fn discard_changes() -> (r: Vec<BackendCommand>)
    ensures
        command_lines(r@) == discard_lines(),
{
    let mut plan: Vec<BackendCommand> = Vec::new();
    let revert = svn_revert(vec!["-R", "."].as_slice());
    assert(revert.line() =~= seq!["svn"@, "revert"@, "-R"@, "."@]);
    plan.push(revert);
    plan.push(svn_cleanup_workspace());
    plan
}

/// What the message of the failure on a branch that exists says.
pub open spec fn branch_exists_message(branch: Seq<char>) -> Seq<char> {
    "Branch "@ + branch + " already exists"@
}

/// The commands that make a branch off the working copy's revision and
/// switch to it: the copy of `{work copy URL}@{revision}` to the branch's
/// URL, with its parents, and the switch.
pub open spec fn branch_creation_lines(
    ctx: ContextModel,
    branch: Seq<char>,
    work_copy_root: Seq<char>,
) -> Seq<Seq<Seq<char>>> {
    let url = branch_url(ctx.repo_root_url, ctx.current_project_name, branch);
    seq![
        seq![
            "svn"@,
            "copy"@,
            work_copy_root + "@"@ + ctx.current_revision.text(),
            url,
            "-m"@,
            "[WS-BRANCH] Create "@ + branch,
            "--parents"@,
        ],
        seq!["svn"@, "switch"@, url, "."@, "--ignore-ancestry"@],
    ]
}

/// What making a branch comes to: a name that is not allowed is refused
/// with the failure of the name; a branch that exists is refused; otherwise
/// the branch is copied off the working copy's revision, which cannot
/// conflict, and switched to.
pub open spec fn branch_creation(
    ctx: ContextModel,
    branch: Seq<char>,
    matched: Option<bool>,
    branch_exists: bool,
    work_copy_root: Seq<char>,
) -> Result<Seq<Seq<Seq<char>>>, ErrorModel> {
    match folder_name_verdict(branch, false, matched) {
        Err(e) => Err(e),
        Ok(_) => checked_branch_creation(ctx, branch, branch_exists, work_copy_root),
    }
}

/// The view of a plan or the failure in its place.
pub open spec fn plan_view(r: Result<Vec<BackendCommand>, AppError>) -> Result<
    Seq<Seq<Seq<char>>>,
    ErrorModel,
> {
    match r {
        Ok(plan) => Ok(command_lines(plan@)),
        Err(e) => Err(e@),
    }
}

/// The URL of the branch `branch_name` of the current project, once the
/// name is found to be allowed.
pub fn new_branch_url(ctx: &SvnContext, branch_name: &str) -> (r: Result<String, AppError>)
    ensures
        match r {
            Ok(url) => folder_name_verdict(
                branch_name@,
                false,
                regex_accepts(folder_name_pattern(), branch_name@),
            ) is Ok && url@ == branch_url(
                ctx@.repo_root_url,
                ctx@.current_project_name,
                branch_name@,
            ),
            Err(e) => folder_name_verdict(
                branch_name@,
                false,
                regex_accepts(folder_name_pattern(), branch_name@),
            ) == Err::<(), ErrorModel>(e@),
        },
{
    match validate_folder_name(branch_name, false) {
        Ok(_) => Ok(ctx.get_branch_url(branch_name)),
        Err(e) => Err(e),
    }
}

/// What making a branch of an allowed name comes to: a branch that exists
/// is refused; otherwise the branch is copied off the working copy's
/// revision and switched to.
pub open spec fn checked_branch_creation(
    ctx: ContextModel,
    branch: Seq<char>,
    branch_exists: bool,
    work_copy_root: Seq<char>,
) -> Result<Seq<Seq<Seq<char>>>, ErrorModel> {
    if branch_exists {
        Err(ErrorModel::Validation(branch_exists_message(branch)))
    } else {
        Ok(branch_creation_lines(ctx, branch, work_copy_root))
    }
}

/// The commands that make the branch `branch_name`, whose name has been
/// found to be allowed, off the working copy's revision and switch to it.
pub fn branch_creation_plan(
    ctx: &SvnContext,
    branch_name: &str,
    branch_exists: bool,
    work_copy_root: &str,
) -> (r: Result<Vec<BackendCommand>, AppError>)
    ensures
        plan_view(r) == checked_branch_creation(
            ctx@,
            branch_name@,
            branch_exists,
            work_copy_root@,
        ),
{
    if branch_exists {
        return Err(AppError::Validation(join3("Branch ", branch_name, " already exists")));
    }
    let url = ctx.get_branch_url(branch_name);
    let revision = ctx.get_current_revision().to_string();
    let source = join3(work_copy_root, "@", revision.as_str());
    let message = join2("[WS-BRANCH] Create ", branch_name);
    let mut plan: Vec<BackendCommand> = Vec::new();
    let copy = svn_copy(
        vec![source.as_str(), url.as_str(), "-m", message.as_str(), "--parents"].as_slice(),
    );
    assert(copy.line() =~= seq![
        "svn"@,
        "copy"@,
        work_copy_root@ + "@"@ + ctx@.current_revision.text(),
        url@,
        "-m"@,
        "[WS-BRANCH] Create "@ + branch_name@,
        "--parents"@,
    ]);
    plan.push(copy);
    plan.push(svn_switch(url.as_str()));
    assert(command_lines(plan@) =~= branch_creation_lines(ctx@, branch_name@, work_copy_root@));
    Ok(plan)
}

/// The commands that make the branch `branch_name` off the working copy's
/// revision and switch to it. `branch_exists` says whether the branch's URL
/// exists; `work_copy_root` is the URL that the working copy is checked out
/// from.
pub fn create_and_switch_to_branch(
    ctx: &SvnContext,
    branch_name: &str,
    branch_exists: bool,
    work_copy_root: &str,
) -> (r: Result<Vec<BackendCommand>, AppError>)
    ensures
        plan_view(r) == branch_creation(
            ctx@,
            branch_name@,
            regex_accepts(folder_name_pattern(), branch_name@),
            branch_exists,
            work_copy_root@,
        ),
{
    match validate_folder_name(branch_name, false) {
        Ok(_) => branch_creation_plan(ctx, branch_name, branch_exists, work_copy_root),
        Err(e) => Err(e),
    }
}

/// Where saving changes to a new branch stands.
#[derive(Debug, Clone, Copy, PartialEq, Eq, Structural)]
pub enum BranchSavePhase {
    /// The operator is asked for the name of the branch.
    AskName,
    /// The branch is being made.
    Creating,
    /// The operator is asked whether to try another name.
    AskRetry,
    /// The operator is asked for the commit message.
    AskMessage,
    /// The changes are being committed.
    Committing,
    /// The saving has ended.
    Done,
}

/// What the caller reports back.
#[derive(Debug)]
pub enum BranchSaveEvent {
    /// The operator typed this text.
    Entered(String),
    /// The operator answered yes or no.
    Answer(bool),
    /// The action succeeded.
    Completed,
    /// The action failed.
    Failed(AppError),
}

/// What the caller is to do next.
#[derive(Debug)]
pub enum BranchSaveAction {
    /// Ask for the name of the new branch.
    AskName,
    /// Make the branch of this name and switch to it.
    Create(String),
    /// Tell the operator why the branch could not be made, and ask whether
    /// to try another name.
    AskRetry(AppError),
    /// Ask for the commit message.
    AskMessage,
    /// Commit with this message.
    Commit(String),
    /// Stop, with this outcome.
    Finish(Result<(), AppError>),
}

/// An event as a mathematical value.
pub enum BranchSaveEventModel {
    Entered(Seq<char>),
    Answer(bool),
    Completed,
    Failed(ErrorModel),
}

/// An action as a mathematical value.
pub enum BranchSaveActionModel {
    AskName,
    Create(Seq<char>),
    AskRetry(ErrorModel),
    AskMessage,
    Commit(Seq<char>),
    Finish(Result<(), ErrorModel>),
}

impl View for BranchSaveEvent {
    type V = BranchSaveEventModel;

    open spec fn view(&self) -> BranchSaveEventModel {
        match self {
            BranchSaveEvent::Entered(text) => BranchSaveEventModel::Entered(text@),
            BranchSaveEvent::Answer(yes) => BranchSaveEventModel::Answer(*yes),
            BranchSaveEvent::Completed => BranchSaveEventModel::Completed,
            BranchSaveEvent::Failed(e) => BranchSaveEventModel::Failed(e@),
        }
    }
}

impl View for BranchSaveAction {
    type V = BranchSaveActionModel;

    open spec fn view(&self) -> BranchSaveActionModel {
        match self {
            BranchSaveAction::AskName => BranchSaveActionModel::AskName,
            BranchSaveAction::Create(name) => BranchSaveActionModel::Create(name@),
            BranchSaveAction::AskRetry(e) => BranchSaveActionModel::AskRetry(e@),
            BranchSaveAction::AskMessage => BranchSaveActionModel::AskMessage,
            BranchSaveAction::Commit(message) => BranchSaveActionModel::Commit(message@),
            BranchSaveAction::Finish(Ok(_)) => BranchSaveActionModel::Finish(Ok(())),
            BranchSaveAction::Finish(Err(e)) => BranchSaveActionModel::Finish(Err(e@)),
        }
    }
}

/// What follows once the branch is made: the commit with the message that
/// was given beforehand, or the question for one.
pub open spec fn after_creation(message: Option<Seq<char>>) -> (
    BranchSavePhase,
    BranchSaveActionModel,
) {
    match message {
        Some(m) => (BranchSavePhase::Committing, BranchSaveActionModel::Commit(m)),
        None => (BranchSavePhase::AskMessage, BranchSaveActionModel::AskMessage),
    }
}

/// The next phase and action of saving changes to a new branch. A branch
/// that cannot be made does not end the saving: the operator may try another
/// name as often as wanted, and declining is a cancellation. Any other
/// failure ends the saving with that failure.
pub open spec fn branch_save_step(
    message: Option<Seq<char>>,
    phase: BranchSavePhase,
    event: BranchSaveEventModel,
) -> (BranchSavePhase, BranchSaveActionModel) {
    let out_of_turn = (
        BranchSavePhase::Done,
        BranchSaveActionModel::Finish(
            Err(ErrorModel::Validation("Saving to a branch received an event out of turn"@)),
        ),
    );
    match (phase, event) {
        (BranchSavePhase::Done, _) => out_of_turn,
        (BranchSavePhase::Creating, BranchSaveEventModel::Failed(e)) => (
            BranchSavePhase::AskRetry,
            BranchSaveActionModel::AskRetry(e),
        ),
        (_, BranchSaveEventModel::Failed(e)) => (
            BranchSavePhase::Done,
            BranchSaveActionModel::Finish(Err(e)),
        ),
        (BranchSavePhase::AskName, BranchSaveEventModel::Entered(name)) => (
            BranchSavePhase::Creating,
            BranchSaveActionModel::Create(name),
        ),
        (BranchSavePhase::Creating, BranchSaveEventModel::Completed) => after_creation(message),
        (BranchSavePhase::AskRetry, BranchSaveEventModel::Answer(yes)) => if yes {
            (BranchSavePhase::AskName, BranchSaveActionModel::AskName)
        } else {
            (
                BranchSavePhase::Done,
                BranchSaveActionModel::Finish(Err(ErrorModel::OperationCancelled)),
            )
        },
        (BranchSavePhase::AskMessage, BranchSaveEventModel::Entered(m)) => (
            BranchSavePhase::Committing,
            BranchSaveActionModel::Commit(m),
        ),
        (BranchSavePhase::Committing, BranchSaveEventModel::Completed) => (
            BranchSavePhase::Done,
            BranchSaveActionModel::Finish(Ok(())),
        ),
        _ => out_of_turn,
    }
}

/// The view of a message that may be missing.
pub open spec fn message_view(message: Option<&str>) -> Option<Seq<char>> {
    match message {
        Some(m) => Some(m@),
        None => None,
    }
}

/// Begins saving changes to a new branch: the operator is asked for its
/// name.
pub fn create_and_commit_to_branch() -> (r: (BranchSavePhase, BranchSaveAction))
    ensures
        r.0 == BranchSavePhase::AskName,
        r.1@ == BranchSaveActionModel::AskName,
{
    (BranchSavePhase::AskName, BranchSaveAction::AskName)
}

/// The end on an event that does not fit the phase.
fn branch_save_out_of_turn() -> (r: (BranchSavePhase, BranchSaveAction))
    ensures
        r.0 == BranchSavePhase::Done,
        r.1@ == BranchSaveActionModel::Finish(
            Err(ErrorModel::Validation("Saving to a branch received an event out of turn"@)),
        ),
{
    (
        BranchSavePhase::Done,
        BranchSaveAction::Finish(
            Err(
                AppError::Validation(
                    String::from_str("Saving to a branch received an event out of turn"),
                ),
            ),
        ),
    )
}

/// Takes saving changes to a new branch one step on. `commit_msg` is the
/// commit message where one was given beforehand.
pub fn create_and_commit_to_branch_step(
    commit_msg: Option<&str>,
    phase: BranchSavePhase,
    event: BranchSaveEvent,
) -> (r: (BranchSavePhase, BranchSaveAction))
    ensures
        (r.0, r.1@) == branch_save_step(message_view(commit_msg), phase, event@),
        phase == BranchSavePhase::Creating ==> (event matches BranchSaveEvent::Failed(e) ==> r.1
            == BranchSaveAction::AskRetry(e)),
        phase != BranchSavePhase::Creating && phase != BranchSavePhase::Done ==> (
        event matches BranchSaveEvent::Failed(e) ==> r.1 == BranchSaveAction::Finish(Err(e))),
{
    match (phase, event) {
        (BranchSavePhase::Done, _) => branch_save_out_of_turn(),
        (BranchSavePhase::Creating, BranchSaveEvent::Failed(e)) => (
            BranchSavePhase::AskRetry,
            BranchSaveAction::AskRetry(e),
        ),
        (_, BranchSaveEvent::Failed(e)) => (BranchSavePhase::Done, BranchSaveAction::Finish(Err(e))),
        (BranchSavePhase::AskName, BranchSaveEvent::Entered(name)) => (
            BranchSavePhase::Creating,
            BranchSaveAction::Create(name),
        ),
        (BranchSavePhase::Creating, BranchSaveEvent::Completed) => match commit_msg {
            Some(m) => (BranchSavePhase::Committing, BranchSaveAction::Commit(String::from_str(m))),
            None => (BranchSavePhase::AskMessage, BranchSaveAction::AskMessage),
        },
        (BranchSavePhase::AskRetry, BranchSaveEvent::Answer(yes)) => if yes {
            (BranchSavePhase::AskName, BranchSaveAction::AskName)
        } else {
            (BranchSavePhase::Done, BranchSaveAction::Finish(Err(AppError::OperationCancelled)))
        },
        (BranchSavePhase::AskMessage, BranchSaveEvent::Entered(m)) => (
            BranchSavePhase::Committing,
            BranchSaveAction::Commit(m),
        ),
        (BranchSavePhase::Committing, BranchSaveEvent::Completed) => (
            BranchSavePhase::Done,
            BranchSaveAction::Finish(Ok(())),
        ),
        _ => branch_save_out_of_turn(),
    }
}

/// Whether a text is blank: nothing but white space.
pub open spec fn is_blank(text: Seq<char>) -> bool {
    trim(text).len() == 0
}

/// Whether a text is blank.
pub fn text_is_blank(text: &str) -> (r: bool)
    ensures
        r == is_blank(text@),
{
    trim_chars(&str_chars(text)).len() == 0
}

/// The commit message that the operator's input stands for: the input as
/// it is, or, where it is blank, `Auto commit` and the time.
pub fn input_commit_message(input: &str, timestamp: &str) -> (r: String)
    ensures
        r@ == if is_blank(input@) {
            "Auto commit "@ + timestamp@
        } else {
            input@
        },
{
    if text_is_blank(input) {
        join2("Auto commit ", timestamp)
    } else {
        String::from_str(input)
    }
}

/// Where the cleaning of a working copy stands.
#[derive(Debug, Clone, Copy, PartialEq, Eq, Structural)]
pub enum CleanPhase {
    /// The operator is asked what to do about the changes.
    Asking,
    /// The operator is asked for the commit message.
    AskMessage,
    /// The changes are being committed on the current branch.
    Committing,
    /// The changes are being saved to a new branch.
    Saving,
    /// The changes are being thrown away.
    Discarding,
    /// The cleaning has ended.
    Done,
}

/// How the cleaning of a working copy ended well.
#[derive(Debug, Clone, Copy, PartialEq, Eq, Structural)]
pub enum CleanEnd {
    /// The working copy held no changes.
    Clean,
    /// The changes were committed on the current branch.
    Committed,
    /// The changes were committed on a new branch.
    SavedToBranch,
    /// The changes were thrown away.
    Discarded,
}

/// What the caller reports back.
#[derive(Debug)]
pub enum CleanEvent {
    /// The operator selected the choice of this index.
    Chosen(usize),
    /// The operator gave this commit message.
    Entered(String),
    /// The action succeeded.
    Completed,
    /// A prompt or an action failed.
    Failed(AppError),
}

/// What the caller is to do next.
#[derive(Debug)]
pub enum CleanAction {
    /// Put these choices before the operator.
    Ask(Vec<CleanupChoice>),
    /// Ask for the commit message.
    AskMessage,
    /// Run the commit protocol with this message.
    Commit(String),
    /// Save the changes to a new branch.
    SaveToBranch,
    /// Run these commands in order, which throw the changes away.
    Discard(Vec<BackendCommand>),
    /// Stop, with this outcome.
    Finish(Result<CleanEnd, AppError>),
}

/// An event of the cleaning as a mathematical value.
pub enum CleanEventModel {
    Chosen(int),
    Entered(Seq<char>),
    Completed,
    Failed(ErrorModel),
}

/// An action of the cleaning as a mathematical value.
pub enum CleanActionModel {
    Ask(Seq<CleanupChoice>),
    AskMessage,
    Commit(Seq<char>),
    SaveToBranch,
    Discard(Seq<Seq<Seq<char>>>),
    Finish(Result<CleanEnd, ErrorModel>),
}

impl View for CleanEvent {
    type V = CleanEventModel;

    open spec fn view(&self) -> CleanEventModel {
        match self {
            CleanEvent::Chosen(i) => CleanEventModel::Chosen(*i as int),
            CleanEvent::Entered(m) => CleanEventModel::Entered(m@),
            CleanEvent::Completed => CleanEventModel::Completed,
            CleanEvent::Failed(e) => CleanEventModel::Failed(e@),
        }
    }
}

impl View for CleanAction {
    type V = CleanActionModel;

    open spec fn view(&self) -> CleanActionModel {
        match self {
            CleanAction::Ask(choices) => CleanActionModel::Ask(choices@),
            CleanAction::AskMessage => CleanActionModel::AskMessage,
            CleanAction::Commit(m) => CleanActionModel::Commit(m@),
            CleanAction::SaveToBranch => CleanActionModel::SaveToBranch,
            CleanAction::Discard(plan) => CleanActionModel::Discard(command_lines(plan@)),
            CleanAction::Finish(Ok(end)) => CleanActionModel::Finish(Ok(*end)),
            CleanAction::Finish(Err(e)) => CleanActionModel::Finish(Err(e@)),
        }
    }
}

/// The commands that throw the changes of a working copy away.
pub open spec fn discard_lines() -> Seq<Seq<Seq<char>>> {
    seq![seq!["svn"@, "revert"@, "-R"@, "."@], seq!["svn"@, "cleanup"@, "."@]]
}

/// How the cleaning begins: a clean working copy needs nothing and the
/// operator is not asked; otherwise the operator chooses.
pub open spec fn clean_start(is_dirty: bool, is_review: bool) -> (CleanPhase, CleanActionModel) {
    if !is_dirty {
        (CleanPhase::Done, CleanActionModel::Finish(Ok(CleanEnd::Clean)))
    } else {
        (CleanPhase::Asking, CleanActionModel::Ask(cleanup_choices(is_review)))
    }
}

/// What the operator's choice leads to: a commit begins with its message; to
/// cancel ends the cleaning with the cancellation and no command is run.
pub open spec fn after_choice(choice: CleanupChoice) -> (CleanPhase, CleanActionModel) {
    match choice {
        CleanupChoice::Commit => (CleanPhase::AskMessage, CleanActionModel::AskMessage),
        CleanupChoice::SaveToBranch => (CleanPhase::Saving, CleanActionModel::SaveToBranch),
        CleanupChoice::Discard => (CleanPhase::Discarding, CleanActionModel::Discard(discard_lines())),
        CleanupChoice::Cancel => (
            CleanPhase::Done,
            CleanActionModel::Finish(Err(ErrorModel::OperationCancelled)),
        ),
    }
}

/// What the message of the failure on an event that does not fit the phase
/// says.
pub open spec fn clean_out_of_turn() -> ErrorModel {
    ErrorModel::Validation("Cleaning the workspace received an event out of turn"@)
}

/// The next phase and action of the cleaning. Any failure ends the cleaning
/// with that failure; an index that stands for no choice is refused.
pub open spec fn clean_step(is_review: bool, phase: CleanPhase, event: CleanEventModel) -> (
    CleanPhase,
    CleanActionModel,
) {
    let out_of_turn = (CleanPhase::Done, CleanActionModel::Finish(Err(clean_out_of_turn())));
    match (phase, event) {
        (CleanPhase::Done, _) => out_of_turn,
        (_, CleanEventModel::Failed(e)) => (CleanPhase::Done, CleanActionModel::Finish(Err(e))),
        (CleanPhase::Asking, CleanEventModel::Chosen(i)) => if 0 <= i < cleanup_choices(
            is_review,
        ).len() {
            after_choice(cleanup_choices(is_review)[i])
        } else {
            out_of_turn
        },
        (CleanPhase::AskMessage, CleanEventModel::Entered(m)) => (
            CleanPhase::Committing,
            CleanActionModel::Commit(m),
        ),
        (CleanPhase::Committing, CleanEventModel::Completed) => (
            CleanPhase::Done,
            CleanActionModel::Finish(Ok(CleanEnd::Committed)),
        ),
        (CleanPhase::Saving, CleanEventModel::Completed) => (
            CleanPhase::Done,
            CleanActionModel::Finish(Ok(CleanEnd::SavedToBranch)),
        ),
        (CleanPhase::Discarding, CleanEventModel::Completed) => (
            CleanPhase::Done,
            CleanActionModel::Finish(Ok(CleanEnd::Discarded)),
        ),
        _ => out_of_turn,
    }
}

/// Begins the cleaning of a working copy before an operation that needs a
/// clean one.
pub fn ensure_clean_workspace(is_dirty: bool, is_review: bool) -> (r: (CleanPhase, CleanAction))
    ensures
        (r.0, r.1@) == clean_start(is_dirty, is_review),
{
    if !is_dirty {
        (CleanPhase::Done, CleanAction::Finish(Ok(CleanEnd::Clean)))
    } else {
        (CleanPhase::Asking, CleanAction::Ask(cleanup_choice_list(is_review)))
    }
}

/// The end on an event that does not fit the phase.
fn clean_refused() -> (r: (CleanPhase, CleanAction))
    ensures
        r.0 == CleanPhase::Done,
        r.1@ == CleanActionModel::Finish(Err(clean_out_of_turn())),
{
    (
        CleanPhase::Done,
        CleanAction::Finish(
            Err(
                AppError::Validation(
                    String::from_str("Cleaning the workspace received an event out of turn"),
                ),
            ),
        ),
    )
}

/// Takes the cleaning one step on: from the phase and what the caller
/// reports to the next phase and what the caller is to do.
pub fn ensure_clean_workspace_step(is_review: bool, phase: CleanPhase, event: CleanEvent) -> (r: (
    CleanPhase,
    CleanAction,
))
    ensures
        (r.0, r.1@) == clean_step(is_review, phase, event@),
        phase != CleanPhase::Done ==> (event matches CleanEvent::Failed(e) ==> r.1
            == CleanAction::Finish(Err(e))),
{
    match (phase, event) {
        (CleanPhase::Done, _) => clean_refused(),
        (_, CleanEvent::Failed(e)) => (CleanPhase::Done, CleanAction::Finish(Err(e))),
        (CleanPhase::Asking, CleanEvent::Chosen(i)) => {
            let count: usize = if is_review {
                3
            } else {
                4
            };
            if i < count {
                match cleanup_choice(is_review, i) {
                    CleanupChoice::Commit => (CleanPhase::AskMessage, CleanAction::AskMessage),
                    CleanupChoice::SaveToBranch => (CleanPhase::Saving, CleanAction::SaveToBranch),
                    CleanupChoice::Discard => (
                        CleanPhase::Discarding,
                        CleanAction::Discard(discard_changes()),
                    ),
                    CleanupChoice::Cancel => (
                        CleanPhase::Done,
                        CleanAction::Finish(Err(AppError::OperationCancelled)),
                    ),
                }
            } else {
                clean_refused()
            }
        },
        (CleanPhase::AskMessage, CleanEvent::Entered(m)) => (
            CleanPhase::Committing,
            CleanAction::Commit(m),
        ),
        (CleanPhase::Committing, CleanEvent::Completed) => (
            CleanPhase::Done,
            CleanAction::Finish(Ok(CleanEnd::Committed)),
        ),
        (CleanPhase::Saving, CleanEvent::Completed) => (
            CleanPhase::Done,
            CleanAction::Finish(Ok(CleanEnd::SavedToBranch)),
        ),
        (CleanPhase::Discarding, CleanEvent::Completed) => (
            CleanPhase::Done,
            CleanAction::Finish(Ok(CleanEnd::Discarded)),
        ),
        _ => clean_refused(),
    }
}

/// A working copy that lags the repository is never offered a commit on its
/// branch: the operator gets to save to a new branch, to discard, or to
/// cancel. To cancel ends with the cancellation before any command; to
/// discard runs the revert and the cleanup and ends well.
pub proof fn lemma_cleaning_in_review(i: int)
    ensures
        clean_start(true, true).1 == CleanActionModel::Ask(
            seq![CleanupChoice::SaveToBranch, CleanupChoice::Discard, CleanupChoice::Cancel],
        ),
        clean_step(true, CleanPhase::Asking, CleanEventModel::Chosen(i)).1
            != CleanActionModel::AskMessage,
        clean_step(true, CleanPhase::Asking, CleanEventModel::Chosen(2)) == (
            CleanPhase::Done,
            CleanActionModel::Finish(Err::<CleanEnd, ErrorModel>(ErrorModel::OperationCancelled)),
        ),
        clean_step(true, CleanPhase::Asking, CleanEventModel::Chosen(1)) == (
            CleanPhase::Discarding,
            CleanActionModel::Discard(discard_lines()),
        ),
        clean_step(true, CleanPhase::Discarding, CleanEventModel::Completed) == (
            CleanPhase::Done,
            CleanActionModel::Finish(Ok::<CleanEnd, ErrorModel>(CleanEnd::Discarded)),
        ),
        clean_start(false, true) == (
            CleanPhase::Done,
            CleanActionModel::Finish(Ok::<CleanEnd, ErrorModel>(CleanEnd::Clean)),
        ),
{
}

} // verus!
