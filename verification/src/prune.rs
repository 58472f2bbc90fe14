//! The permanent removal of a project: the repository is exported, filtered
//! and imported into a fresh repository, which then takes the place of the
//! source.

use crate::backend::{svnadmin_create, svnadmin_dump, svnadmin_load, svndumpfilter, BackendCommand};
use crate::error::{validation, AppError, ErrorModel};
use crate::text::{
    chars_eq, chars_last_piece, chars_to_string, join2, last_piece, str_chars, trim_end_class,
    trim_end_in, CharClass,
};
use vstd::prelude::*;
use vstd::string::*;

verus! {

/// One attempt to rewrite a repository without a project.
#[derive(Debug)]
pub struct PruneJob {
    pub source_repo_path: String,
    pub excluded_project_name: String,
    pub temp_repo_path: String,
    pub backup_path: String,
}

/// What a `PruneJob` holds, as mathematical values.
pub struct JobModel {
    pub source: Seq<char>,
    pub project: Seq<char>,
    pub temp: Seq<char>,
    pub backup: Seq<char>,
}

impl View for PruneJob {
    type V = JobModel;

    open spec fn view(&self) -> JobModel {
        JobModel {
            source: self.source_repo_path@,
            project: self.excluded_project_name@,
            temp: self.temp_repo_path@,
            backup: self.backup_path@,
        }
    }
}

/// The characters that part the segments of a path.
pub open spec fn separators() -> CharClass {
    CharClass::Either('/', '\\')
}

/// A path without the separators that it ends in.
pub open spec fn path_stem(path: Seq<char>) -> Seq<char> {
    trim_end_class(path, separators())
}

/// The name of a repository: the last segment of its path.
pub open spec fn repo_name_of(path: Seq<char>) -> Seq<char> {
    last_piece(path_stem(path), separators())
}

/// Whether a path names a repository: its last segment is a name, and not
/// one of the two that stand for a directory itself and for its parent.
pub open spec fn names_repository(path: Seq<char>) -> bool {
    let name = repo_name_of(path);
    name.len() > 0 && name != "."@ && name != ".."@
}

/// The job that removes `project` from the repository at `path`: the fresh
/// repository is made beside the source under its name and `_gc`, the
/// backup under its name and `_backup`.
pub open spec fn job_for(path: Seq<char>, project: Seq<char>) -> JobModel {
    JobModel {
        source: path,
        project,
        temp: path_stem(path) + "_gc"@,
        backup: path_stem(path) + "_backup"@,
    }
}

/// The name of the repository at `repo_fs_path`.
pub fn repo_name(repo_fs_path: &str) -> (r: String)
    ensures
        r@ == repo_name_of(repo_fs_path@),
{
    let stem = trim_end_in(&str_chars(repo_fs_path), CharClass::Either('/', '\\'));
    chars_to_string(&chars_last_piece(&stem, CharClass::Either('/', '\\')))
}

impl PruneJob {
    /// The job that removes `project_name` from the repository at
    /// `repo_fs_path`. A path that names no repository is refused.
    pub fn new(repo_fs_path: &str, project_name: &str) -> (r: Result<PruneJob, AppError>)
        ensures
            match r {
                Ok(job) => names_repository(repo_fs_path@) && job@ == job_for(
                    repo_fs_path@,
                    project_name@,
                ),
                Err(e) => !names_repository(repo_fs_path@) && e@ == ErrorModel::Validation(
                    "Cannot determine repository name"@,
                ),
            },
    {
        let stem = trim_end_in(&str_chars(repo_fs_path), CharClass::Either('/', '\\'));
        let name = chars_last_piece(&stem, CharClass::Either('/', '\\'));
        if name.len() == 0 || chars_eq(&name, &str_chars(".")) || chars_eq(
            &name,
            &str_chars(".."),
        ) {
            return Err(validation("Cannot determine repository name"));
        }
        let stem_text = chars_to_string(&stem);
        Ok(
            PruneJob {
                source_repo_path: String::from_str(repo_fs_path),
                excluded_project_name: String::from_str(project_name),
                temp_repo_path: join2(stem_text.as_str(), "_gc"),
                backup_path: join2(stem_text.as_str(), "_backup"),
            },
        )
    }
}

/// Where a prune stands.
#[derive(Debug)]
pub enum PrunePhase {
    /// The operator is asked whether the working copy may be switched to the
    /// latest revision first.
    ConfirmSwitch,
    /// The working copy is being switched.
    Switching,
    /// The operator is asked to confirm the removal.
    Confirm,
    /// A leftover of an earlier attempt is being removed.
    ClearTemp,
    /// The fresh repository is being created.
    CreateTemp,
    /// Export, filter and import are running.
    Pipeline,
    /// An earlier backup is being removed.
    ClearBackup,
    /// The source repository is being renamed to the backup.
    MoveAside,
    /// The fresh repository is being renamed to the source's path.
    MoveIn,
    /// The backup is being renamed back, after the failure held here.
    Restore(AppError),
    /// The working copy is being repaired.
    Repair,
    /// The local checkout of the project is being removed.
    RemoveCheckout,
    /// The prune has ended.
    Done,
}

/// What the caller reports back.
#[derive(Debug)]
pub enum PruneEvent {
    /// The operator answered yes or no.
    Answer(bool),
    /// The action succeeded.
    Completed,
    /// The import ran and exited with a failure.
    LoadRejected,
    /// The action failed.
    Failed(AppError),
}

/// What the caller is to do next.
#[derive(Debug)]
pub enum PruneAction {
    /// Ask whether to switch to the latest revision.
    AskSwitch,
    /// Ask whether to remove the project for good.
    AskConfirm,
    /// Switch the working copy to the latest revision.
    Switch,
    /// Remove the directory, if it exists.
    RemoveDir(String),
    /// Run the command.
    Run(BackendCommand),
    /// Run the three commands at once, the output of each feeding the next,
    /// and wait for the last.
    Pipe { dump: BackendCommand, filter: BackendCommand, load: BackendCommand },
    /// Rename the directory.
    Rename { from: String, to: String },
    /// Point the working copy at the rewritten repository.
    RepairWorkspace,
    /// Remove the local checkout of the project; a failure is a warning.
    RemoveCheckout,
    /// Stop, with this outcome.
    Finish(Result<(), AppError>),
}

/// A phase as a mathematical value.
pub enum PhaseModel {
    ConfirmSwitch,
    Switching,
    Confirm,
    ClearTemp,
    CreateTemp,
    Pipeline,
    ClearBackup,
    MoveAside,
    MoveIn,
    Restore(ErrorModel),
    Repair,
    RemoveCheckout,
    Done,
}

/// An event as a mathematical value.
pub enum PruneEventModel {
    Answer(bool),
    Completed,
    LoadRejected,
    Failed(ErrorModel),
}

/// An action as a mathematical value.
pub enum PruneActionModel {
    AskSwitch,
    AskConfirm,
    Switch,
    RemoveDir(Seq<char>),
    Run(Seq<Seq<char>>),
    Pipe { dump: Seq<Seq<char>>, filter: Seq<Seq<char>>, load: Seq<Seq<char>> },
    Rename { from: Seq<char>, to: Seq<char> },
    RepairWorkspace,
    RemoveCheckout,
    Finish(Result<(), ErrorModel>),
}

impl View for PrunePhase {
    type V = PhaseModel;

    open spec fn view(&self) -> PhaseModel {
        match self {
            PrunePhase::ConfirmSwitch => PhaseModel::ConfirmSwitch,
            PrunePhase::Switching => PhaseModel::Switching,
            PrunePhase::Confirm => PhaseModel::Confirm,
            PrunePhase::ClearTemp => PhaseModel::ClearTemp,
            PrunePhase::CreateTemp => PhaseModel::CreateTemp,
            PrunePhase::Pipeline => PhaseModel::Pipeline,
            PrunePhase::ClearBackup => PhaseModel::ClearBackup,
            PrunePhase::MoveAside => PhaseModel::MoveAside,
            PrunePhase::MoveIn => PhaseModel::MoveIn,
            PrunePhase::Restore(e) => PhaseModel::Restore(e@),
            PrunePhase::Repair => PhaseModel::Repair,
            PrunePhase::RemoveCheckout => PhaseModel::RemoveCheckout,
            PrunePhase::Done => PhaseModel::Done,
        }
    }
}

impl View for PruneEvent {
    type V = PruneEventModel;

    open spec fn view(&self) -> PruneEventModel {
        match self {
            PruneEvent::Answer(yes) => PruneEventModel::Answer(*yes),
            PruneEvent::Completed => PruneEventModel::Completed,
            PruneEvent::LoadRejected => PruneEventModel::LoadRejected,
            PruneEvent::Failed(e) => PruneEventModel::Failed(e@),
        }
    }
}

impl View for PruneAction {
    type V = PruneActionModel;

    open spec fn view(&self) -> PruneActionModel {
        match self {
            PruneAction::AskSwitch => PruneActionModel::AskSwitch,
            PruneAction::AskConfirm => PruneActionModel::AskConfirm,
            PruneAction::Switch => PruneActionModel::Switch,
            PruneAction::RemoveDir(path) => PruneActionModel::RemoveDir(path@),
            PruneAction::Run(cmd) => PruneActionModel::Run(cmd.line()),
            PruneAction::Pipe { dump, filter, load } => PruneActionModel::Pipe {
                dump: dump.line(),
                filter: filter.line(),
                load: load.line(),
            },
            PruneAction::Rename { from, to } => PruneActionModel::Rename { from: from@, to: to@ },
            PruneAction::RepairWorkspace => PruneActionModel::RepairWorkspace,
            PruneAction::RemoveCheckout => PruneActionModel::RemoveCheckout,
            PruneAction::Finish(Ok(_)) => PruneActionModel::Finish(Ok(())),
            PruneAction::Finish(Err(e)) => PruneActionModel::Finish(Err(e@)),
        }
    }
}

/// The three commands of the pipeline: the full export of the source, the
/// filter that drops the project, renumbers the revisions and drops those
/// left empty, and the import into the fresh repository.
pub open spec fn pipeline(job: JobModel) -> PruneActionModel {
    PruneActionModel::Pipe {
        dump: seq!["svnadmin"@, "dump"@, job.source, "--quiet"@],
        filter: seq![
            "svndumpfilter"@,
            "exclude"@,
            job.project,
            "--drop-empty-revs"@,
            "--renumber-revs"@,
            "--quiet"@,
        ],
        load: seq!["svnadmin"@, "load"@, job.temp, "--quiet"@, "--ignore-uuid"@],
    }
}

/// The end of a prune with a failure of this library's own.
pub open spec fn refused(message: Seq<char>) -> (PhaseModel, PruneActionModel) {
    (PhaseModel::Done, PruneActionModel::Finish(Err(ErrorModel::Validation(message))))
}

/// The end of a prune that the operator declined.
pub open spec fn cancelled() -> (PhaseModel, PruneActionModel) {
    (PhaseModel::Done, PruneActionModel::Finish(Err(ErrorModel::OperationCancelled)))
}

/// How a prune begins: a working copy that lags the repository has to be
/// switched to the latest revision first, if the operator agrees.
pub open spec fn prune_start(review_state: bool) -> (PhaseModel, PruneActionModel) {
    if review_state {
        (PhaseModel::ConfirmSwitch, PruneActionModel::AskSwitch)
    } else {
        (PhaseModel::Confirm, PruneActionModel::AskConfirm)
    }
}

/// The next phase and action of a prune.
///
/// Every failure ends the prune with that failure, with two exceptions.
/// Where the fresh repository cannot be renamed into place, the backup is
/// renamed back first; the failure of the swap is reported once that is
/// done, and the failure of the restore if the restore fails too. Where the
/// local checkout cannot be removed at the very end, the prune has still
/// succeeded.
pub open spec fn prune_step(job: JobModel, phase: PhaseModel, event: PruneEventModel) -> (
    PhaseModel,
    PruneActionModel,
) {
    let out_of_turn = refused("Repository pruning received an event out of turn"@);
    match (phase, event) {
        (PhaseModel::Done, _) => out_of_turn,
        (PhaseModel::Restore(e), PruneEventModel::Completed) => (
            PhaseModel::Done,
            PruneActionModel::Finish(Err(e)),
        ),
        (PhaseModel::RemoveCheckout, PruneEventModel::Failed(_)) => (
            PhaseModel::Done,
            PruneActionModel::Finish(Ok(())),
        ),
        (PhaseModel::MoveIn, PruneEventModel::Failed(e)) => (
            PhaseModel::Restore(e),
            PruneActionModel::Rename { from: job.backup, to: job.source },
        ),
        (_, PruneEventModel::Failed(e)) => (PhaseModel::Done, PruneActionModel::Finish(Err(e))),
        (PhaseModel::ConfirmSwitch, PruneEventModel::Answer(yes)) => if yes {
            (PhaseModel::Switching, PruneActionModel::Switch)
        } else {
            cancelled()
        },
        (PhaseModel::Switching, PruneEventModel::Completed) => (
            PhaseModel::Confirm,
            PruneActionModel::AskConfirm,
        ),
        (PhaseModel::Confirm, PruneEventModel::Answer(yes)) => if yes {
            (PhaseModel::ClearTemp, PruneActionModel::RemoveDir(job.temp))
        } else {
            cancelled()
        },
        (PhaseModel::ClearTemp, PruneEventModel::Completed) => (
            PhaseModel::CreateTemp,
            PruneActionModel::Run(seq!["svnadmin"@, "create"@, job.temp]),
        ),
        (PhaseModel::CreateTemp, PruneEventModel::Completed) => (
            PhaseModel::Pipeline,
            pipeline(job),
        ),
        (PhaseModel::Pipeline, PruneEventModel::Completed) => (
            PhaseModel::ClearBackup,
            PruneActionModel::RemoveDir(job.backup),
        ),
        (PhaseModel::Pipeline, PruneEventModel::LoadRejected) => refused(
            "Loading into temporary repository failed"@,
        ),
        (PhaseModel::ClearBackup, PruneEventModel::Completed) => (
            PhaseModel::MoveAside,
            PruneActionModel::Rename { from: job.source, to: job.backup },
        ),
        (PhaseModel::MoveAside, PruneEventModel::Completed) => (
            PhaseModel::MoveIn,
            PruneActionModel::Rename { from: job.temp, to: job.source },
        ),
        (PhaseModel::MoveIn, PruneEventModel::Completed) => (
            PhaseModel::Repair,
            PruneActionModel::RepairWorkspace,
        ),
        (PhaseModel::Repair, PruneEventModel::Completed) => (
            PhaseModel::RemoveCheckout,
            PruneActionModel::RemoveCheckout,
        ),
        (PhaseModel::RemoveCheckout, PruneEventModel::Completed) => (
            PhaseModel::Done,
            PruneActionModel::Finish(Ok(())),
        ),
        _ => out_of_turn,
    }
}

/// Whether a failure in this phase ends the prune with that failure: so it
/// is in every phase but the swap, whose failure is held until the backup is
/// back, and the removal of the checkout, whose failure is no failure of the
/// prune.
pub open spec fn passes_failure_on(phase: PrunePhase) -> bool {
    !(phase is Done) && !(phase is MoveIn) && !(phase is RemoveCheckout)
}

/// Begins the permanent removal of a project.
pub fn force_delete(review_state: bool) -> (r: (PrunePhase, PruneAction))
    ensures
        (r.0@, r.1@) == prune_start(review_state),
{
    if review_state {
        (PrunePhase::ConfirmSwitch, PruneAction::AskSwitch)
    } else {
        (PrunePhase::Confirm, PruneAction::AskConfirm)
    }
}

/// The end on an event that does not fit the phase.
fn prune_out_of_turn() -> (r: (PrunePhase, PruneAction))
    ensures
        (r.0@, r.1@) == refused("Repository pruning received an event out of turn"@),
{
    (
        PrunePhase::Done,
        PruneAction::Finish(Err(validation("Repository pruning received an event out of turn"))),
    )
}

/// The end of a prune that the operator declined.
fn prune_cancelled() -> (r: (PrunePhase, PruneAction))
    ensures
        (r.0@, r.1@) == cancelled(),
{
    (PrunePhase::Done, PruneAction::Finish(Err(AppError::OperationCancelled)))
}

/// The three commands of the pipeline.
fn pipeline_of(job: &PruneJob) -> (r: PruneAction)
    ensures
        r@ == pipeline(job@),
{
    let dump = svnadmin_dump(vec![job.source_repo_path.as_str(), "--quiet"].as_slice());
    assert(dump.line() =~= seq!["svnadmin"@, "dump"@, job@.source, "--quiet"@]);
    let filter = svndumpfilter(
        vec![
            "exclude",
            job.excluded_project_name.as_str(),
            "--drop-empty-revs",
            "--renumber-revs",
            "--quiet",
        ].as_slice(),
    );
    assert(filter.line() =~= seq![
        "svndumpfilter"@,
        "exclude"@,
        job@.project,
        "--drop-empty-revs"@,
        "--renumber-revs"@,
        "--quiet"@,
    ]);
    let load = svnadmin_load(
        vec![job.temp_repo_path.as_str(), "--quiet", "--ignore-uuid"].as_slice(),
    );
    assert(load.line() =~= seq!["svnadmin"@, "load"@, job@.temp, "--quiet"@, "--ignore-uuid"@]);
    PruneAction::Pipe { dump, filter, load }
}

/// Takes a prune one step on: from the phase and what the caller reports to
/// the next phase and what the caller is to do.
pub fn force_delete_step(job: &PruneJob, phase: PrunePhase, event: PruneEvent) -> (r: (
    PrunePhase,
    PruneAction,
))
    ensures
        (r.0@, r.1@) == prune_step(job@, phase@, event@),
        passes_failure_on(phase) ==> (event matches PruneEvent::Failed(e) ==> r.1
            == PruneAction::Finish(Err(e))),
        phase is MoveIn ==> (event matches PruneEvent::Failed(e) ==> r.0 == PrunePhase::Restore(e)),
        event is Completed ==> (phase matches PrunePhase::Restore(e) ==> r.1 == PruneAction::Finish(
            Err(e),
        )),
{
    match (phase, event) {
        (PrunePhase::Done, _) => prune_out_of_turn(),
        (PrunePhase::Restore(e), PruneEvent::Completed) => (
            PrunePhase::Done,
            PruneAction::Finish(Err(e)),
        ),
        (PrunePhase::RemoveCheckout, PruneEvent::Failed(_)) => (
            PrunePhase::Done,
            PruneAction::Finish(Ok(())),
        ),
        (PrunePhase::MoveIn, PruneEvent::Failed(e)) => (
            PrunePhase::Restore(e),
            PruneAction::Rename {
                from: job.backup_path.clone(),
                to: job.source_repo_path.clone(),
            },
        ),
        (_, PruneEvent::Failed(e)) => (PrunePhase::Done, PruneAction::Finish(Err(e))),
        (PrunePhase::ConfirmSwitch, PruneEvent::Answer(yes)) => if yes {
            (PrunePhase::Switching, PruneAction::Switch)
        } else {
            prune_cancelled()
        },
        (PrunePhase::Switching, PruneEvent::Completed) => (
            PrunePhase::Confirm,
            PruneAction::AskConfirm,
        ),
        (PrunePhase::Confirm, PruneEvent::Answer(yes)) => if yes {
            (PrunePhase::ClearTemp, PruneAction::RemoveDir(job.temp_repo_path.clone()))
        } else {
            prune_cancelled()
        },
        (PrunePhase::ClearTemp, PruneEvent::Completed) => (
            PrunePhase::CreateTemp,
            PruneAction::Run(svnadmin_create(job.temp_repo_path.as_str())),
        ),
        (PrunePhase::CreateTemp, PruneEvent::Completed) => (
            PrunePhase::Pipeline,
            pipeline_of(job),
        ),
        (PrunePhase::Pipeline, PruneEvent::Completed) => (
            PrunePhase::ClearBackup,
            PruneAction::RemoveDir(job.backup_path.clone()),
        ),
        (PrunePhase::Pipeline, PruneEvent::LoadRejected) => (
            PrunePhase::Done,
            PruneAction::Finish(Err(validation("Loading into temporary repository failed"))),
        ),
        (PrunePhase::ClearBackup, PruneEvent::Completed) => (
            PrunePhase::MoveAside,
            PruneAction::Rename {
                from: job.source_repo_path.clone(),
                to: job.backup_path.clone(),
            },
        ),
        (PrunePhase::MoveAside, PruneEvent::Completed) => (
            PrunePhase::MoveIn,
            PruneAction::Rename {
                from: job.temp_repo_path.clone(),
                to: job.source_repo_path.clone(),
            },
        ),
        (PrunePhase::MoveIn, PruneEvent::Completed) => (
            PrunePhase::Repair,
            PruneAction::RepairWorkspace,
        ),
        (PrunePhase::Repair, PruneEvent::Completed) => (
            PrunePhase::RemoveCheckout,
            PruneAction::RemoveCheckout,
        ),
        (PrunePhase::RemoveCheckout, PruneEvent::Completed) => (
            PrunePhase::Done,
            PruneAction::Finish(Ok(())),
        ),
        _ => prune_out_of_turn(),
    }
}

/// What stands at each path of the directory that holds the repository:
/// directories by their path, each with a mark for its content.
pub type Dirs = Map<Seq<char>, int>;

/// The directories after a rename that succeeded.
pub open spec fn renamed(dirs: Dirs, from: Seq<char>, to: Seq<char>) -> Dirs {
    dirs.remove(from).insert(to, dirs[from])
}

/// If the import fails, whether it cannot run or exits with a failure, the
/// prune ends there: no rename is asked for, so the source repository is
/// untouched. A rename of the source is asked for only once an earlier
/// backup has been cleared, and that only once the pipeline has succeeded.
pub proof fn lemma_failed_import_leaves_source(
    job: JobModel,
    phase: PhaseModel,
    event: PruneEventModel,
    e: ErrorModel,
)
    ensures
        prune_step(job, PhaseModel::Pipeline, PruneEventModel::Failed(e)) == (
            PhaseModel::Done,
            PruneActionModel::Finish(Err::<(), ErrorModel>(e)),
        ),
        prune_step(job, PhaseModel::Pipeline, PruneEventModel::LoadRejected).0 == PhaseModel::Done,
        prune_step(job, PhaseModel::Pipeline, PruneEventModel::LoadRejected).1 is Finish,
        prune_step(job, phase, event).1 is Rename ==> phase == PhaseModel::ClearBackup || phase
            == PhaseModel::MoveAside || phase == PhaseModel::MoveIn,
        prune_step(job, phase, event).0 == PhaseModel::ClearBackup ==> phase
            == PhaseModel::Pipeline && event == PruneEventModel::Completed,
        prune_step(job, phase, event).0 == PhaseModel::MoveAside ==> phase
            == PhaseModel::ClearBackup,
        prune_step(job, phase, event).0 == PhaseModel::MoveIn ==> phase == PhaseModel::MoveAside,
{
}

/// If the fresh repository cannot be renamed into place after the source
/// was renamed to the backup, the backup is renamed back at once, and once
/// that is done the source's path holds what it held before the prune;
/// the failure of the swap is what the prune ends with.
pub proof fn lemma_failed_swap_restores_source(
    path: Seq<char>,
    project: Seq<char>,
    dirs: Dirs,
    e: ErrorModel,
)
    requires
        dirs.dom().contains(path),
    ensures
        ({
            let job = job_for(path, project);
            let aside = prune_step(job, PhaseModel::ClearBackup, PruneEventModel::Completed);
            let swap = prune_step(job, aside.0, PruneEventModel::Completed);
            let restore = prune_step(job, swap.0, PruneEventModel::Failed(e));
            let end = prune_step(job, restore.0, PruneEventModel::Completed);
            let moved = renamed(dirs, job.source, job.backup);
            let back = renamed(moved, job.backup, job.source);
            &&& aside.1 == (PruneActionModel::Rename { from: job.source, to: job.backup })
            &&& swap.1 == (PruneActionModel::Rename { from: job.temp, to: job.source })
            &&& restore.1 == (PruneActionModel::Rename { from: job.backup, to: job.source })
            &&& end == (PhaseModel::Done, PruneActionModel::Finish(Err::<(), ErrorModel>(e)))
            &&& !moved.dom().contains(job.source)
            &&& back.dom().contains(job.source)
            &&& back[job.source] == dirs[job.source]
            &&& !back.dom().contains(job.backup)
        }),
{
    lemma_job_paths_differ(path, project);
}

/// Where every step succeeds, the fresh repository takes the place of the
/// source, and the source stays as the backup: after the two renames the
/// source's path holds what the fresh repository held, and the backup's
/// path holds what the source held.
pub proof fn lemma_swap_keeps_backup(path: Seq<char>, project: Seq<char>, dirs: Dirs)
    requires
        dirs.dom().contains(path),
        dirs.dom().contains(job_for(path, project).temp),
    ensures
        ({
            let job = job_for(path, project);
            let aside = prune_step(job, PhaseModel::ClearBackup, PruneEventModel::Completed);
            let swap = prune_step(job, aside.0, PruneEventModel::Completed);
            let repair = prune_step(job, swap.0, PruneEventModel::Completed);
            let cleared = dirs.remove(job.backup);
            let moved = renamed(cleared, job.source, job.backup);
            let swapped = renamed(moved, job.temp, job.source);
            &&& aside.1 == (PruneActionModel::Rename { from: job.source, to: job.backup })
            &&& swap.1 == (PruneActionModel::Rename { from: job.temp, to: job.source })
            &&& repair.1 == PruneActionModel::RepairWorkspace
            &&& swapped[job.source] == dirs[job.temp]
            &&& swapped[job.backup] == dirs[job.source]
            &&& !swapped.dom().contains(job.temp)
        }),
{
    lemma_job_paths_differ(path, project);
}

/// The paths of a job are three different paths: the fresh repository and
/// the backup never stand where the source does.
pub proof fn lemma_job_paths_differ(path: Seq<char>, project: Seq<char>)
    ensures
        job_for(path, project).temp != job_for(path, project).backup,
        job_for(path, project).source != job_for(path, project).backup,
        job_for(path, project).source != job_for(path, project).temp,
{
    reveal_strlit("_gc");
    reveal_strlit("_backup");
    let stem = path_stem(path);
    let job = job_for(path, project);
    crate::text::lemma_back_class_bounds(path, separators(), path.len() as int);
    assert(job.temp.len() == stem.len() + 3);
    lemma_stem_tail(path, path.len() as int);
    if path.len() > stem.len() {
    }
}

/// Every character after the stem of a path is a separator.
proof fn lemma_stem_tail(path: Seq<char>, j: int)
    requires
        0 <= j <= path.len(),
    ensures
        forall|i: int|
            crate::text::back_class(path, separators(), j) <= i < j ==> separators().has(
                #[trigger] path[i],
            ),
    decreases j,
{
    if 0 < j && separators().has(path[j - 1]) {
        lemma_stem_tail(path, j - 1);
    }
}

} // verus!
