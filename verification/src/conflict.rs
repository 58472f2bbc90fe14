//! Conflicts of a working copy and how each kind is resolved.

use crate::backend::{svn_add, svn_delete, svn_resolve, svn_revert, svn_update, BackendCommand};
use crate::error::{validation, AppError, ErrorModel};
use crate::status::{entry_views, ItemKind, StatusEntry, StatusModel};
use vstd::prelude::*;
use vstd::string::*;

verus! {

/// The kinds of conflict, each with its own way of being resolved.
#[derive(Debug, Clone, Copy, PartialEq, Eq, Structural)]
pub enum ConflictKind {
    /// The content or the properties of a file clash.
    Standard,
    /// The structure clashes: a rename, a move or a deletion.
    TreeConflict,
    /// Something on disk stands where a versioned item is expected.
    Obstructed,
    /// The metadata of the working copy is inconsistent.
    Incomplete,
}

/// One conflicted path.
#[derive(Debug)]
pub struct ConflictItem {
    pub path: String,
    pub kind: ConflictKind,
}

/// What a `ConflictItem` holds, as mathematical values.
pub struct ConflictModel {
    pub path: Seq<char>,
    pub kind: ConflictKind,
}

impl View for ConflictItem {
    type V = ConflictModel;

    open spec fn view(&self) -> ConflictModel {
        ConflictModel { path: self.path@, kind: self.kind }
    }
}

/// The models of the items of `items`.
pub open spec fn conflict_views(items: Seq<ConflictItem>) -> Seq<ConflictModel> {
    items.map_values(|c: ConflictItem| c@)
}

/// The kind of conflict that an entry is in, if it is in one. A conflict of
/// properties alone is a standard one.
pub open spec fn conflict_kind_of(e: StatusModel) -> Option<ConflictKind> {
    match e.item_kind {
        ItemKind::Incomplete => Some(ConflictKind::Incomplete),
        ItemKind::TreeConflicted => Some(ConflictKind::TreeConflict),
        ItemKind::Obstructed => Some(ConflictKind::Obstructed),
        ItemKind::Conflicted => Some(ConflictKind::Standard),
        _ => if e.props_conflicted {
            Some(ConflictKind::Standard)
        } else {
            None
        },
    }
}

/// The conflicts among the entries from index `i` on, in order.
pub open spec fn conflicts_from(entries: Seq<StatusModel>, i: int) -> Seq<ConflictModel>
    decreases entries.len() - i,
{
    if i < 0 || i >= entries.len() {
        Seq::empty()
    } else {
        match conflict_kind_of(entries[i]) {
            Some(kind) => seq![ConflictModel { path: entries[i].path, kind }] + conflicts_from(
                entries,
                i + 1,
            ),
            None => conflicts_from(entries, i + 1),
        }
    }
}

/// The conflicts of a working copy, in the order of its entries.
pub open spec fn conflicts_of(entries: Seq<StatusModel>) -> Seq<ConflictModel> {
    conflicts_from(entries, 0)
}

/// The kind of conflict that `entry` is in, if it is in one.
pub fn conflict_kind(entry: &StatusEntry) -> (r: Option<ConflictKind>)
    ensures
        r == conflict_kind_of(entry@),
{
    match entry.item_kind {
        ItemKind::Incomplete => Some(ConflictKind::Incomplete),
        ItemKind::TreeConflicted => Some(ConflictKind::TreeConflict),
        ItemKind::Obstructed => Some(ConflictKind::Obstructed),
        ItemKind::Conflicted => Some(ConflictKind::Standard),
        _ => if entry.props_conflicted {
            Some(ConflictKind::Standard)
        } else {
            None
        },
    }
}

/// The conflicted paths of a working copy, in the order of its entries.
pub fn get_conflicted_files(entries: &Vec<StatusEntry>) -> (r: Vec<ConflictItem>)
    ensures
        conflict_views(r@) == conflicts_of(entry_views(entries@)),
{
    let mut out: Vec<ConflictItem> = Vec::new();
    let mut i: usize = 0;
    while i < entries.len()
        invariant
            i <= entries.len(),
            conflicts_of(entry_views(entries@)) == conflict_views(out@) + conflicts_from(
                entry_views(entries@),
                i as int,
            ),
        decreases entries.len() - i,
    {
        match conflict_kind(&entries[i]) {
            Some(kind) => {
                let item = ConflictItem { path: entries[i].path.clone(), kind };
                out.push(item);
            },
            None => {},
        }
        i += 1;
    }
    out
}

/// A working copy none of whose entries is in a conflict has no conflicts
/// to resolve.
pub proof fn lemma_no_conflicts(entries: Seq<StatusModel>, i: int)
    requires
        forall|j: int| 0 <= j < entries.len() ==> conflict_kind_of(#[trigger] entries[j]) is None,
    ensures
        conflicts_from(entries, i).len() == 0,
    decreases entries.len() - i,
{
    if 0 <= i < entries.len() {
        lemma_no_conflicts(entries, i + 1);
    }
}

/// What the operator decides of a conflicted path.
#[derive(Debug, Clone, Copy, PartialEq, Eq, Structural)]
pub enum Resolution {
    /// The local state stands.
    KeepMine,
    /// The upstream state stands.
    DiscardMine,
}

/// The two choices that the operator is given, in the order in which
/// `Resolution::from_selection` reads them.
pub fn resolution_choices() -> (r: Vec<String>)
    ensures
        r.len() == 2,
        r[0]@ == "Keep My Version (Keep Local Changes)"@,
        r[1]@ == "Discard My Version (Delete Local Changes)"@,
{
    let mut r: Vec<String> = Vec::new();
    r.push(String::from_str("Keep My Version (Keep Local Changes)"));
    r.push(String::from_str("Discard My Version (Delete Local Changes)"));
    r
}

impl Resolution {
    /// The decision that the index of a choice stands for.
    pub fn from_selection(selection: usize) -> (r: Option<Resolution>)
        ensures
            r == if selection == 0 {
                Some(Resolution::KeepMine)
            } else if selection == 1 {
                Some(Resolution::DiscardMine)
            } else {
                None
            },
    {
        if selection == 0 {
            Some(Resolution::KeepMine)
        } else if selection == 1 {
            Some(Resolution::DiscardMine)
        } else {
            None
        }
    }
}

/// One step of a resolution.
#[derive(Debug)]
pub enum ResolveStep {
    /// Run the backend.
    Run(BackendCommand),
    /// Delete what stands at the path on disk, file or directory, if
    /// anything stands there.
    RemoveLocal(String),
}

/// A step as a mathematical value.
pub enum StepModel {
    Run(Seq<Seq<char>>),
    RemoveLocal(Seq<char>),
}

impl View for ResolveStep {
    type V = StepModel;

    open spec fn view(&self) -> StepModel {
        match self {
            ResolveStep::Run(cmd) => StepModel::Run(cmd.line()),
            ResolveStep::RemoveLocal(path) => StepModel::RemoveLocal(path@),
        }
    }
}

/// The models of the steps of `steps`.
pub open spec fn step_views(steps: Seq<ResolveStep>) -> Seq<StepModel> {
    steps.map_values(|s: ResolveStep| s@)
}

/// The registration of what stands at `path`, whatever the backend thinks
/// of it.
pub open spec fn force_add(path: Seq<char>) -> StepModel {
    StepModel::Run(
        seq!["svn"@, "add"@, "--parents"@, "--depth"@, "empty"@, "--force"@, "--force"@, path],
    )
}

/// The steps that resolve a conflict of the given kind at `path`, in order;
/// none for an inconsistent working copy, which cannot be resolved here.
pub open spec fn resolution_plan(path: Seq<char>, kind: ConflictKind, choice: Resolution)
    -> Option<Seq<StepModel>> {
    match kind {
        ConflictKind::Standard => Some(
            seq![
                StepModel::Run(
                    seq![
                        "svn"@,
                        "resolve"@,
                        "--accept"@,
                        if choice == Resolution::KeepMine {
                            "mine-full"@
                        } else {
                            "theirs-full"@
                        },
                        path,
                    ],
                ),
            ],
        ),
        ConflictKind::TreeConflict => Some(
            seq![StepModel::Run(seq!["svn"@, "resolve"@, "--accept"@, "working"@, path])] + (
            match choice {
                Resolution::DiscardMine => seq![
                    StepModel::Run(seq!["svn"@, "revert"@, "-R"@, path]),
                    StepModel::Run(seq!["svn"@, "update"@, path]),
                ],
                Resolution::KeepMine => seq![force_add(path)],
            }),
        ),
        ConflictKind::Obstructed => Some(
            match choice {
                Resolution::DiscardMine => seq![
                    StepModel::RemoveLocal(path),
                    StepModel::Run(seq!["svn"@, "revert"@, path]),
                    StepModel::Run(seq!["svn"@, "update"@, path]),
                ],
                Resolution::KeepMine => seq![
                    StepModel::Run(seq!["svn"@, "delete"@, "--keep-local"@, "--force"@, path]),
                    force_add(path),
                ],
            },
        ),
        ConflictKind::Incomplete => None,
    }
}

/// The steps that carry out the operator's decision on one conflicted path.
/// An inconsistent working copy is refused, whatever the decision.
pub fn resolve_single_conflict(item: &ConflictItem, choice: Resolution) -> (r: Result<
    Vec<ResolveStep>,
    AppError,
>)
    ensures
        match r {
            Ok(steps) => resolution_plan(item.path@, item.kind, choice) == Some(step_views(steps@)),
            Err(e) => item.kind == ConflictKind::Incomplete && e@ == ErrorModel::IncompleteState,
        },
{
    let path = item.path.as_str();
    let mut steps: Vec<ResolveStep> = Vec::new();
    match item.kind {
        ConflictKind::Standard => {
            let accept = match choice {
                Resolution::KeepMine => "mine-full",
                Resolution::DiscardMine => "theirs-full",
            };
            let cmd = svn_resolve(vec!["--accept", accept, path].as_slice());
            assert(cmd.line() =~= seq!["svn"@, "resolve"@, "--accept"@, accept@, path@]);
            steps.push(ResolveStep::Run(cmd));
        },
        ConflictKind::TreeConflict => {
            let cmd = svn_resolve(vec!["--accept", "working", path].as_slice());
            assert(cmd.line() =~= seq!["svn"@, "resolve"@, "--accept"@, "working"@, path@]);
            steps.push(ResolveStep::Run(cmd));
            match choice {
                Resolution::DiscardMine => {
                    let revert = svn_revert(vec!["-R", path].as_slice());
                    assert(revert.line() =~= seq!["svn"@, "revert"@, "-R"@, path@]);
                    steps.push(ResolveStep::Run(revert));
                    let update = svn_update(vec![path].as_slice());
                    assert(update.line() =~= seq!["svn"@, "update"@, path@]);
                    steps.push(ResolveStep::Run(update));
                },
                Resolution::KeepMine => {
                    let add = svn_add(vec!["--force", path].as_slice());
                    assert(add.line() =~= seq![
                        "svn"@,
                        "add"@,
                        "--parents"@,
                        "--depth"@,
                        "empty"@,
                        "--force"@,
                        "--force"@,
                        path@,
                    ]);
                    steps.push(ResolveStep::Run(add));
                },
            }
        },
        ConflictKind::Obstructed => {
            match choice {
                Resolution::DiscardMine => {
                    steps.push(ResolveStep::RemoveLocal(item.path.clone()));
                    let revert = svn_revert(vec![path].as_slice());
                    assert(revert.line() =~= seq!["svn"@, "revert"@, path@]);
                    steps.push(ResolveStep::Run(revert));
                    let update = svn_update(vec![path].as_slice());
                    assert(update.line() =~= seq!["svn"@, "update"@, path@]);
                    steps.push(ResolveStep::Run(update));
                },
                Resolution::KeepMine => {
                    let delete = svn_delete(vec!["--keep-local", "--force", path].as_slice());
                    assert(delete.line() =~= seq![
                        "svn"@,
                        "delete"@,
                        "--keep-local"@,
                        "--force"@,
                        path@,
                    ]);
                    steps.push(ResolveStep::Run(delete));
                    let add = svn_add(vec!["--force", path].as_slice());
                    assert(add.line() =~= seq![
                        "svn"@,
                        "add"@,
                        "--parents"@,
                        "--depth"@,
                        "empty"@,
                        "--force"@,
                        "--force"@,
                        path@,
                    ]);
                    steps.push(ResolveStep::Run(add));
                },
            }
        },
        ConflictKind::Incomplete => {
            return Err(AppError::IncompleteState);
        },
    }
    Ok(steps)
}

/// Where the resolution of a list of conflicts stands.
#[derive(Debug, Clone, Copy, PartialEq, Eq, Structural)]
pub enum ResolverState {
    /// The operator is being asked about the item of this index.
    Asking(usize),
    /// The steps for the item of this index are being carried out.
    Performing(usize),
    /// The resolution has ended.
    Done,
}

/// What the caller reports back.
#[derive(Debug)]
pub enum ResolverEvent {
    /// The operator has decided.
    Chosen(Resolution),
    /// The steps were carried out.
    Performed,
    /// The prompt or a step failed.
    Failed(AppError),
}

/// What the caller is to do next.
#[derive(Debug)]
pub enum ResolverAction {
    /// Put the item of this index before the operator.
    Ask(usize),
    /// Carry these steps out in order, and stop at the first that fails.
    Perform(Vec<ResolveStep>),
    /// Stop, with this outcome.
    Finish(Result<(), AppError>),
}

/// An event as a mathematical value.
pub enum EventModel {
    Chosen(Resolution),
    Performed,
    Failed(ErrorModel),
}

/// An action as a mathematical value.
pub enum ActionModel {
    Ask(int),
    Perform(Seq<StepModel>),
    Finish(Result<(), ErrorModel>),
}

impl View for ResolverEvent {
    type V = EventModel;

    open spec fn view(&self) -> EventModel {
        match self {
            ResolverEvent::Chosen(c) => EventModel::Chosen(*c),
            ResolverEvent::Performed => EventModel::Performed,
            ResolverEvent::Failed(e) => EventModel::Failed(e@),
        }
    }
}

impl View for ResolverAction {
    type V = ActionModel;

    open spec fn view(&self) -> ActionModel {
        match self {
            ResolverAction::Ask(i) => ActionModel::Ask(*i as int),
            ResolverAction::Perform(steps) => ActionModel::Perform(step_views(steps@)),
            ResolverAction::Finish(Ok(_)) => ActionModel::Finish(Ok(())),
            ResolverAction::Finish(Err(e)) => ActionModel::Finish(Err(e@)),
        }
    }
}

/// What the message of the failure on an event that does not fit the state
/// says.
pub open spec fn out_of_turn_message() -> Seq<char> {
    "Conflict resolution received an event out of turn"@
}

/// What happens when the resolution turns to the item of index `i`: past
/// the last item it ends well; at an inconsistent working copy it ends at
/// once with the failure that tells the operator to repair it; otherwise the
/// operator is asked.
pub open spec fn turn_to(items: Seq<ConflictModel>, i: int) -> (ResolverState, ActionModel) {
    if i < 0 || i >= items.len() {
        (ResolverState::Done, ActionModel::Finish(Ok(())))
    } else if items[i].kind == ConflictKind::Incomplete {
        (
            ResolverState::Done,
            ActionModel::Finish(Err(ErrorModel::IncompleteState)),
        )
    } else {
        (ResolverState::Asking(i as usize), ActionModel::Ask(i))
    }
}

/// The next state and action. A failure ends the resolution with that
/// failure. A decision on the item in question leads to its steps; their
/// completion leads to the next item. Any other event does not fit the
/// state and ends the resolution with a failure of its own.
pub open spec fn resolver_step(items: Seq<ConflictModel>, state: ResolverState, event: EventModel)
    -> (ResolverState, ActionModel) {
    let out_of_turn = (
        ResolverState::Done,
        ActionModel::Finish(Err(ErrorModel::Validation(out_of_turn_message()))),
    );
    match (state, event) {
        (ResolverState::Done, _) => out_of_turn,
        (_, EventModel::Failed(e)) => (ResolverState::Done, ActionModel::Finish(Err(e))),
        (ResolverState::Asking(i), EventModel::Chosen(choice)) => if i < items.len() {
            match resolution_plan(items[i as int].path, items[i as int].kind, choice) {
                Some(steps) => (ResolverState::Performing(i), ActionModel::Perform(steps)),
                None => (
                    ResolverState::Done,
                    ActionModel::Finish(Err(ErrorModel::IncompleteState)),
                ),
            }
        } else {
            out_of_turn
        },
        (ResolverState::Performing(i), EventModel::Performed) => if i < items.len() {
            turn_to(items, i + 1)
        } else {
            out_of_turn
        },
        _ => out_of_turn,
    }
}

/// Turns to the item of index `i`.
fn turn_to_item(items: &Vec<ConflictItem>, i: usize) -> (r: (ResolverState, ResolverAction))
    ensures
        (r.0, r.1@) == turn_to(conflict_views(items@), i as int),
{
    if i >= items.len() {
        (ResolverState::Done, ResolverAction::Finish(Ok(())))
    } else {
        match items[i].kind {
            ConflictKind::Incomplete => (
                ResolverState::Done,
                ResolverAction::Finish(Err(AppError::IncompleteState)),
            ),
            _ => (ResolverState::Asking(i), ResolverAction::Ask(i)),
        }
    }
}

/// Begins the resolution of the given conflicts, in their order. With no
/// conflict it ends at once and nothing is done.
pub fn resolve_conflicts(items: &Vec<ConflictItem>) -> (r: (ResolverState, ResolverAction))
    ensures
        (r.0, r.1@) == turn_to(conflict_views(items@), 0),
{
    turn_to_item(items, 0)
}

/// Takes the resolution one step on: from the state and what the caller
/// reports to the next state and what the caller is to do.
pub fn resolve_conflicts_step(items: &Vec<ConflictItem>, state: ResolverState, event: ResolverEvent)
    -> (r: (ResolverState, ResolverAction))
    ensures
        (r.0, r.1@) == resolver_step(conflict_views(items@), state, event@),
        state != ResolverState::Done ==> (event matches ResolverEvent::Failed(e) ==> r.1
            == ResolverAction::Finish(Err(e))),
{
    match (state, event) {
        (ResolverState::Done, _) => out_of_turn(),
        (_, ResolverEvent::Failed(e)) => (ResolverState::Done, ResolverAction::Finish(Err(e))),
        (ResolverState::Asking(i), ResolverEvent::Chosen(choice)) => {
            if i < items.len() {
                match resolve_single_conflict(&items[i], choice) {
                    Ok(steps) => (ResolverState::Performing(i), ResolverAction::Perform(steps)),
                    Err(e) => (ResolverState::Done, ResolverAction::Finish(Err(e))),
                }
            } else {
                out_of_turn()
            }
        },
        (ResolverState::Performing(i), ResolverEvent::Performed) => {
            if i < items.len() {
                turn_to_item(items, i + 1)
            } else {
                out_of_turn()
            }
        },
        _ => out_of_turn(),
    }
}

/// The end on an event that does not fit the state.
fn out_of_turn() -> (r: (ResolverState, ResolverAction))
    ensures
        r.0 == ResolverState::Done,
        r.1@ == ActionModel::Finish(Err(ErrorModel::Validation(out_of_turn_message()))),
{
    (
        ResolverState::Done,
        ResolverAction::Finish(
            Err(validation("Conflict resolution received an event out of turn")),
        ),
    )
}

/// Resolving is idempotent: where a working copy has no entry in a conflict,
/// as after a resolution that succeeded, the resolution ends at once, well,
/// and asks for nothing.
pub proof fn lemma_resolution_is_idempotent(entries: Seq<StatusModel>)
    requires
        forall|j: int| 0 <= j < entries.len() ==> conflict_kind_of(#[trigger] entries[j]) is None,
    ensures
        turn_to(conflicts_of(entries), 0) == (ResolverState::Done, ActionModel::Finish(Ok(()))),
{
    lemma_no_conflicts(entries, 0);
}

/// The resolution is exhaustive: it ends well only once the steps of the
/// last item have been carried out, or where there was no item at all.
pub proof fn lemma_resolution_is_exhaustive(
    items: Seq<ConflictModel>,
    state: ResolverState,
    event: EventModel,
)
    ensures
        resolver_step(items, state, event).1 == ActionModel::Finish(Ok(())) ==> state
            == ResolverState::Performing((items.len() - 1) as usize) && event
            == EventModel::Performed && items.len() > 0,
        turn_to(items, 0).1 == ActionModel::Finish(Ok(())) ==> items.len() == 0,
{
}

/// A working copy with inconsistent metadata stops the resolution at once,
/// before the operator is asked about it, and a failure of a prompt or of a
/// step stops it with that failure.
pub proof fn lemma_resolution_stops(
    items: Seq<ConflictModel>,
    i: int,
    state: ResolverState,
    e: ErrorModel,
)
    ensures
        0 <= i < items.len() && items[i].kind == ConflictKind::Incomplete ==> turn_to(items, i)
            == (
            ResolverState::Done,
            ActionModel::Finish(Err(ErrorModel::IncompleteState)),
        ),
        state != ResolverState::Done ==> resolver_step(items, state, EventModel::Failed(e)) == (
            ResolverState::Done,
            ActionModel::Finish(Err::<(), ErrorModel>(e)),
        ),
{
}

/// How a resolution ends that starts at the item of index `i`, where the
/// operator decides `choices[k]` of the item of index `k` and every step
/// succeeds.
pub open spec fn resolution_end(items: Seq<ConflictModel>, i: int, choices: Seq<Resolution>)
    -> ActionModel
    decreases items.len() - i,
{
    let turn = turn_to(items, i);
    if 0 <= i < items.len() && turn.1 is Ask {
        let chosen = resolver_step(items, turn.0, EventModel::Chosen(choices[i]));
        if chosen.1 is Perform {
            resolution_end(items, i + 1, choices)
        } else {
            chosen.1
        }
    } else {
        turn.1
    }
}

/// A resolution in which every step succeeds ends well once every item has
/// been put before the operator, whatever the operator decides, unless one
/// of the items is an inconsistent working copy.
pub proof fn lemma_resolution_completes(
    items: Seq<ConflictModel>,
    i: int,
    choices: Seq<Resolution>,
)
    requires
        0 <= i,
        items.len() <= usize::MAX,
        forall|k: int| i <= k < items.len() ==> (#[trigger] items[k]).kind != ConflictKind::Incomplete,
    ensures
        resolution_end(items, i, choices) == ActionModel::Finish(Ok(())),
    decreases items.len() - i,
{
    if i < items.len() {
        lemma_resolution_completes(items, i + 1, choices);
        assert(items[i].kind != ConflictKind::Incomplete);
        assert(resolution_plan(items[i].path, items[i].kind, choices[i]) is Some);
    }
}

/// A resolution stops at the first inconsistent working copy among its
/// items, with the failure that tells the operator to repair it: the items
/// before it are resolved, those after it are not touched.
pub proof fn lemma_resolution_aborts_at_incomplete(
    items: Seq<ConflictModel>,
    i: int,
    m: int,
    choices: Seq<Resolution>,
)
    requires
        0 <= i <= m < items.len(),
        items.len() <= usize::MAX,
        items[m].kind == ConflictKind::Incomplete,
        forall|k: int| i <= k < m ==> (#[trigger] items[k]).kind != ConflictKind::Incomplete,
    ensures
        resolution_end(items, i, choices) == ActionModel::Finish(
            Err(ErrorModel::IncompleteState),
        ),
    decreases m - i,
{
    if i < m {
        lemma_resolution_aborts_at_incomplete(items, i + 1, m, choices);
        assert(items[i].kind != ConflictKind::Incomplete);
        assert(resolution_plan(items[i].path, items[i].kind, choices[i]) is Some);
    }
}

} // verus!
