//! The projects of a repository and their branches, as the backend lists
//! them.

use crate::error::AppError;
use crate::log::{
    first_segment, first_segment_of, is_deletion, log_mentions_project, mentions_project,
    path_views, LogPath, LogPathModel,
};
use crate::text::{
    chars_eq, chars_lines, chars_to_string, file_lines, str_chars, str_eq, string_views, trim,
    trim_chars, trim_class, trim_end_class, trim_end_in, trim_in, views, CharClass,
};
use vstd::prelude::*;
use vstd::string::*;

verus! {

/// Whether a project is in the repository now, was there once, or never
/// was.
#[derive(Debug, Clone, Copy, PartialEq, Eq, Structural)]
pub enum ProjectStatus {
    Active,
    Deleted,
    NonExistent,
}

/// One branch of a project.
#[derive(Debug)]
pub struct BranchInfo {
    pub branch_name: String,
    /// Whether the working copy is on this branch.
    pub is_current_branch: bool,
}

/// One project of the repository.
#[derive(Debug)]
pub struct ProjectInfo {
    pub name: String,
    pub is_deleted: bool,
    pub is_current: bool,
    /// The branches of a project that is in the repository.
    pub branches: Option<Vec<BranchInfo>>,
}

impl View for BranchInfo {
    type V = (Seq<char>, bool);

    open spec fn view(&self) -> (Seq<char>, bool) {
        (self.branch_name@, self.is_current_branch)
    }
}

/// The models of the branches of `branches`.
pub open spec fn branch_views(branches: Seq<BranchInfo>) -> Seq<(Seq<char>, bool)> {
    branches.map_values(|b: BranchInfo| b@)
}

/// What a `ProjectInfo` holds, as mathematical values.
pub struct ProjectModel {
    pub name: Seq<char>,
    pub is_deleted: bool,
    pub is_current: bool,
    pub branches: Option<Seq<(Seq<char>, bool)>>,
}

impl View for ProjectInfo {
    type V = ProjectModel;

    open spec fn view(&self) -> ProjectModel {
        ProjectModel {
            name: self.name@,
            is_deleted: self.is_deleted,
            is_current: self.is_current,
            branches: match self.branches {
                Some(b) => Some(branch_views(b@)),
                None => None,
            },
        }
    }
}

/// The models of the projects of `projects`.
pub open spec fn project_views(projects: Seq<ProjectInfo>) -> Seq<ProjectModel> {
    projects.map_values(|p: ProjectInfo| p@)
}

/// Whether something stands at a URL, from the outcome of asking the
/// backend about it.
pub open spec fn url_exists(outcome: Result<String, AppError>) -> Option<bool> {
    match outcome {
        Ok(info) => Some(info@.len() > 0),
        Err(e) => if e is SvnCommandFailed {
            Some(false)
        } else {
            None
        },
    }
}

/// Whether something stands at a URL, from the outcome of asking the
/// backend about it: it does where the backend says anything of it, and it
/// does not where the backend reports a failure. Any other failure is
/// passed on.
pub fn check_url_exists(outcome: Result<String, AppError>) -> (r: Result<bool, AppError>)
    ensures
        match r {
            Ok(b) => url_exists(outcome) == Some(b),
            Err(e) => url_exists(outcome) is None && outcome == Err::<String, AppError>(e),
        },
{
    match outcome {
        Ok(info) => Ok(str_chars(info.as_str()).len() > 0),
        Err(e) => {
            if e.is_backend_failure() {
                Ok(false)
            } else {
                Err(e)
            }
        },
    }
}

/// The status of a project as far as its URL tells: a project whose URL
/// exists is active; one whose URL does not is taken for non-existent where
/// only active projects are asked for. Otherwise the history decides.
pub fn check_project_exists(url_exists: bool, only_active_check: bool) -> (r: Option<
    ProjectStatus,
>)
    ensures
        r == if url_exists {
            Some(ProjectStatus::Active)
        } else if only_active_check {
            Some(ProjectStatus::NonExistent)
        } else {
            None
        },
{
    if url_exists {
        Some(ProjectStatus::Active)
    } else if only_active_check {
        Some(ProjectStatus::NonExistent)
    } else {
        None
    }
}

/// The status of a project whose URL does not exist, from the history of
/// the repository: it was deleted if the history lists a path of it, and it
/// never existed otherwise.
pub fn project_status_from_log(paths: &Vec<LogPath>, project_name: &str) -> (r: ProjectStatus)
    ensures
        r == if mentions_project(path_views(paths@), project_name@, 0) {
            ProjectStatus::Deleted
        } else {
            ProjectStatus::NonExistent
        },
{
    if log_mentions_project(paths, project_name) {
        ProjectStatus::Deleted
    } else {
        ProjectStatus::NonExistent
    }
}

/// The branch that a line of a listing names: a line that ends in a slash,
/// once the white space around it is dropped, names a directory, and its
/// name is the line without the slashes at its end.
pub open spec fn branch_of_line(line: Seq<char>) -> Option<Seq<char>> {
    let t = trim(line);
    if t.len() > 0 && t.last() == '/' {
        Some(trim_end_class(t, CharClass::One('/')))
    } else {
        None
    }
}

/// The branches that the lines from index `i` on name, each with whether
/// it is the branch `current`.
pub open spec fn branches_from(lines: Seq<Seq<char>>, current: Option<Seq<char>>, i: int) -> Seq<
    (Seq<char>, bool),
>
    decreases lines.len() - i,
{
    if i < 0 || i >= lines.len() {
        Seq::empty()
    } else {
        match branch_of_line(lines[i]) {
            Some(name) => seq![(name, current == Some(name))] + branches_from(
                lines,
                current,
                i + 1,
            ),
            None => branches_from(lines, current, i + 1),
        }
    }
}

/// The branches of a project: the trunk first, then the directories of the
/// listing of its branches, in order. `current` is the branch that the
/// working copy is on, where it is on this project.
pub open spec fn project_branches(list_output: Seq<char>, current: Option<Seq<char>>) -> Seq<
    (Seq<char>, bool),
> {
    seq![("trunk"@, current == Some("trunk"@))] + branches_from(
        file_lines(list_output),
        current,
        0,
    )
}

/// The branch that the working copy is on, where it is on the project in
/// question.
pub open spec fn current_branch(is_current_project: bool, current_branch_name: Seq<char>)
    -> Option<Seq<char>> {
    if is_current_project {
        Some(current_branch_name)
    } else {
        None
    }
}

/// The branches of a project, the trunk included, from the listing of its
/// branches.
pub fn get_project_branches(
    is_current_project: bool,
    current_branch_name: &str,
    list_output: &str,
) -> (r: Vec<BranchInfo>)
    ensures
        branch_views(r@) == project_branches(
            list_output@,
            current_branch(is_current_project, current_branch_name@),
        ),
{
    let ghost current = current_branch(is_current_project, current_branch_name@);
    let mut branches: Vec<BranchInfo> = Vec::new();
    branches.push(
        BranchInfo {
            branch_name: String::from_str("trunk"),
            is_current_branch: is_current_project && str_eq(current_branch_name, "trunk"),
        },
    );
    let wanted = str_chars(current_branch_name);
    let lines = chars_lines(&str_chars(list_output));
    let mut i: usize = 0;
    while i < lines.len()
        invariant
            i <= lines.len(),
            wanted@ == current_branch_name@,
            current == current_branch(is_current_project, current_branch_name@),
            views(lines@) == file_lines(list_output@),
            project_branches(list_output@, current) == branch_views(branches@) + branches_from(
                file_lines(list_output@),
                current,
                i as int,
            ),
        decreases lines.len() - i,
    {
        let t = trim_chars(&lines[i]);
        if t.len() > 0 && t[t.len() - 1] == '/' {
            let name = trim_end_in(&t, CharClass::One('/'));
            let is_current = is_current_project && chars_eq(&name, &wanted);
            branches.push(
                BranchInfo { branch_name: chars_to_string(&name), is_current_branch: is_current },
            );
        }
        i += 1;
    }
    branches
}

/// The project that a line of the listing of the repository names: the
/// line without the slashes around it, unless nothing is left or it is the
/// repository's empty placeholder.
pub open spec fn project_of_line(line: Seq<char>) -> Option<Seq<char>> {
    let name = trim_class(line, CharClass::One('/'));
    if name.len() > 0 && name != ".ws_empty"@ {
        Some(name)
    } else {
        None
    }
}

/// The projects that the lines from index `i` on name.
pub open spec fn projects_from(lines: Seq<Seq<char>>, i: int) -> Seq<Seq<char>>
    decreases lines.len() - i,
{
    if i < 0 || i >= lines.len() {
        Seq::empty()
    } else {
        match project_of_line(lines[i]) {
            Some(name) => seq![name] + projects_from(lines, i + 1),
            None => projects_from(lines, i + 1),
        }
    }
}

/// The names of the projects that are in the repository, from the listing
/// of its root, in the order of the listing.
pub fn active_project_names(list_output: &str) -> (r: Vec<String>)
    ensures
        string_views(r@) == projects_from(file_lines(list_output@), 0),
{
    let lines = chars_lines(&str_chars(list_output));
    let placeholder = str_chars(".ws_empty");
    let mut names: Vec<String> = Vec::new();
    let mut i: usize = 0;
    while i < lines.len()
        invariant
            i <= lines.len(),
            placeholder@ == ".ws_empty"@,
            views(lines@) == file_lines(list_output@),
            projects_from(file_lines(list_output@), 0) == string_views(names@) + projects_from(
                file_lines(list_output@),
                i as int,
            ),
        decreases lines.len() - i,
    {
        let name = trim_in(&lines[i], CharClass::One('/'));
        if name.len() > 0 && !chars_eq(&name, &placeholder) {
            names.push(chars_to_string(&name));
        }
        i += 1;
    }
    names
}

/// The list with one more project that is in the repository: the current
/// project goes to the front, any other to the end.
pub open spec fn with_project(
    list: Seq<ProjectModel>,
    name: Seq<char>,
    current_project: Seq<char>,
    branches: Seq<(Seq<char>, bool)>,
) -> Seq<ProjectModel> {
    let is_current = name == current_project;
    let info = ProjectModel { name, is_deleted: false, is_current, branches: Some(branches) };
    if is_current {
        seq![info] + list
    } else {
        list.push(info)
    }
}

/// Adds a project that is in the repository to the list that is shown:
/// the current project first.
pub fn add_active_project(
    list: &mut Vec<ProjectInfo>,
    name: &str,
    current_project: &str,
    branches: Vec<BranchInfo>,
)
    ensures
        project_views(final(list)@) == with_project(
            project_views(old(list)@),
            name@,
            current_project@,
            branch_views(branches@),
        ),
{
    let is_current = str_eq(name, current_project);
    let info = ProjectInfo {
        name: String::from_str(name),
        is_deleted: false,
        is_current,
        branches: Some(branches),
    };
    if is_current {
        list.insert(0, info);
    } else {
        list.push(info);
    }
}

/// The models of the branches of each project of `lists`.
pub open spec fn branch_list_views(lists: Seq<Vec<BranchInfo>>) -> Seq<Seq<(Seq<char>, bool)>> {
    lists.map_values(|b: Vec<BranchInfo>| branch_views(b@))
}

/// The list of the projects from index `i` on, added to `list` one by one.
/// A project whose branches are missing ends the list.
pub open spec fn listed_from(
    list: Seq<ProjectModel>,
    names: Seq<Seq<char>>,
    branches: Seq<Seq<(Seq<char>, bool)>>,
    current_project: Seq<char>,
    i: int,
) -> Seq<ProjectModel>
    decreases names.len() - i,
{
    if i < 0 || i >= names.len() || i >= branches.len() {
        list
    } else {
        listed_from(
            with_project(list, names[i], current_project, branches[i]),
            names,
            branches,
            current_project,
            i + 1,
        )
    }
}

/// The list of the projects that are in the repository, as it is shown:
/// the current project first, the others in the order of `names`.
/// `branches` holds the branches of each project, in the same order.
pub fn handle_list(names: &Vec<String>, branches: Vec<Vec<BranchInfo>>, current_project: &str) -> (r:
    Vec<ProjectInfo>)
    ensures
        project_views(r@) == listed_from(
            Seq::empty(),
            string_views(names@),
            branch_list_views(branches@),
            current_project@,
            0,
        ),
{
    let mut rest = branches;
    let mut list: Vec<ProjectInfo> = Vec::new();
    let mut i: usize = 0;
    assert(project_views(list@) =~= Seq::<ProjectModel>::empty());
    while i < names.len() && rest.len() > 0
        invariant
            i <= names.len(),
            i + rest.len() == branches.len(),
            branch_list_views(rest@) == branch_list_views(branches@).skip(i as int),
            listed_from(
                Seq::empty(),
                string_views(names@),
                branch_list_views(branches@),
                current_project@,
                0,
            ) == listed_from(
                project_views(list@),
                string_views(names@),
                branch_list_views(branches@),
                current_project@,
                i as int,
            ),
        decreases names.len() - i,
    {
        let ghost before = rest@;
        let own = rest.remove(0);
        assert(branch_views(own@) == branch_list_views(before)[0]);
        assert(branch_list_views(rest@) =~= branch_list_views(before).skip(1));
        add_active_project(&mut list, names[i].as_str(), current_project, own);
        i += 1;
    }
    list
}

/// The names of the projects that the history shows as deleted, from index
/// `k` on: the first segment of each deleted path, unless it is empty or
/// among `known`, each name once.
pub open spec fn deleted_from(paths: Seq<LogPathModel>, known: Seq<Seq<char>>, k: int) -> Seq<
    Seq<char>,
>
    decreases paths.len() - k,
{
    if k < 0 || k >= paths.len() {
        Seq::empty()
    } else {
        let name = first_segment(paths[k].path);
        if is_deletion(paths[k]) && name.len() > 0 && !known.contains(name) {
            seq![name] + deleted_from(paths, known.push(name), k + 1)
        } else {
            deleted_from(paths, known, k + 1)
        }
    }
}

/// Whether `list` holds the string `wanted`.
pub fn contains_string(list: &Vec<String>, wanted: &Vec<char>) -> (r: bool)
    ensures
        r == string_views(list@).contains(wanted@),
{
    let mut i: usize = 0;
    while i < list.len()
        invariant
            i <= list.len(),
            forall|j: int| 0 <= j < i ==> string_views(list@)[j] != wanted@,
        decreases list.len() - i,
    {
        assert(string_views(list@)[i as int] == list[i as int]@);
        if chars_eq(&str_chars(list[i].as_str()), wanted) {
            return true;
        }
        i += 1;
    }
    false
}

/// The names of the projects that were deleted, from the history of the
/// repository: each project a path of which was deleted and that is not
/// among the active ones, once, in the order of the history.
pub fn deleted_project_names(paths: &Vec<LogPath>, active_names: &Vec<String>) -> (r: Vec<String>)
    ensures
        string_views(r@) == deleted_from(path_views(paths@), string_views(active_names@), 0),
{
    let mut known: Vec<String> = active_names.clone();
    assert(string_views(known@) =~= string_views(active_names@)) by {
    }
    let mut out: Vec<String> = Vec::new();
    let mut k: usize = 0;
    while k < paths.len()
        invariant
            k <= paths.len(),
            deleted_from(path_views(paths@), string_views(active_names@), 0) == string_views(out@)
                + deleted_from(path_views(paths@), string_views(known@), k as int),
        decreases paths.len() - k,
    {
        let deleted = match &paths[k].action {
            Some(a) => str_eq(a.as_str(), "D"),
            None => false,
        };
        if deleted {
            let name = first_segment_of(paths[k].path.as_str());
            if name.len() > 0 && !contains_string(&known, &name) {
                let ghost known_before = known@;
                let text = chars_to_string(&name);
                known.push(text.clone());
                out.push(text);
                assert(string_views(known@) =~= string_views(known_before).push(name@));
            }
        }
        k += 1;
    }
    out
}

/// The entry that is shown for a deleted project.
pub fn deleted_project(name: &str) -> (r: ProjectInfo)
    ensures
        r@ == (ProjectModel {
            name: name@,
            is_deleted: true,
            is_current: false,
            branches: None,
        }),
{
    ProjectInfo { name: String::from_str(name), is_deleted: true, is_current: false, branches: None }
}

} // verus!
