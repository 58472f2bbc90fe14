//! What is known of the working copy that a command runs in.

use crate::error::AppError;
use crate::revision::{parse_revision, parse_revision_arg, Revision, RevisionState};
use crate::text::{
    chars_contain, chars_index_of, chars_range, chars_start_with, chars_to_string, contains,
    has_char, index_of, join2, join3, join4, join5, starts_with, str_chars, str_eq, trim,
    trim_chars, trim_start_class, trim_start_in, trim_start_matching, trim_start_str, CharClass,
};
use vstd::prelude::*;
use vstd::string::*;

verus! {

/// The repository and project that the working copy belongs to, its
/// revision and the repository's latest one, and whether it holds changes.
#[derive(Debug)]
pub struct SvnContext {
    repo_root_url: String,
    current_project_name: String,
    repo_fs_path: String,
    current_revision: Revision,
    latest_revision: Revision,
    is_dirty: bool,
}

/// What an `SvnContext` holds, as mathematical values.
pub struct ContextModel {
    pub repo_root_url: Seq<char>,
    pub current_project_name: Seq<char>,
    pub repo_fs_path: Seq<char>,
    pub current_revision: Revision,
    pub latest_revision: Revision,
    pub is_dirty: bool,
}

impl View for SvnContext {
    type V = ContextModel;

    closed spec fn view(&self) -> ContextModel {
        ContextModel {
            repo_root_url: self.repo_root_url@,
            current_project_name: self.current_project_name@,
            repo_fs_path: self.repo_fs_path@,
            current_revision: self.current_revision,
            latest_revision: self.latest_revision,
            is_dirty: self.is_dirty,
        }
    }
}

/// What `urlencoding::decode` makes of `raw`: the text with each `%` and two
/// hexadecimal digits turned into one byte, read as UTF-8; nothing where the
/// bytes are no UTF-8.
pub uninterp spec fn url_decoded(raw: Seq<char>) -> Option<Seq<char>>;

/// `urlencoding::decode`, with the result as an owned string. The result is
/// a function of `raw` alone.
#[verifier::external_body]
fn percent_decode(raw: &str) -> (r: Result<String, std::string::FromUtf8Error>)
    ensures
        match r {
            Ok(s) => url_decoded(raw@) == Some(s@),
            Err(_) => url_decoded(raw@) is None,
        },
{
    urlencoding::decode(raw).map(|c| c.into_owned())
}

/// Decodes a percent-encoded URL.
pub fn decode_url(raw: &str) -> (r: Result<String, AppError>)
    ensures
        match r {
            Ok(s) => url_decoded(raw@) == Some(s@),
            Err(e) => url_decoded(raw@) is None && e is UrlDecode,
        },
{
    match percent_decode(raw) {
        Ok(s) => Ok(s),
        Err(e) => Err(AppError::UrlDecode(e)),
    }
}

/// The URL of a project: `{repo}/{project}`.
pub open spec fn project_root_url(repo: Seq<char>, project: Seq<char>) -> Seq<char> {
    repo + "/"@ + project
}

/// The URL of a project's branches: `{repo}/{project}/branches`.
pub open spec fn project_branches_url(repo: Seq<char>, project: Seq<char>) -> Seq<char> {
    repo + "/"@ + project + "/branches"@
}

/// The URL of a project's trunk: `{repo}/{project}/trunk`.
pub open spec fn project_trunk_url(repo: Seq<char>, project: Seq<char>) -> Seq<char> {
    repo + "/"@ + project + "/trunk"@
}

/// The URL of a branch: `{repo}/{project}/branches/{branch}`.
pub open spec fn branch_url(repo: Seq<char>, project: Seq<char>, branch: Seq<char>) -> Seq<
    char,
> {
    repo + "/"@ + project + "/branches/"@ + branch
}

/// The name of the branch that a working copy at `work_copy_root` is on:
/// `trunk`, the path below `branches/`, or `unknown` where the URL is
/// neither.
pub open spec fn branch_name_of(project_root: Seq<char>, work_copy_root: Seq<char>) -> Seq<
    char,
> {
    let rel = trim_start_str(work_copy_root, project_root + "/"@);
    if starts_with(rel, "trunk"@) {
        "trunk"@
    } else if starts_with(rel, "branches/"@) {
        trim_start_str(rel, "branches/"@)
    } else {
        "unknown"@
    }
}

/// Whether a plain status report shows changes. It shows none where it is
/// blank, or where its one line is the link to the ignore-rule file.
pub open spec fn plain_status_dirty(status_output: Seq<char>) -> bool {
    let t = trim(status_output);
    if t.len() == 0 {
        false
    } else if !has_char(t, '\n') && contains(t, ".gitignore"@) && t[0] == 'X' {
        false
    } else {
        true
    }
}

/// Where a repository lies on disk, from its `file://` URL. On Windows the
/// slash before the drive letter is dropped.
pub open spec fn repo_fs_path_of(repo_root_url: Seq<char>, on_windows: bool) -> Seq<char> {
    let path = trim_start_str(repo_root_url, "file://"@);
    if on_windows && path.len() > 0 && path[0] == '/' {
        path.skip(1)
    } else {
        path
    }
}

/// The first segment of a relative URL such as `^/project/trunk`, still
/// percent-encoded.
pub open spec fn project_segment(relative_url: Seq<char>) -> Seq<char> {
    let rel = trim_start_class(
        trim_start_class(relative_url, CharClass::One('^')),
        CharClass::One('/'),
    );
    rel.take(index_of(rel, '/', 0))
}

/// Whether a plain status report shows changes.
pub fn status_output_dirty(status_output: &str) -> (r: bool)
    ensures
        r == plain_status_dirty(status_output@),
{
    let t = trim_chars(&str_chars(status_output));
    if t.len() == 0 {
        return false;
    }
    let newline = chars_index_of(&t, '\n', 0);
    if newline == t.len() && chars_contain(&t, &str_chars(".gitignore")) && t[0] == 'X' {
        false
    } else {
        true
    }
}

/// Where a repository lies on disk, from its `file://` URL.
pub fn repo_fs_path_from_url(repo_root_url: &str, on_windows: bool) -> (r: String)
    ensures
        r@ == repo_fs_path_of(repo_root_url@, on_windows),
{
    let path = trim_start_matching(&str_chars(repo_root_url), &str_chars("file://"));
    if on_windows && path.len() > 0 && path[0] == '/' {
        let rest = chars_range(&path, 1, path.len());
        chars_to_string(&rest)
    } else {
        chars_to_string(&path)
    }
}

/// The first segment of a relative URL, still percent-encoded.
pub fn project_segment_of(relative_url: &str) -> (r: String)
    ensures
        r@ == project_segment(relative_url@),
{
    let a = trim_start_in(&str_chars(relative_url), CharClass::One('^'));
    let rel = trim_start_in(&a, CharClass::One('/'));
    let end = chars_index_of(&rel, '/', 0);
    let head = chars_range(&rel, 0, end);
    chars_to_string(&head)
}

impl SvnContext {
    /// A context of the given parts.
    pub fn new(
        repo_root_url: String,
        current_project_name: String,
        repo_fs_path: String,
        current_revision: Revision,
        latest_revision: Revision,
        is_dirty: bool,
    ) -> (r: SvnContext)
        ensures
            r@ == (ContextModel {
                repo_root_url: repo_root_url@,
                current_project_name: current_project_name@,
                repo_fs_path: repo_fs_path@,
                current_revision,
                latest_revision,
                is_dirty,
            }),
    {
        SvnContext {
            repo_root_url,
            current_project_name,
            repo_fs_path,
            current_revision,
            latest_revision,
            is_dirty,
        }
    }

    /// The URL of the project `project_name`: `{repo}/{project}`.
    pub fn get_project_root_url(&self, project_name: &str) -> (r: String)
        ensures
            r@ == project_root_url(self@.repo_root_url, project_name@),
    {
        join3(self.repo_root_url.as_str(), "/", project_name)
    }

    /// The URL of the branches of `project_name`: `{repo}/{project}/branches`.
    pub fn get_project_branches_url(&self, project_name: &str) -> (r: String)
        ensures
            r@ == project_branches_url(self@.repo_root_url, project_name@),
    {
        join4(self.repo_root_url.as_str(), "/", project_name, "/branches")
    }

    /// The URL of the trunk of `project_name`: `{repo}/{project}/trunk`.
    pub fn get_project_trunk_url(&self, project_name: &str) -> (r: String)
        ensures
            r@ == project_trunk_url(self@.repo_root_url, project_name@),
    {
        join4(self.repo_root_url.as_str(), "/", project_name, "/trunk")
    }

    /// The URL of the repository.
    pub fn get_repo_root_url(&self) -> (r: &str)
        ensures
            r@ == self@.repo_root_url,
    {
        self.repo_root_url.as_str()
    }

    /// The URL that the working copy is checked out from, decoded from what
    /// the backend reports.
    pub fn get_current_work_copy_root(&self, reported_url: &str) -> (r: Result<String, AppError>)
        ensures
            match r {
                Ok(s) => url_decoded(reported_url@) == Some(s@),
                Err(e) => url_decoded(reported_url@) is None && e is UrlDecode,
            },
    {
        decode_url(reported_url)
    }

    /// The URL of a branch of the current project:
    /// `{repo}/{project}/branches/{branch}`.
    pub fn get_branch_url(&self, branch_name: &str) -> (r: String)
        ensures
            r@ == branch_url(self@.repo_root_url, self@.current_project_name, branch_name@),
    {
        join5(
            self.repo_root_url.as_str(),
            "/",
            self.current_project_name.as_str(),
            "/branches/",
            branch_name,
        )
    }

    /// The URL of the trunk of the current project.
    pub fn get_current_trunk_url(&self) -> (r: String)
        ensures
            r@ == project_trunk_url(self@.repo_root_url, self@.current_project_name),
    {
        self.get_project_trunk_url(self.current_project_name.as_str())
    }

    /// The URL of the branches of the current project.
    pub fn get_current_branches_url(&self) -> (r: String)
        ensures
            r@ == project_branches_url(self@.repo_root_url, self@.current_project_name),
    {
        self.get_project_branches_url(self.current_project_name.as_str())
    }

    /// The URL of the current project.
    pub fn get_current_project_repo_root_url(&self) -> (r: String)
        ensures
            r@ == project_root_url(self@.repo_root_url, self@.current_project_name),
    {
        self.get_project_root_url(self.current_project_name.as_str())
    }

    /// The name of the current project.
    pub fn get_current_project_name(&self) -> (r: &str)
        ensures
            r@ == self@.current_project_name,
    {
        self.current_project_name.as_str()
    }

    /// The name of the branch that the working copy is on, from the URL that
    /// it is checked out from.
    pub fn get_current_branch_name(&self, work_copy_root: &str) -> (r: String)
        ensures
            r@ == branch_name_of(
                project_root_url(self@.repo_root_url, self@.current_project_name),
                work_copy_root@,
            ),
    {
        let root = self.get_current_project_repo_root_url();
        let prefix = join2(root.as_str(), "/");
        let rel = trim_start_matching(&str_chars(work_copy_root), &str_chars(prefix.as_str()));
        if chars_start_with(&rel, &str_chars("trunk")) {
            String::from_str("trunk")
        } else if chars_start_with(&rel, &str_chars("branches/")) {
            let name = trim_start_matching(&rel, &str_chars("branches/"));
            chars_to_string(&name)
        } else {
            String::from_str("unknown")
        }
    }

    /// Where the repository lies on disk.
    pub fn get_repo_fs_path(&self) -> (r: &str)
        ensures
            r@ == self@.repo_fs_path,
    {
        self.repo_fs_path.as_str()
    }

    /// The revision of the working copy.
    pub fn get_current_revision(&self) -> (r: &Revision)
        ensures
            *r == self@.current_revision,
    {
        &self.current_revision
    }

    /// The latest revision of the repository.
    pub fn get_latest_revision(&self) -> (r: &Revision)
        ensures
            *r == self@.latest_revision,
    {
        &self.latest_revision
    }

    /// Whether the working copy held changes when the context was taken.
    pub fn is_dirty(&self) -> (r: bool)
        ensures
            r == self@.is_dirty,
    {
        self.is_dirty
    }

    /// The two revisions that decide whether a commit must be reviewed.
    pub fn revision_state(&self) -> (r: RevisionState)
        ensures
            r.current == self@.current_revision,
            r.latest == self@.latest_revision,
    {
        RevisionState { current: self.current_revision, latest: self.latest_revision }
    }

    /// Whether the working copy lags the repository: its revision is before
    /// the latest one.
    pub fn check_review_state(&self) -> (r: bool)
        ensures
            r == self@.current_revision.is_before(self@.latest_revision),
    {
        self.current_revision.precedes(&self.latest_revision)
    }

    /// The context of a directory that is no working copy yet: the
    /// repository alone is known.
    pub fn default(repo_root_url: String, repo_fs_path: String) -> (r: SvnContext)
        ensures
            r@ == (ContextModel {
                repo_root_url: repo_root_url@,
                current_project_name: Seq::empty(),
                repo_fs_path: repo_fs_path@,
                current_revision: Revision::Number(0),
                latest_revision: Revision::Number(0),
                is_dirty: false,
            }),
    {
        SvnContext {
            repo_root_url,
            current_project_name: String::new(),
            repo_fs_path,
            current_revision: Revision::Number(0),
            latest_revision: Revision::Number(0),
            is_dirty: false,
        }
    }
}

/// What the backend reports of a working copy, as it reports it.
#[derive(Debug)]
pub struct WorkingCopyReport {
    /// The repository's URL, percent-encoded.
    pub repo_root_url: String,
    /// The working copy's URL relative to the repository, percent-encoded.
    pub relative_url: String,
    /// The plain status report.
    pub status_output: String,
    /// The revision of the working copy.
    pub current_revision: String,
    /// The latest revision of the repository.
    pub latest_revision: String,
}

/// The context that a report stands for, once its two URLs are decoded.
pub open spec fn context_of(
    repo_root_url: Seq<char>,
    project_name: Seq<char>,
    status_output: Seq<char>,
    current_revision: Seq<char>,
    latest_revision: Seq<char>,
    on_windows: bool,
) -> Option<ContextModel> {
    match (parse_revision(current_revision), parse_revision(latest_revision)) {
        (Some(current), Some(latest)) => Some(
            ContextModel {
                repo_root_url,
                current_project_name: project_name,
                repo_fs_path: repo_fs_path_of(repo_root_url, on_windows),
                current_revision: current,
                latest_revision: latest,
                is_dirty: plain_status_dirty(status_output),
            },
        ),
        _ => None,
    }
}

/// Builds the context from decoded URLs and the rest of a report. It fails
/// exactly where one of the two revisions cannot be read, the current one
/// being read first, with that revision's text.
pub fn build_context(
    repo_root_url: String,
    project_name: String,
    status_output: &str,
    current_revision: &str,
    latest_revision: &str,
    on_windows: bool,
) -> (r: Result<SvnContext, AppError>)
    ensures
        match r {
            Ok(ctx) => context_of(
                repo_root_url@,
                project_name@,
                status_output@,
                current_revision@,
                latest_revision@,
                on_windows,
            ) == Some(ctx@),
            Err(AppError::RevisionParse(m)) => if parse_revision(current_revision@) is None {
                m@ == current_revision@
            } else {
                parse_revision(latest_revision@) is None && m@ == latest_revision@
            },
            Err(_) => false,
        },
{
    let repo_fs_path = repo_fs_path_from_url(repo_root_url.as_str(), on_windows);
    let is_dirty = status_output_dirty(status_output);
    let current = match parse_revision_arg(current_revision) {
        Ok(rev) => rev,
        Err(e) => {
            return Err(e);
        },
    };
    let latest = match parse_revision_arg(latest_revision) {
        Ok(rev) => rev,
        Err(e) => {
            return Err(e);
        },
    };
    Ok(SvnContext::new(repo_root_url, project_name, repo_fs_path, current, latest, is_dirty))
}

/// Builds the context of the working copy from what the backend reports of
/// it. The repository's URL is decoded first, then the project's name, which
/// is the first segment of the relative URL; then the revisions are read.
/// The first of these that fails is the error.
pub fn get_svn_context(report: &WorkingCopyReport, on_windows: bool) -> (r: Result<
    SvnContext,
    AppError,
>)
    ensures
        match r {
            Ok(ctx) => url_decoded(report.repo_root_url@) matches Some(root) && (url_decoded(
                project_segment(report.relative_url@),
            ) matches Some(name) && context_of(
                root,
                name,
                report.status_output@,
                report.current_revision@,
                report.latest_revision@,
                on_windows,
            ) == Some(ctx@)),
            Err(AppError::UrlDecode(_)) => url_decoded(report.repo_root_url@) is None
                || url_decoded(project_segment(report.relative_url@)) is None,
            Err(AppError::RevisionParse(m)) => url_decoded(report.repo_root_url@) is Some
                && url_decoded(project_segment(report.relative_url@)) is Some && (if parse_revision(
                report.current_revision@,
            ) is None {
                m@ == report.current_revision@
            } else {
                parse_revision(report.latest_revision@) is None && m@ == report.latest_revision@
            }),
            Err(_) => false,
        },
{
    let root = match decode_url(report.repo_root_url.as_str()) {
        Ok(s) => s,
        Err(e) => {
            return Err(e);
        },
    };
    let segment = project_segment_of(report.relative_url.as_str());
    let name = match decode_url(segment.as_str()) {
        Ok(s) => s,
        Err(e) => {
            return Err(e);
        },
    };
    build_context(
        root,
        name,
        report.status_output.as_str(),
        report.current_revision.as_str(),
        report.latest_revision.as_str(),
        on_windows,
    )
}

/// Whether the working copy has to be checked out anew: the repository that
/// it was taken from is no longer the one at the repository's URL.
pub fn check_and_repair_workspace(local_uuid: &str, remote_uuid: &str) -> (repair: bool)
    ensures
        repair == (local_uuid@ != remote_uuid@),
{
    !str_eq(local_uuid, remote_uuid)
}

} // verus!
