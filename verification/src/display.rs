//! What the lists and the history show: the text of each cell and the
//! width of each column. How it is drawn is left to the caller.

use crate::projects::{branch_views, BranchInfo, ProjectInfo, ProjectModel};
use crate::text::{chars_to_string, decimal_digits, join2, join3, u64_to_chars};
use vstd::prelude::*;
use vstd::string::*;

verus! {

/// The number of columns that `unicode_width::UnicodeWidthStr::width`
/// gives a text on a terminal.
pub uninterp spec fn text_width(text: Seq<char>) -> nat;

/// `UnicodeWidthStr::width` of `text`. The result is a function of `text`
/// alone.
#[verifier::external_body]
fn display_width(text: &str) -> (w: usize)
    ensures
        w == text_width(text@),
{
    unicode_width::UnicodeWidthStr::width(text)
}

/// How far a time lies back.
#[derive(Debug, Clone, Copy, PartialEq, Eq, Structural)]
pub enum RelativeTime {
    /// The time could not be read.
    Unparsed,
    /// Less than a minute, or not at all.
    JustNow,
    /// This many whole minutes, less than an hour.
    Minutes(u64),
    /// This many whole hours, less than a day.
    Hours(u64),
    /// A day or more: the date is shown.
    Date,
}

/// What `chrono` makes of the time between an RFC 3339 date and an
/// instant, given as seconds and nanoseconds since the epoch: the whole
/// seconds of `DateTime::signed_duration_since`, or nothing where the date
/// cannot be parsed or the instant is outside the range of `DateTime`.
pub uninterp spec fn seconds_since(iso_time: Seq<char>, now_secs: i64, now_nanos: u32) -> Option<
    i64,
>;

/// Parses `iso_time` with `DateTime::parse_from_rfc3339`, makes the instant
/// with `DateTime::from_timestamp`, and returns `num_seconds` of the time
/// from the one to the other. The result is a function of the arguments
/// alone.
#[verifier::external_body]
fn elapsed_seconds(iso_time: &str, now_secs: i64, now_nanos: u32) -> (r: Option<i64>)
    ensures
        r == seconds_since(iso_time@, now_secs, now_nanos),
{
    let then = chrono::DateTime::parse_from_rfc3339(iso_time).ok()?;
    let now = chrono::DateTime::from_timestamp(now_secs, now_nanos)?;
    Some(now.signed_duration_since(then).num_seconds())
}

/// How far back a time that lies `elapsed` whole seconds back is shown to
/// lie.
pub open spec fn relative_time_of(elapsed: Option<i64>) -> RelativeTime {
    match elapsed {
        None => RelativeTime::Unparsed,
        Some(secs) => if secs < 60 {
            RelativeTime::JustNow
        } else if secs < 3600 {
            RelativeTime::Minutes((secs / 60) as u64)
        } else if secs < 86400 {
            RelativeTime::Hours((secs / 3600) as u64)
        } else {
            RelativeTime::Date
        },
    }
}

/// How far back a time that lies `elapsed` whole seconds back is shown to
/// lie.
pub fn relative_time(elapsed: Option<i64>) -> (r: RelativeTime)
    ensures
        r == relative_time_of(elapsed),
{
    match elapsed {
        None => RelativeTime::Unparsed,
        Some(secs) => {
            if secs < 60 {
                RelativeTime::JustNow
            } else if secs < 3600 {
                RelativeTime::Minutes((secs / 60) as u64)
            } else if secs < 86400 {
                RelativeTime::Hours((secs / 3600) as u64)
            } else {
                RelativeTime::Date
            }
        },
    }
}

/// How far back the date `iso_time` lies from the instant given as seconds
/// and nanoseconds since the epoch.
pub fn format_relative_time(iso_time: &str, now_secs: i64, now_nanos: u32) -> (r: RelativeTime)
    ensures
        r == relative_time_of(seconds_since(iso_time@, now_secs, now_nanos)),
{
    relative_time(elapsed_seconds(iso_time, now_secs, now_nanos))
}

/// How a time is worded: a date that could not be read is shown as it
/// stands, and a time of a day ago or more by its date in local time.
pub open spec fn relative_time_text(time: RelativeTime, iso_time: Seq<char>, local_date: Seq<char>)
    -> Seq<char> {
    match time {
        RelativeTime::Unparsed => iso_time,
        RelativeTime::JustNow => "just now"@,
        RelativeTime::Minutes(n) => decimal_digits(n as nat) + " mins ago"@,
        RelativeTime::Hours(n) => decimal_digits(n as nat) + " hours ago"@,
        RelativeTime::Date => local_date,
    }
}

/// How a time is worded. `local_date` is the date in local time, which is
/// read only for a time of a day ago or more.
pub fn relative_time_label(time: RelativeTime, iso_time: &str, local_date: &str) -> (r: String)
    ensures
        r@ == relative_time_text(time, iso_time@, local_date@),
{
    match time {
        RelativeTime::Unparsed => String::from_str(iso_time),
        RelativeTime::JustNow => String::from_str("just now"),
        RelativeTime::Minutes(n) => join2(
            chars_to_string(&u64_to_chars(n)).as_str(),
            " mins ago",
        ),
        RelativeTime::Hours(n) => join2(chars_to_string(&u64_to_chars(n)).as_str(), " hours ago"),
        RelativeTime::Date => String::from_str(local_date),
    }
}

/// One row of the list of projects.
#[derive(Debug)]
pub struct ProjectRow {
    pub project: String,
    pub branch: String,
    pub status: String,
    /// Whether the project's cell stands out: the row names the current
    /// project.
    pub current_project: bool,
    /// Whether the branch's cell stands out: the row names the branch that
    /// the working copy is on.
    pub current_branch: bool,
    /// Whether the row is that of a deleted project.
    pub deleted: bool,
}

/// What a `ProjectRow` holds, as mathematical values.
pub struct RowModel {
    pub project: Seq<char>,
    pub branch: Seq<char>,
    pub status: Seq<char>,
    pub current_project: bool,
    pub current_branch: bool,
    pub deleted: bool,
}

impl View for ProjectRow {
    type V = RowModel;

    open spec fn view(&self) -> RowModel {
        RowModel {
            project: self.project@,
            branch: self.branch@,
            status: self.status@,
            current_project: self.current_project,
            current_branch: self.current_branch,
            deleted: self.deleted,
        }
    }
}

/// The models of the rows of `rows`.
pub open spec fn row_views(rows: Seq<ProjectRow>) -> Seq<RowModel> {
    rows.map_values(|r: ProjectRow| r@)
}

/// What stands before the name of the branch of index `i` among `count`:
/// nothing in the first row, the end of the tree in the last, a fork in
/// between.
pub open spec fn branch_prefix(i: int, count: int) -> Seq<char> {
    if i == 0 {
        Seq::empty()
    } else if i == count - 1 {
        "  \u{2514}\u{2500} "@
    } else {
        "  \u{251c}\u{2500} "@
    }
}

/// The text of the cell of a branch: its prefix, a star where the working
/// copy is on it, and its name.
pub open spec fn branch_cell(i: int, count: int, branch: (Seq<char>, bool)) -> Seq<char> {
    if branch.1 {
        branch_prefix(i, count) + "* "@ + branch.0
    } else {
        branch_prefix(i, count) + branch.0
    }
}

/// The text of the cell of a project: marked where it is the current one.
pub open spec fn project_cell(name: Seq<char>, is_current: bool) -> Seq<char> {
    if is_current {
        "> "@ + name
    } else {
        "  "@ + name
    }
}

/// The row of the branch of index `i` of an active project: the first row
/// names the project and its status too.
pub open spec fn branch_row(project: ProjectModel, branches: Seq<(Seq<char>, bool)>, i: int)
    -> RowModel {
    RowModel {
        project: if i == 0 {
            project_cell(project.name, project.is_current)
        } else {
            Seq::empty()
        },
        branch: branch_cell(i, branches.len() as int, branches[i]),
        status: if i == 0 {
            "Active"@
        } else {
            Seq::empty()
        },
        current_project: i == 0 && project.is_current,
        current_branch: branches[i].1,
        deleted: false,
    }
}

/// The rows of a project: one for each branch of an active project, one
/// for a deleted project.
pub open spec fn project_rows(project: ProjectModel) -> Seq<RowModel> {
    if project.is_deleted {
        seq![
            RowModel {
                project: "  "@ + project.name,
                branch: "-"@,
                status: "Deleted"@,
                current_project: false,
                current_branch: false,
                deleted: true,
            },
        ]
    } else {
        match project.branches {
            Some(branches) => Seq::new(branches.len(), |i: int| branch_row(project, branches, i)),
            None => Seq::empty(),
        }
    }
}

/// The width of the widest cell among the branches up to index `n`.
pub open spec fn widest_branch(rows: Seq<RowModel>, n: int) -> nat
    decreases n,
{
    if n <= 0 || n > rows.len() {
        0
    } else {
        let before = widest_branch(rows, n - 1);
        let here = text_width(rows[n - 1].branch);
        if here > before {
            here
        } else {
            before
        }
    }
}

/// The text of the cell of the branch of index `i` among `count`.
fn branch_cell_text(i: usize, count: usize, branch: &BranchInfo) -> (r: String)
    requires
        i < count,
    ensures
        r@ == branch_cell(i as int, count as int, branch@),
{
    let prefix = if i == 0 {
        ""
    } else if i == count - 1 {
        "  \u{2514}\u{2500} "
    } else {
        "  \u{251c}\u{2500} "
    };
    proof {
        reveal_strlit("");
    }
    if branch.is_current_branch {
        join3(prefix, "* ", branch.branch_name.as_str())
    } else {
        join2(prefix, branch.branch_name.as_str())
    }
}

/// The rows that a project takes in the list, the width of its name and
/// the width of the widest of its branch cells. A deleted project has no
/// branch cell to measure. An active project is listed by its branches,
/// which it must have.
pub fn add_project_row(project: &ProjectInfo) -> (r: (Vec<ProjectRow>, (usize, usize)))
    requires
        !project.is_deleted ==> project.branches is Some,
    ensures
        row_views(r.0@) == project_rows(project@),
        r.1.0 == text_width(project.name@),
        r.1.1 == if project.is_deleted {
            0
        } else {
            widest_branch(project_rows(project@), project_rows(project@).len() as int)
        },
{
    let name_width = display_width(project.name.as_str());
    let mut rows: Vec<ProjectRow> = Vec::new();
    if project.is_deleted {
        rows.push(
            ProjectRow {
                project: join2("  ", project.name.as_str()),
                branch: String::from_str("-"),
                status: String::from_str("Deleted"),
                current_project: false,
                current_branch: false,
                deleted: true,
            },
        );
        return (rows, (name_width, 0));
    }
    let branches = match &project.branches {
        Some(b) => b,
        None => {
            return (rows, (name_width, 0));
        },
    };
    let count = branches.len();
    let mut widest: usize = 0;
    let mut i: usize = 0;
    while i < count
        invariant
            i <= count,
            count == branches.len(),
            !project.is_deleted,
            project@.branches == Some(branch_views(branches@)),
            rows.len() == i,
            row_views(rows@) == project_rows(project@).take(i as int),
            widest == widest_branch(project_rows(project@), i as int),
        decreases count - i,
    {
        let first = i == 0;
        let cell = branch_cell_text(i, count, &branches[i]);
        let width = display_width(cell.as_str());
        if width > widest {
            widest = width;
        }
        let row = ProjectRow {
            project: if first {
                if project.is_current {
                    join2("> ", project.name.as_str())
                } else {
                    join2("  ", project.name.as_str())
                }
            } else {
                String::new()
            },
            branch: cell,
            status: if first {
                String::from_str("Active")
            } else {
                String::new()
            },
            current_project: first && project.is_current,
            current_branch: branches[i].is_current_branch,
            deleted: false,
        };
        rows.push(row);
        i += 1;
    }
    (rows, (name_width, widest))
}

/// The larger of two widths.
pub open spec fn wider(a: nat, b: nat) -> nat {
    if a > b {
        a
    } else {
        b
    }
}

/// How wide the columns of the list of projects are.
#[derive(Debug, Clone, Copy, PartialEq, Eq, Structural)]
pub struct ListLayout {
    /// The width of the column of projects.
    pub project_column: usize,
    /// The width of the column of branches.
    pub branch_column: usize,
    /// The width of the column of the status, where a rule parts the
    /// active projects from the deleted ones.
    pub status_rule: usize,
}

/// How wide the columns of the list of projects are: the project's column
/// takes the widest name, of at least twelve columns, and four more; the
/// branch's column the widest branch cell, of at least ten columns, and two
/// more. `widest_deleted` is the width of the widest name among the deleted
/// projects where they are listed, and twelve where there is none of them.
pub fn show_project_list(widest_project: usize, widest_branch: usize, widest_deleted: Option<usize>)
    -> (r: ListLayout)
    requires
        widest_project <= usize::MAX - 4,
        widest_branch <= usize::MAX - 2,
        widest_deleted matches Some(w) ==> w <= usize::MAX - 4,
    ensures
        r.project_column == wider(
            wider(widest_project as nat, 12),
            match widest_deleted {
                Some(w) => w as nat,
                None => 0,
            },
        ) + 4,
        r.branch_column == wider(widest_branch as nat, 10) + 2,
        r.status_rule == 9,
{
    let mut project: usize = if widest_project > 12 {
        widest_project
    } else {
        12
    };
    match widest_deleted {
        Some(w) => {
            if w > project {
                project = w;
            }
        },
        None => {},
    }
    let branch: usize = if widest_branch > 10 {
        widest_branch
    } else {
        10
    };
    ListLayout { project_column: project + 4, branch_column: branch + 2, status_rule: 9 }
}

/// A rule of `n` dashes.
pub fn rule(n: usize) -> (r: String)
    ensures
        r@ == Seq::new(n as nat, |i: int| '-'),
{
    let mut r = String::new();
    let mut i: usize = 0;
    while i < n
        invariant
            i <= n,
            r@ == Seq::new(i as nat, |k: int| '-'),
        decreases n - i,
    {
        r.push('-');
        i += 1;
    }
    r
}

/// The width that a text takes on a terminal.
pub fn width_of(text: &str) -> (w: usize)
    ensures
        w == text_width(text@),
{
    display_width(text)
}

} // verus!
