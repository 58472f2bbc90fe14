//! The command lines that drive the version-control backend.
//!
//! The library never runs a process. Each function here says which program
//! is to be run with which arguments; the caller runs it and hands the
//! outcome back.

use crate::text::string_views;
use vstd::prelude::*;
use vstd::string::*;

verus! {

/// One invocation of a backend program.
#[derive(Debug)]
pub struct BackendCommand {
    pub program: String,
    pub args: Vec<String>,
}

/// The views of the string slices of `v`.
pub open spec fn strs(v: Seq<&str>) -> Seq<Seq<char>> {
    v.map_values(|x: &str| x@)
}

impl BackendCommand {
    /// The command line: the program, then its arguments.
    pub open spec fn line(&self) -> Seq<Seq<char>> {
        seq![self.program@] + string_views(self.args@)
    }

    /// The command that runs `program` with `head` and then `tail` as its
    /// arguments.
    pub fn build(program: &str, head: &[&str], tail: &[&str]) -> (r: BackendCommand)
        ensures
            r.line() == seq![program@] + strs(head@) + strs(tail@),
    {
        let mut args: Vec<String> = Vec::new();
        let mut i: usize = 0;
        while i < head.len()
            invariant
                i <= head.len(),
                string_views(args@) == strs(head@.take(i as int)),
            decreases head.len() - i,
        {
            let ghost before = args@;
            let item = String::from_str(head[i]);
            args.push(item);
            assert(string_views(args@) =~= string_views(before).push(item@));
            i += 1;
        }
        let mut j: usize = 0;
        while j < tail.len()
            invariant
                j <= tail.len(),
                string_views(args@) == strs(head@) + strs(tail@.take(j as int)),
            decreases tail.len() - j,
        {
            let ghost before = args@;
            let item = String::from_str(tail[j]);
            args.push(item);
            assert(string_views(args@) =~= string_views(before).push(item@));
            j += 1;
        }
        BackendCommand { program: String::from_str(program), args }
    }
}

/// What a status query is made for.
#[derive(Debug, Clone, Copy, PartialEq, Eq, Structural)]
pub enum StatusType {
    /// Plain text, to see whether anything changed.
    Dirty,
    /// Structured, before a commit.
    Commit,
    /// Structured, with the ignored items listed too.
    CheckIgnore,
    /// Structured, of the ignore-rule file alone.
    CheckGitignore,
}

/// The arguments of a status query.
pub open spec fn status_args(status_type: StatusType) -> Seq<Seq<char>> {
    match status_type {
        StatusType::Dirty => seq!["status"@],
        StatusType::CheckIgnore => seq!["status"@, "--xml"@, "--no-ignore"@],
        StatusType::Commit => seq!["status"@, "--xml"@],
        StatusType::CheckGitignore => seq!["status"@, "--xml"@, ".gitignore"@],
    }
}

/// `svn cleanup .`: clears stale locks of the working copy.
pub fn svn_cleanup() -> (r: BackendCommand)
    ensures
        r.line() == seq!["svn"@, "cleanup"@, "."@],
{
    BackendCommand::build("svn", vec!["cleanup", "."].as_slice(), vec![].as_slice())
}

/// `svn cleanup .`, as run before the working copy is switched.
pub fn svn_cleanup_workspace() -> (r: BackendCommand)
    ensures
        r.line() == seq!["svn"@, "cleanup"@, "."@],
{
    BackendCommand::build("svn", vec!["cleanup", "."].as_slice(), vec![].as_slice())
}

/// `svn update` with the given arguments.
pub fn svn_update(update_args: &[&str]) -> (r: BackendCommand)
    ensures
        r.line() == seq!["svn"@, "update"@] + strs(update_args@),
{
    BackendCommand::build("svn", vec!["update"].as_slice(), update_args)
}

/// `svn status` in the form that `status_type` asks for.
pub fn svn_status(status_type: StatusType) -> (r: BackendCommand)
    ensures
        r.line() == seq!["svn"@] + status_args(status_type),
{
    let none: Vec<&str> = vec![];
    match status_type {
        StatusType::Dirty => BackendCommand::build(
            "svn",
            vec!["status"].as_slice(),
            none.as_slice(),
        ),
        StatusType::CheckIgnore => BackendCommand::build(
            "svn",
            vec!["status", "--xml", "--no-ignore"].as_slice(),
            none.as_slice(),
        ),
        StatusType::Commit => BackendCommand::build(
            "svn",
            vec!["status", "--xml"].as_slice(),
            none.as_slice(),
        ),
        StatusType::CheckGitignore => BackendCommand::build(
            "svn",
            vec!["status", "--xml", ".gitignore"].as_slice(),
            none.as_slice(),
        ),
    }
}

/// `svn log` with the given arguments.
pub fn svn_log(log_args: &[&str]) -> (r: BackendCommand)
    ensures
        r.line() == seq!["svn"@, "log"@] + strs(log_args@),
{
    BackendCommand::build("svn", vec!["log"].as_slice(), log_args)
}

/// `svn info` with the given arguments.
pub fn svn_info(info_args: &[&str]) -> (r: BackendCommand)
    ensures
        r.line() == seq!["svn"@, "info"@] + strs(info_args@),
{
    BackendCommand::build("svn", vec!["info"].as_slice(), info_args)
}

/// `svn list` with the given arguments.
pub fn svn_list(list_args: &[&str]) -> (r: BackendCommand)
    ensures
        r.line() == seq!["svn"@, "list"@] + strs(list_args@),
{
    BackendCommand::build("svn", vec!["list"].as_slice(), list_args)
}

/// `svn add` of the given paths: parents are added with them, directories
/// without their contents, and paths already known are passed over.
pub fn svn_add(add_args: &[&str]) -> (r: BackendCommand)
    ensures
        r.line() == seq!["svn"@, "add"@, "--parents"@, "--depth"@, "empty"@, "--force"@] + strs(
            add_args@,
        ),
{
    BackendCommand::build(
        "svn",
        vec!["add", "--parents", "--depth", "empty", "--force"].as_slice(),
        add_args,
    )
}

/// `svn commit -m` with the given message.
pub fn svn_commit(commit_info: &str) -> (r: BackendCommand)
    ensures
        r.line() == seq!["svn"@, "commit"@, "-m"@, commit_info@],
{
    BackendCommand::build("svn", vec!["commit", "-m"].as_slice(), vec![commit_info].as_slice())
}

/// The commit of the ignore-rule file alone.
pub fn svn_commit_gitignore() -> (r: BackendCommand)
    ensures
        r.line() == seq![
            "svn"@,
            "commit"@,
            ".gitignore"@,
            "-m"@,
            "Auto update .gitignore"@,
        ],
{
    BackendCommand::build(
        "svn",
        vec!["commit", ".gitignore", "-m", "Auto update .gitignore"].as_slice(),
        vec![].as_slice(),
    )
}

/// The commit of the link to the ignore-rule file, set on the directory
/// `path`.
pub fn svn_commit_externals(path: &str) -> (r: BackendCommand)
    ensures
        r.line() == seq![
            "svn"@,
            "commit"@,
            path@,
            "-m"@,
            "Update svn:externals for .gitignore"@,
        ],
{
    BackendCommand::build(
        "svn",
        vec!["commit", path, "-m", "Update svn:externals for .gitignore"].as_slice(),
        vec![].as_slice(),
    )
}

/// `svn delete` with the given arguments.
pub fn svn_delete(delete_args: &[&str]) -> (r: BackendCommand)
    ensures
        r.line() == seq!["svn"@, "delete"@] + strs(delete_args@),
{
    BackendCommand::build("svn", vec!["delete"].as_slice(), delete_args)
}

/// `svn switch` of the working copy to `target_url`, whatever its ancestry.
pub fn svn_switch(target_url: &str) -> (r: BackendCommand)
    ensures
        r.line() == seq!["svn"@, "switch"@, target_url@, "."@, "--ignore-ancestry"@],
{
    BackendCommand::build(
        "svn",
        vec!["switch", target_url, ".", "--ignore-ancestry"].as_slice(),
        vec![].as_slice(),
    )
}

/// `svn merge` with the given arguments.
pub fn svn_merge(merge_args: &[&str]) -> (r: BackendCommand)
    ensures
        r.line() == seq!["svn"@, "merge"@] + strs(merge_args@),
{
    BackendCommand::build("svn", vec!["merge"].as_slice(), merge_args)
}

/// `svn revert` with the given arguments.
pub fn svn_revert(revert_args: &[&str]) -> (r: BackendCommand)
    ensures
        r.line() == seq!["svn"@, "revert"@] + strs(revert_args@),
{
    BackendCommand::build("svn", vec!["revert"].as_slice(), revert_args)
}

/// `svn mkdir` with the given arguments.
pub fn svn_mkdir(mkdir_args: &[&str]) -> (r: BackendCommand)
    ensures
        r.line() == seq!["svn"@, "mkdir"@] + strs(mkdir_args@),
{
    BackendCommand::build("svn", vec!["mkdir"].as_slice(), mkdir_args)
}

/// `svn copy` with the given arguments.
pub fn svn_copy(copy_args: &[&str]) -> (r: BackendCommand)
    ensures
        r.line() == seq!["svn"@, "copy"@] + strs(copy_args@),
{
    BackendCommand::build("svn", vec!["copy"].as_slice(), copy_args)
}

/// `svn checkout` with the given arguments.
pub fn svn_checkout(checkout_args: &[&str]) -> (r: BackendCommand)
    ensures
        r.line() == seq!["svn"@, "checkout"@] + strs(checkout_args@),
{
    BackendCommand::build("svn", vec!["checkout"].as_slice(), checkout_args)
}

/// `svn resolve` with the given arguments.
pub fn svn_resolve(resolve_args: &[&str]) -> (r: BackendCommand)
    ensures
        r.line() == seq!["svn"@, "resolve"@] + strs(resolve_args@),
{
    BackendCommand::build("svn", vec!["resolve"].as_slice(), resolve_args)
}

/// `svn propget` with the given arguments.
pub fn svn_propget(prop_args: &[&str]) -> (r: BackendCommand)
    ensures
        r.line() == seq!["svn"@, "propget"@] + strs(prop_args@),
{
    BackendCommand::build("svn", vec!["propget"].as_slice(), prop_args)
}

/// `svn propset` with the given arguments.
pub fn svn_propset(propset_args: &[&str]) -> (r: BackendCommand)
    ensures
        r.line() == seq!["svn"@, "propset"@] + strs(propset_args@),
{
    BackendCommand::build("svn", vec!["propset"].as_slice(), propset_args)
}

/// `svn propdel` with the given arguments.
pub fn svn_propdel(propdel_args: &[&str]) -> (r: BackendCommand)
    ensures
        r.line() == seq!["svn"@, "propdel"@] + strs(propdel_args@),
{
    BackendCommand::build("svn", vec!["propdel"].as_slice(), propdel_args)
}

/// `svnmucc` with the given arguments.
pub fn svn_svnmucc(svnmucc_args: &[&str]) -> (r: BackendCommand)
    ensures
        r.line() == seq!["svnmucc"@] + strs(svnmucc_args@),
{
    BackendCommand::build("svnmucc", vec![].as_slice(), svnmucc_args)
}

/// `svnadmin create` of a repository at `repo_path`.
pub fn svnadmin_create(repo_path: &str) -> (r: BackendCommand)
    ensures
        r.line() == seq!["svnadmin"@, "create"@, repo_path@],
{
    BackendCommand::build("svnadmin", vec!["create", repo_path].as_slice(), vec![].as_slice())
}

/// `svnadmin dump` with the given arguments; its output is the export
/// stream.
pub fn svnadmin_dump(dump_args: &[&str]) -> (r: BackendCommand)
    ensures
        r.line() == seq!["svnadmin"@, "dump"@] + strs(dump_args@),
{
    BackendCommand::build("svnadmin", vec!["dump"].as_slice(), dump_args)
}

/// `svnadmin load` with the given arguments; it reads the export stream.
pub fn svnadmin_load(load_args: &[&str]) -> (r: BackendCommand)
    ensures
        r.line() == seq!["svnadmin"@, "load"@] + strs(load_args@),
{
    BackendCommand::build("svnadmin", vec!["load"].as_slice(), load_args)
}

/// `svndumpfilter` with the given arguments; it reads and writes the export
/// stream.
pub fn svndumpfilter(filter_args: &[&str]) -> (r: BackendCommand)
    ensures
        r.line() == seq!["svndumpfilter"@] + strs(filter_args@),
{
    BackendCommand::build("svndumpfilter", vec![].as_slice(), filter_args)
}

} // verus!
