//! Keeps one working copy of a centralized repository consistent while a
//! tool drives it through branches, merges, commits and the removal of
//! projects.
//!
//! The library runs no process and touches no file. It reads what the
//! backend printed, decides what is to be done next, and says so as command
//! lines and actions; the caller carries them out and reports back. Every
//! decision is an executable function with a contract that Verus proves.
//!
//! - `status`, `ignore_rules`: the entries of a working copy and whether it
//!   is dirty, given the project's ignore rules.
//! - `conflict`: the conflicts of a working copy and how each is resolved.
//! - `commit`: what is staged, and the phases of the commit protocol.
//! - `lock_count`: the reference count that guards a checkout.
//! - `prune`: the rewrite of a repository without a project.
//! - `revision`, `context`, `names`, `log`, `history`, `projects`: what is
//!   known of the working copy, the repository and its history.
//! - `branch_ops`, `project_commands`, `workspace_commands`, `display`: the
//!   decisions of the commands and what they show.
//! - `backend`, `decode`, `xml`, `text`, `error`: command lines, the text of
//!   captured output, parsed documents, strings, failures.

pub mod backend;
pub mod branch_ops;
pub mod commit;
pub mod conflict;
pub mod context;
pub mod decode;
pub mod display;
pub mod error;
pub mod history;
pub mod ignore_rules;
pub mod lock_count;
pub mod log;
pub mod names;
pub mod project_commands;
pub mod projects;
pub mod prune;
pub mod revision;
pub mod status;
pub mod text;
pub mod workspace_commands;
pub mod xml;
