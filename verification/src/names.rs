//! The names of projects and branches: which are allowed, and how a branch
//! is told from a path of the repository.

use crate::error::{AppError, ErrorModel};
use crate::text::{
    chars_index_of, chars_range, chars_start_with, chars_to_string, index_of, join3, join5,
    starts_with, str_chars, str_eq, trim, trim_chars, trim_start_class, trim_start_in,
    trim_start_matching, trim_start_str, CharClass,
};
use vstd::prelude::*;
use vstd::string::*;

verus! {

/// `regex::Error`, carried through as it is.
#[verifier::external_type_specification]
#[verifier::external_body]
pub struct ExRegexError(regex::Error);

/// What the `regex` crate says of `text` under `pattern`: whether
/// `Regex::is_match` finds a match, or nothing where `Regex::new` rejects
/// the pattern.
pub uninterp spec fn regex_accepts(pattern: Seq<char>, text: Seq<char>) -> Option<bool>;

/// Compiles `pattern` with `Regex::new` and asks `Regex::is_match` about
/// `text`. The result is a function of the two strings alone.
#[verifier::external_body]
fn regex_is_match(pattern: &str, text: &str) -> (r: Result<bool, regex::Error>)
    ensures
        match r {
            Ok(b) => regex_accepts(pattern@, text@) == Some(b),
            Err(_) => regex_accepts(pattern@, text@) is None,
        },
{
    regex::Regex::new(pattern).map(|re| re.is_match(text))
}

/// The pattern of a folder name: one to 255 characters, none of them a
/// control character or one of `< > : " / \ | ? *`, and the last neither a
/// blank nor a period unless it is the only one.
pub open spec fn folder_name_pattern() -> Seq<char> {
    r#"^(?:[^\x00-\x1F<>:"/\\|?*\x7F]|[^\x00-\x1F<>:"/\\|?*\x7F][^\x00-\x1F<>:"/\\|?*\x7F]{0,253}[^\x00-\x1F<>:"/\\|?*\x7F .])$"#@
}

/// Whether a name is one of the directories that every project has.
pub open spec fn is_reserved(name: Seq<char>) -> bool {
    name == "trunk"@ || name == "branches"@ || name == "tags"@
}

/// What the message of the failure on a reserved name says.
pub open spec fn reserved_message(name: Seq<char>) -> Seq<char> {
    "Invalid branch name: "@ + name + ", "@ + name + " is a reserved keyword."@
}

/// What the message of the failure on a name that breaks the pattern says.
pub open spec fn invalid_message(name: Seq<char>) -> Seq<char> {
    "Invalid folder name: "@ + name
        + ". Only alphanumeric characters, underscores (_), hyphens (-), and periods (.) are allowed."@
}

/// Whether a name is allowed, given what the pattern says of it. A name
/// that is blank is refused; so is, unless only the path is checked, a name
/// that is reserved once the white space around it is dropped; so is a name
/// that the pattern does not match.
pub open spec fn folder_name_verdict(name: Seq<char>, only_path_check: bool, matched: Option<bool>)
    -> Result<(), ErrorModel> {
    let trimmed = trim(name);
    if trimmed.len() == 0 {
        Err(ErrorModel::Validation("Name cannot be empty"@))
    } else if !only_path_check && is_reserved(trimmed) {
        Err(ErrorModel::Validation(reserved_message(name)))
    } else if matched != Some(true) {
        Err(ErrorModel::Validation(invalid_message(name)))
    } else {
        Ok(())
    }
}

/// The view of an outcome without a value.
pub open spec fn unit_view(r: Result<(), AppError>) -> Result<(), ErrorModel> {
    match r {
        Ok(_) => Ok(()),
        Err(e) => Err(e@),
    }
}

/// Decides whether a name is allowed, given what the pattern says of it.
pub fn validate_folder_name_with(name: &str, only_path_check: bool, matched: Option<bool>) -> (r:
    Result<(), AppError>)
    ensures
        unit_view(r) == folder_name_verdict(name@, only_path_check, matched),
{
    let trimmed = trim_chars(&str_chars(name));
    if trimmed.len() == 0 {
        return Err(AppError::Validation(String::from_str("Name cannot be empty")));
    }
    if !only_path_check {
        let t = chars_to_string(&trimmed);
        if str_eq(t.as_str(), "trunk") || str_eq(t.as_str(), "branches") || str_eq(
            t.as_str(),
            "tags",
        ) {
            return Err(
                AppError::Validation(
                    join5("Invalid branch name: ", name, ", ", name, " is a reserved keyword."),
                ),
            );
        }
    }
    let accepted = match matched {
        Some(b) => b,
        None => false,
    };
    if !accepted {
        return Err(
            AppError::Validation(
                join3(
                    "Invalid folder name: ",
                    name,
                    ". Only alphanumeric characters, underscores (_), hyphens (-), and periods (.) are allowed.",
                ),
            ),
        );
    }
    Ok(())
}

/// Decides whether `name` may name a project or, unless `only_path_check`
/// holds, a branch.
pub fn validate_folder_name(name: &str, only_path_check: bool) -> (r: Result<(), AppError>)
    ensures
        unit_view(r) == folder_name_verdict(
            name@,
            only_path_check,
            regex_accepts(folder_name_pattern(), name@),
        ),
{
    let matched = match regex_is_match(
        r#"^(?:[^\x00-\x1F<>:"/\\|?*\x7F]|[^\x00-\x1F<>:"/\\|?*\x7F][^\x00-\x1F<>:"/\\|?*\x7F]{0,253}[^\x00-\x1F<>:"/\\|?*\x7F .])$"#,
        name,
    ) {
        Ok(b) => Some(b),
        Err(_) => None,
    };
    validate_folder_name_with(name, only_path_check, matched)
}

/// A path of the repository relative to its project: without leading
/// slashes, the project's name as often as it stands in front, and the
/// slashes that follow.
pub open spec fn relative_to_project(project: Seq<char>, path: Seq<char>) -> Seq<char> {
    trim_start_class(
        trim_start_str(trim_start_class(path, CharClass::One('/')), project),
        CharClass::One('/'),
    )
}

/// The branch that a path of the repository lies on: the name below
/// `branches/`, or `trunk`; nothing for a path that lies on neither.
pub open spec fn branch_of_path(project: Seq<char>, path: Seq<char>) -> Option<Seq<char>> {
    let rel = relative_to_project(project, path);
    if starts_with(rel, "branches/"@) {
        let below = trim_start_str(rel, "branches/"@);
        Some(below.take(index_of(below, '/', 0)))
    } else if starts_with(rel, "trunk"@) {
        Some("trunk"@)
    } else {
        None
    }
}

/// What the message of the failure on a path off every branch says.
pub open spec fn off_branch_message(path: Seq<char>) -> Seq<char> {
    "Path "@ + path + " is not under branches/ or trunk/"@
}

/// Tells the branch that a path of the repository lies on.
pub fn extract_branch_name_from_path(project_name: &str, path: &str) -> (r: Result<
    String,
    AppError,
>)
    ensures
        match r {
            Ok(name) => branch_of_path(project_name@, path@) == Some(name@),
            Err(e) => branch_of_path(project_name@, path@) is None && e@ == ErrorModel::Validation(
                off_branch_message(path@),
            ),
        },
{
    let a = trim_start_in(&str_chars(path), CharClass::One('/'));
    let b = trim_start_matching(&a, &str_chars(project_name));
    let rel = trim_start_in(&b, CharClass::One('/'));
    if chars_start_with(&rel, &str_chars("branches/")) {
        let below = trim_start_matching(&rel, &str_chars("branches/"));
        let end = chars_index_of(&below, '/', 0);
        Ok(chars_to_string(&chars_range(&below, 0, end)))
    } else if chars_start_with(&rel, &str_chars("trunk")) {
        Ok(String::from_str("trunk"))
    } else {
        Err(AppError::Validation(join3("Path ", path, " is not under branches/ or trunk/")))
    }
}

} // verus!
