//! The failures that an operation of this library can end in.

use crate::text::join2;
use vstd::prelude::*;
use vstd::string::*;

verus! {

/// `std::io::Error`, carried through as it is.
#[verifier::external_type_specification]
#[verifier::external_body]
pub struct ExIoError(std::io::Error);

/// `std::string::FromUtf8Error`, carried through as it is.
#[verifier::external_type_specification]
#[verifier::external_body]
pub struct ExFromUtf8Error(std::string::FromUtf8Error);

/// `roxmltree::Error`, carried through as it is.
#[verifier::external_type_specification]
#[verifier::external_body]
pub struct ExXmlError(roxmltree::Error);

/// `ignore::Error`, carried through as it is.
#[verifier::external_type_specification]
#[verifier::external_body]
pub struct ExIgnoreError(ignore::Error);

/// Why an operation failed.
#[derive(Debug)]
pub enum AppError {
    /// The file system or a spawned process failed.
    Io(std::io::Error),
    /// Captured output was text in no encoding that could be told.
    Utf8(std::string::FromUtf8Error),
    /// The backend ran and reported a failure by its exit status.
    SvnCommandFailed { command: String, _stdout: String, _stderr: String },
    /// The operator declined to go on.
    OperationCancelled,
    /// A revision could not be read.
    RevisionParse(String),
    /// A name, a path or the state of the working copy breaks a rule.
    Validation(String),
    /// Structured output of the backend was malformed.
    XmlParse(roxmltree::Error),
    /// A percent-encoded URL did not decode to UTF-8.
    UrlDecode(std::string::FromUtf8Error),
    /// The ignore rules could not be compiled.
    Ignore(ignore::Error),
    /// The metadata of the working copy is inconsistent: it has to be
    /// repaired from outside before anything is tried again.
    IncompleteState,
}

/// A failure as a mathematical value: its kind and all that it holds, the
/// texts by their characters and the failures of other libraries as they
/// are.
pub enum ErrorModel {
    Io(std::io::Error),
    Utf8(std::string::FromUtf8Error),
    SvnCommandFailed { command: Seq<char>, stdout: Seq<char>, stderr: Seq<char> },
    OperationCancelled,
    RevisionParse(Seq<char>),
    Validation(Seq<char>),
    XmlParse(roxmltree::Error),
    UrlDecode(std::string::FromUtf8Error),
    Ignore(ignore::Error),
    IncompleteState,
}

impl View for AppError {
    type V = ErrorModel;

    open spec fn view(&self) -> ErrorModel {
        match self {
            AppError::Io(e) => ErrorModel::Io(*e),
            AppError::Utf8(e) => ErrorModel::Utf8(*e),
            AppError::SvnCommandFailed { command, _stdout, _stderr } => ErrorModel::SvnCommandFailed {
                command: command@,
                stdout: _stdout@,
                stderr: _stderr@,
            },
            AppError::OperationCancelled => ErrorModel::OperationCancelled,
            AppError::RevisionParse(rev) => ErrorModel::RevisionParse(rev@),
            AppError::Validation(msg) => ErrorModel::Validation(msg@),
            AppError::XmlParse(e) => ErrorModel::XmlParse(*e),
            AppError::UrlDecode(e) => ErrorModel::UrlDecode(*e),
            AppError::Ignore(e) => ErrorModel::Ignore(*e),
            AppError::IncompleteState => ErrorModel::IncompleteState,
        }
    }
}

/// What the message of the failure on an inconsistent working copy says.
pub open spec fn incomplete_message() -> Seq<char> {
    "Workspace is in an incomplete state. Please run 'svn cleanup' and try again."@
}

/// `std::io::Error`'s `Display` text; nothing is claimed of it.
#[verifier::external_body]
fn io_error_text(e: &std::io::Error) -> String {
    e.to_string()
}

/// `FromUtf8Error`'s `Display` text; nothing is claimed of it.
#[verifier::external_body]
fn utf8_error_text(e: &std::string::FromUtf8Error) -> String {
    e.to_string()
}

/// `roxmltree::Error`'s `Display` text; nothing is claimed of it.
#[verifier::external_body]
fn xml_error_text(e: &roxmltree::Error) -> String {
    e.to_string()
}

/// `ignore::Error`'s `Display` text; nothing is claimed of it.
#[verifier::external_body]
fn ignore_error_text(e: &ignore::Error) -> String {
    e.to_string()
}

impl AppError {
    /// What stands before the detail in the message of each kind of failure.
    pub open spec fn message_prefix(self) -> Seq<char> {
        match self {
            AppError::Io(_) => "I/O Error: "@,
            AppError::Utf8(_) => "UTF-8 Conversion Error: "@,
            AppError::SvnCommandFailed { .. } => "SVN command failed: "@,
            AppError::OperationCancelled => "Operation cancelled"@,
            AppError::RevisionParse(_) => "Failed to parse revision: "@,
            AppError::Validation(_) => "Error: "@,
            AppError::XmlParse(_) => "XML Parsing Error: "@,
            AppError::UrlDecode(_) => "URL/Path Decoding Error: "@,
            AppError::Ignore(_) => "Ignore Error: "@,
            AppError::IncompleteState => "Error: "@,
        }
    }

    /// The whole message, for the kinds whose detail this library holds.
    pub open spec fn message_text(self) -> Option<Seq<char>> {
        match self {
            AppError::SvnCommandFailed { command, .. } => Some(
                "SVN command failed: "@ + command@ + "\n"@,
            ),
            AppError::OperationCancelled => Some("Operation cancelled"@),
            AppError::RevisionParse(rev) => Some("Failed to parse revision: "@ + rev@),
            AppError::Validation(msg) => Some("Error: "@ + msg@),
            AppError::IncompleteState => Some("Error: "@ + incomplete_message()),
            _ => None,
        }
    }

    /// The message shown to the operator. Where the failure wraps one of
    /// another library, that library's own text follows the prefix.
    pub fn message(&self) -> (r: String)
        ensures
            self.message_text() matches Some(t) ==> r@ == t,
            crate::text::starts_with(r@, self.message_prefix()),
    {
        let r = match self {
            AppError::Io(e) => join2("I/O Error: ", io_error_text(e).as_str()),
            AppError::Utf8(e) => join2("UTF-8 Conversion Error: ", utf8_error_text(e).as_str()),
            AppError::SvnCommandFailed { command, .. } => {
                let head = join2("SVN command failed: ", command.as_str());
                join2(head.as_str(), "\n")
            },
            AppError::OperationCancelled => String::from_str("Operation cancelled"),
            AppError::RevisionParse(rev) => join2("Failed to parse revision: ", rev.as_str()),
            AppError::Validation(msg) => join2("Error: ", msg.as_str()),
            AppError::XmlParse(e) => join2("XML Parsing Error: ", xml_error_text(e).as_str()),
            AppError::UrlDecode(e) => join2(
                "URL/Path Decoding Error: ",
                utf8_error_text(e).as_str(),
            ),
            AppError::Ignore(e) => join2("Ignore Error: ", ignore_error_text(e).as_str()),
            AppError::IncompleteState => join2(
                "Error: ",
                "Workspace is in an incomplete state. Please run 'svn cleanup' and try again.",
            ),
        };
        assert(r@.subrange(0, self.message_prefix().len() as int) == self.message_prefix());
        r
    }

    /// Whether the failure is the operator's own decision to stop, which
    /// callers report as a neutral outcome.
    pub fn is_cancellation(&self) -> (r: bool)
        ensures
            r == (self is OperationCancelled),
    {
        match self {
            AppError::OperationCancelled => true,
            _ => false,
        }
    }

    /// Whether the working copy has to be repaired from outside first.
    pub fn is_incomplete_state(&self) -> (r: bool)
        ensures
            r == (self is IncompleteState),
    {
        match self {
            AppError::IncompleteState => true,
            _ => false,
        }
    }

    /// Whether the backend itself reported the failure.
    pub fn is_backend_failure(&self) -> (r: bool)
        ensures
            r == (self is SvnCommandFailed),
    {
        match self {
            AppError::SvnCommandFailed { .. } => true,
            _ => false,
        }
    }
}

/// A validation failure with the message `msg`.
pub fn validation(msg: &str) -> (e: AppError)
    ensures
        e matches AppError::Validation(m) && m@ == msg@,
        e@ == ErrorModel::Validation(msg@),
{
    AppError::Validation(String::from_str(msg))
}

} // verus!
