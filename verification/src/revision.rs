//! Revisions and their order.

use crate::error::AppError;
use crate::text::{
    chars_eq_ignore_ascii_case, chars_parse_u64, chars_to_string, decimal_digits,
    eq_ignore_ascii_case, join2, parse_u64, str_chars, trim, trim_chars, trim_start_class,
    trim_start_in, u64_to_chars, CharClass,
};
use std::cmp::Ordering;
use vstd::prelude::*;
use vstd::std_specs::cmp::PartialOrdSpecImpl;
use vstd::string::*;

verus! {

/// A point in the repository's history: a number, or the symbolic marker for
/// the latest one.
#[derive(Debug, Clone, Copy, PartialEq, Eq, Structural)]
pub enum Revision {
    Head,
    Number(u64),
}

impl Revision {
    /// The place of a revision in the order: its number, and for the marker a
    /// place above every number.
    pub open spec fn rank(self) -> int {
        match self {
            Revision::Head => u64::MAX + 1,
            Revision::Number(n) => n as int,
        }
    }

    /// Whether `self` comes strictly before `other`.
    pub open spec fn is_before(self, other: Revision) -> bool {
        self.rank() < other.rank()
    }

    /// How a revision is written: `HEAD`, or `r` and the number.
    pub open spec fn text(self) -> Seq<char> {
        match self {
            Revision::Head => "HEAD"@,
            Revision::Number(n) => "r"@ + decimal_digits(n as nat),
        }
    }

    /// Whether `self` comes strictly before `other`.
    pub fn precedes(&self, other: &Revision) -> (r: bool)
        ensures
            r == self.is_before(*other),
    {
        match (self, other) {
            (Revision::Head, _) => false,
            (Revision::Number(_), Revision::Head) => true,
            (Revision::Number(a), Revision::Number(b)) => *a < *b,
        }
    }

    /// How the revision is written: `HEAD`, or `r` and the number.
    pub fn to_string(&self) -> (r: String)
        ensures
            r@ == self.text(),
    {
        match self {
            Revision::Head => String::from_str("HEAD"),
            Revision::Number(n) => {
                let digits = chars_to_string(&u64_to_chars(*n));
                join2("r", digits.as_str())
            },
        }
    }
}

impl PartialOrd for Revision {
    fn partial_cmp(&self, other: &Revision) -> (r: Option<Ordering>) {
        match (self, other) {
            (Revision::Head, Revision::Head) => Some(Ordering::Equal),
            (Revision::Head, Revision::Number(_)) => Some(Ordering::Greater),
            (Revision::Number(_), Revision::Head) => Some(Ordering::Less),
            (Revision::Number(a), Revision::Number(b)) => {
                if *a < *b {
                    Some(Ordering::Less)
                } else if *a == *b {
                    Some(Ordering::Equal)
                } else {
                    Some(Ordering::Greater)
                }
            },
        }
    }
}

impl PartialOrdSpecImpl for Revision {
    open spec fn obeys_partial_cmp_spec() -> bool {
        true
    }

    open spec fn partial_cmp_spec(&self, other: &Revision) -> Option<Ordering> {
        if self.rank() < other.rank() {
            Some(Ordering::Less)
        } else if self.rank() == other.rank() {
            Some(Ordering::Equal)
        } else {
            Some(Ordering::Greater)
        }
    }
}

/// What a revision argument reads as: surrounding white space is dropped;
/// `HEAD` in any case is the marker; otherwise leading `r` and `R` are
/// dropped and the rest is a number.
pub open spec fn parse_revision(input: Seq<char>) -> Option<Revision> {
    let s = trim(input);
    if eq_ignore_ascii_case(s, "HEAD"@) {
        Some(Revision::Head)
    } else {
        match parse_u64(trim_start_class(s, CharClass::Either('r', 'R'))) {
            Some(n) => Some(Revision::Number(n)),
            None => None,
        }
    }
}

/// Reads a revision argument such as `100`, `r100` or `HEAD`.
pub fn parse_revision_arg(input: &str) -> (r: Result<Revision, AppError>)
    ensures
        match r {
            Ok(rev) => parse_revision(input@) == Some(rev),
            Err(AppError::RevisionParse(m)) => parse_revision(input@) is None && m@ == input@,
            Err(_) => false,
        },
{
    let s = trim_chars(&str_chars(input));
    if chars_eq_ignore_ascii_case(&s, &str_chars("HEAD")) {
        return Ok(Revision::Head);
    }
    let digits = trim_start_in(&s, CharClass::Either('r', 'R'));
    match chars_parse_u64(&digits) {
        Some(n) => Ok(Revision::Number(n)),
        None => Err(AppError::RevisionParse(String::from_str(input))),
    }
}

/// The pair of revisions that decides whether a commit must be reviewed:
/// that of the working copy and the latest one of the repository.
#[derive(Debug, Clone, Copy, PartialEq, Eq, Structural)]
pub struct RevisionState {
    pub current: Revision,
    pub latest: Revision,
}

impl RevisionState {
    /// The working copy lags the repository.
    pub open spec fn lags(self) -> bool {
        self.current.is_before(self.latest)
    }

    /// Whether the working copy lags the repository, so that a commit has to
    /// be put before the operator first.
    pub fn review_state(&self) -> (r: bool)
        ensures
            r == self.lags(),
    {
        self.current.precedes(&self.latest)
    }

    /// The state after the working copy has caught up.
    pub fn caught_up(&self) -> (r: RevisionState)
        ensures
            r.current == self.latest,
            r.latest == self.latest,
            !r.lags(),
    {
        RevisionState { current: self.latest, latest: self.latest }
    }
}

/// The order of revisions is strict and total: no revision comes before
/// itself, of two different ones exactly one comes first, and the order is
/// transitive. The marker comes after every number.
pub proof fn lemma_revision_order(a: Revision, b: Revision, c: Revision)
    ensures
        !a.is_before(a),
        a != b ==> (a.is_before(b) <==> !b.is_before(a)),
        a.is_before(b) && b.is_before(c) ==> a.is_before(c),
        a is Number ==> a.is_before(Revision::Head),
        !Revision::Head.is_before(a),
{
}

/// A working copy lags exactly as long as its revision is before the latest;
/// once it holds the latest revision it no longer does.
pub proof fn lemma_review_state(state: RevisionState)
    ensures
        state.lags() <==> state.current.rank() < state.latest.rank(),
        !(RevisionState { current: state.latest, latest: state.latest }).lags(),
{
}

} // verus!
