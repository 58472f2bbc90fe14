//! The reference count that guards a checked-out project.
//!
//! The count lives in a small file that the caller reads and writes while
//! it holds the file's lock. What is read, how the count changes and what is
//! written back are decided here.

use crate::text::{
    chars_parse_u64, chars_to_string, decimal_digits, join2, parse_u64, str_chars, trim,
    trim_chars, u64_to_chars,
};
use vstd::prelude::*;

verus! {

/// What is asked of the count.
#[derive(Debug, Clone, Copy, PartialEq, Eq, Structural)]
pub enum ChangeLockType {
    /// One more handle refers to the project.
    Add,
    /// One handle less refers to the project.
    Sub,
    /// A query before the checkout is removed: the count stays as it is.
    Delete,
}

/// The count that the content of the file stands for: the number written
/// there, and zero where the content is no number.
pub open spec fn count_of(content: Seq<char>) -> nat {
    match parse_u64(trim(content)) {
        Some(n) => n as nat,
        None => 0,
    }
}

/// The count after one request: one more, one less but never below zero, or
/// the same.
pub open spec fn adjusted(current: nat, lock_type: ChangeLockType) -> nat {
    match lock_type {
        ChangeLockType::Add => current + 1,
        ChangeLockType::Sub => if current > 0 {
            (current - 1) as nat
        } else {
            0
        },
        ChangeLockType::Delete => current,
    }
}

/// The count that the content of the file stands for.
pub fn read_count(content: &str) -> (n: u64)
    ensures
        n == count_of(content@),
{
    match chars_parse_u64(&trim_chars(&str_chars(content))) {
        Some(n) => n,
        None => 0,
    }
}

/// The count after one request.
pub fn adjust(current: u64, lock_type: ChangeLockType) -> (n: u64)
    requires
        lock_type == ChangeLockType::Add ==> current < u64::MAX,
    ensures
        n == adjusted(current as nat, lock_type),
{
    match lock_type {
        ChangeLockType::Add => current + 1,
        ChangeLockType::Sub => if current > 0 {
            current - 1
        } else {
            0
        },
        ChangeLockType::Delete => current,
    }
}

/// Carries one request out on the content of the count's file: returns the
/// new count and the content to write back in place of the old.
pub fn change_lock_file(content: &str, lock_type: ChangeLockType) -> (r: (u64, String))
    requires
        lock_type == ChangeLockType::Add ==> count_of(content@) < u64::MAX,
    ensures
        r.0 == adjusted(count_of(content@), lock_type),
        r.1@ == decimal_digits(r.0 as nat),
        count_of(r.1@) == r.0,
{
    let new_val = adjust(read_count(content), lock_type);
    proof {
        crate::text::lemma_written_number_is_read(new_val);
    }
    (new_val, chars_to_string(&u64_to_chars(new_val)))
}

/// The counts that a sequence of requests returns, one after another on the
/// same file, from a count of `start` on.
pub open spec fn counts_returned(ops: Seq<ChangeLockType>, start: nat) -> Seq<nat>
    decreases ops.len(),
{
    if ops.len() == 0 {
        Seq::empty()
    } else {
        seq![adjusted(start, ops[0])] + counts_returned(ops.drop_first(), adjusted(start, ops[0]))
    }
}

/// Whatever requests are made one after another: each returns the count
/// before it plus one for an increment, minus one but never below zero for a
/// decrement, and the same for a query; no count is ever negative, and a
/// decrement at zero returns zero.
pub proof fn lemma_counts_step(ops: Seq<ChangeLockType>, start: nat, k: int)
    requires
        0 <= k < ops.len(),
    ensures
        counts_returned(ops, start).len() == ops.len(),
        counts_returned(ops, start)[k] == adjusted(
            if k == 0 {
                start
            } else {
                counts_returned(ops, start)[k - 1]
            },
            ops[k],
        ),
        counts_returned(ops, start)[k] >= 0,
        adjusted(0, ChangeLockType::Sub) == 0,
    decreases ops.len(),
{
    lemma_counts_len(ops, start);
    if k > 0 {
        let next = adjusted(start, ops[0]);
        lemma_counts_len(ops.drop_first(), next);
        lemma_counts_step(ops.drop_first(), next, k - 1);
        assert(ops.drop_first()[k - 1] == ops[k]);
    }
}

/// There is one count for each request.
pub proof fn lemma_counts_len(ops: Seq<ChangeLockType>, start: nat)
    ensures
        counts_returned(ops, start).len() == ops.len(),
    decreases ops.len(),
{
    if ops.len() > 0 {
        lemma_counts_len(ops.drop_first(), adjusted(start, ops[0]));
    }
}

/// The count that the request at index `k` of a sequence finds, from a
/// count of `start` on.
pub open spec fn count_found(ops: Seq<ChangeLockType>, start: nat, k: int) -> nat {
    if k <= 0 {
        start
    } else {
        counts_returned(ops, start)[k - 1]
    }
}

/// A count grows by one at most with each request. So where the start and
/// the number of requests stay within `u64::MAX` together, as they do from
/// zero for every sequence that a machine can count, each request finds a
/// count below `u64::MAX`, which is all that `change_lock_file` asks of an
/// increment, and each count returned fits the machine's integer.
pub proof fn lemma_counts_fit(ops: Seq<ChangeLockType>, start: nat, k: int)
    requires
        0 <= k < ops.len(),
        start + ops.len() <= u64::MAX,
    ensures
        count_found(ops, start, k) <= start + k,
        count_found(ops, start, k) < u64::MAX,
        counts_returned(ops, start)[k] == adjusted(count_found(ops, start, k), ops[k]),
        counts_returned(ops, start)[k] <= start + k + 1,
        counts_returned(ops, start)[k] <= u64::MAX,
    decreases ops.len(),
{
    lemma_counts_step(ops, start, k);
    if k > 0 {
        let next = adjusted(start, ops[0]);
        let rest = ops.drop_first();
        lemma_counts_len(rest, next);
        lemma_counts_fit(rest, next, k - 1);
        assert(counts_returned(ops, start)[k] == counts_returned(rest, next)[k - 1]);
        assert(count_found(ops, start, k) == count_found(rest, next, k - 1));
    }
}

/// Whether the checkout that the count guards may be removed: only where
/// the count that a `Delete` request returned is exactly zero.
pub fn ensure_delete(count: u64) -> (may_delete: bool)
    ensures
        may_delete == (count == 0),
{
    count == 0
}

/// The name of the file that holds the count of a project:
/// `{project}.lock`.
pub fn get_lock_file_path(project_name: &str) -> (r: String)
    ensures
        r@ == project_name@ + ".lock"@,
{
    join2(project_name, ".lock")
}

/// The count after a sequence of requests, from `start` on.
pub open spec fn count_after(ops: Seq<ChangeLockType>, start: nat) -> nat
    decreases ops.len(),
{
    if ops.len() == 0 {
        start
    } else {
        count_after(ops.drop_first(), adjusted(start, ops[0]))
    }
}

/// What one request adds to the sum of a sequence.
pub open spec fn delta(lock_type: ChangeLockType) -> int {
    match lock_type {
        ChangeLockType::Add => 1,
        ChangeLockType::Sub => -1,
        ChangeLockType::Delete => 0,
    }
}

/// The net sum of a sequence of requests.
pub open spec fn net_sum(ops: Seq<ChangeLockType>) -> int
    decreases ops.len(),
{
    if ops.len() == 0 {
        0
    } else {
        delta(ops[0]) + net_sum(ops.drop_first())
    }
}

/// Whether every decrement of the sequence finds a count above zero, from
/// `start` on: no handle is given back that was not taken.
pub open spec fn balanced(ops: Seq<ChangeLockType>, start: nat) -> bool
    decreases ops.len(),
{
    if ops.len() == 0 {
        true
    } else {
        (ops[0] == ChangeLockType::Sub ==> start > 0) && balanced(
            ops.drop_first(),
            adjusted(start, ops[0]),
        )
    }
}

/// The count never goes below zero and never below what was taken and given
/// back: after any sequence of requests it is at least the start plus the
/// net sum.
pub proof fn lemma_count_is_bounded_below(ops: Seq<ChangeLockType>, start: nat)
    ensures
        count_after(ops, start) >= 0,
        count_after(ops, start) >= start + net_sum(ops),
    decreases ops.len(),
{
    if ops.len() > 0 {
        lemma_count_is_bounded_below(ops.drop_first(), adjusted(start, ops[0]));
    }
}

/// Where no decrement finds the count at zero, the count after a sequence
/// of requests is the start plus the net sum. From a count of zero a
/// `Delete` request then succeeds if and only if the net sum is zero.
pub proof fn lemma_count_is_net_sum(ops: Seq<ChangeLockType>, start: nat)
    requires
        balanced(ops, start),
    ensures
        count_after(ops, start) == start + net_sum(ops),
        start == 0 ==> (adjusted(count_after(ops, start), ChangeLockType::Delete) == 0 <==> net_sum(
            ops,
        ) == 0),
    decreases ops.len(),
{
    if ops.len() > 0 {
        lemma_count_is_net_sum(ops.drop_first(), adjusted(start, ops[0]));
    }
}

/// A `Delete` request is a query: it leaves the count as it is, so asking
/// twice gives the same answer.
pub proof fn lemma_delete_is_a_query(current: nat)
    ensures
        adjusted(current, ChangeLockType::Delete) == current,
        adjusted(adjusted(current, ChangeLockType::Add), ChangeLockType::Sub) == current,
{
}

} // verus!
