//! Choosing what the log viewer shows (the newest log file of a kind and the
//! last lines of it) and which old log files are deleted.

use vstd::prelude::*;

use crate::text::{contains_text, seq_contains};

verus! {

/// Whether a log file belongs to a kind of log: its name holds the kind
/// followed by `.log`.
pub fn is_log_of_kind(file_name: &str, kind: &str) -> (r: bool)
    ensures
        r == seq_contains(file_name@, kind@ + ".log"@),
{
    let mut pattern = String::from_str(kind);
    pattern.append(".log");
    contains_text(file_name, pattern.as_str())
}

/// The newest of the candidate files by modification time, as sorting
/// them newest first with a stable sort and taking the first gives it: the
/// first of those with the latest time; `None` when there is no candidate.
pub fn newest_index(modified: &Vec<u128>) -> (r: Option<usize>)
    ensures
        modified@.len() == 0 <==> r is None,
        r matches Some(i) ==> i < modified@.len() && (forall|j: int|
            0 <= j < modified@.len() ==> modified@[j] <= modified@[i as int]) && (forall|j: int|
            0 <= j < i ==> modified@[j] < modified@[i as int]),
{
    if modified.len() == 0 {
        return None;
    }
    let mut best: usize = 0;
    let mut k: usize = 1;
    while k < modified.len()
        invariant
            1 <= k <= modified.len(),
            best < k,
            forall|j: int| 0 <= j < k ==> modified@[j] <= modified@[best as int],
            forall|j: int| 0 <= j < best ==> modified@[j] < modified@[best as int],
        decreases modified.len() - k,
    {
        if modified[k] > modified[best] {
            best = k;
        }
        k = k + 1;
    }
    Some(best)
}

/// The first line the viewer shows of `len` lines when it shows at most
/// `limit`.
pub open spec fn tail_start(len: nat, limit: nat) -> nat {
    if len > limit {
        (len - limit) as nat
    } else {
        0
    }
}

/// The last `limit` lines of a log (all of them when there are fewer).
pub fn recent_lines(lines: Vec<String>, limit: usize) -> (r: Vec<String>)
    ensures
        r@ == lines@.subrange(tail_start(lines@.len(), limit as nat) as int, lines@.len() as int),
{
    let mut all = lines;
    let len = all.len();
    let start = if len > limit {
        len - limit
    } else {
        0
    };
    all.split_off(start)
}

/// The line the viewer shows when no log file of a kind exists.
pub fn no_log_files_message(kind: &str) -> (m: String)
    ensures
        m@ == "No log files found for type '"@ + kind@ + "'."@,
{
    let mut m = String::from_str("No log files found for type '");
    m.append(kind);
    m.append("'.");
    m
}

/// Nanoseconds in a day.
pub const NANOS_PER_DAY: u128 = 86_400_000_000_000;

/// Whether a log file modified at `modified` (nanoseconds since the epoch)
/// is older than `max_days` days at time `now`, and so is deleted at start
/// up.
pub fn is_expired_log(modified: u128, now: u128, max_days: u64) -> (r: bool)
    ensures
        r == (modified < now - max_days * NANOS_PER_DAY),
{
    let span: u128 = max_days as u128 * NANOS_PER_DAY;
    if now < span {
        false
    } else {
        modified < now - span
    }
}

} // verus!
