//! Replaying a recorded session: each recorded request is answered once,
//! with the response that was recorded for it, in the order of recording.
use vstd::prelude::*;

use crate::cmd::CommandType;
use crate::text::str_eq;

verus! {

/// A request sent during a recorded session and the response it got.
#[derive(Debug)]
pub struct RecordedExchange {
    /// The request, as [`crate::cmd::Command::as_string`] gives it.
    pub request: String,
    /// What kind of command the request was.
    pub request_type: CommandType,
    /// The response, as the adapter sent it.
    pub response: String,
    /// The exchange was already replayed.
    pub played: bool,
}

/// The first exchange, from `i` on, that was not yet replayed and whose
/// request is `request`.
pub open spec fn first_unplayed(entries: Seq<RecordedExchange>, request: Seq<char>, i: int) -> Option<int>
    decreases entries.len() - i,
{
    if i < 0 || i >= entries.len() {
        None
    } else if !entries[i].played && entries[i].request@ == request {
        Some(i)
    } else {
        first_unplayed(entries, request, i + 1)
    }
}

/// Marks as replayed the first exchange for `request` that was not yet
/// replayed, and gives its position; nothing changes when there is none.
pub fn take_recorded(entries: &mut Vec<RecordedExchange>, request: &str) -> (res: Option<usize>)
    ensures
        final(entries)@.len() == old(entries)@.len(),
        match first_unplayed(old(entries)@, request@, 0) {
            Some(k) => {
                &&& res == Some(k as usize)
                &&& final(entries)@[k].played
                &&& final(entries)@[k].request == old(entries)@[k].request
                &&& final(entries)@[k].request_type == old(entries)@[k].request_type
                &&& final(entries)@[k].response == old(entries)@[k].response
                &&& forall|j: int| 0 <= j < old(entries)@.len() && j != k ==> #[trigger] final(entries)@[j] == old(entries)@[j]
            },
            None => res is None && final(entries)@ == old(entries)@,
        },
{
    let n = entries.len();
    let mut i: usize = 0;
    while i < n
        invariant
            n == entries@.len(),
            entries@ == old(entries)@,
            i <= n,
            first_unplayed(entries@, request@, 0) == first_unplayed(entries@, request@, i as int),
        decreases n - i,
    {
        if !entries[i].played && str_eq(entries[i].request.as_str(), request) {
            entries[i].played = true;
            return Some(i);
        }
        i = i + 1;
    }
    None
}

/// Marks every exchange as not yet replayed.
pub fn reset_played(entries: &mut Vec<RecordedExchange>)
    ensures
        final(entries)@.len() == old(entries)@.len(),
        forall|j: int|
            0 <= j < old(entries)@.len() ==> {
                &&& !(#[trigger] final(entries)@[j]).played
                &&& final(entries)@[j].request == old(entries)@[j].request
                &&& final(entries)@[j].request_type == old(entries)@[j].request_type
                &&& final(entries)@[j].response == old(entries)@[j].response
            },
{
    let n = entries.len();
    let mut i: usize = 0;
    while i < n
        invariant
            n == entries@.len(),
            n == old(entries)@.len(),
            i <= n,
            forall|j: int|
                0 <= j < i ==> {
                    &&& !(#[trigger] entries@[j]).played
                    &&& entries@[j].request == old(entries)@[j].request
                    &&& entries@[j].request_type == old(entries)@[j].request_type
                    &&& entries@[j].response == old(entries)@[j].response
                },
            forall|j: int| i <= j < n ==> #[trigger] entries@[j] == old(entries)@[j],
        decreases n - i,
    {
        entries[i].played = false;
        i = i + 1;
    }
}

/// An exchange that was replayed is never chosen again.
pub proof fn lemma_replayed_once(entries: Seq<RecordedExchange>, request: Seq<char>, k: int, i: int)
    requires
        0 <= k < entries.len(),
        entries[k].played,
        0 <= i,
    ensures
        first_unplayed(entries, request, i) != Some(k),
    decreases entries.len() - i,
{
    if i < entries.len() {
        lemma_replayed_once(entries, request, k, i + 1);
    }
}


proof fn lemma_replay_order_from(entries: Seq<RecordedExchange>, request: Seq<char>, k: int, i: int)
    requires
        0 <= i <= k < entries.len(),
        entries[k].request@ == request,
        !entries[k].played,
        forall|j: int| 0 <= j < k && entries[j].request@ == request ==> #[trigger] entries[j].played,
    ensures
        first_unplayed(entries, request, i) == Some(k),
    decreases k - i,
{
    if i < k {
        lemma_replay_order_from(entries, request, k, i + 1);
    }
}

/// Requests are answered in the order they were recorded: the exchange
/// replayed for a request is the earliest recorded for it that was not yet
/// replayed.
pub proof fn lemma_replay_in_recorded_order(entries: Seq<RecordedExchange>, request: Seq<char>, k: int)
    requires
        0 <= k < entries.len(),
        entries[k].request@ == request,
        !entries[k].played,
        forall|j: int| 0 <= j < k && entries[j].request@ == request ==> #[trigger] entries[j].played,
    ensures
        first_unplayed(entries, request, 0) == Some(k),
{
    lemma_replay_order_from(entries, request, k, 0);
}

} // verus!
