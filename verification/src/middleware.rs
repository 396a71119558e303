//! The membership gate: every poll-scoped request resolves its path-supplied
//! poll identifier before anything else runs.
//!
//! The raw path segment is parsed as the canonical identifier syntax; on
//! parse failure or an unknown poll the whole request fails as not-found,
//! before the form body is even read. On success the resolved poll and its
//! prompt are handed to the route as a [`PollInfo`].

use vstd::prelude::*;
use crate::ids::parse_id;
use crate::ids::parse_id_str;
use crate::store::Poll;
use crate::store::Store;
use crate::store::contains_poll;
use crate::store::spec_find_poll;

verus! {

/// The resolved context of a poll-scoped request.
pub struct PollInfo {
    pub poll_id: u128,
    pub prompt: String,
}

impl PollInfo {
    /// `self` faithfully describes a poll of `store`: the poll exists and
    /// `prompt` is its stored prompt.
    pub open spec fn wf(self, store: Store) -> bool {
        spec_find_poll(store.polls@, self.poll_id) matches Some(row) && row.prompt@ == self.prompt@
    }
}

/// A found poll is a contained poll, and the other way round.
pub proof fn lemma_find_poll_contains(polls: Seq<Poll>, pid: u128)
    ensures
        (spec_find_poll(polls, pid) is Some) == contains_poll(polls, pid),
        spec_find_poll(polls, pid) matches Some(row) ==> row.poll_id == pid,
    decreases polls.len(),
{
    if polls.len() > 0 {
        lemma_find_poll_contains(polls.drop_last(), pid);
        if contains_poll(polls.drop_last(), pid) {
            let k = choose|k: int|
                0 <= k < polls.drop_last().len() && (#[trigger] polls.drop_last()[k]).poll_id
                    == pid;
            assert(polls[k].poll_id == pid);
        }
        if contains_poll(polls, pid) && !(spec_find_poll(polls, pid) is Some) {
            let k = choose|k: int| 0 <= k < polls.len() && (#[trigger] polls[k]).poll_id == pid;
            assert(polls.drop_last()[k].poll_id == pid);
        }
    }
}

/// Look a poll up by identifier, returning its prompt.
pub fn find_poll(store: &Store, poll_id: u128) -> (r: Option<String>)
    ensures
        r is Some == contains_poll(store.polls@, poll_id),
        r matches Some(prompt) ==> spec_find_poll(store.polls@, poll_id) matches Some(row)
            && row.prompt@ == prompt@,
{
    let polls = &store.polls;
    let n = polls.len();
    let mut res: Option<String> = None;
    let mut i: usize = 0;
    while i < n
        invariant
            n == polls@.len(),
            0 <= i <= n,
            res is Some == spec_find_poll(polls@.subrange(0, i as int), poll_id) is Some,
            res matches Some(p) ==> spec_find_poll(polls@.subrange(0, i as int), poll_id)
                matches Some(row) && row.prompt@ == p@,
        decreases n - i,
    {
        proof {
            assert(polls@.subrange(0, i + 1).drop_last() =~= polls@.subrange(0, i as int));
            assert(polls@.subrange(0, i + 1).last() == polls@[i as int]);
        }
        if res.is_none() && polls[i].poll_id == poll_id {
            res = Some(polls[i].prompt.clone());
        }
        i = i + 1;
    }
    proof {
        assert(polls@.subrange(0, n as int) =~= polls@);
        lemma_find_poll_contains(polls@, poll_id);
    }
    res
}

/// Resolve a poll-scoped request: parse the path segment, then look the
/// poll up. `None` means the request answers not-found, exactly when the
/// segment is not a well-formed identifier or no such poll is stored.
pub fn validate_poll_id(store: &Store, raw: &str) -> (r: Option<PollInfo>)
    ensures
        r is Some == (parse_id(raw@) matches Some(pid) && contains_poll(store.polls@, pid)),
        r matches Some(info) ==> parse_id(raw@) == Some(info.poll_id) && info.wf(*store),
{
    match parse_id_str(raw) {
        None => None,
        Some(poll_id) => match find_poll(store, poll_id) {
            None => None,
            Some(prompt) => Some(PollInfo { poll_id, prompt }),
        },
    }
}

} // verus!
