//! Session identity and one-shot flash messages.
//!
//! A browser's session holds at most one user identifier; it is set when the
//! visitor creates or joins a poll. Flash messages are queued on a redirect
//! and consumed, at most once, by the next page render.

use vstd::prelude::*;
use crate::store::Store;
use crate::store::contains_user;

verus! {

/// The per-browser session record: the authenticated user, if any.
pub struct Session {
    pub user_id: Option<u128>,
}

impl Session {
    /// The session of a fresh, unauthenticated visitor.
    pub fn new() -> (s: Session)
        ensures
            s.user_id is None,
    {
        Session { user_id: None }
    }

    /// A session only ever holds an identifier of an existing user row.
    pub open spec fn wf(self, store: Store) -> bool {
        self.user_id matches Some(uid) ==> contains_user(store.users@, uid)
    }
}

/// Flash messages queued for a session: set on a redirect, consumed and
/// cleared by the very next render.
pub struct FlashStore {
    pub pending: Vec<String>,
}

impl FlashStore {
    /// No message pending.
    pub fn new() -> (f: FlashStore)
        ensures
            f.pending@.len() == 0,
    {
        FlashStore { pending: Vec::new() }
    }

    /// Queue one message for the next render.
    pub fn send(&mut self, message: String)
        ensures
            final(self).pending@ == old(self).pending@.push(message),
    {
        self.pending.push(message);
    }

    /// Queue every message of a redirect, in order.
    pub fn send_all(&mut self, messages: &Vec<String>)
        ensures
            final(self).pending@ == old(self).pending@ + messages@,
    {
        let n = messages.len();
        let mut i: usize = 0;
        while i < n
            invariant
                n == messages@.len(),
                0 <= i <= n,
                self.pending@ == old(self).pending@ + messages@.subrange(0, i as int),
            decreases n - i,
        {
            let m = messages[i].clone();
            self.pending.push(m);
            proof {
                assert(old(self).pending@ + messages@.subrange(0, i + 1) =~= (old(self).pending@
                    + messages@.subrange(0, i as int)).push(messages@[i as int]));
            }
            i = i + 1;
        }
        proof {
            assert(messages@.subrange(0, n as int) =~= messages@);
        }
    }

    /// Hand out everything pending and clear it: the one-shot rule.
    pub fn take(&mut self) -> (r: Vec<String>)
        ensures
            r@ == old(self).pending@,
            final(self).pending@.len() == 0,
    {
        let mut out = Vec::new();
        std::mem::swap(&mut out, &mut self.pending);
        out
    }
}

} // verus!
