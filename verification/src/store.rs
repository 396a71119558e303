//! Relational state of the service: users, polls, memberships and
//! suggestions, with the integrity the workflow guarantees.
//!
//! Rows are only ever appended. Each multi-row write is one operation here,
//! mirroring a transaction: either every row of a poll creation or a join is
//! appended, or none is, so the state never shows a poll without its creator
//! membership, nor a membership without its user.

use vstd::prelude::*;

verus! {

/// A user row: an anonymous identity created at poll-creation or join time.
pub struct User {
    pub user_id: u128,
    pub created_at: u64,
}

/// A poll row: a prompt owned by the user who created it.
pub struct Poll {
    pub poll_id: u128,
    pub creator_id: u128,
    pub prompt: String,
    pub created_at: u64,
}

/// A membership row: a user has joined a poll under a chosen username.
pub struct Membership {
    pub poll_id: u128,
    pub user_id: u128,
    pub username: String,
}

/// A suggestion row: free text a joined user attached to a poll.
pub struct Suggestion {
    pub suggestion_id: u128,
    pub poll_id: u128,
    pub creator_id: u128,
    pub suggestion: String,
    pub created_at: u64,
}

/// Is `uid` the identifier of some user row?
pub open spec fn contains_user(users: Seq<User>, uid: u128) -> bool {
    exists|i: int| 0 <= i < users.len() && (#[trigger] users[i]).user_id == uid
}

/// Is `pid` the identifier of some poll row?
pub open spec fn contains_poll(polls: Seq<Poll>, pid: u128) -> bool {
    exists|i: int| 0 <= i < polls.len() && (#[trigger] polls[i]).poll_id == pid
}

/// Is `sid` the identifier of some suggestion row?
pub open spec fn contains_suggestion(ss: Seq<Suggestion>, sid: u128) -> bool {
    exists|i: int| 0 <= i < ss.len() && (#[trigger] ss[i]).suggestion_id == sid
}

/// The first poll row with identifier `pid`, if any.
pub open spec fn spec_find_poll(polls: Seq<Poll>, pid: u128) -> Option<Poll>
    decreases polls.len(),
{
    if polls.len() == 0 {
        None
    } else {
        let rest = spec_find_poll(polls.drop_last(), pid);
        if rest is Some {
            rest
        } else if polls.last().poll_id == pid {
            Some(polls.last())
        } else {
            None
        }
    }
}

/// Usernames of every membership of poll `pid`, in insertion order.
pub open spec fn poll_usernames(ms: Seq<Membership>, pid: u128) -> Seq<Seq<char>>
    decreases ms.len(),
{
    if ms.len() == 0 {
        Seq::empty()
    } else {
        poll_usernames(ms.drop_last(), pid) + (if ms.last().poll_id == pid {
            seq![ms.last().username@]
        } else {
            Seq::<Seq<char>>::empty()
        })
    }
}

/// Texts of every suggestion of poll `pid`, in insertion order.
pub open spec fn poll_suggestion_texts(ss: Seq<Suggestion>, pid: u128) -> Seq<Seq<char>>
    decreases ss.len(),
{
    if ss.len() == 0 {
        Seq::empty()
    } else {
        poll_suggestion_texts(ss.drop_last(), pid) + (if ss.last().poll_id == pid {
            seq![ss.last().suggestion@]
        } else {
            Seq::<Seq<char>>::empty()
        })
    }
}

/// The username under which user `uid` is a member of poll `pid`, if any
/// (first matching membership row).
pub open spec fn member_username_in(ms: Seq<Membership>, pid: u128, uid: u128) -> Option<Seq<char>>
    decreases ms.len(),
{
    if ms.len() == 0 {
        None
    } else {
        let rest = member_username_in(ms.drop_last(), pid, uid);
        if rest is Some {
            rest
        } else if ms.last().poll_id == pid && ms.last().user_id == uid {
            Some(ms.last().username@)
        } else {
            None
        }
    }
}

/// Does user `uid` hold a membership row in poll `pid`?
pub open spec fn has_poll_member(ms: Seq<Membership>, pid: u128, uid: u128) -> bool {
    exists|k: int|
        0 <= k < ms.len() && (#[trigger] ms[k]).poll_id == pid && ms[k].user_id == uid
}

/// Every poll row has the membership row of its creator.
pub open spec fn polls_have_creator_membership(polls: Seq<Poll>, ms: Seq<Membership>) -> bool {
    forall|i: int|
        0 <= i < polls.len() ==> has_poll_member(
            ms,
            (#[trigger] polls[i]).poll_id,
            polls[i].creator_id,
        )
}

/// Two states hold exactly the same rows.
pub open spec fn same_state(a: Store, b: Store) -> bool {
    a.users@ == b.users@ && a.polls@ == b.polls@ && a.poll_users@ == b.poll_users@
        && a.suggestions@ == b.suggestions@
}

/// A user that holds no membership row is greeted nowhere.
pub proof fn lemma_member_username_absent(ms: Seq<Membership>, pid: u128, uid: u128)
    requires
        forall|k: int| 0 <= k < ms.len() ==> (#[trigger] ms[k]).user_id != uid,
    ensures
        member_username_in(ms, pid, uid) is None,
    decreases ms.len(),
{
    if ms.len() > 0 {
        assert(forall|k: int|
            0 <= k < ms.drop_last().len() ==> (#[trigger] ms.drop_last()[k]).user_id != uid);
        lemma_member_username_absent(ms.drop_last(), pid, uid);
    }
}

/// The whole persisted state.
pub struct Store {
    pub users: Vec<User>,
    pub polls: Vec<Poll>,
    pub poll_users: Vec<Membership>,
    pub suggestions: Vec<Suggestion>,
}

impl Store {
    /// Integrity of the state, as the workflow maintains it: identifiers are
    /// primary keys; memberships and suggestions reference existing rows;
    /// every user holds at most one membership (each join mints a fresh
    /// user); every poll was created together with its creator's membership.
    pub open spec fn wf(self) -> bool {
        &&& forall|i: int, j: int|
            0 <= i < j < self.users@.len() ==> (#[trigger] self.users@[i]).user_id != (
            #[trigger] self.users@[j]).user_id
        &&& forall|i: int, j: int|
            0 <= i < j < self.polls@.len() ==> (#[trigger] self.polls@[i]).poll_id != (
            #[trigger] self.polls@[j]).poll_id
        &&& forall|i: int, j: int|
            0 <= i < j < self.suggestions@.len() ==> (#[trigger] self.suggestions@[i]).suggestion_id
                != (#[trigger] self.suggestions@[j]).suggestion_id
        &&& forall|i: int, j: int|
            0 <= i < j < self.poll_users@.len() ==> (#[trigger] self.poll_users@[i]).user_id != (
            #[trigger] self.poll_users@[j]).user_id
        &&& forall|i: int|
            0 <= i < self.poll_users@.len() ==> contains_poll(
                self.polls@,
                (#[trigger] self.poll_users@[i]).poll_id,
            ) && contains_user(self.users@, self.poll_users@[i].user_id)
        &&& forall|i: int|
            0 <= i < self.suggestions@.len() ==> contains_poll(
                self.polls@,
                (#[trigger] self.suggestions@[i]).poll_id,
            ) && contains_user(self.users@, self.suggestions@[i].creator_id)
        &&& polls_have_creator_membership(self.polls@, self.poll_users@)
    }

    /// A fresh, empty state.
    pub fn new() -> (s: Store)
        ensures
            s.wf(),
            s.users@.len() == 0,
            s.polls@.len() == 0,
            s.poll_users@.len() == 0,
            s.suggestions@.len() == 0,
    {
        Store { users: Vec::new(), polls: Vec::new(), poll_users: Vec::new(), suggestions: Vec::new() }
    }

    /// Does a user row with this identifier exist?
    pub fn has_user(&self, uid: u128) -> (r: bool)
        ensures
            r == contains_user(self.users@, uid),
    {
        let n = self.users.len();
        let mut i: usize = 0;
        let mut found = false;
        while i < n
            invariant
                n == self.users@.len(),
                0 <= i <= n,
                found == exists|k: int| 0 <= k < i && (#[trigger] self.users@[k]).user_id == uid,
            decreases n - i,
        {
            if self.users[i].user_id == uid {
                found = true;
            }
            i = i + 1;
        }
        found
    }

    /// Does a poll row with this identifier exist?
    pub fn has_poll(&self, pid: u128) -> (r: bool)
        ensures
            r == contains_poll(self.polls@, pid),
    {
        let n = self.polls.len();
        let mut i: usize = 0;
        let mut found = false;
        while i < n
            invariant
                n == self.polls@.len(),
                0 <= i <= n,
                found == exists|k: int| 0 <= k < i && (#[trigger] self.polls@[k]).poll_id == pid,
            decreases n - i,
        {
            if self.polls[i].poll_id == pid {
                found = true;
            }
            i = i + 1;
        }
        found
    }

    /// Does a suggestion row with this identifier exist?
    pub fn has_suggestion(&self, sid: u128) -> (r: bool)
        ensures
            r == contains_suggestion(self.suggestions@, sid),
    {
        let n = self.suggestions.len();
        let mut i: usize = 0;
        let mut found = false;
        while i < n
            invariant
                n == self.suggestions@.len(),
                0 <= i <= n,
                found == exists|k: int|
                    0 <= k < i && (#[trigger] self.suggestions@[k]).suggestion_id == sid,
            decreases n - i,
        {
            if self.suggestions[i].suggestion_id == sid {
                found = true;
            }
            i = i + 1;
        }
        found
    }

    /// The transaction behind poll creation: append the creator's user row,
    /// the poll row and the creator's membership row together, or none of
    /// them. Fails exactly when an identifier collides with an existing row.
    pub fn insert_poll_with_creator(
        &mut self,
        user_id: u128,
        poll_id: u128,
        username: String,
        prompt: String,
        now: u64,
    ) -> (ok: bool)
        requires
            old(self).wf(),
        ensures
            final(self).wf(),
            ok == (!contains_user(old(self).users@, user_id) && !contains_poll(
                old(self).polls@,
                poll_id,
            )),
            ok ==> final(self).users@ == old(self).users@.push(
                (User { user_id, created_at: now }),
            ),
            ok ==> final(self).polls@ == old(self).polls@.push(
                (Poll { poll_id, creator_id: user_id, prompt, created_at: now }),
            ),
            ok ==> final(self).poll_users@ == old(self).poll_users@.push(
                (Membership { poll_id, user_id, username }),
            ),
            final(self).suggestions@ == old(self).suggestions@,
            !ok ==> final(self).users@ == old(self).users@ && final(self).polls@ == old(
                self,
            ).polls@ && final(self).poll_users@ == old(self).poll_users@,
    {
        if self.has_user(user_id) || self.has_poll(poll_id) {
            return false;
        }
        let ghost u0 = self.users@;
        let ghost p0 = self.polls@;
        let ghost m0 = self.poll_users@;
        self.users.push(User { user_id, created_at: now });
        self.polls.push(Poll { poll_id, creator_id: user_id, prompt, created_at: now });
        self.poll_users.push(Membership { poll_id, user_id, username });
        proof {
            let u1 = self.users@;
            let p1 = self.polls@;
            let m1 = self.poll_users@;
            assert forall|i: int, j: int|
                0 <= i < j < u1.len() implies (#[trigger] u1[i]).user_id != (
            #[trigger] u1[j]).user_id by {
                assert(u1[i] == u0[i]);
                if j < u0.len() {
                    assert(u1[j] == u0[j]);
                }
            }
            assert forall|i: int, j: int|
                0 <= i < j < p1.len() implies (#[trigger] p1[i]).poll_id != (
            #[trigger] p1[j]).poll_id by {
                assert(p1[i] == p0[i]);
                if j < p0.len() {
                    assert(p1[j] == p0[j]);
                }
            }
            assert forall|i: int, j: int|
                0 <= i < j < m1.len() implies (#[trigger] m1[i]).user_id != (
            #[trigger] m1[j]).user_id by {
                assert(m1[i] == m0[i]);
                if j < m0.len() {
                    assert(m1[j] == m0[j]);
                } else {
                    assert(contains_user(u0, m0[i].user_id));
                }
            }
            assert forall|i: int|
                0 <= i < m1.len() implies contains_poll(p1, (#[trigger] m1[i]).poll_id)
                && contains_user(u1, m1[i].user_id) by {
                if i < m0.len() {
                    assert(m1[i] == m0[i]);
                    let k = choose|k: int| 0 <= k < p0.len() && (#[trigger] p0[k]).poll_id == m0[i].poll_id;
                    assert(p1[k] == p0[k]);
                    let k2 = choose|k2: int|
                        0 <= k2 < u0.len() && (#[trigger] u0[k2]).user_id == m0[i].user_id;
                    assert(u1[k2] == u0[k2]);
                } else {
                    assert(p1[p0.len() as int].poll_id == poll_id);
                    assert(u1[u0.len() as int].user_id == user_id);
                }
            }
            assert forall|i: int|
                0 <= i < self.suggestions@.len() implies contains_poll(
                p1,
                (#[trigger] self.suggestions@[i]).poll_id,
            ) && contains_user(u1, self.suggestions@[i].creator_id) by {
                assert(self.suggestions@[i] == old(self).suggestions@[i]);
                assert(contains_poll(p0, old(self).suggestions@[i].poll_id));
                assert(contains_user(u0, old(self).suggestions@[i].creator_id));
                let k = choose|k: int|
                    0 <= k < p0.len() && (#[trigger] p0[k]).poll_id == self.suggestions@[i].poll_id;
                assert(p1[k] == p0[k]);
                let k2 = choose|k2: int|
                    0 <= k2 < u0.len() && (#[trigger] u0[k2]).user_id
                        == self.suggestions@[i].creator_id;
                assert(u1[k2] == u0[k2]);
            }
            assert forall|i: int|
                0 <= i < p1.len() implies has_poll_member(
                m1,
                (#[trigger] p1[i]).poll_id,
                p1[i].creator_id,
            ) by {
                if i < p0.len() {
                    assert(p1[i] == p0[i]);
                    assert(has_poll_member(m0, p0[i].poll_id, p0[i].creator_id));
                    let k = choose|k: int|
                        0 <= k < m0.len() && (#[trigger] m0[k]).poll_id == p0[i].poll_id
                            && m0[k].user_id == p0[i].creator_id;
                    assert(m1[k] == m0[k]);
                    assert(0 <= k < m1.len() && m1[k].poll_id == p1[i].poll_id && m1[k].user_id
                        == p1[i].creator_id);
                } else {
                    let k = m0.len() as int;
                    assert(0 <= k < m1.len() && m1[k].poll_id == p1[i].poll_id && m1[k].user_id
                        == p1[i].creator_id);
                }
            }
            assert(polls_have_creator_membership(p1, m1));
        }
        true
    }

    /// The transaction behind joining: append the new user row and its
    /// membership row together, or neither. Requires the poll to exist;
    /// fails exactly when the user identifier collides.
    pub fn insert_poll_user(
        &mut self,
        poll_id: u128,
        user_id: u128,
        username: String,
        now: u64,
    ) -> (ok: bool)
        requires
            old(self).wf(),
            contains_poll(old(self).polls@, poll_id),
        ensures
            final(self).wf(),
            ok == !contains_user(old(self).users@, user_id),
            ok ==> final(self).users@ == old(self).users@.push(
                (User { user_id, created_at: now }),
            ),
            ok ==> final(self).poll_users@ == old(self).poll_users@.push(
                (Membership { poll_id, user_id, username }),
            ),
            final(self).polls@ == old(self).polls@,
            final(self).suggestions@ == old(self).suggestions@,
            !ok ==> final(self).users@ == old(self).users@ && final(self).poll_users@ == old(
                self,
            ).poll_users@,
    {
        if self.has_user(user_id) {
            return false;
        }
        let ghost u0 = self.users@;
        let ghost m0 = self.poll_users@;
        self.users.push(User { user_id, created_at: now });
        self.poll_users.push(Membership { poll_id, user_id, username });
        proof {
            let u1 = self.users@;
            let m1 = self.poll_users@;
            let p1 = self.polls@;
            assert forall|i: int, j: int|
                0 <= i < j < u1.len() implies (#[trigger] u1[i]).user_id != (
            #[trigger] u1[j]).user_id by {
                assert(u1[i] == u0[i]);
                if j < u0.len() {
                    assert(u1[j] == u0[j]);
                }
            }
            assert forall|i: int, j: int|
                0 <= i < j < m1.len() implies (#[trigger] m1[i]).user_id != (
            #[trigger] m1[j]).user_id by {
                assert(m1[i] == m0[i]);
                if j < m0.len() {
                    assert(m1[j] == m0[j]);
                } else {
                    assert(contains_user(u0, m0[i].user_id));
                }
            }
            assert forall|i: int|
                0 <= i < m1.len() implies contains_poll(p1, (#[trigger] m1[i]).poll_id)
                && contains_user(u1, m1[i].user_id) by {
                if i < m0.len() {
                    assert(m1[i] == m0[i]);
                    let k2 = choose|k2: int|
                        0 <= k2 < u0.len() && (#[trigger] u0[k2]).user_id == m0[i].user_id;
                    assert(u1[k2] == u0[k2]);
                } else {
                    assert(u1[u0.len() as int].user_id == user_id);
                }
            }
            assert forall|i: int|
                0 <= i < self.suggestions@.len() implies contains_poll(
                p1,
                (#[trigger] self.suggestions@[i]).poll_id,
            ) && contains_user(u1, self.suggestions@[i].creator_id) by {
                assert(self.suggestions@[i] == old(self).suggestions@[i]);
                assert(contains_poll(p1, old(self).suggestions@[i].poll_id));
                assert(contains_user(u0, old(self).suggestions@[i].creator_id));
                let k2 = choose|k2: int|
                    0 <= k2 < u0.len() && (#[trigger] u0[k2]).user_id
                        == self.suggestions@[i].creator_id;
                assert(u1[k2] == u0[k2]);
            }
            assert forall|i: int|
                0 <= i < p1.len() implies has_poll_member(
                m1,
                (#[trigger] p1[i]).poll_id,
                p1[i].creator_id,
            ) by {
                assert(p1[i] == old(self).polls@[i]);
                assert(has_poll_member(m0, p1[i].poll_id, p1[i].creator_id));
                let k = choose|k: int|
                    0 <= k < m0.len() && (#[trigger] m0[k]).poll_id == p1[i].poll_id && m0[k].user_id
                        == p1[i].creator_id;
                assert(m1[k] == m0[k]);
                assert(0 <= k < m1.len() && m1[k].poll_id == p1[i].poll_id && m1[k].user_id
                    == p1[i].creator_id);
            }
            assert(polls_have_creator_membership(p1, m1));
        }
        true
    }

    /// Append one suggestion row. Requires the poll and the contributing
    /// user to exist; fails exactly when the suggestion identifier collides.
    pub fn insert_suggestion(
        &mut self,
        suggestion_id: u128,
        poll_id: u128,
        creator_id: u128,
        suggestion: String,
        now: u64,
    ) -> (ok: bool)
        requires
            old(self).wf(),
            contains_poll(old(self).polls@, poll_id),
            contains_user(old(self).users@, creator_id),
        ensures
            final(self).wf(),
            ok == !contains_suggestion(old(self).suggestions@, suggestion_id),
            ok ==> final(self).suggestions@ == old(self).suggestions@.push(
                (Suggestion { suggestion_id, poll_id, creator_id, suggestion, created_at: now }),
            ),
            final(self).users@ == old(self).users@,
            final(self).polls@ == old(self).polls@,
            final(self).poll_users@ == old(self).poll_users@,
            !ok ==> final(self).suggestions@ == old(self).suggestions@,
    {
        if self.has_suggestion(suggestion_id) {
            return false;
        }
        let ghost s0 = self.suggestions@;
        self.suggestions.push(
            Suggestion { suggestion_id, poll_id, creator_id, suggestion, created_at: now },
        );
        proof {
            let s1 = self.suggestions@;
            assert forall|i: int|
                0 <= i < s1.len() implies contains_poll(self.polls@, (#[trigger] s1[i]).poll_id)
                && contains_user(self.users@, s1[i].creator_id) by {
                if i < s0.len() {
                    assert(s1[i] == s0[i]);
                }
            }
            assert forall|i: int|
                0 <= i < self.polls@.len() implies has_poll_member(
                self.poll_users@,
                (#[trigger] self.polls@[i]).poll_id,
                self.polls@[i].creator_id,
            ) by {
                assert(self.polls@[i] == old(self).polls@[i]);
                assert(has_poll_member(
                    old(self).poll_users@,
                    old(self).polls@[i].poll_id,
                    old(self).polls@[i].creator_id,
                ));
            }
            assert(polls_have_creator_membership(self.polls@, self.poll_users@));
        }
        true
    }
}

} // verus!
