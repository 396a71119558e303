//! `GET /poll/{poll_id}`: render a poll.
//!
//! The page shows the prompt, every member's username and every suggestion,
//! in insertion order. A visitor whose session identifies a member of this
//! poll is greeted by that username (and would be shown the suggestion
//! form); anyone else gets the join form.

use vstd::prelude::*;
use crate::middleware::PollInfo;
use crate::middleware::validate_poll_id;
use crate::session::Session;
use crate::store::Store;
use crate::store::contains_poll;
use crate::store::member_username_in;
use crate::store::poll_suggestion_texts;
use crate::store::poll_usernames;
use crate::store::spec_find_poll;
use crate::ids::parse_id;

verus! {

/// Failure of the poll page.
#[derive(Debug)]
pub enum ShowPollError {
    /// The requested poll does not exist: answered as not-found.
    InvalidPollError,
    /// The backing store failed.
    UnexpectedError,
}

impl ShowPollError {
    /// The HTTP status this error is sent with.
    pub fn status_code(&self) -> (c: u16)
        ensures
            c == (if self is InvalidPollError {
                404u16
            } else {
                500u16
            }),
    {
        match self {
            ShowPollError::InvalidPollError => 404,
            ShowPollError::UnexpectedError => 500,
        }
    }
}

/// Everything the poll page renders.
pub struct PollPage {
    pub prompt: String,
    /// The username greeted when the session identifies a member of this
    /// poll; its presence also decides suggestion form versus join form.
    pub logged_in_as: Option<String>,
    pub usernames: Vec<String>,
    pub suggestions: Vec<String>,
}

/// What the greeting shows: the username of the session's user in this
/// poll, when the session is authenticated and that user is a member.
pub open spec fn greeting_of(
    ms: Seq<crate::store::Membership>,
    pid: u128,
    session_user: Option<u128>,
) -> Option<Seq<char>> {
    match session_user {
        None => None,
        Some(uid) => member_username_in(ms, pid, uid),
    }
}

/// The username under which `user_id` joined poll `poll_id`, if it did.
pub fn get_user_from_id(store: &Store, user_id: u128, poll_id: u128) -> (r: Option<String>)
    ensures
        r is Some == member_username_in(store.poll_users@, poll_id, user_id) is Some,
        r matches Some(u) ==> member_username_in(store.poll_users@, poll_id, user_id) == Some(u@),
{
    let ms = &store.poll_users;
    let n = ms.len();
    let mut res: Option<String> = None;
    let mut i: usize = 0;
    while i < n
        invariant
            n == ms@.len(),
            0 <= i <= n,
            res is Some == member_username_in(ms@.subrange(0, i as int), poll_id, user_id)
                is Some,
            res matches Some(u) ==> member_username_in(ms@.subrange(0, i as int), poll_id, user_id)
                == Some(u@),
        decreases n - i,
    {
        proof {
            assert(ms@.subrange(0, i + 1).drop_last() =~= ms@.subrange(0, i as int));
            assert(ms@.subrange(0, i + 1).last() == ms@[i as int]);
        }
        if res.is_none() && ms[i].poll_id == poll_id && ms[i].user_id == user_id {
            res = Some(ms[i].username.clone());
        }
        i = i + 1;
    }
    proof {
        assert(ms@.subrange(0, n as int) =~= ms@);
    }
    res
}

/// The username greeted for this session on this poll, if any.
pub fn get_session_user(store: &Store, session: &Session, poll_id: u128) -> (r: Option<String>)
    ensures
        r is Some == greeting_of(store.poll_users@, poll_id, session.user_id) is Some,
        r matches Some(u) ==> greeting_of(store.poll_users@, poll_id, session.user_id) == Some(
            u@,
        ),
{
    match session.user_id {
        None => None,
        Some(uid) => get_user_from_id(store, uid, poll_id),
    }
}

/// Usernames of every member of the poll, in insertion order.
pub fn get_poll_users(store: &Store, poll_id: u128) -> (r: Vec<String>)
    ensures
        r.deep_view() == poll_usernames(store.poll_users@, poll_id),
{
    let ms = &store.poll_users;
    let n = ms.len();
    let mut out: Vec<String> = Vec::new();
    let mut i: usize = 0;
    while i < n
        invariant
            n == ms@.len(),
            0 <= i <= n,
            out.deep_view() == poll_usernames(ms@.subrange(0, i as int), poll_id),
        decreases n - i,
    {
        proof {
            assert(ms@.subrange(0, i + 1).drop_last() =~= ms@.subrange(0, i as int));
            assert(ms@.subrange(0, i + 1).last() == ms@[i as int]);
        }
        let ghost prev = out.deep_view();
        if ms[i].poll_id == poll_id {
            let u = ms[i].username.clone();
            out.push(u);
            proof {
                assert(out.deep_view() =~= prev + seq![ms@[i as int].username@]);
            }
        } else {
            proof {
                assert(poll_usernames(ms@.subrange(0, i + 1), poll_id) =~= prev);
            }
        }
        i = i + 1;
    }
    proof {
        assert(ms@.subrange(0, n as int) =~= ms@);
    }
    out
}

/// Texts of every suggestion of the poll, in insertion order.
pub fn get_suggestions(store: &Store, poll_id: u128) -> (r: Vec<String>)
    ensures
        r.deep_view() == poll_suggestion_texts(store.suggestions@, poll_id),
{
    let ss = &store.suggestions;
    let n = ss.len();
    let mut out: Vec<String> = Vec::new();
    let mut i: usize = 0;
    while i < n
        invariant
            n == ss@.len(),
            0 <= i <= n,
            out.deep_view() == poll_suggestion_texts(ss@.subrange(0, i as int), poll_id),
        decreases n - i,
    {
        proof {
            assert(ss@.subrange(0, i + 1).drop_last() =~= ss@.subrange(0, i as int));
            assert(ss@.subrange(0, i + 1).last() == ss@[i as int]);
        }
        let ghost prev = out.deep_view();
        if ss[i].poll_id == poll_id {
            let t = ss[i].suggestion.clone();
            out.push(t);
            proof {
                assert(out.deep_view() =~= prev + seq![ss@[i as int].suggestion@]);
            }
        } else {
            proof {
                assert(poll_suggestion_texts(ss@.subrange(0, i + 1), poll_id) =~= prev);
            }
        }
        i = i + 1;
    }
    proof {
        assert(ss@.subrange(0, n as int) =~= ss@);
    }
    out
}

/// Assemble the poll page for a gate-resolved poll.
pub fn show_poll(store: &Store, session: &Session, poll_info: &PollInfo) -> (page: PollPage)
    ensures
        page.prompt@ == poll_info.prompt@,
        page.usernames.deep_view() == poll_usernames(store.poll_users@, poll_info.poll_id),
        page.suggestions.deep_view() == poll_suggestion_texts(
            store.suggestions@,
            poll_info.poll_id,
        ),
        page.logged_in_as is Some == greeting_of(
            store.poll_users@,
            poll_info.poll_id,
            session.user_id,
        ) is Some,
        page.logged_in_as matches Some(u) ==> greeting_of(
            store.poll_users@,
            poll_info.poll_id,
            session.user_id,
        ) == Some(u@),
{
    let logged_in_as = get_session_user(store, session, poll_info.poll_id);
    let usernames = get_poll_users(store, poll_info.poll_id);
    let suggestions = get_suggestions(store, poll_info.poll_id);
    PollPage { prompt: poll_info.prompt.clone(), logged_in_as, usernames, suggestions }
}

/// The whole `GET /poll/{poll_id}` request: gate, then page. Not-found
/// exactly when the path segment is ill-formed or no such poll is stored.
pub fn handle_show_poll(store: &Store, session: &Session, raw_poll_id: &str) -> (r: Result<
    PollPage,
    ShowPollError,
>)
    ensures
        r is Ok == (parse_id(raw_poll_id@) matches Some(pid) && contains_poll(store.polls@, pid)),
        r matches Err(e) ==> e is InvalidPollError,
        r matches Ok(page) ==> parse_id(raw_poll_id@) matches Some(pid) && spec_find_poll(
            store.polls@,
            pid,
        ) matches Some(row) && page.prompt@ == row.prompt@ && page.usernames.deep_view()
            == poll_usernames(store.poll_users@, pid) && page.suggestions.deep_view()
            == poll_suggestion_texts(store.suggestions@, pid) && (page.logged_in_as is Some
            == greeting_of(store.poll_users@, pid, session.user_id) is Some) && (
        page.logged_in_as matches Some(u) ==> greeting_of(store.poll_users@, pid, session.user_id)
            == Some(u@)),
{
    match validate_poll_id(store, raw_poll_id) {
        None => Err(ShowPollError::InvalidPollError),
        Some(info) => Ok(show_poll(store, session, &info)),
    }
}

} // verus!
