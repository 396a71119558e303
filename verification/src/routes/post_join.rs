//! `POST /poll/{poll_id}/join`: claim a username in a poll.
//!
//! The membership gate has already resolved the poll. A visitor whose
//! session is already authenticated is not joined again — the request
//! redirects to the poll page and changes nothing, so one session never
//! produces a second membership. Otherwise a new user row and its
//! membership row are committed together and the session adopts the new
//! identity under a renewed token.

use vstd::prelude::*;
use crate::domain::username_error_message;
use crate::domain::validate_username;
use crate::domain::valid_username;
use crate::ids::generate_id;
use crate::ids::id_text;
use crate::ids::parse_id;
use crate::middleware::PollInfo;
use crate::middleware::lemma_find_poll_contains;
use crate::middleware::validate_poll_id;
use crate::routes::get::greeting_of;
use crate::session::Session;
use crate::store::Store;
use crate::store::User;
use crate::store::contains_poll;
use crate::store::contains_user;
use crate::store::lemma_member_username_absent;
use crate::store::poll_usernames;
use crate::store::same_state;
use crate::utils::Response;
use crate::utils::flash_message_redirect;
use crate::utils::is_flash_redirect;
use crate::utils::is_login_redirect;
use crate::utils::is_plain_redirect;
use crate::utils::poll_path;

verus! {

/// Failure of joining.
#[derive(Debug)]
pub enum JoinError {
    /// The poll addressed by the request does not exist.
    NotFoundError,
    /// The backing store failed.
    UnexpectedError,
}

impl JoinError {
    /// The HTTP status this error is sent with.
    pub fn status_code(&self) -> (c: u16)
        ensures
            c == (if self is NotFoundError {
                404u16
            } else {
                500u16
            }),
    {
        match self {
            JoinError::NotFoundError => 404,
            JoinError::UnexpectedError => 500,
        }
    }
}

/// The field submitted when joining.
pub struct JoinForm {
    pub username: String,
}

/// `s1` is `s0` after one join: a new user `user_id` and its membership in
/// poll `poll_id` under `username` — nothing else.
pub open spec fn joined_poll(
    s0: Store,
    s1: Store,
    poll_id: u128,
    user_id: u128,
    username: Seq<char>,
    now: u64,
) -> bool {
    &&& s1.users@ == s0.users@.push((User { user_id, created_at: now }))
    &&& s1.poll_users@.len() == s0.poll_users@.len() + 1
    &&& s1.poll_users@.drop_last() == s0.poll_users@
    &&& s1.poll_users@.last().poll_id == poll_id
    &&& s1.poll_users@.last().user_id == user_id
    &&& s1.poll_users@.last().username@ == username
    &&& s1.polls@ == s0.polls@
    &&& s1.suggestions@ == s0.suggestions@
}

/// Join a gate-resolved poll with a caller-supplied fresh identifier;
/// deterministic in all its inputs.
pub fn join_poll(
    store: &mut Store,
    session: &mut Session,
    poll_info: &PollInfo,
    form: &JoinForm,
    user_id: u128,
    now: u64,
) -> (r: Response)
    requires
        old(store).wf(),
        old(session).wf(*old(store)),
        poll_info.wf(*old(store)),
    ensures
        final(store).wf(),
        final(session).wf(*final(store)),
        old(session).user_id is Some ==> same_state(*old(store), *final(store)) && *final(session)
            == *old(session) && is_plain_redirect(r, "/poll/"@ + id_text(poll_info.poll_id)),
        old(session).user_id is None && !valid_username(form.username@) ==> same_state(
            *old(store),
            *final(store),
        ) && *final(session) == *old(session) && is_flash_redirect(
            r,
            "/poll/"@ + id_text(poll_info.poll_id),
            seq![username_error_message(form.username@)],
        ),
        old(session).user_id is None && valid_username(form.username@) && !contains_user(
            old(store).users@,
            user_id,
        ) ==> joined_poll(
            *old(store),
            *final(store),
            poll_info.poll_id,
            user_id,
            form.username@,
            now,
        ) && final(session).user_id == Some(user_id) && is_login_redirect(
            r,
            "/poll/"@ + id_text(poll_info.poll_id),
            user_id,
        ),
        old(session).user_id is None && valid_username(form.username@) && contains_user(
            old(store).users@,
            user_id,
        ) ==> same_state(*old(store), *final(store)) && *final(session) == *old(session)
            && is_flash_redirect(
            r,
            "/poll/"@ + id_text(poll_info.poll_id),
            seq!["unexpected error"@],
        ),
{
    let location = poll_path(poll_info.poll_id);
    if session.user_id.is_some() {
        return Response::SeeOther { location, flash: Vec::new(), login: None };
    }
    if let Some(message) = validate_username(form.username.as_str()) {
        return flash_message_redirect(message, location);
    }
    proof {
        lemma_find_poll_contains(store.polls@, poll_info.poll_id);
    }
    let username = form.username.clone();
    if store.insert_poll_user(poll_info.poll_id, user_id, username, now) {
        session.user_id = Some(user_id);
        proof {
            let u1 = store.users@;
            assert(u1[u1.len() - 1].user_id == user_id);
            assert(contains_user(u1, user_id));
            assert(store.poll_users@.drop_last() =~= old(store).poll_users@);
        }
        Response::SeeOther { location, flash: Vec::new(), login: Some(user_id) }
    } else {
        flash_message_redirect(String::from_str("unexpected error"), location)
    }
}

/// The whole `POST /poll/{poll_id}/join` request: gate, mint an identifier,
/// join. Not-found exactly when the poll does not resolve; on a fresh session and a
/// well-formed username the join commits under some previously unseen user
/// identifier, unless that identifier collides.
pub fn handle_join_poll(
    store: &mut Store,
    session: &mut Session,
    raw_poll_id: &str,
    form: &JoinForm,
    now: u64,
) -> (r: Response)
    requires
        old(store).wf(),
        old(session).wf(*old(store)),
    ensures
        final(store).wf(),
        final(session).wf(*final(store)),
        !(parse_id(raw_poll_id@) matches Some(pid) && contains_poll(old(store).polls@, pid)) ==> r
            is NotFound && same_state(*old(store), *final(store)) && *final(session) == *old(session),
        parse_id(raw_poll_id@) matches Some(pid) ==> contains_poll(old(store).polls@, pid) ==> {
            &&& old(session).user_id is Some ==> same_state(*old(store), *final(store)) && *final(session) == *old(session) && is_plain_redirect(r, "/poll/"@ + id_text(pid))
            &&& old(session).user_id is None && !valid_username(form.username@) ==> same_state(
                *old(store),
                *final(store),
            ) && *final(session) == *old(session) && is_flash_redirect(
                r,
                "/poll/"@ + id_text(pid),
                seq![username_error_message(form.username@)],
            )
            &&& old(session).user_id is None && valid_username(form.username@) ==> (same_state(
                *old(store),
                *final(store),
            ) && *final(session) == *old(session) && is_flash_redirect(
                r,
                "/poll/"@ + id_text(pid),
                seq!["unexpected error"@],
            )) || (exists|user_id: u128|
                !contains_user(old(store).users@, user_id) && #[trigger] joined_poll(
                    *old(store),
                    *final(store),
                    pid,
                    user_id,
                    form.username@,
                    now,
                ) && final(session).user_id == Some(user_id) && is_login_redirect(
                    r,
                    "/poll/"@ + id_text(pid),
                    user_id,
                ))
        },
{
    match validate_poll_id(store, raw_poll_id) {
        None => Response::NotFound,
        Some(info) => {
            let user_id = generate_id();
            join_poll(store, session, &info, form, user_id, now)
        },
    }
}

/// After a successful join the poll page shows the joined username, and the
/// joining session — now identifying the new user — is greeted by it.
pub proof fn law_joined_user_appears_on_page(
    s0: Store,
    s1: Store,
    poll_id: u128,
    user_id: u128,
    username: Seq<char>,
    now: u64,
)
    requires
        s0.wf(),
        !contains_user(s0.users@, user_id),
        joined_poll(s0, s1, poll_id, user_id, username, now),
    ensures
        poll_usernames(s1.poll_users@, poll_id).contains(username),
        greeting_of(s1.poll_users@, poll_id, Some(user_id)) == Some(username),
{
    let m1 = s1.poll_users@;
    assert(m1.drop_last() == s0.poll_users@);
    assert forall|k: int|
        0 <= k < s0.poll_users@.len() implies (#[trigger] s0.poll_users@[k]).user_id
        != user_id by {
        assert(contains_user(s0.users@, s0.poll_users@[k].user_id));
    }
    lemma_member_username_absent(s0.poll_users@, poll_id, user_id);
    let names = poll_usernames(m1, poll_id);
    assert(names == poll_usernames(s0.poll_users@, poll_id) + seq![username]);
    assert(names[names.len() - 1] == username);
}

} // verus!
