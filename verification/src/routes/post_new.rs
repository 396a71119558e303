//! `POST /new`: create a poll.
//!
//! Validation runs before any state is touched; each invalid field redirects
//! back to the creation page with one flash message. On success the
//! creator's user row, the poll row and the creator's membership row are
//! committed together, the session adopts the new identity under a renewed
//! token, and the visitor is sent to the new poll's page.

use vstd::prelude::*;
use crate::domain::PollFormData;
use crate::domain::form_error_messages;
use crate::domain::valid_prompt;
use crate::domain::valid_username;
use crate::ids::generate_id;
use crate::ids::id_text;
use crate::ids::parse_id;
use crate::ids::lemma_id_text_round_trip;
use crate::session::Session;
use crate::store::Store;
use crate::store::User;
use crate::store::contains_poll;
use crate::store::contains_user;
use crate::store::same_state;
use crate::utils::Response;
use crate::utils::flash_message_redirect;
use crate::utils::is_flash_redirect;
use crate::utils::is_login_redirect;
use crate::utils::poll_path;

verus! {

/// Failure of poll creation.
#[derive(Debug)]
pub enum CreatePollError {
    /// A form field broke the validation rules.
    Validation,
    /// The session record could not be written.
    Session,
    /// The backing store failed.
    Unexpected,
}

impl CreatePollError {
    /// The HTTP status this error is reported with.
    pub fn status_code(&self) -> (c: u16)
        ensures
            c == (if self is Validation {
                400u16
            } else {
                500u16
            }),
    {
        match self {
            CreatePollError::Validation => 400,
            CreatePollError::Session => 500,
            CreatePollError::Unexpected => 500,
        }
    }
}

/// `s1` is `s0` after one poll creation: a new user `user_id`, a new poll
/// `poll_id` created by it carrying `prompt`, and the creator's membership
/// under `username` — nothing else.
pub open spec fn created_poll(
    s0: Store,
    s1: Store,
    user_id: u128,
    poll_id: u128,
    username: Seq<char>,
    prompt: Seq<char>,
    now: u64,
) -> bool {
    &&& s1.users@ == s0.users@.push((User { user_id, created_at: now }))
    &&& s1.polls@.len() == s0.polls@.len() + 1
    &&& s1.polls@.drop_last() == s0.polls@
    &&& s1.polls@.last().poll_id == poll_id
    &&& s1.polls@.last().creator_id == user_id
    &&& s1.polls@.last().prompt@ == prompt
    &&& s1.polls@.last().created_at == now
    &&& s1.poll_users@.len() == s0.poll_users@.len() + 1
    &&& s1.poll_users@.drop_last() == s0.poll_users@
    &&& s1.poll_users@.last().poll_id == poll_id
    &&& s1.poll_users@.last().user_id == user_id
    &&& s1.poll_users@.last().username@ == username
    &&& s1.suggestions@ == s0.suggestions@
}

/// Create a poll from a validated form and two caller-supplied fresh
/// identifiers; deterministic in all its inputs.
pub fn create_poll(
    store: &mut Store,
    session: &mut Session,
    form: &PollFormData,
    user_id: u128,
    poll_id: u128,
    now: u64,
) -> (r: Response)
    requires
        old(store).wf(),
        old(session).wf(*old(store)),
    ensures
        final(store).wf(),
        final(session).wf(*final(store)),
        !(valid_username(form.username@) && valid_prompt(form.prompt@)) ==> same_state(
            *old(store),
            *final(store),
        ) && *final(session) == *old(session) && is_flash_redirect(
            r,
            "/"@,
            form_error_messages(form.username@, form.prompt@),
        ),
        valid_username(form.username@) && valid_prompt(form.prompt@) && !contains_user(
            old(store).users@,
            user_id,
        ) && !contains_poll(old(store).polls@, poll_id) ==> created_poll(
            *old(store),
            *final(store),
            user_id,
            poll_id,
            form.username@,
            form.prompt@,
            now,
        ) && final(session).user_id == Some(user_id) && is_login_redirect(
            r,
            "/poll/"@ + id_text(poll_id),
            user_id,
        ),
        valid_username(form.username@) && valid_prompt(form.prompt@) && (contains_user(
            old(store).users@,
            user_id,
        ) || contains_poll(old(store).polls@, poll_id)) ==> same_state(
            *old(store),
            *final(store),
        ) && *final(session) == *old(session) && is_flash_redirect(
            r,
            "/"@,
            seq!["unexpected error"@],
        ),
{
    match form.validate() {
        Err(messages) => Response::SeeOther {
            location: String::from_str("/"),
            flash: messages,
            login: None,
        },
        Ok(()) => {
            let username = form.username.clone();
            let prompt = form.prompt.clone();
            if store.insert_poll_with_creator(user_id, poll_id, username, prompt, now) {
                session.user_id = Some(user_id);
                proof {
                    let u1 = store.users@;
                    assert(u1[u1.len() - 1].user_id == user_id);
                    assert(contains_user(u1, user_id));
                    assert(store.polls@.drop_last() =~= old(store).polls@);
                    assert(store.poll_users@.drop_last() =~= old(store).poll_users@);
                }
                Response::SeeOther {
                    location: poll_path(poll_id),
                    flash: Vec::new(),
                    login: Some(user_id),
                }
            } else {
                flash_message_redirect(String::from_str("unexpected error"), String::from_str("/"))
            }
        },
    }
}

/// The whole `POST /new` request: mint the two identifiers, then create.
/// The identifiers are drawn from the system's randomness, so on a valid
/// form the outcome is either a poll created under some pair of previously
/// unseen identifiers, or — should a drawn identifier collide with an
/// existing row — an aborted creation and an unexpected-error flash.
pub fn handle_create_poll(
    store: &mut Store,
    session: &mut Session,
    form: &PollFormData,
    now: u64,
) -> (r: Response)
    requires
        old(store).wf(),
        old(session).wf(*old(store)),
    ensures
        final(store).wf(),
        final(session).wf(*final(store)),
        !(valid_username(form.username@) && valid_prompt(form.prompt@)) ==> same_state(
            *old(store),
            *final(store),
        ) && *final(session) == *old(session) && is_flash_redirect(
            r,
            "/"@,
            form_error_messages(form.username@, form.prompt@),
        ),
        valid_username(form.username@) && valid_prompt(form.prompt@) ==> (same_state(
            *old(store),
            *final(store),
        ) && *final(session) == *old(session) && is_flash_redirect(
            r,
            "/"@,
            seq!["unexpected error"@],
        )) || (exists|user_id: u128, poll_id: u128|
            !contains_user(old(store).users@, user_id) && !contains_poll(
                old(store).polls@,
                poll_id,
            ) && #[trigger] created_poll(
                *old(store),
                *final(store),
                user_id,
                poll_id,
                form.username@,
                form.prompt@,
                now,
            ) && final(session).user_id == Some(user_id) && is_login_redirect(
                r,
                "/poll/"@ + id_text(poll_id),
                user_id,
            )),
{
    let user_id = generate_id();
    let poll_id = generate_id();
    create_poll(store, session, form, user_id, poll_id, now)
}

/// The address a successful creation redirects to embeds an identifier that
/// parses back to the created poll: whoever follows the redirect asks for
/// exactly the poll that was committed.
pub proof fn law_poll_location_embeds_id(location: Seq<char>, poll_id: u128)
    requires
        location == "/poll/"@ + id_text(poll_id),
    ensures
        location.len() == 42,
        location.subrange(0, 6) == "/poll/"@,
        parse_id(location.subrange(6, 42)) == Some(poll_id),
{
    reveal_strlit("/poll/");
    lemma_id_text_round_trip(poll_id);
    assert(location.subrange(0, 6) =~= "/poll/"@);
    assert(location.subrange(6, 42) =~= id_text(poll_id));
}

} // verus!
