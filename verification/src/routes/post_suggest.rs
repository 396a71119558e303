//! `POST /poll/{poll_id}/suggest`: attach a suggestion to a poll.
//!
//! The membership gate has already resolved the poll. The visitor must be
//! authenticated; an unauthenticated request redirects back to the poll page
//! with a flash and stores nothing. The text is free and stored as-is. The
//! session's user is not re-checked for membership in this particular poll:
//! a session that joined one poll can suggest on another. The workflow
//! leaves that open on purpose; tightening it is a known candidate change.

use vstd::prelude::*;
use crate::ids::generate_id;
use crate::ids::id_text;
use crate::ids::parse_id;
use crate::middleware::PollInfo;
use crate::middleware::lemma_find_poll_contains;
use crate::middleware::validate_poll_id;
use crate::session::Session;
use crate::store::Store;
use crate::store::contains_poll;
use crate::store::contains_suggestion;
use crate::store::poll_suggestion_texts;
use crate::store::same_state;
use crate::utils::Response;
use crate::utils::flash_message_redirect;
use crate::utils::is_flash_redirect;
use crate::utils::is_plain_redirect;
use crate::utils::poll_path;

verus! {

/// Failure of suggesting.
#[derive(Debug)]
pub enum SuggestionError {
    /// No authenticated session: one must join before suggesting.
    Unauthorized,
    /// The backing store failed.
    Unexpected,
}

impl SuggestionError {
    /// The HTTP status this error is reported with.
    pub fn status_code(&self) -> (c: u16)
        ensures
            c == (if self is Unauthorized {
                401u16
            } else {
                500u16
            }),
    {
        match self {
            SuggestionError::Unauthorized => 401,
            SuggestionError::Unexpected => 500,
        }
    }
}

/// The field submitted when suggesting.
pub struct SuggestionForm {
    pub suggestion: String,
}

/// `s1` is `s0` after one suggestion: one new row carrying `text`, attached
/// to poll `poll_id` by user `creator_id` — nothing else.
pub open spec fn suggested(
    s0: Store,
    s1: Store,
    suggestion_id: u128,
    poll_id: u128,
    creator_id: u128,
    text: Seq<char>,
    now: u64,
) -> bool {
    &&& s1.suggestions@.len() == s0.suggestions@.len() + 1
    &&& s1.suggestions@.drop_last() == s0.suggestions@
    &&& s1.suggestions@.last().suggestion_id == suggestion_id
    &&& s1.suggestions@.last().poll_id == poll_id
    &&& s1.suggestions@.last().creator_id == creator_id
    &&& s1.suggestions@.last().suggestion@ == text
    &&& s1.suggestions@.last().created_at == now
    &&& s1.users@ == s0.users@
    &&& s1.polls@ == s0.polls@
    &&& s1.poll_users@ == s0.poll_users@
}

/// Suggest on a gate-resolved poll with a caller-supplied fresh identifier;
/// deterministic in all its inputs.
pub fn suggest_answer(
    store: &mut Store,
    session: &Session,
    poll_info: &PollInfo,
    form: &SuggestionForm,
    suggestion_id: u128,
    now: u64,
) -> (r: Response)
    requires
        old(store).wf(),
        session.wf(*old(store)),
        poll_info.wf(*old(store)),
    ensures
        final(store).wf(),
        session.user_id is None ==> same_state(*old(store), *final(store)) && is_flash_redirect(
            r,
            "/poll/"@ + id_text(poll_info.poll_id),
            seq!["You must be logged in to suggest an answer"@],
        ),
        session.user_id matches Some(uid) ==> !contains_suggestion(
            old(store).suggestions@,
            suggestion_id,
        ) ==> suggested(
            *old(store),
            *final(store),
            suggestion_id,
            poll_info.poll_id,
            uid,
            form.suggestion@,
            now,
        ) && is_plain_redirect(r, "/poll/"@ + id_text(poll_info.poll_id)),
        session.user_id is Some && contains_suggestion(old(store).suggestions@, suggestion_id)
            ==> same_state(*old(store), *final(store)) && is_flash_redirect(
            r,
            "/poll/"@ + id_text(poll_info.poll_id),
            seq!["unexpected error"@],
        ),
{
    let location = poll_path(poll_info.poll_id);
    let creator_id = match session.user_id {
        None => {
            return flash_message_redirect(
                String::from_str("You must be logged in to suggest an answer"),
                location,
            );
        },
        Some(uid) => uid,
    };
    proof {
        lemma_find_poll_contains(store.polls@, poll_info.poll_id);
    }
    let text = form.suggestion.clone();
    if store.insert_suggestion(suggestion_id, poll_info.poll_id, creator_id, text, now) {
        proof {
            assert(store.suggestions@.drop_last() =~= old(store).suggestions@);
        }
        Response::SeeOther { location, flash: Vec::new(), login: None }
    } else {
        flash_message_redirect(String::from_str("unexpected error"), location)
    }
}

/// The whole `POST /poll/{poll_id}/suggest` request: gate, mint an
/// identifier, insert. Not-found exactly when the poll does not resolve; an
/// unauthenticated session stores nothing; an authenticated one stores the
/// text under some previously unseen identifier, unless that identifier
/// collides.
pub fn handle_suggest_answer(
    store: &mut Store,
    session: &Session,
    raw_poll_id: &str,
    form: &SuggestionForm,
    now: u64,
) -> (r: Response)
    requires
        old(store).wf(),
        session.wf(*old(store)),
    ensures
        final(store).wf(),
        !(parse_id(raw_poll_id@) matches Some(pid) && contains_poll(old(store).polls@, pid)) ==> r
            is NotFound && same_state(*old(store), *final(store)),
        parse_id(raw_poll_id@) matches Some(pid) ==> contains_poll(old(store).polls@, pid) ==> {
            &&& session.user_id is None ==> same_state(*old(store), *final(store))
                && is_flash_redirect(
                r,
                "/poll/"@ + id_text(pid),
                seq!["You must be logged in to suggest an answer"@],
            )
            &&& session.user_id matches Some(uid) ==> (same_state(*old(store), *final(store))
                && is_flash_redirect(r, "/poll/"@ + id_text(pid), seq!["unexpected error"@])) || (
            exists|suggestion_id: u128|
                !contains_suggestion(old(store).suggestions@, suggestion_id)
                    && #[trigger] suggested(
                    *old(store),
                    *final(store),
                    suggestion_id,
                    pid,
                    uid,
                    form.suggestion@,
                    now,
                ) && is_plain_redirect(r, "/poll/"@ + id_text(pid)))
        },
{
    match validate_poll_id(store, raw_poll_id) {
        None => Response::NotFound,
        Some(info) => {
            let suggestion_id = generate_id();
            suggest_answer(store, session, &info, form, suggestion_id, now)
        },
    }
}

/// After a successful suggestion the poll page shows the exact text that
/// was submitted.
pub proof fn law_suggestion_appears_on_page(
    s0: Store,
    s1: Store,
    suggestion_id: u128,
    poll_id: u128,
    creator_id: u128,
    text: Seq<char>,
    now: u64,
)
    requires
        suggested(s0, s1, suggestion_id, poll_id, creator_id, text, now),
    ensures
        poll_suggestion_texts(s1.suggestions@, poll_id).contains(text),
{
    let texts = poll_suggestion_texts(s1.suggestions@, poll_id);
    assert(texts == poll_suggestion_texts(s0.suggestions@, poll_id) + seq![text]);
    assert(texts[texts.len() - 1] == text);
}

} // verus!
