use apoll::domain::PollFormData;
use apoll::middleware::validate_poll_id;
use apoll::routes::get::handle_show_poll;
use apoll::routes::get::PollPage;
use apoll::routes::get::ShowPollError;
use apoll::routes::get_new::new_poll;
use apoll::routes::post_join::handle_join_poll;
use apoll::routes::post_join::JoinError;
use apoll::routes::post_join::JoinForm;
use apoll::routes::post_new::create_poll;
use apoll::routes::post_new::handle_create_poll;
use apoll::routes::post_new::CreatePollError;
use apoll::routes::post_suggest::handle_suggest_answer;
use apoll::routes::post_suggest::suggest_answer;
use apoll::routes::post_suggest::SuggestionError;
use apoll::routes::post_suggest::SuggestionForm;
use apoll::session::FlashStore;
use apoll::session::Session;
use apoll::store::Store;
use apoll::utils::Response;

fn form(username: &str, prompt: &str) -> PollFormData {
    PollFormData { username: username.to_string(), prompt: prompt.to_string() }
}

fn see_other(r: Response) -> (String, Vec<String>, Option<u128>) {
    match r {
        Response::SeeOther { location, flash, login } => (location, flash, login),
        Response::NotFound => panic!("expected a redirect, got not-found"),
    }
}

fn show(store: &Store, session: &Session, id: &str) -> PollPage {
    handle_show_poll(store, session, id).expect("poll page should resolve")
}

#[test]
fn full_scenario_create_join_suggest() {
    let mut store = Store::new();

    // alice creates the poll
    let mut alice = Session::new();
    let r = handle_create_poll(&mut store, &mut alice, &form("alice", "Is this a good prompt?"), 1);
    assert_eq!(r.status_code(), 303);
    let (location, flash, login) = see_other(r);
    assert!(flash.is_empty());
    assert!(location.starts_with("/poll/"));
    let poll_id_text = location["/poll/".len()..].to_string();
    assert!(apoll::ids::parse_id_str(&poll_id_text).is_some());
    assert_eq!(alice.user_id, login);
    assert!(login.is_some());

    // a fresh, unauthenticated client sees the prompt and the join form
    let mut bob = Session::new();
    let page = show(&store, &bob, &poll_id_text);
    assert_eq!(page.prompt, "Is this a good prompt?");
    assert!(page.logged_in_as.is_none(), "fresh session must not be greeted");
    assert_eq!(page.usernames, vec!["alice".to_string()]);
    assert!(page.suggestions.is_empty());

    // bob joins
    let r = handle_join_poll(
        &mut store,
        &mut bob,
        &poll_id_text,
        &JoinForm { username: "bob".to_string() },
        2,
    );
    assert_eq!(r.status_code(), 303);
    let (location, flash, login) = see_other(r);
    assert_eq!(location, format!("/poll/{poll_id_text}"));
    assert!(flash.is_empty());
    assert_eq!(bob.user_id, login);

    // bob's session is now greeted and his username is listed
    let page = show(&store, &bob, &poll_id_text);
    assert!(page.usernames.contains(&"bob".to_string()));
    assert_eq!(page.logged_in_as, Some("bob".to_string()));

    // bob suggests
    let r = handle_suggest_answer(
        &mut store,
        &bob,
        &poll_id_text,
        &SuggestionForm { suggestion: "add pineapple option".to_string() },
        3,
    );
    assert_eq!(r.status_code(), 303);
    let (location, flash, _) = see_other(r);
    assert_eq!(location, format!("/poll/{poll_id_text}"));
    assert!(flash.is_empty());

    // the suggestion shows on the page, exactly as submitted
    let page = show(&store, &bob, &poll_id_text);
    assert_eq!(page.suggestions, vec!["add pineapple option".to_string()]);
}

#[test]
fn invalid_creation_redirects_home_with_flash() {
    let mut store = Store::new();
    let mut session = Session::new();
    let r = handle_create_poll(&mut store, &mut session, &form("username", ""), 1);
    assert_eq!(r.status_code(), 303);
    let (location, flash, login) = see_other(r);
    assert_eq!(location, "/");
    assert_eq!(flash, vec!["prompt: length is invalid.".to_string()]);
    assert!(login.is_none());
    assert!(session.user_id.is_none());
    assert_eq!(store.polls.len(), 0);
    assert_eq!(store.users.len(), 0);
}

#[test]
fn flash_messages_show_once_on_the_creation_page() {
    let mut store = Store::new();
    let mut session = Session::new();
    let r = handle_create_poll(&mut store, &mut session, &form("username", ""), 1);
    let (_, flash, _) = see_other(r);

    let mut pending = FlashStore::new();
    pending.send_all(&flash);
    let page = new_poll(&mut pending);
    assert_eq!(page.errors, vec!["prompt: length is invalid.".to_string()]);

    // consumed: the next render shows nothing
    let page = new_poll(&mut pending);
    assert!(page.errors.is_empty());
}

#[test]
fn page_returns_404_for_ill_formed_and_unknown_ids() {
    let mut store = Store::new();
    let mut session = Session::new();
    handle_create_poll(&mut store, &mut session, &form("alice", "Poll question?"), 1);

    let viewer = Session::new();
    assert!(matches!(
        handle_show_poll(&store, &viewer, "not-a-uuid"),
        Err(ShowPollError::InvalidPollError)
    ));
    assert!(matches!(
        handle_show_poll(&store, &viewer, "11111111-2222-3333-4444-555555555555"),
        Err(ShowPollError::InvalidPollError)
    ));
    assert!(validate_poll_id(&store, "not-a-uuid").is_none());
}

#[test]
fn join_returns_404_for_unknown_poll() {
    let mut store = Store::new();
    let mut session = Session::new();
    let r = handle_join_poll(
        &mut store,
        &mut session,
        "11111111-2222-3333-4444-555555555555",
        &JoinForm { username: "someone".to_string() },
        7,
    );
    assert_eq!(r.status_code(), 404);
    assert!(matches!(r, Response::NotFound));
    assert_eq!(store.users.len(), 0);
}

#[test]
fn rejoining_does_not_create_a_second_membership() {
    let mut store = Store::new();
    let mut creator = Session::new();
    let r = handle_create_poll(&mut store, &mut creator, &form("alice", "Test Question"), 1);
    let (location, _, _) = see_other(r);
    let id = location["/poll/".len()..].to_string();

    let mut bob = Session::new();
    handle_join_poll(&mut store, &mut bob, &id, &JoinForm { username: "bob".to_string() }, 2);
    let bob_id = bob.user_id;
    let members = store.poll_users.len();

    // joining again under any username is a no-op redirect
    let r = handle_join_poll(&mut store, &mut bob, &id, &JoinForm { username: "bob2".to_string() }, 3);
    assert_eq!(r.status_code(), 303);
    let (location, flash, login) = see_other(r);
    assert_eq!(location, format!("/poll/{id}"));
    assert!(flash.is_empty());
    assert!(login.is_none());
    assert_eq!(store.poll_users.len(), members);
    assert_eq!(bob.user_id, bob_id, "session identity must not change");

    let page = show(&store, &bob, &id);
    assert_eq!(
        page.usernames.iter().filter(|u| u.as_str() == "bob").count(),
        1,
        "the member list must hold bob once"
    );
}

#[test]
fn malformed_username_cannot_join() {
    let mut store = Store::new();
    let mut creator = Session::new();
    let r = handle_create_poll(&mut store, &mut creator, &form("alice", "Test Question"), 1);
    let (location, _, _) = see_other(r);
    let id = location["/poll/".len()..].to_string();

    let mut visitor = Session::new();
    let members = store.poll_users.len();
    let r = handle_join_poll(
        &mut store,
        &mut visitor,
        &id,
        &JoinForm { username: "user name".to_string() },
        2,
    );
    let (location, flash, login) = see_other(r);
    assert_eq!(location, format!("/poll/{id}"));
    assert_eq!(flash, vec!["username: string contains disallowed characters".to_string()]);
    assert!(login.is_none());
    assert!(visitor.user_id.is_none());
    assert_eq!(store.poll_users.len(), members);
}

#[test]
fn unauthenticated_suggestion_is_rejected() {
    let mut store = Store::new();
    let mut creator = Session::new();
    let r = handle_create_poll(&mut store, &mut creator, &form("alice", "Test Question"), 1);
    let (location, _, _) = see_other(r);
    let id = location["/poll/".len()..].to_string();

    let anonymous = Session::new();
    let r = handle_suggest_answer(
        &mut store,
        &anonymous,
        &id,
        &SuggestionForm { suggestion: "sneaky".to_string() },
        2,
    );
    assert_eq!(r.status_code(), 303);
    let (location, flash, login) = see_other(r);
    assert_eq!(location, format!("/poll/{id}"));
    assert_eq!(flash, vec!["You must be logged in to suggest an answer".to_string()]);
    assert!(login.is_none());
    assert_eq!(store.suggestions.len(), 0, "no suggestion row may appear");
}

#[test]
fn colliding_identifiers_abort_the_whole_creation() {
    let mut store = Store::new();
    let mut first = Session::new();
    let r = create_poll(&mut store, &mut first, &form("alice", "Poll question?"), 1, 2, 0);
    assert_eq!(r.status_code(), 303);
    assert_eq!(store.users.len(), 1);
    assert_eq!(store.polls.len(), 1);
    assert_eq!(store.poll_users.len(), 1);

    // the same user identifier again: everything is rolled back
    let mut second = Session::new();
    let r = create_poll(&mut store, &mut second, &form("bobby", "Other question?"), 1, 9, 0);
    let (location, flash, login) = see_other(r);
    assert_eq!(location, "/");
    assert_eq!(flash, vec!["unexpected error".to_string()]);
    assert!(login.is_none());
    assert!(second.user_id.is_none());
    assert_eq!(store.users.len(), 1);
    assert_eq!(store.polls.len(), 1);
    assert_eq!(store.poll_users.len(), 1);
}

#[test]
fn colliding_suggestion_identifier_stores_nothing() {
    let mut store = Store::new();
    let mut creator = Session::new();
    let r = create_poll(&mut store, &mut creator, &form("alice", "Poll question?"), 1, 2, 0);
    let (location, _, _) = see_other(r);
    let id = location["/poll/".len()..].to_string();
    let info = validate_poll_id(&store, &id).expect("the created poll must resolve");

    let r = suggest_answer(
        &mut store,
        &creator,
        &info,
        &SuggestionForm { suggestion: "first".to_string() },
        5,
        0,
    );
    assert_eq!(r.status_code(), 303);
    assert_eq!(store.suggestions.len(), 1);

    let r = suggest_answer(
        &mut store,
        &creator,
        &info,
        &SuggestionForm { suggestion: "second".to_string() },
        5,
        0,
    );
    let (_, flash, _) = see_other(r);
    assert_eq!(flash, vec!["unexpected error".to_string()]);
    assert_eq!(store.suggestions.len(), 1);
}

#[test]
fn creator_can_suggest_without_joining_again() {
    let mut store = Store::new();
    let mut creator = Session::new();
    let r = handle_create_poll(&mut store, &mut creator, &form("alice", "Poll question?"), 1);
    let (location, _, _) = see_other(r);
    let id = location["/poll/".len()..].to_string();

    let page = show(&store, &creator, &id);
    assert_eq!(page.logged_in_as, Some("alice".to_string()));

    let r = handle_suggest_answer(
        &mut store,
        &creator,
        &id,
        &SuggestionForm { suggestion: "my own idea".to_string() },
        3,
    );
    assert_eq!(r.status_code(), 303);
    let page = show(&store, &creator, &id);
    assert_eq!(page.suggestions, vec!["my own idea".to_string()]);
}

#[test]
fn error_status_codes_match_their_kind() {
    assert_eq!(ShowPollError::InvalidPollError.status_code(), 404);
    assert_eq!(ShowPollError::UnexpectedError.status_code(), 500);
    assert_eq!(JoinError::NotFoundError.status_code(), 404);
    assert_eq!(JoinError::UnexpectedError.status_code(), 500);
    assert_eq!(SuggestionError::Unauthorized.status_code(), 401);
    assert_eq!(SuggestionError::Unexpected.status_code(), 500);
    assert_eq!(CreatePollError::Validation.status_code(), 400);
    assert_eq!(CreatePollError::Session.status_code(), 500);
    assert_eq!(CreatePollError::Unexpected.status_code(), 500);
    assert_eq!(Response::NotFound.status_code(), 404);
}
