use apoll::domain::PollFormData;

fn new_form(username: &str, prompt: &str) -> PollFormData {
    PollFormData { username: username.to_string(), prompt: prompt.to_string() }
}

#[test]
fn valid_username_and_prompt_are_accepted() {
    let f = new_form("username", "question");
    assert!(f.validate().is_ok());
}

#[test]
fn empty_form_is_rejected() {
    let f = new_form("", "");
    assert!(f.validate().is_err());
}

#[test]
fn short_username_is_rejected() {
    let username = "u".repeat(2);
    let f = new_form(&username, "What kind of question?");
    assert!(f.validate().is_err());
}

#[test]
fn username_with_whitespace_is_rejected() {
    let f = new_form("user name", "What kind of question?");
    assert!(f.validate().is_err());
}

#[test]
fn usernames_with_special_characters_are_rejected() {
    let test_usernames = vec!["user?name", "!user", "p√®rson", "<p>user</p>"];
    for username in test_usernames {
        let f = new_form(username, "What kind of question?");
        assert!(f.validate().is_err(), "assertion failed on username: {username}");
    }
}

#[test]
fn prompt_too_short_is_rejected() {
    let prompt = "a".repeat(2);
    let f = new_form("username", &prompt);
    assert!(f.validate().is_err());
}

#[test]
fn prompt_too_long_is_rejected() {
    let prompt = "a".repeat(65);
    let f = new_form("username", &prompt);
    assert!(f.validate().is_err());
}

#[test]
fn boundary_lengths_are_accepted() {
    assert!(new_form("usr", "abc").validate().is_ok());
    assert!(new_form(&"u".repeat(32), &"a".repeat(64)).validate().is_ok());
    assert!(new_form(&"u".repeat(33), "question").validate().is_err());
}

#[test]
fn underscore_is_allowed_after_the_first_character() {
    assert!(new_form("user_name", "question").validate().is_ok());
    assert!(new_form("_username", "question").validate().is_err());
}

#[test]
fn error_messages_name_the_invalid_field() {
    let errs = new_form("username", "").validate().unwrap_err();
    assert_eq!(errs, vec!["prompt: length is invalid.".to_string()]);

    let errs = new_form("", "question").validate().unwrap_err();
    assert_eq!(errs, vec!["username: length is invalid.".to_string()]);

    let errs = new_form("us er", "question").validate().unwrap_err();
    assert_eq!(errs, vec!["username: string contains disallowed characters".to_string()]);

    let errs = new_form("!user", "question").validate().unwrap_err();
    assert_eq!(
        errs,
        vec!["username: first character must be a letter or a number".to_string()]
    );

    let errs = new_form("", "").validate().unwrap_err();
    assert_eq!(
        errs,
        vec![
            "username: length is invalid.".to_string(),
            "prompt: length is invalid.".to_string()
        ]
    );
}
