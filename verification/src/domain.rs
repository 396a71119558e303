//! Form-field validation for poll creation and joining.
//!
//! A username is 3 to 32 characters, starts with an ASCII letter or digit,
//! and continues with ASCII letters, digits or underscores. A prompt is 3 to
//! 64 characters. Validation runs before any state is touched; each invalid
//! field yields one message of the form `"<field>: <message>"`.

use vstd::prelude::*;

verus! {

/// An ASCII letter or digit.
pub open spec fn is_ascii_alphanumeric(c: char) -> bool {
    ('0' <= c && c <= '9') || ('a' <= c && c <= 'z') || ('A' <= c && c <= 'Z')
}

/// Character rule for usernames: first character a letter or a digit, every
/// further character a letter, a digit or an underscore.
pub open spec fn has_only_allowed_characters(s: Seq<char>) -> bool {
    (s.len() > 0 ==> is_ascii_alphanumeric(s[0])) && forall|i: int|
        1 <= i < s.len() ==> (is_ascii_alphanumeric(#[trigger] s[i]) || s[i] == '_')
}

/// A well-formed username: 3 to 32 characters obeying the character rule.
pub open spec fn valid_username(s: Seq<char>) -> bool {
    3 <= s.len() <= 32 && has_only_allowed_characters(s)
}

/// A well-formed prompt: 3 to 64 characters.
pub open spec fn valid_prompt(s: Seq<char>) -> bool {
    3 <= s.len() <= 64
}

/// The flash message reported for an ill-formed username.
pub open spec fn username_error_message(s: Seq<char>) -> Seq<char> {
    if !(3 <= s.len() <= 32) {
        "username: length is invalid."@
    } else if !is_ascii_alphanumeric(s[0]) {
        "username: first character must be a letter or a number"@
    } else {
        "username: string contains disallowed characters"@
    }
}

/// The flash message reported for an ill-formed prompt.
pub open spec fn prompt_error_message() -> Seq<char> {
    "prompt: length is invalid."@
}

/// One message per invalid field, username first.
pub open spec fn form_error_messages(username: Seq<char>, prompt: Seq<char>) -> Seq<Seq<char>> {
    (if valid_username(username) {
        Seq::<Seq<char>>::empty()
    } else {
        seq![username_error_message(username)]
    }) + (if valid_prompt(prompt) {
        Seq::<Seq<char>>::empty()
    } else {
        seq![prompt_error_message()]
    })
}

/// The fields submitted when creating a poll.
pub struct PollFormData {
    pub username: String,
    pub prompt: String,
}

/// Exact length of a string in characters.
fn char_len(s: &str) -> (n: usize)
    ensures
        n == s@.len(),
{
    s.unicode_len()
}

/// Does `s` obey the username character rule?
fn check_allowed_characters(s: &str) -> (r: bool)
    ensures
        r == has_only_allowed_characters(s@),
{
    let n = char_len(s);
    let mut i: usize = 0;
    while i < n
        invariant
            n == s@.len(),
            0 <= i <= n,
            i > 0 ==> is_ascii_alphanumeric(s@[0]),
            forall|j: int|
                1 <= j < i ==> (is_ascii_alphanumeric(#[trigger] s@[j]) || s@[j] == '_'),
        decreases n - i,
    {
        let u = s.get_char(i) as u32;
        let alnum = (48 <= u && u <= 57) || (97 <= u && u <= 122) || (65 <= u && u <= 90);
        if i == 0 {
            if !alnum {
                return false;
            }
        } else {
            if !(alnum || u == 95) {
                return false;
            }
        }
        i = i + 1;
    }
    true
}

/// Check one username against the rules; the message to flash when it
/// fails.
pub fn validate_username(s: &str) -> (r: Option<String>)
    ensures
        r is None == valid_username(s@),
        r matches Some(m) ==> m@ == username_error_message(s@),
{
    let ulen = char_len(s);
    if ulen < 3 || ulen > 32 {
        Some(String::from_str("username: length is invalid."))
    } else if !check_allowed_characters(s) {
        let first = s.get_char(0) as u32;
        let first_alnum = (48 <= first && first <= 57) || (97 <= first && first <= 122) || (65
            <= first && first <= 90);
        if !first_alnum {
            Some(String::from_str("username: first character must be a letter or a number"))
        } else {
            Some(String::from_str("username: string contains disallowed characters"))
        }
    } else {
        None
    }
}

impl PollFormData {
    /// Check both fields; on failure report one message per invalid field,
    /// username first.
    pub fn validate(&self) -> (r: Result<(), Vec<String>>)
        ensures
            r is Ok <==> valid_username(self.username@) && valid_prompt(self.prompt@),
            r matches Err(msgs) ==> msgs.deep_view() == form_error_messages(
                self.username@,
                self.prompt@,
            ),
    {
        let mut msgs: Vec<String> = Vec::new();
        if let Some(m) = validate_username(self.username.as_str()) {
            msgs.push(m);
        }
        let plen = char_len(self.prompt.as_str());
        if plen < 3 || plen > 64 {
            msgs.push(String::from_str("prompt: length is invalid."));
        }
        if msgs.len() == 0 {
            Ok(())
        } else {
            proof {
                assert(msgs.deep_view() =~= form_error_messages(self.username@, self.prompt@));
            }
            Err(msgs)
        }
    }
}

} // verus!
