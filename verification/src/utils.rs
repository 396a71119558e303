//! The outward outcome of a request: a redirect (with any flash messages
//! and any newly established identity) or a not-found answer.

use vstd::prelude::*;
use crate::ids::format_id;
use crate::ids::id_text;

verus! {

/// What the service answers to a request, short of rendering a page.
pub enum Response {
    /// A `303 See Other` redirect. `flash` is queued for the next render;
    /// `login` carries a newly established identity the session must adopt
    /// (the old session token is discarded when it does).
    SeeOther { location: String, flash: Vec<String>, login: Option<u128> },
    /// A terminal `404 Not Found`.
    NotFound,
}

impl Response {
    /// The HTTP status this outcome is sent with.
    pub fn status_code(&self) -> (c: u16)
        ensures
            c == (if self is SeeOther {
                303u16
            } else {
                404u16
            }),
    {
        match self {
            Response::SeeOther { .. } => 303,
            Response::NotFound => 404,
        }
    }
}

/// `r` redirects to `location` with no flash and no identity change.
pub open spec fn is_plain_redirect(r: Response, location: Seq<char>) -> bool {
    r matches Response::SeeOther { location: l, flash, login } && l@ == location && flash@.len()
        == 0 && login is None
}

/// `r` redirects to `location`, queueing exactly `messages` and changing no
/// identity.
pub open spec fn is_flash_redirect(r: Response, location: Seq<char>, messages: Seq<Seq<char>>) -> bool {
    r matches Response::SeeOther { location: l, flash, login } && l@ == location
        && flash.deep_view() == messages && login is None
}

/// `r` redirects to `location` with no flash, establishing `user_id` as the
/// session's identity (under a renewed token).
pub open spec fn is_login_redirect(r: Response, location: Seq<char>, user_id: u128) -> bool {
    r matches Response::SeeOther { location: l, flash, login } && l@ == location && flash@.len()
        == 0 && login == Some(user_id)
}

/// The page address of a poll: `/poll/` followed by the canonical text of
/// its identifier.
pub fn poll_path(poll_id: u128) -> (r: String)
    ensures
        r@ == "/poll/"@ + id_text(poll_id),
{
    let mut s = String::from_str("/poll/");
    let id = format_id(poll_id);
    s.append(id.as_str());
    s
}

/// A plain redirect: no flash, no identity change.
pub fn redirect(location: &str) -> (r: Response)
    ensures
        r matches Response::SeeOther { location: l, flash, login } && l@ == location@
            && flash@.len() == 0 && login is None,
{
    Response::SeeOther { location: String::from_str(location), flash: Vec::new(), login: None }
}

/// A redirect carrying one flash message and no identity change.
pub fn flash_message_redirect(message: String, location: String) -> (r: Response)
    ensures
        r matches Response::SeeOther { location: l, flash, login } && l@ == location@
            && flash.deep_view() == seq![message@] && login is None,
{
    let mut flash: Vec<String> = Vec::new();
    let ghost m = message@;
    flash.push(message);
    proof {
        assert(flash.deep_view() =~= seq![m]);
    }
    Response::SeeOther { location, flash, login: None }
}

} // verus!
