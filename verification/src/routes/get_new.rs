//! `GET /new`: render the poll-creation page.
//!
//! The page shows the creation form together with any flash messages a
//! failed attempt queued; showing them consumes them.

use vstd::prelude::*;
use crate::session::FlashStore;

verus! {

/// Everything the creation page renders.
pub struct NewPollPage {
    /// Flash messages of the preceding redirect, oldest first.
    pub errors: Vec<String>,
}

/// Assemble the creation page, consuming the pending flash messages: they
/// appear on this render and never again.
pub fn new_poll(flash: &mut FlashStore) -> (page: NewPollPage)
    ensures
        page.errors@ == old(flash).pending@,
        final(flash).pending@.len() == 0,
{
    NewPollPage { errors: flash.take() }
}

} // verus!
