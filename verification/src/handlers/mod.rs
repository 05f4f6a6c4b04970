//! What a key does, by the pane that has the focus.

use crate::app::App;
use crate::event::key::Key;
use crate::network::IoEvent;
use vstd::prelude::*;

pub mod contacthandler;
pub mod inputhandler;

verus! {

/// The reaction of a pane to a key. It may change the state that the
/// interface keeps for itself, and it may yield an intent for the
/// dispatcher; it never touches the account, the contacts or the
/// conversations.
pub trait Handler {
    fn handle(key: Key, app: &mut App) -> (intent: Option<IoEvent>)
        requires
            old(app).wf(),
        ensures
            final(app).wf(),
            final(app)@.loaded == old(app)@.loaded,
            final(app)@.username == old(app)@.username,
            final(app)@.contacts == old(app)@.contacts,
            final(app)@.conversations == old(app)@.conversations,
    ;
}

} // verus!
