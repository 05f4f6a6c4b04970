//! Keys in the contact pane: `j` and `k` move the selection.

use crate::app::{App, AppView};
use crate::event::key::Key;
use crate::handlers::Handler;
use crate::network::IoEvent;
use vstd::prelude::*;

verus! {

/// The handler of the contact pane.
pub struct ContactHandler;

/// The state after the selection was asked to move to `index`: it moves
/// once an account is loaded and if `index` is below the number of
/// conversations.
pub open spec fn selecting(app: AppView, index: int) -> AppView {
    if app.loaded && 0 <= index < app.conversations.len() {
        AppView { selected_contact_index: index as nat, ..app }
    } else {
        app
    }
}

/// The state after `key` was pressed in the contact pane: before an
/// account is loaded no key does anything; then `j` selects the next
/// entry and `k` the one before.
pub open spec fn contact_key(app: AppView, key: Key) -> AppView {
    if !app.loaded {
        app
    } else {
        match key {
            Key::Char('j') => selecting(app, app.selected_contact_index as int + 1),
            Key::Char('k') => selecting(app, app.selected_contact_index as int - 1),
            _ => app,
        }
    }
}

impl Handler for ContactHandler {
    fn handle(key: Key, app: &mut App) -> (intent: Option<IoEvent>)
        ensures
            intent is None,
            final(app)@ == contact_key(old(app)@, key),
    {
        if !app.loaded() {
            return None;
        }
        match key {
            Key::Char('j') => {
                let index = app.selected_contact_index();
                if index < app.conversations().len() {
                    app.select_conversation(index + 1);
                }
            },
            Key::Char('k') => {
                let index = app.selected_contact_index();
                if index > 0 {
                    app.select_conversation(index - 1);
                }
            },
            _ => {},
        }
        None
    }
}

} // verus!
