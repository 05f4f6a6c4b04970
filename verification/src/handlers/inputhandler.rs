//! Keys in the chat pane: they edit the input line, and Enter sends it.

use crate::app::{App, AppView};
use crate::event::key::Key;
use crate::handlers::Handler;
use crate::network::{IoEvent, SendMessageData};
use vstd::prelude::*;

verus! {

/// The handler of the chat pane.
pub struct InputHandler;

/// The state after `key` was pressed in the chat pane.
///
/// The arrows move the input position within the line. Backspace
/// removes the character before the position and Delete the one at it.
/// A character key puts its character at the position. Enter empties
/// the line if a contact is selected, to whom the line then goes.
pub open spec fn input_key(app: AppView, key: Key) -> AppView {
    let position = app.input_position;
    match key {
        Key::Left => AppView {
            input_position: if position > 0 {
                (position - 1) as nat
            } else {
                0
            },
            ..app
        },
        Key::Right => AppView {
            input_position: if position < app.input.len() {
                position + 1
            } else {
                position
            },
            ..app
        },
        Key::Backspace => if position > 0 {
            AppView {
                input: app.input.remove(position - 1),
                input_position: (position - 1) as nat,
                ..app
            }
        } else {
            app
        },
        Key::Delete => if position < app.input.len() {
            AppView { input: app.input.remove(position as int), ..app }
        } else {
            app
        },
        Key::Enter => if app.selected_contact() is Some {
            AppView { input: Seq::empty(), input_position: 0, ..app }
        } else {
            app
        },
        Key::Char(c) => AppView {
            input: app.input.insert(position as int, c),
            input_position: position + 1,
            ..app
        },
        _ => app,
    }
}

/// What `key` sends: on Enter, with a contact selected, the input line
/// to that contact, as recipient and text; nothing otherwise.
pub open spec fn input_sends(app: AppView, key: Key) -> Option<(Seq<char>, Seq<char>)> {
    match key {
        Key::Enter => match app.selected_contact() {
            Some(contact) => Some((contact.number, app.input)),
            None => None,
        },
        _ => None,
    }
}

impl Handler for InputHandler {
    fn handle(key: Key, app: &mut App) -> (intent: Option<IoEvent>)
        ensures
            final(app)@ == input_key(old(app)@, key),
            match input_sends(old(app)@, key) {
                Some((recipient, message)) => intent matches Some(IoEvent::SendMessage(data))
                    && data.recipient@ == recipient && data.message@ == message,
                None => intent is None,
            },
    {
        match key {
            Key::Left => {
                app.input_left();
                None
            },
            Key::Right => {
                app.input_right();
                None
            },
            Key::Backspace => {
                app.input_backspace();
                None
            },
            Key::Delete => {
                app.input_delete();
                None
            },
            Key::Enter => match app.get_selected_contact() {
                Some(contact) => {
                    let message = app.input_string();
                    app.clear_input();
                    Some(IoEvent::SendMessage(SendMessageData { recipient: contact.number, message }))
                },
                None => None,
            },
            Key::Char(c) => {
                app.input_insert(c);
                None
            },
            _ => None,
        }
    }
}

} // verus!
