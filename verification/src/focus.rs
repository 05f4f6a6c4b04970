//! The panes of the interface.

use vstd::prelude::*;

verus! {

/// Which pane has the keyboard focus.
#[derive(Clone, Copy, Debug, PartialEq, Eq, Structural)]
pub enum View {
    Contacts,
    Chat,
}

} // verus!
