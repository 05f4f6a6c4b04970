//! What the interface reacts to: keys and ticks.

pub mod event;
pub mod key;
