//! Events of the interface and how often it ticks.

use crate::event::key::Key;
use vstd::prelude::*;

verus! {

/// The tick rate, in milliseconds, when none is asked for.
pub const DEFAULT_TICK_RATE: u64 = 250;

/// How events are produced.
#[derive(Clone, Copy, Debug)]
pub struct EventConfig {
    /// The key that ends the application.
    pub exit_key: Key,
    /// The time between two ticks, in milliseconds.
    pub tick_rate: u64,
}

impl Default for EventConfig {
    fn default() -> (config: EventConfig)
        ensures
            config.exit_key == Key::Ctrl('c'),
            config.tick_rate == DEFAULT_TICK_RATE,
    {
        EventConfig { exit_key: Key::Ctrl('c'), tick_rate: DEFAULT_TICK_RATE }
    }
}

impl EventConfig {
    /// The default configuration with another tick rate.
    pub fn with_tick_rate(tick_rate: u64) -> (config: EventConfig)
        ensures
            config.exit_key == Key::Ctrl('c'),
            config.tick_rate == tick_rate,
    {
        EventConfig { exit_key: Key::Ctrl('c'), tick_rate }
    }
}

/// An event: some input, or a tick of the timer.
pub enum Event<I> {
    Input(I),
    Tick,
}

} // verus!
