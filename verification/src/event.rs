//! What reaches the browser from outside: keys, and ticks of a clock while no
//! key is pressed.

use crate::keybinds::key::Key;
use vstd::prelude::*;

verus! {

/// One thing that reaches the browser.
#[derive(Clone, Copy, Debug, PartialEq, Eq)]
pub enum Event<I> {
    /// Something was put in, such as a key.
    Input(I),
    /// Time has passed.
    Tick,
}

/// How the keyboard is listened to.
#[derive(Clone, Copy, Debug, PartialEq, Eq)]
pub struct Config {
    /// The key after which no further key is read.
    pub exit_key: Key,
    /// The time between two ticks, in milliseconds.
    pub tick_rate: u64,
}

impl Config {
    /// Whether reading keys ends after `key`: it does after the exit key,
    /// unless that key is to be ignored.
    pub open spec fn ends_with(self, key: Key, ignore_exit_key: bool) -> bool {
        !ignore_exit_key && key == self.exit_key
    }

    /// Whether reading keys ends after `key`.
    pub fn ends_input(&self, key: Key, ignore_exit_key: bool) -> (ends: bool)
        ensures
            ends == self.ends_with(key, ignore_exit_key),
    {
        !ignore_exit_key && key == self.exit_key
    }
}

impl Default for Config {
    /// Reading ends with `q`, and the clock ticks four times a second.
    fn default() -> (config: Config)
        ensures
            config == (Config { exit_key: Key::Char('q'), tick_rate: 250 }),
    {
        Config { exit_key: Key::Char('q'), tick_rate: 250 }
    }
}

} // verus!
