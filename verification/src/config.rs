//! The options a search is run with.

use crate::checkers::checker_type::Sensitivity;
use vstd::prelude::*;

verus! {

/// The options recognised by the engine. The hosting program fills them in;
/// the engine reads them and never changes them.
#[derive(Debug)]
pub struct Config {
    /// Prompt a human to confirm candidate plaintexts
    pub human_checker_on: bool,
    /// Suppress all interactive prompts
    pub api_mode: bool,
    /// Threshold of the gibberish detector
    pub sensitivity: Sensitivity,
    /// Wall-clock budget of a search, in seconds
    pub timeout_s: u32,
    /// Skip checks that need the network
    pub offline: bool,
    /// Extra plaintext markers supplied by the user
    pub regex_list: Vec<String>,
    /// Nodes deeper than this are not expanded
    pub max_depth: usize,
    /// The queue never holds more nodes than this
    pub max_queue: usize,
    /// A search gives up after this many steps
    pub max_steps: u64,
}

impl Config {
    /// A human confirms candidates: the human checker is on and prompts are
    /// not suppressed.
    pub open spec fn asks_human(self) -> bool {
        self.human_checker_on && !self.api_mode
    }

    /// The wall-clock budget in milliseconds.
    pub open spec fn timeout_ms(self) -> u64 {
        (self.timeout_s * 1000) as u64
    }

    /// Whether a human confirms candidates, see [`Self::asks_human`].
    pub fn human_is_asked(&self) -> (r: bool)
        ensures
            r == self.asks_human(),
    {
        self.human_checker_on && !self.api_mode
    }

    /// The wall-clock budget in milliseconds.
    pub fn timeout_millis(&self) -> (ms: u64)
        ensures
            ms == self.timeout_ms(),
    {
        let seconds: u64 = self.timeout_s as u64;
        seconds * 1000
    }
}

impl Default for Config {
    /// No human in the loop, medium sensitivity, five seconds, depth 20, a
    /// queue of 100 000 nodes and a million steps.
    fn default() -> (c: Config)
        ensures
            !c.human_checker_on,
            !c.api_mode,
            c.sensitivity == Sensitivity::Medium,
            c.timeout_s == 5,
            !c.offline,
            c.regex_list@.len() == 0,
            c.max_depth == 20,
            c.max_queue == 100_000,
            c.max_steps == 1_000_000,
    {
        Config {
            human_checker_on: false,
            api_mode: false,
            sensitivity: Sensitivity::Medium,
            timeout_s: 5,
            offline: false,
            regex_list: Vec::new(),
            max_depth: 20,
            max_queue: 100_000,
            max_steps: 1_000_000,
        }
    }
}

} // verus!
