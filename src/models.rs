use std::collections::VecDeque;
use crate::history::HISTORY_CAPACITY;
use vstd::prelude::*;

verus! {

/// One CPU core: its name and the usage samples (percent) taken so far,
/// oldest first.
pub struct CPU {
    pub core: String,
    pub usage_history: VecDeque<u64>,
}

impl CPU {
    /// A core whose history holds its first sample only.
    pub fn new(core: String, first_sample: u64) -> (r: CPU)
        ensures
            r.core@ == core@,
            r.usage_history@ == seq![first_sample],
    {
        let mut usage_history = VecDeque::new();
        usage_history.push_back(first_sample);
        CPU { core, usage_history }
    }

    /// The history is within capacity.
    pub open spec fn wf(&self) -> bool {
        self.usage_history@.len() <= HISTORY_CAPACITY
    }

    /// The most recent sample, or 0 before any.
    pub open spec fn latest(&self) -> u64 {
        let h = self.usage_history@;
        if h.len() == 0 {
            0
        } else {
            h.last()
        }
    }

    /// The most recent sample, or 0 when the history is empty.
    pub fn latest_usage(&self) -> (r: u64)
        ensures
            r == self.latest(),
    {
        let n = self.usage_history.len();
        if n == 0 {
            0
        } else {
            self.usage_history[n - 1]
        }
    }
}

/// Memory and swap figures, in bytes.
pub struct Memory {
    pub total_memory: u64,
    pub used_memory: u64,
    pub total_swap: u64,
    pub used_swap: u64,
}

/// Static identity of the host.
pub struct OSInfo {
    pub cpu_arch: String,
    pub os_version: String,
    pub system_name: String,
}

/// The events that drive the application state.
#[derive(Clone, Copy, Debug, PartialEq, Eq, Structural)]
pub enum AppEvents {
    UP,
    DOWN,
    QUIT,
    UPDATE,
}

} // verus!
