use crate::history::{bounded_push, push_sample};
use crate::models::{AppEvents, Memory, OSInfo, CPU};
use crate::scroll::{scrolled_down, scrolled_up, ROWS_PER_CORE, SCROLL_STEP};
use vstd::prelude::*;

verus! {

/// The offset after an event: `DOWN` and `UP` scroll, the others leave it.
pub open spec fn scrolled_by(offset: nat, ev: AppEvents, total_cores: nat) -> nat {
    match ev {
        AppEvents::DOWN => scrolled_down(offset, total_cores),
        AppEvents::UP => scrolled_up(offset),
        _ => offset,
    }
}

/// The rendering-ready snapshot: memory figures, host identity, one history
/// per core (in the order the cores were listed), and the scroll offset of
/// the core list in display rows.
pub struct AppState {
    pub memory: Memory,
    pub cpus: Vec<CPU>,
    pub os_info: OSInfo,
    pub cpu_scroll_position: usize,
}

impl AppState {
    /// Every history is within capacity and the window starts on an existing
    /// core (or at 0).
    pub open spec fn wf(&self) -> bool {
        &&& forall|i: int| 0 <= i < self.cpus@.len() ==> (#[trigger] self.cpus@[i]).wf()
        &&& (self.cpu_scroll_position == 0 || self.cpu_scroll_position / ROWS_PER_CORE
            < self.cpus@.len())
    }

    /// The core names, in order.
    pub open spec fn core_names(&self) -> Seq<Seq<char>> {
        self.cpus@.map_values(|c: CPU| c.core@)
    }

    /// The histories, in core order.
    pub open spec fn histories(&self) -> Seq<Seq<u64>> {
        self.cpus@.map_values(|c: CPU| c.usage_history@)
    }

    /// A state scrolled to the top.
    pub fn new(memory: Memory, cpus: Vec<CPU>, os_info: OSInfo) -> (r: AppState)
        requires
            forall|i: int| 0 <= i < cpus@.len() ==> (#[trigger] cpus@[i]).wf(),
        ensures
            r.wf(),
            r.memory == memory,
            r.cpus@ == cpus@,
            r.os_info == os_info,
            r.cpu_scroll_position == 0,
    {
        AppState { memory, cpus, os_info, cpu_scroll_position: 0 }
    }

    /// Applies one tick: the used memory and swap are replaced, and each
    /// core's history takes the sample `usages[i]` (in core order), the
    /// oldest sample leaving first when the history is full.
    pub fn record_tick(&mut self, used_memory: u64, used_swap: u64, usages: &Vec<u64>)
        requires
            old(self).wf(),
            usages@.len() == old(self).cpus@.len(),
        ensures
            final(self).wf(),
            final(self).memory.total_memory == old(self).memory.total_memory,
            final(self).memory.total_swap == old(self).memory.total_swap,
            final(self).memory.used_memory == used_memory,
            final(self).memory.used_swap == used_swap,
            final(self).os_info == old(self).os_info,
            final(self).cpu_scroll_position == old(self).cpu_scroll_position,
            final(self).cpus@.len() == old(self).cpus@.len(),
            forall|i: int|
                0 <= i < old(self).cpus@.len() ==> {
                    &&& (#[trigger] final(self).cpus@[i]).core@ == old(self).cpus@[i].core@
                    &&& final(self).cpus@[i].usage_history@ == bounded_push(
                        old(self).cpus@[i].usage_history@,
                        usages@[i],
                    )
                },
    {
        self.memory.used_memory = used_memory;
        self.memory.used_swap = used_swap;
        let n = self.cpus.len();
        let mut i: usize = 0;
        while i < n
            invariant
                n == self.cpus@.len(),
                n == old(self).cpus@.len(),
                usages@.len() == n,
                i <= n,
                self.memory == (Memory { used_memory, used_swap, ..old(self).memory }),
                self.os_info == old(self).os_info,
                self.cpu_scroll_position == old(self).cpu_scroll_position,
                old(self).wf(),
                forall|j: int|
                    0 <= j < n ==> (#[trigger] self.cpus@[j]).core@ == old(self).cpus@[j].core@,
                forall|j: int|
                    0 <= j < i ==> (#[trigger] self.cpus@[j]).usage_history@ == bounded_push(
                        old(self).cpus@[j].usage_history@,
                        usages@[j],
                    ),
                forall|j: int|
                    i <= j < n ==> (#[trigger] self.cpus@[j]).usage_history@ == old(
                        self,
                    ).cpus@[j].usage_history@,
            decreases n - i,
        {
            push_sample(&mut self.cpus[i].usage_history, usages[i]);
            i = i + 1;
        }
        assert forall|j: int| 0 <= j < n implies (#[trigger] self.cpus@[j]).wf() by {
            assert(old(self).cpus@[j].wf());
        }
    }

    /// Moves the window one step down, unless that would start it past the
    /// last core.
    pub fn scroll_down(&mut self)
        requires
            old(self).wf(),
        ensures
            final(self).wf(),
            final(self).cpu_scroll_position == scrolled_down(
                old(self).cpu_scroll_position as nat,
                old(self).cpus@.len(),
            ),
            final(self).cpus@ == old(self).cpus@,
            final(self).memory == old(self).memory,
            final(self).os_info == old(self).os_info,
    {
        let p = self.cpu_scroll_position;
        if p <= usize::MAX - SCROLL_STEP && (p + SCROLL_STEP) / ROWS_PER_CORE < self.cpus.len() {
            self.cpu_scroll_position = p + SCROLL_STEP;
        }
    }

    /// Moves the window one step up, stopping at the top.
    pub fn scroll_up(&mut self)
        requires
            old(self).wf(),
        ensures
            final(self).wf(),
            final(self).cpu_scroll_position == scrolled_up(old(self).cpu_scroll_position as nat),
            final(self).cpus@ == old(self).cpus@,
            final(self).memory == old(self).memory,
            final(self).os_info == old(self).os_info,
    {
        let p = self.cpu_scroll_position;
        self.cpu_scroll_position = if p >= SCROLL_STEP { p - SCROLL_STEP } else { 0 };
        assert(self.cpu_scroll_position / ROWS_PER_CORE <= p / ROWS_PER_CORE);
    }

    /// Applies a scroll event (`UP` or `DOWN`); any other event changes
    /// nothing.
    pub fn apply_scroll(&mut self, ev: AppEvents)
        requires
            old(self).wf(),
        ensures
            final(self).wf(),
            final(self).cpu_scroll_position == scrolled_by(
                old(self).cpu_scroll_position as nat,
                ev,
                old(self).cpus@.len(),
            ),
            final(self).cpus@ == old(self).cpus@,
            final(self).memory == old(self).memory,
            final(self).os_info == old(self).os_info,
    {
        match ev {
            AppEvents::DOWN => self.scroll_down(),
            AppEvents::UP => self.scroll_up(),
            _ => {},
        }
    }
}

} // verus!
