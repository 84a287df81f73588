use crate::history::{
    bounded_push, history_after, lemma_history_after_push, HISTORY_CAPACITY,
};
use crate::models::{AppEvents, Memory, OSInfo, CPU};
use crate::scroll::{content_length, ROWS_PER_CORE};
use crate::state::{scrolled_by, AppState};
use sysinfo::{Cpu, System};
use vstd::prelude::*;

verus! {

#[verifier::external_type_specification]
#[verifier::external_body]
pub struct ExSystem(System);

#[verifier::external_type_specification]
#[verifier::external_body]
pub struct ExCpu(Cpu);

/// Relies on sysinfo's `System::new_all`: a handle with every category read.
pub assume_specification[ System::new_all ]() -> System;

/// Relies on sysinfo's `System::refresh_all`: re-reads every category.
#[verifier::external_body]
fn refresh_everything(s: &mut System) {
    s.refresh_all();
}

/// Relies on sysinfo's `System::refresh_cpu_usage`: re-reads the cores' usage.
pub assume_specification[ System::refresh_cpu_usage ](s: &mut System);

/// Relies on sysinfo's `System::refresh_memory`: re-reads memory and swap.
pub assume_specification[ System::refresh_memory ](s: &mut System);

/// Relies on sysinfo's `System::cpus`: the cores, in the platform's order.
pub assume_specification<'a>[ System::cpus ](s: &'a System) -> &'a [Cpu];

/// Relies on sysinfo's `System::total_memory`: RAM size in bytes.
pub assume_specification[ System::total_memory ](s: &System) -> u64;

/// Relies on sysinfo's `System::used_memory`: used RAM in bytes.
pub assume_specification[ System::used_memory ](s: &System) -> u64;

/// Relies on sysinfo's `System::total_swap`: swap size in bytes.
pub assume_specification[ System::total_swap ](s: &System) -> u64;

/// Relies on sysinfo's `System::used_swap`: used swap in bytes.
pub assume_specification[ System::used_swap ](s: &System) -> u64;

/// Relies on sysinfo's `System::name`: the OS name, when it can be read.
pub assume_specification[ System::name ]() -> Option<String>;

/// Relies on sysinfo's `System::os_version`: the OS version, when it can be
/// read.
pub assume_specification[ System::os_version ]() -> Option<String>;

/// Relies on sysinfo's `System::cpu_arch`: the CPU architecture.
pub assume_specification[ System::cpu_arch ]() -> String;

/// Relies on sysinfo's `Cpu::name`: the core's name.
pub assume_specification<'a>[ Cpu::name ](c: &'a Cpu) -> &'a str;

/// Relies on sysinfo's `Cpu::cpu_usage`: the core's usage in percent, cut to
/// a whole number (a saturating conversion).
#[verifier::external_body]
fn usage_percent(c: &Cpu) -> u64 {
    c.cpu_usage() as u64
}

/// A value read from the host, or "N/A" where it could not be read.
pub fn or_not_available(v: Option<String>) -> (r: String)
    ensures
        r@ == match v {
            Some(s) => s@,
            None => "N/A"@,
        },
{
    match v {
        Some(s) => s,
        None => String::from_str("N/A"),
    }
}

/// A source of host metrics: a full refresh, a cheaper refresh of the usage
/// counters, and point reads.
pub trait SystemInfoProvider {
    /// Re-reads every category of metrics.
    fn refresh_all(&mut self);

    /// Re-reads the usage counters only: cores and memory.
    fn update(&mut self);

    /// One entry per core, in a stable order, each history seeded with the
    /// core's current usage.
    fn get_cpus(&self) -> (r: Vec<CPU>)
        ensures
            forall|i: int| 0 <= i < r@.len() ==> (#[trigger] r@[i]).usage_history@.len() == 1,
    ;

    /// Memory and swap figures, in bytes.
    fn get_memory(&self) -> Memory;

    /// The host identity.
    fn get_system_info(&self) -> OSInfo;

    /// Used memory in bytes.
    fn update_used_memory(&self) -> u64;

    /// Used swap in bytes.
    fn update_used_swap(&self) -> u64;

    /// The usage of the core named `cpu_name`, 0 when there is none.
    fn update_cpu_usage(&self, cpu_name: &String) -> u64;
}

/// The host's metrics, read through sysinfo.
pub struct SysInfoAdapter {
    system: System,
}

impl SysInfoAdapter {
    pub fn new() -> Self {
        SysInfoAdapter { system: System::new_all() }
    }
}

impl SystemInfoProvider for SysInfoAdapter {
    fn refresh_all(&mut self) {
        refresh_everything(&mut self.system);
    }

    fn update(&mut self) {
        self.system.refresh_cpu_usage();
        self.system.refresh_memory();
    }

    fn get_cpus(&self) -> (r: Vec<CPU>) {
        let (names, usages) = self.readings();
        cpus_from(&names, &usages)
    }

    fn get_memory(&self) -> Memory {
        Memory {
            total_memory: self.system.total_memory(),
            used_memory: self.system.used_memory(),
            total_swap: self.system.total_swap(),
            used_swap: self.system.used_swap(),
        }
    }

    fn get_system_info(&self) -> OSInfo {
        OSInfo {
            cpu_arch: System::cpu_arch(),
            os_version: or_not_available(System::os_version()),
            system_name: or_not_available(System::name()),
        }
    }

    fn update_used_memory(&self) -> u64 {
        self.system.used_memory()
    }

    fn update_used_swap(&self) -> u64 {
        self.system.used_swap()
    }

    fn update_cpu_usage(&self, cpu_name: &String) -> u64 {
        let (names, usages) = self.readings();
        usage_of(&names, &usages, cpu_name)
    }
}

impl SysInfoAdapter {
    /// The name and current usage of each core, in the platform's order.
    fn readings(&self) -> (r: (Vec<String>, Vec<u64>))
        ensures
            r.0@.len() == r.1@.len(),
    {
        let cpus = self.system.cpus();
        let mut names: Vec<String> = Vec::new();
        let mut usages: Vec<u64> = Vec::new();
        let mut i: usize = 0;
        while i < cpus.len()
            invariant
                i <= cpus@.len(),
                names@.len() == i,
                usages@.len() == i,
            decreases cpus@.len() - i,
        {
            names.push(String::from_str(cpus[i].name()));
            usages.push(usage_percent(&cpus[i]));
            i = i + 1;
        }
        (names, usages)
    }
}

/// One entry per core, in the order given: core `i` is named `names[i]`
/// and its history holds the single sample `usages[i]`.
pub fn cpus_from(names: &Vec<String>, usages: &Vec<u64>) -> (r: Vec<CPU>)
    requires
        names@.len() == usages@.len(),
    ensures
        r@.len() == names@.len(),
        forall|i: int|
            0 <= i < r@.len() ==> {
                &&& (#[trigger] r@[i]).core@ == names@[i]@
                &&& r@[i].usage_history@ == seq![usages@[i]]
            },
{
    let mut r: Vec<CPU> = Vec::new();
    let mut i: usize = 0;
    while i < names.len()
        invariant
            i <= names@.len(),
            names@.len() == usages@.len(),
            r@.len() == i,
            forall|j: int|
                0 <= j < i ==> {
                    &&& (#[trigger] r@[j]).core@ == names@[j]@
                    &&& r@[j].usage_history@ == seq![usages@[j]]
                },
        decreases names@.len() - i,
    {
        r.push(CPU::new(names[i].clone(), usages[i]));
        i = i + 1;
    }
    r
}

/// `j` is the first position of `names` that holds `name`.
pub open spec fn first_named(names: Seq<String>, name: Seq<char>, j: int) -> bool {
    &&& 0 <= j < names.len()
    &&& names[j]@ == name
    &&& forall|k: int| 0 <= k < j ==> (#[trigger] names[k])@ != name
}

/// The usage listed for the first core named `name`, where `names[j]` and
/// `usages[j]` describe the same core; 0 when no core has that name.
pub fn usage_of(names: &Vec<String>, usages: &Vec<u64>, name: &String) -> (r: u64)
    requires
        names@.len() == usages@.len(),
    ensures
        (forall|j: int| 0 <= j < names@.len() ==> (#[trigger] names@[j])@ != name@) ==> r == 0,
        forall|j: int| first_named(names@, name@, j) ==> r == usages@[j],
{
    let mut i: usize = 0;
    while i < names.len()
        invariant
            i <= names@.len(),
            names@.len() == usages@.len(),
            forall|k: int| 0 <= k < i ==> (#[trigger] names@[k])@ != name@,
        decreases names@.len() - i,
    {
        if names[i] == *name {
            assert forall|j: int| first_named(names@, name@, j) implies j == i by {
                if j > i {
                    assert(names@[i as int]@ == name@);
                }
            }
            return usages[i];
        }
        i = i + 1;
    }
    0
}

/// No event of `evs` is `QUIT`.
pub open spec fn no_quit(evs: Seq<AppEvents>) -> bool {
    forall|j: int| 0 <= j < evs.len() ==> evs[j] != AppEvents::QUIT
}

/// `k` is where handling stops in `evs`: at the first `QUIT`, or at the end.
pub open spec fn stops_at(evs: Seq<AppEvents>, k: int) -> bool {
    &&& 0 <= k <= evs.len()
    &&& no_quit(evs.take(k))
    &&& (k == evs.len() || evs[k] == AppEvents::QUIT)
}

/// The scroll offset after the events `evs`, in order.
pub open spec fn scroll_after(offset: nat, evs: Seq<AppEvents>, total_cores: nat) -> nat
    decreases evs.len(),
{
    if evs.len() == 0 {
        offset
    } else {
        scrolled_by(scroll_after(offset, evs.drop_last(), total_cores), evs.last(), total_cores)
    }
}

/// How many `UPDATE` events `evs` holds.
pub open spec fn count_updates(evs: Seq<AppEvents>) -> nat
    decreases evs.len(),
{
    if evs.len() == 0 {
        0
    } else {
        count_updates(evs.drop_last()) + if evs.last() == AppEvents::UPDATE {
            1nat
        } else {
            0nat
        }
    }
}

/// A history length after `n` further samples.
pub open spec fn capped_len(len: nat, n: nat) -> nat {
    if len + n > HISTORY_CAPACITY {
        HISTORY_CAPACITY as nat
    } else {
        len + n
    }
}

/// The dashboard: its state and the metrics source that feeds it.
pub struct App<P: SystemInfoProvider> {
    state: AppState,
    system_provider: P,
}

impl App<SysInfoAdapter> {
    /// Reads the host through sysinfo.
    pub fn new() -> (r: App<SysInfoAdapter>)
        ensures
            r.wf(),
            r.spec_state().cpu_scroll_position == 0,
            forall|i: int|
                0 <= i < r.spec_state().cpus@.len() ==> (#[trigger] r.spec_state().cpus@[
                    i
                ]).usage_history@.len() == 1,
    {
        App::with_provider(SysInfoAdapter::new())
    }
}

impl<P: SystemInfoProvider> App<P> {
    /// The state is well formed.
    pub open spec fn wf(&self) -> bool {
        self.spec_state().wf()
    }

    /// The application state.
    pub closed spec fn spec_state(&self) -> AppState {
        self.state
    }

    /// Reads every metric once through `system_provider`: the host identity,
    /// the memory figures and one history per core, seeded with one sample.
    pub fn with_provider(system_provider: P) -> (r: App<P>)
        ensures
            r.wf(),
            r.spec_state().cpu_scroll_position == 0,
            forall|i: int|
                0 <= i < r.spec_state().cpus@.len() ==> (#[trigger] r.spec_state().cpus@[
                    i
                ]).usage_history@.len() == 1,
    {
        let mut system_provider = system_provider;
        system_provider.refresh_all();
        let cpus = system_provider.get_cpus();
        let memory = system_provider.get_memory();
        let os_info = system_provider.get_system_info();
        App { state: AppState::new(memory, cpus, os_info), system_provider }
    }

    /// One tick: re-reads the usage counters, replaces the used memory and
    /// swap, and appends each core's current usage to its history.
    pub fn update(&mut self)
        requires
            old(self).wf(),
        ensures
            final(self).wf(),
            final(self).spec_state().os_info == old(self).spec_state().os_info,
            final(self).spec_state().cpu_scroll_position == old(
                self,
            ).spec_state().cpu_scroll_position,
            final(self).spec_state().memory.total_memory == old(
                self,
            ).spec_state().memory.total_memory,
            final(self).spec_state().memory.total_swap == old(self).spec_state().memory.total_swap,
            final(self).spec_state().cpus@.len() == old(self).spec_state().cpus@.len(),
            forall|i: int|
                0 <= i < old(self).spec_state().cpus@.len() ==> {
                    &&& (#[trigger] final(self).spec_state().cpus@[i]).core@ == old(
                        self,
                    ).spec_state().cpus@[i].core@
                    &&& final(self).spec_state().cpus@[i].usage_history@.len() == capped_len(
                        old(self).spec_state().cpus@[i].usage_history@.len(),
                        1,
                    )
                    &&& exists|u: u64|
                        final(self).spec_state().cpus@[i].usage_history@ == bounded_push(
                            old(self).spec_state().cpus@[i].usage_history@,
                            u,
                        )
                },
    {
        self.system_provider.update();
        let used_memory = self.system_provider.update_used_memory();
        let used_swap = self.system_provider.update_used_swap();
        let n = self.state.cpus.len();
        let mut usages: Vec<u64> = Vec::new();
        let mut i: usize = 0;
        while i < n
            invariant
                n == self.state.cpus@.len(),
                i <= n,
                usages@.len() == i,
            decreases n - i,
        {
            usages.push(self.system_provider.update_cpu_usage(&self.state.cpus[i].core));
            i = i + 1;
        }
        let ghost before = self.state;
        self.state.record_tick(used_memory, used_swap, &usages);
        assert forall|i: int| 0 <= i < before.cpus@.len() implies exists|u: u64|
            (#[trigger] self.state.cpus@[i]).usage_history@ == bounded_push(
                before.cpus@[i].usage_history@,
                u,
            ) by {
            assert(self.state.cpus@[i].usage_history@ == bounded_push(
                before.cpus@[i].usage_history@,
                usages@[i],
            ));
        }
    }

    pub fn get_memory(&self) -> (r: &Memory)
        ensures
            *r == self.spec_state().memory,
    {
        &self.state.memory
    }

    pub fn get_cpus(&self) -> (r: &Vec<CPU>)
        ensures
            r@ == self.spec_state().cpus@,
    {
        &self.state.cpus
    }

    pub fn get_os_info(&self) -> (r: &OSInfo)
        ensures
            *r == self.spec_state().os_info,
    {
        &self.state.os_info
    }

    /// The scroll offset of the core list, in display rows.
    pub fn cpu_scroll_position(&self) -> (r: usize)
        ensures
            r == self.spec_state().cpu_scroll_position,
    {
        self.state.cpu_scroll_position
    }

    /// The length of the core list, in display rows.
    pub fn cpu_content_length(&self) -> (r: usize)
        ensures
            r == if self.spec_state().cpus@.len() * ROWS_PER_CORE <= usize::MAX {
                (self.spec_state().cpus@.len() * ROWS_PER_CORE) as int
            } else {
                usize::MAX as int
            },
    {
        content_length(self.state.cpus.len())
    }

    /// Handles the pending events in order, up to the first `QUIT`: `UP` and
    /// `DOWN` scroll, `UPDATE` takes a tick. Returns whether a `QUIT` came.
    /// Each history ends as its old one after one sample per `UPDATE`
    /// handled; without an `UPDATE`, memory and histories are unchanged.
    pub fn handle_rx(&mut self, events: &Vec<AppEvents>) -> (r: bool)
        requires
            old(self).wf(),
        ensures
            final(self).wf(),
            r == !no_quit(events@),
            final(self).spec_state().cpus@.len() == old(self).spec_state().cpus@.len(),
            final(self).spec_state().os_info == old(self).spec_state().os_info,
            final(self).spec_state().memory.total_memory == old(
                self,
            ).spec_state().memory.total_memory,
            final(self).spec_state().memory.total_swap == old(self).spec_state().memory.total_swap,
            forall|k: int|
                stops_at(events@, k) ==> {
                    &&& count_updates(events@.take(k)) == 0 ==> {
                        &&& final(self).spec_state().memory == old(self).spec_state().memory
                        &&& final(self).spec_state().cpus@ == old(self).spec_state().cpus@
                    }
                    &&& final(self).spec_state().cpu_scroll_position == scroll_after(
                        old(self).spec_state().cpu_scroll_position as nat,
                        events@.take(k),
                        old(self).spec_state().cpus@.len(),
                    )
                    &&& forall|c: int|
                        0 <= c < old(self).spec_state().cpus@.len() ==> {
                            &&& (#[trigger] final(self).spec_state().cpus@[c]).core@ == old(
                                self,
                            ).spec_state().cpus@[c].core@
                            &&& final(self).spec_state().cpus@[c].usage_history@.len()
                                == capped_len(
                                old(self).spec_state().cpus@[c].usage_history@.len(),
                                count_updates(events@.take(k)),
                            )
                            &&& exists|smp: Seq<u64>|
                                smp.len() == count_updates(events@.take(k))
                                    && final(self).spec_state().cpus@[c].usage_history@
                                    == #[trigger] history_after(
                                    old(self).spec_state().cpus@[c].usage_history@,
                                    smp,
                                )
                        }
                },
    {
        let ghost start = self.state;
        let n = events.len();
        assert(events@.take(0) =~= Seq::<AppEvents>::empty());
        assert forall|c: int| 0 <= c < start.cpus@.len() implies exists|smp: Seq<u64>|
            smp.len() == count_updates(events@.take(0))
                && (#[trigger] self.state.cpus@[c]).usage_history@ == history_after(
                start.cpus@[c].usage_history@,
                smp,
            ) by {
            assert(history_after(start.cpus@[c].usage_history@, Seq::<u64>::empty())
                == start.cpus@[c].usage_history@);
        }
        let mut i: usize = 0;
        while i < n
            invariant
                n == events@.len(),
                i <= n,
                self.wf(),
                no_quit(events@.take(i as int)),
                self.state.cpus@.len() == start.cpus@.len(),
                self.state.os_info == start.os_info,
                self.state.cpu_scroll_position == scroll_after(
                    start.cpu_scroll_position as nat,
                    events@.take(i as int),
                    start.cpus@.len(),
                ),
                start.wf(),
                start == old(self).state,
                self.state.memory.total_memory == start.memory.total_memory,
                self.state.memory.total_swap == start.memory.total_swap,
                count_updates(events@.take(i as int)) == 0 ==> {
                    &&& self.state.memory == start.memory
                    &&& self.state.cpus@ == start.cpus@
                },
                forall|c: int|
                    0 <= c < start.cpus@.len() ==> {
                        &&& (#[trigger] self.state.cpus@[c]).core@ == start.cpus@[c].core@
                        &&& self.state.cpus@[c].usage_history@.len() == capped_len(
                            start.cpus@[c].usage_history@.len(),
                            count_updates(events@.take(i as int)),
                        )
                        &&& exists|smp: Seq<u64>|
                            smp.len() == count_updates(events@.take(i as int))
                                && self.state.cpus@[c].usage_history@ == #[trigger] history_after(
                                start.cpus@[c].usage_history@,
                                smp,
                            )
                    },
            decreases n - i,
        {
            let ev = events[i];
            if ev == AppEvents::QUIT {
                assert forall|k: int| stops_at(events@, k) implies k == i by {
                    if k < i {
                        assert(events@.take(i as int)[k] == events@[k]);
                    }
                    if k > i {
                        assert(events@.take(k)[i as int] == events@[i as int]);
                    }
                }
                return true;
            }
            let ghost before = self.state;
            if ev == AppEvents::UPDATE {
                self.update();
                assert forall|c: int| 0 <= c < start.cpus@.len() implies (
                #[trigger] self.state.cpus@[c]).usage_history@.len() == capped_len(
                    start.cpus@[c].usage_history@.len(),
                    count_updates(events@.take(i + 1)),
                ) by {
                    assert(before.cpus@[c].wf());
                    assert(events@.take(i + 1).drop_last() =~= events@.take(i as int));
                }
                assert forall|c: int| 0 <= c < start.cpus@.len() implies exists|smp: Seq<u64>|
                    smp.len() == count_updates(events@.take(i + 1))
                        && (#[trigger] self.state.cpus@[c]).usage_history@ == history_after(
                        start.cpus@[c].usage_history@,
                        smp,
                    ) by {
                    assert(events@.take(i + 1).drop_last() =~= events@.take(i as int));
                    let s0 = choose|smp: Seq<u64>|
                        smp.len() == count_updates(events@.take(i as int))
                            && before.cpus@[c].usage_history@ == #[trigger] history_after(
                            start.cpus@[c].usage_history@,
                            smp,
                        );
                    let u = choose|u: u64|
                        self.state.cpus@[c].usage_history@ == bounded_push(
                            before.cpus@[c].usage_history@,
                            u,
                        );
                    lemma_history_after_push(start.cpus@[c].usage_history@, s0, u);
                    assert(s0.push(u).len() == count_updates(events@.take(i + 1)));
                }
            } else {
                self.state.apply_scroll(ev);
                assert(events@.take(i + 1).drop_last() =~= events@.take(i as int));
            }
            assert(events@.take(i + 1).drop_last() =~= events@.take(i as int));
            assert(no_quit(events@.take(i + 1))) by {
                assert forall|j: int| 0 <= j < i + 1 implies #[trigger] events@.take(i + 1)[j]
                    != AppEvents::QUIT by {
                    if j < i {
                        assert(events@.take(i as int)[j] == events@[j]);
                    }
                }
            }
            i = i + 1;
        }
        assert(events@.take(n as int) =~= events@);
        assert forall|k: int| stops_at(events@, k) implies k == n by {
            if k < n {
                assert(events@.take(n as int)[k] == events@[k]);
            }
        }
        false
    }
}

} // verus!
