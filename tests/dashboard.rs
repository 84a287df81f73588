use std::collections::VecDeque;

use sysmon::app::{cpus_from, or_not_available, usage_of, App, SystemInfoProvider};
use sysmon::colors::{ratio_color, usage_color, UsageColor};
use sysmon::event_handler::{handle_key_event, KeyInput};
use sysmon::history::{push_sample, HISTORY_CAPACITY};
use sysmon::models::{AppEvents, Memory, OSInfo, CPU};
use sysmon::scroll::{content_length, visible_range};
use sysmon::state::AppState;
use sysmon::text::{push_decimal, push_fixed2};
use sysmon::widgets::{CPUWidget, MemoryWidget, OsInfoWidget};
use sysmon::worker::{keeps_running, step, WorkerState};

const GB: u64 = 1024 * 1024 * 1024;

fn memory() -> Memory {
    Memory { total_memory: 8 * GB, used_memory: 2 * GB, total_swap: 0, used_swap: 0 }
}

fn os_info() -> OSInfo {
    OSInfo {
        cpu_arch: "x86_64".to_string(),
        os_version: "24.04".to_string(),
        system_name: "Ubuntu".to_string(),
    }
}

fn cores(n: usize) -> Vec<CPU> {
    (0..n).map(|i| CPU::new(format!("cpu{}", i), 0)).collect()
}

fn history(cpu: &CPU) -> Vec<u64> {
    cpu.usage_history.iter().copied().collect()
}

#[test]
fn history_length_follows_ticks() {
    let mut state = AppState::new(memory(), cores(3), os_info());
    for c in &state.cpus {
        assert_eq!(c.usage_history.len(), 1);
    }
    for t in 1..=200u64 {
        let usages = vec![t % 101, (t * 7) % 101, 100];
        state.record_tick(GB, 0, &usages);
        let expected = std::cmp::min(t as usize + 1, 75);
        for c in &state.cpus {
            assert_eq!(c.usage_history.len(), expected);
        }
    }
}

#[test]
fn history_keeps_most_recent_in_order() {
    let mut state = AppState::new(memory(), vec![CPU::new("cpu0".to_string(), 9)], os_info());
    let samples: Vec<u64> = (0..120u64).map(|t| t % 100).collect();
    for s in &samples {
        state.record_tick(GB, 0, &vec![*s]);
    }
    let expected: Vec<u64> = samples[samples.len() - 75..].to_vec();
    assert_eq!(history(&state.cpus[0]), expected);
}

#[test]
fn history_before_capacity_keeps_seed_first() {
    let mut state = AppState::new(memory(), vec![CPU::new("cpu0".to_string(), 9)], os_info());
    state.record_tick(GB, 0, &vec![10]);
    state.record_tick(GB, 0, &vec![11]);
    assert_eq!(history(&state.cpus[0]), vec![9, 10, 11]);
}

#[test]
fn push_sample_evicts_oldest_at_capacity() {
    let mut h: VecDeque<u64> = (0..75u64).collect();
    push_sample(&mut h, 500);
    assert_eq!(h.len(), HISTORY_CAPACITY);
    assert_eq!(h.front(), Some(&1));
    assert_eq!(h.back(), Some(&500));
    let mut short: VecDeque<u64> = VecDeque::new();
    push_sample(&mut short, 4);
    assert_eq!(short, VecDeque::from(vec![4]));
}

#[test]
fn record_tick_replaces_used_memory_only() {
    let mut state = AppState::new(memory(), cores(2), os_info());
    state.record_tick(3 * GB, 5, &vec![1, 2]);
    assert_eq!(state.memory.used_memory, 3 * GB);
    assert_eq!(state.memory.used_swap, 5);
    assert_eq!(state.memory.total_memory, 8 * GB);
    assert_eq!(state.memory.total_swap, 0);
    assert_eq!(state.cpus[0].core, "cpu0");
    assert_eq!(history(&state.cpus[1]), vec![0, 2]);
}

#[test]
fn scroll_window_examples() {
    assert_eq!(visible_range(0, 25, 10), (0, 5));
    assert_eq!(visible_range(26, 25, 10), (5, 10));
    let cpus = cores(10);
    let w = CPUWidget::new(&cpus, 26, 25);
    assert_eq!(w.visible_range(), (5, 10));
    let w = CPUWidget::new(&cpus, 0, 25);
    assert_eq!(w.visible_range(), (0, 5));
}

#[test]
fn scroll_window_edges() {
    assert_eq!(visible_range(0, 0, 10), (0, 0));
    assert_eq!(visible_range(0, 4, 10), (0, 0));
    assert_eq!(visible_range(500, 25, 10), (9, 10));
    assert_eq!(visible_range(1000, 25, 1), (0, 1));
    assert_eq!(visible_range(1000, 0, 3), (2, 2));
    let one = cores(1);
    assert_eq!(CPUWidget::new(&one, 1000, 25).visible_range(), (0, 1));
    assert_eq!(visible_range(0, 25, 0), (0, 0));
    assert_eq!(visible_range(45, 100, 10), (9, 10));
    assert_eq!(visible_range(usize::MAX, u16::MAX, usize::MAX), (usize::MAX / 5, usize::MAX / 5 + 13107));
}

#[test]
fn scroll_down_stops_at_last_core() {
    let mut state = AppState::new(memory(), cores(3), os_info());
    state.scroll_down();
    assert_eq!(state.cpu_scroll_position, 5);
    state.scroll_down();
    assert_eq!(state.cpu_scroll_position, 10);
    state.scroll_down();
    assert_eq!(state.cpu_scroll_position, 10);
    state.scroll_up();
    assert_eq!(state.cpu_scroll_position, 5);
    state.scroll_up();
    state.scroll_up();
    assert_eq!(state.cpu_scroll_position, 0);
}

#[test]
fn scroll_without_cores_stays_at_top() {
    let mut state = AppState::new(memory(), Vec::new(), os_info());
    state.apply_scroll(AppEvents::DOWN);
    assert_eq!(state.cpu_scroll_position, 0);
    state.apply_scroll(AppEvents::UPDATE);
    state.apply_scroll(AppEvents::UP);
    assert_eq!(state.cpu_scroll_position, 0);
}

#[test]
fn content_length_is_five_rows_per_core() {
    assert_eq!(content_length(10), 50);
    assert_eq!(content_length(0), 0);
    assert_eq!(content_length(usize::MAX), usize::MAX);
}

#[test]
fn usage_color_thresholds() {
    assert_eq!(usage_color(0), UsageColor::Green);
    assert_eq!(usage_color(50), UsageColor::Green);
    assert_eq!(usage_color(51), UsageColor::Orange);
    assert_eq!(usage_color(70), UsageColor::Orange);
    assert_eq!(usage_color(71), UsageColor::Red);
    assert_eq!(usage_color(100), UsageColor::Red);
    assert_eq!(usage_color(101), UsageColor::Red);
    assert_eq!(usage_color(u64::MAX), UsageColor::Red);
}

#[test]
fn core_color_uses_latest_sample() {
    let mut cpu = CPU::new("cpu0".to_string(), 90);
    assert_eq!(CPUWidget::core_color(&cpu), UsageColor::Red);
    cpu.usage_history.push_back(60);
    assert_eq!(CPUWidget::core_color(&cpu), UsageColor::Orange);
    let empty = CPU { core: "cpu1".to_string(), usage_history: VecDeque::new() };
    assert_eq!(CPUWidget::core_color(&empty), UsageColor::Green);
}

#[test]
fn ratio_color_thresholds() {
    assert_eq!(ratio_color(50, 100), UsageColor::Green);
    assert_eq!(ratio_color(51, 100), UsageColor::Orange);
    assert_eq!(ratio_color(70, 100), UsageColor::Orange);
    assert_eq!(ratio_color(71, 100), UsageColor::Red);
    assert_eq!(ratio_color(100, 100), UsageColor::Red);
    assert_eq!(ratio_color(505, 1000), UsageColor::Orange);
    assert_eq!(ratio_color(705, 1000), UsageColor::Red);
    assert_eq!(ratio_color(501, 1000), UsageColor::Orange);
    assert_eq!(ratio_color(701, 1000), UsageColor::Red);
    assert_eq!(ratio_color(101, 100), UsageColor::Red);
    assert_eq!(ratio_color(0, 0), UsageColor::Green);
    assert_eq!(ratio_color(5, 0), UsageColor::Red);
    assert_eq!(MemoryWidget::get_color(2 * GB, 8 * GB), UsageColor::Green);
    assert_eq!(MemoryWidget::get_color(6 * GB, 8 * GB), UsageColor::Red);
}

#[test]
fn memory_label_and_percentage() {
    assert_eq!(MemoryWidget::memory_label(2 * GB, 8 * GB), "(2.00 GB / 8.00 GB)");
    assert_eq!(MemoryWidget::get_percentage(2 * GB, 8 * GB), "25.00%");
    assert_eq!(MemoryWidget::percent(2 * GB, 8 * GB), Some(2500));
}

#[test]
fn memory_label_rounds_to_hundredths() {
    assert_eq!(MemoryWidget::memory_label(GB + GB / 2, 16 * GB), "(1.50 GB / 16.00 GB)");
    assert_eq!(MemoryWidget::memory_label(0, GB / 1000), "(0.00 GB / 0.00 GB)");
    assert_eq!(MemoryWidget::memory_label(GB / 100, 123 * GB), "(0.01 GB / 123.00 GB)");
    assert_eq!(MemoryWidget::get_percentage(1, 3), "33.33%");
    assert_eq!(MemoryWidget::get_percentage(2, 3), "66.67%");
    assert_eq!(MemoryWidget::get_percentage(3, 3), "100.00%");
    assert_eq!(MemoryWidget::get_percentage(0, 3), "0.00%");
}

#[test]
fn percentage_without_total() {
    assert_eq!(MemoryWidget::percent(5, 0), None);
    assert_eq!(MemoryWidget::get_percentage(5, 0), "N/A");
}

#[test]
fn swap_inactive_when_total_is_zero() {
    assert!(!MemoryWidget::swap_is_active(0));
    assert!(MemoryWidget::swap_is_active(1));
    let m = Memory { total_memory: 8 * GB, used_memory: GB, total_swap: 0, used_swap: 3 * GB };
    let w = MemoryWidget::new(&m);
    assert!(!MemoryWidget::swap_is_active(w.memory.total_swap));
}

#[test]
fn core_titles() {
    let mut cpu = CPU::new("cpu3".to_string(), 7);
    cpu.usage_history.push_back(42);
    assert_eq!(CPUWidget::core_title(&cpu), "Core: cpu3. 42%");
    let empty = CPU { core: "cpu1".to_string(), usage_history: VecDeque::new() };
    assert_eq!(CPUWidget::core_title(&empty), "Core: cpu1. 0%");
    let full = CPU::new("c".to_string(), 100);
    assert_eq!(CPUWidget::core_title(&full), "Core: c. 100%");
}

#[test]
fn os_info_lines() {
    let info = os_info();
    let w = OsInfoWidget::new(&info);
    assert_eq!(
        w.lines(),
        vec![
            "System: Ubuntu".to_string(),
            "CPU Arch: x86_64".to_string(),
            "OS Version: 24.04".to_string()
        ]
    );
}

#[test]
fn decimal_text() {
    let mut s = String::new();
    push_decimal(&mut s, 0);
    assert_eq!(s, "0");
    let mut s = String::from("n=");
    push_decimal(&mut s, 1234567890123);
    assert_eq!(s, "n=1234567890123");
    let mut s = String::new();
    push_fixed2(&mut s, 1205);
    assert_eq!(s, "12.05");
    let mut s = String::new();
    push_fixed2(&mut s, 7);
    assert_eq!(s, "0.07");
}

#[test]
fn key_events() {
    assert_eq!(handle_key_event(KeyInput::Char('q'), false), Some(AppEvents::QUIT));
    assert_eq!(handle_key_event(KeyInput::Char('Q'), false), Some(AppEvents::QUIT));
    assert_eq!(handle_key_event(KeyInput::Down, false), Some(AppEvents::DOWN));
    assert_eq!(handle_key_event(KeyInput::Up, false), Some(AppEvents::UP));
    assert_eq!(handle_key_event(KeyInput::Char('x'), false), None);
    assert_eq!(handle_key_event(KeyInput::Other, false), None);
    assert_eq!(handle_key_event(KeyInput::Char('q'), true), None);
    assert_eq!(handle_key_event(KeyInput::Down, true), None);
}

#[test]
fn not_available_sentinel() {
    assert_eq!(or_not_available(None), "N/A");
    assert_eq!(or_not_available(Some("Linux".to_string())), "Linux");
}

#[test]
fn worker_stops_on_shutdown() {
    assert_eq!(step(WorkerState::Running, false), WorkerState::Running);
    assert_eq!(step(WorkerState::Running, true), WorkerState::Terminated);
    assert_eq!(step(WorkerState::Terminated, false), WorkerState::Terminated);
    assert!(keeps_running(WorkerState::Running));
    assert!(!keeps_running(WorkerState::Terminated));
}

#[test]
fn app_reads_host_and_handles_events() {
    let mut app = App::new();
    let n = app.get_cpus().len();
    for c in app.get_cpus() {
        assert_eq!(c.usage_history.len(), 1);
    }
    assert_eq!(app.cpu_scroll_position(), 0);
    assert_eq!(app.cpu_content_length(), n * 5);
    assert!(!app.handle_rx(&vec![AppEvents::UP, AppEvents::UPDATE]));
    assert_eq!(app.cpu_scroll_position(), 0);
    for c in app.get_cpus() {
        assert_eq!(c.usage_history.len(), 2);
    }
    let quit = app.handle_rx(&vec![AppEvents::DOWN, AppEvents::QUIT, AppEvents::UPDATE]);
    assert!(quit);
    assert_eq!(app.cpu_scroll_position(), if n > 1 { 5 } else { 0 });
    for c in app.get_cpus() {
        assert_eq!(c.usage_history.len(), 2);
    }
    assert!(!app.get_os_info().cpu_arch.is_empty());
    assert!(app.get_memory().total_memory > 0);
}

struct FakeProvider {
    tick: u64,
    names: Vec<String>,
}

impl FakeProvider {
    fn with_cores(n: usize) -> FakeProvider {
        FakeProvider { tick: 0, names: (0..n).map(|i| format!("cpu{}", i)).collect() }
    }
}

impl SystemInfoProvider for FakeProvider {
    fn refresh_all(&mut self) {}

    fn update(&mut self) {
        self.tick += 1;
    }

    fn get_cpus(&self) -> Vec<CPU> {
        self.names
            .iter()
            .map(|n| CPU::new(n.clone(), 3))
            .collect()
    }

    fn get_memory(&self) -> Memory {
        memory()
    }

    fn get_system_info(&self) -> OSInfo {
        os_info()
    }

    fn update_used_memory(&self) -> u64 {
        self.tick * 1000
    }

    fn update_used_swap(&self) -> u64 {
        7
    }

    fn update_cpu_usage(&self, cpu_name: &String) -> u64 {
        if cpu_name == "cpu0" {
            self.tick % 101
        } else if cpu_name == "cpu1" {
            100 - self.tick % 101
        } else {
            0
        }
    }
}

#[test]
fn app_ticks_keep_bounded_history() {
    let mut app = App::with_provider(FakeProvider::with_cores(2));
    for t in 1..=120u64 {
        assert!(!app.handle_rx(&vec![AppEvents::UPDATE]));
        let expected = std::cmp::min(t as usize + 1, 75);
        for c in app.get_cpus() {
            assert_eq!(c.usage_history.len(), expected);
        }
        assert_eq!(app.get_memory().used_memory, t * 1000);
        assert_eq!(app.get_memory().used_swap, 7);
        assert_eq!(app.get_memory().total_memory, 8 * GB);
    }
    let all: Vec<u64> = (0..=120u64).map(|t| t % 101).collect();
    assert_eq!(history(&app.get_cpus()[0]), all[all.len() - 75..].to_vec());
    let last = &app.get_cpus()[1];
    assert_eq!(last.usage_history.back(), Some(&(100 - 120 % 101)));
}

#[test]
fn app_events_stop_at_quit() {
    let mut app = App::with_provider(FakeProvider::with_cores(10));
    assert!(!app.handle_rx(&vec![AppEvents::DOWN, AppEvents::DOWN, AppEvents::UP, AppEvents::DOWN]));
    assert_eq!(app.cpu_scroll_position(), 10);
    let many = vec![AppEvents::DOWN; 20];
    assert!(!app.handle_rx(&many));
    assert_eq!(app.cpu_scroll_position(), 45);
    let quit = app.handle_rx(&vec![AppEvents::UP, AppEvents::UPDATE, AppEvents::QUIT, AppEvents::UP]);
    assert!(quit);
    assert_eq!(app.cpu_scroll_position(), 40);
    assert_eq!(app.get_cpus()[0].usage_history.len(), 2);
    assert!(!app.handle_rx(&Vec::new()));
    assert_eq!(app.cpu_content_length(), 50);
    assert_eq!(app.get_os_info().system_name, "Ubuntu");
}

#[test]
fn app_seeds_one_sample_per_core() {
    let app = App::with_provider(FakeProvider::with_cores(4));
    assert_eq!(app.get_cpus().len(), 4);
    for (i, c) in app.get_cpus().iter().enumerate() {
        assert_eq!(c.core, format!("cpu{}", i));
        assert_eq!(history(c), vec![3]);
    }
    assert_eq!(app.get_memory().used_memory, 2 * GB);
    assert_eq!(app.get_os_info().os_version, "24.04");
}

#[test]
fn app_events_without_update_keep_histories() {
    let mut app = App::with_provider(FakeProvider::with_cores(3));
    assert!(!app.handle_rx(&vec![AppEvents::UPDATE, AppEvents::UPDATE]));
    let before: Vec<Vec<u64>> = app.get_cpus().iter().map(history).collect();
    let used = app.get_memory().used_memory;
    assert!(!app.handle_rx(&vec![AppEvents::DOWN, AppEvents::UP]));
    assert_eq!(app.cpu_scroll_position(), 0);
    let after: Vec<Vec<u64>> = app.get_cpus().iter().map(history).collect();
    assert_eq!(before, after);
    assert_eq!(app.get_memory().used_memory, used);
    assert!(app.handle_rx(&vec![AppEvents::QUIT, AppEvents::UPDATE]));
    let after_quit: Vec<Vec<u64>> = app.get_cpus().iter().map(history).collect();
    assert_eq!(before, after_quit);
}

#[test]
fn usage_lookup_by_name() {
    let names = vec!["cpu0".to_string(), "cpu1".to_string(), "cpu1".to_string()];
    let usages = vec![10, 20, 30];
    assert_eq!(usage_of(&names, &usages, &"cpu0".to_string()), 10);
    assert_eq!(usage_of(&names, &usages, &"cpu1".to_string()), 20);
    assert_eq!(usage_of(&names, &usages, &"cpu9".to_string()), 0);
    assert_eq!(usage_of(&Vec::new(), &Vec::new(), &"cpu0".to_string()), 0);
}

#[test]
fn cpus_from_seeds_in_order() {
    let names = vec!["cpu0".to_string(), "cpu1".to_string()];
    let cpus = cpus_from(&names, &vec![12, 97]);
    assert_eq!(cpus.len(), 2);
    assert_eq!(cpus[0].core, "cpu0");
    assert_eq!(history(&cpus[0]), vec![12]);
    assert_eq!(cpus[1].core, "cpu1");
    assert_eq!(history(&cpus[1]), vec![97]);
    assert!(cpus_from(&Vec::new(), &Vec::new()).is_empty());
}
