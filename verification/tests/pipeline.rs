use vitals::channel::SnapshotQueue;
use vitals::ranking::{rank_processes, SNAPSHOT_PROCESS_CAP};
use vitals::rate::{
    chart_height, combined_chart_height, compute_rate, percent_of, FULL_SCALE, NANOS_PER_SEC,
    RATE_UNITS_PER_KB,
};
use vitals::system::{
    CounterReading, CpuData, MemoryData, NetworkCounters, ProcessInfo, SystemData, SystemMonitor,
};
use vitals::window::{
    DualWindow, SlidingWindow, DETAILED_MAX_POINTS, MAX_POINTS, SPARKLINE_MAX_POINTS,
};

fn contents<T: Copy>(w: &SlidingWindow<T>) -> Vec<T> {
    w.points().iter().copied().collect()
}

fn process(pid: u32, cpu_usage: u32) -> ProcessInfo {
    ProcessInfo::new(pid, format!("p{}", pid), Some(cpu_usage), 0, 0)
}

fn reading(bytes: u64) -> CounterReading {
    CounterReading {
        cores: vec![],
        used_memory: 0,
        total_memory: 0,
        interfaces: vec![NetworkCounters { received: bytes, transmitted: 0 }],
        processes: vec![],
    }
}

#[test]
fn window_keeps_the_newest_points_in_order() {
    let mut w: SlidingWindow<f64> = SlidingWindow::new(3);
    for i in 0..10 {
        w.add_point(i as f64);
    }
    assert_eq!(w.len(), 3);
    assert_eq!(contents(&w), vec![7.0, 8.0, 9.0]);
    assert_eq!(w.max_points(), 3);
}

#[test]
fn window_below_capacity_keeps_everything() {
    let mut w: SlidingWindow<u32> = SlidingWindow::new(5);
    w.add_point(4);
    w.add_point(2);
    assert_eq!(w.len(), 2);
    assert!(!w.is_empty());
    assert_eq!(contents(&w), vec![4, 2]);
    assert_eq!(w.get(0), Some(&4));
    assert_eq!(w.get(1), Some(&2));
    assert_eq!(w.get(2), None);
}

#[test]
fn window_at_exact_capacity_evicts_one() {
    let mut w: SlidingWindow<u32> = SlidingWindow::new(2);
    w.add_point(1);
    w.add_point(2);
    assert_eq!(contents(&w), vec![1, 2]);
    w.add_point(3);
    assert_eq!(contents(&w), vec![2, 3]);
}

#[test]
fn window_of_no_capacity_stays_empty() {
    let mut w: SlidingWindow<u32> = SlidingWindow::new(0);
    w.add_point(1);
    assert_eq!(w.len(), 0);
    assert!(w.is_empty());
}

#[test]
fn window_stores_out_of_range_values_as_given() {
    let mut w: SlidingWindow<f64> = SlidingWindow::new(4);
    w.add_point(250.0);
    w.add_point(-3.5);
    assert_eq!(contents(&w), vec![250.0, -3.5]);
}

#[test]
fn window_clear_empties_and_keeps_capacity() {
    let mut w: SlidingWindow<u32> = SlidingWindow::new(2);
    w.add_point(1);
    w.add_point(2);
    w.clear();
    assert!(w.is_empty());
    assert_eq!(w.max_points(), 2);
    w.add_point(7);
    w.add_point(8);
    w.add_point(9);
    assert_eq!(contents(&w), vec![8, 9]);
}

#[test]
fn window_lengths_of_the_charts() {
    assert_eq!(MAX_POINTS, 120);
    assert_eq!(SPARKLINE_MAX_POINTS, 60);
    assert_eq!(DETAILED_MAX_POINTS, 240);
    let mut w: SlidingWindow<u32> = SlidingWindow::new(SPARKLINE_MAX_POINTS);
    for i in 0..100u32 {
        w.add_point(i);
    }
    assert_eq!(w.len(), 60);
    assert_eq!(w.get(0), Some(&40));
    assert_eq!(w.get(59), Some(&99));
}

#[test]
fn dual_window_advances_both_series() {
    let mut d: DualWindow<u32> = DualWindow::new(2);
    d.add_points(1, 10);
    d.add_points(2, 20);
    d.add_points(3, 30);
    assert_eq!(contents(d.first()), vec![2, 3]);
    assert_eq!(contents(d.second()), vec![20, 30]);
}

#[test]
fn rate_is_zero_when_counter_goes_backwards() {
    assert_eq!(compute_rate(50, 100, NANOS_PER_SEC), 0);
    assert_eq!(compute_rate(0, u64::MAX, 1), 0);
    assert_eq!(compute_rate(100, 100, NANOS_PER_SEC), 0);
}

#[test]
fn rate_of_one_kb_per_second_is_one() {
    for seconds in [1u64, 2, 7, 3600] {
        let rate = compute_rate(1024 * seconds, 0, seconds * NANOS_PER_SEC);
        assert_eq!(rate, RATE_UNITS_PER_KB as u128);
        assert_eq!(rate as f64 / RATE_UNITS_PER_KB as f64, 1.0);
    }
    // Half a second, and a millisecond.
    assert_eq!(compute_rate(512, 0, NANOS_PER_SEC / 2), RATE_UNITS_PER_KB as u128);
    assert_eq!(compute_rate(128, 0, NANOS_PER_SEC / 8), RATE_UNITS_PER_KB as u128);
}

#[test]
fn rate_without_elapsed_time_is_zero() {
    assert_eq!(compute_rate(100, 50, 0), 0);
}

#[test]
fn rate_rounds_down_and_scales_with_time() {
    // 2000 bytes in one second: 2000 units, about 1.95 KB/s.
    assert_eq!(compute_rate(3000, 1000, NANOS_PER_SEC), 2000);
    // 2000 bytes in half a second.
    assert_eq!(compute_rate(3000, 1000, NANOS_PER_SEC / 2), 4000);
    // 10 bytes in three seconds.
    assert_eq!(compute_rate(10, 0, 3 * NANOS_PER_SEC), 3);
    // The largest growth in the shortest time does not overflow.
    assert_eq!(compute_rate(u64::MAX, 0, 1), u64::MAX as u128 * 1_000_000_000);
}

#[test]
fn percent_of_clamps_and_rounds_down() {
    assert_eq!(percent_of(1, 2), 50_000);
    assert_eq!(percent_of(1, 3), 33_333);
    assert_eq!(percent_of(0, 8), 0);
    assert_eq!(percent_of(8, 8), FULL_SCALE);
    assert_eq!(percent_of(9, 8), FULL_SCALE);
    assert_eq!(percent_of(5, 0), 0);
    assert_eq!(percent_of(u64::MAX - 1, u64::MAX), 99_999);
}

#[test]
fn chart_height_is_a_tenth_of_a_percent_per_kb() {
    assert_eq!(chart_height(0), 0);
    // 10 KB/s is one percent.
    assert_eq!(chart_height(10 * 1024), 1000);
    // 500 KB/s is half the chart.
    assert_eq!(chart_height(500 * 1024), 50_000);
    assert_eq!(chart_height(1000 * 1024), FULL_SCALE);
    assert_eq!(chart_height(u128::MAX), FULL_SCALE);
    assert_eq!(combined_chart_height(300 * 1024, 200 * 1024), 50_000);
    assert_eq!(combined_chart_height(u128::MAX, u128::MAX), FULL_SCALE);
}

#[test]
fn ranking_is_stable_and_truncates() {
    let table = vec![process(1, 5000), process(2, 5000), process(3, 9000), process(4, 1000)];
    let top = rank_processes(table, 2);
    let usage: Vec<Option<u32>> = top.iter().map(|p| p.cpu_usage).collect();
    let pids: Vec<u32> = top.iter().map(|p| p.pid).collect();
    assert_eq!(usage, vec![Some(9000), Some(5000)]);
    assert_eq!(pids, vec![3, 1]);
}

#[test]
fn ranking_keeps_all_when_cap_is_large() {
    let table = vec![
        process(1, 0),
        process(2, 7),
        process(3, 7),
        process(4, 3),
        process(5, 7),
        process(6, 100_000),
    ];
    let top = rank_processes(table, SNAPSHOT_PROCESS_CAP);
    let pids: Vec<u32> = top.iter().map(|p| p.pid).collect();
    assert_eq!(pids, vec![6, 2, 3, 5, 4, 1]);
    assert!(rank_processes(vec![], 5).is_empty());
    assert!(rank_processes(vec![process(1, 1)], 0).is_empty());
}

#[test]
fn ranking_puts_missing_readings_last() {
    let table = vec![
        ProcessInfo::new(1, String::new(), Some(0), 0, 0),
        ProcessInfo::new(2, String::new(), None, 0, 0),
        ProcessInfo::new(3, String::new(), Some(5), 0, 0),
        ProcessInfo::new(4, String::new(), None, 0, 0),
        ProcessInfo::new(5, String::new(), Some(0), 0, 0),
    ];
    let pids: Vec<u32> = rank_processes(table, 10).iter().map(|p| p.pid).collect();
    assert_eq!(pids, vec![3, 1, 5, 2, 4]);
}

#[test]
fn ranking_caps_a_snapshot_at_fifty() {
    let table: Vec<ProcessInfo> = (0..80u32).map(|i| process(i, i)).collect();
    let mut monitor = SystemMonitor::new(&vec![], 0);
    let mut r = reading(0);
    r.processes = table;
    let data = monitor.tick(r, 1);
    assert_eq!(data.processes.len(), 50);
    assert_eq!(data.processes[0].pid, 79);
    assert_eq!(data.processes[49].pid, 30);
}

#[test]
fn cpu_usage_is_the_mean_of_the_cores() {
    let cpu = CpuData::new(vec![10_000, 20_000, 40_000]);
    assert_eq!(cpu.usage, 23_333);
    assert_eq!(cpu.cores, vec![10_000, 20_000, 40_000]);
    assert_eq!(CpuData::new(vec![]).usage, 0);
    assert_eq!(CpuData::new(vec![u32::MAX, u32::MAX]).usage, u32::MAX);
}

#[test]
fn memory_used_is_clamped_to_total() {
    let m = MemoryData::new(4, 16);
    assert_eq!((m.used, m.total, m.used_percent), (4, 16, 25_000));
    let jitter = MemoryData::new(20, 16);
    assert_eq!((jitter.used, jitter.total, jitter.used_percent), (16, 16, FULL_SCALE));
    let none = MemoryData::new(0, 0);
    assert_eq!((none.used, none.total, none.used_percent), (0, 0, 0));
}

#[test]
fn process_memory_share() {
    let p = ProcessInfo::new(7, "seven".to_string(), Some(1500), 256, 1024);
    assert_eq!(p.pid, 7);
    assert_eq!(p.name, "seven");
    assert_eq!(p.cpu_usage, Some(1500));
    assert_eq!(p.memory, 256);
    assert_eq!(p.memory_percent, 25_000);
}

#[test]
fn counters_are_summed_over_interfaces() {
    let interfaces = vec![
        NetworkCounters { received: 1, transmitted: 10 },
        NetworkCounters { received: 2, transmitted: 20 },
        NetworkCounters { received: 3, transmitted: 30 },
    ];
    assert_eq!(
        NetworkCounters::total(&interfaces),
        NetworkCounters { received: 6, transmitted: 60 }
    );
    assert_eq!(NetworkCounters::total(&vec![]), NetworkCounters { received: 0, transmitted: 0 });
    let huge = vec![
        NetworkCounters { received: u64::MAX, transmitted: 1 },
        NetworkCounters { received: 5, transmitted: 1 },
    ];
    assert_eq!(
        NetworkCounters::total(&huge),
        NetworkCounters { received: u64::MAX, transmitted: 2 }
    );
}

#[test]
fn three_ticks_end_to_end() {
    let mut monitor = SystemMonitor::new(&vec![NetworkCounters { received: 1000, transmitted: 0 }], 0);
    let first = monitor.tick(reading(1000), 0);
    let second = monitor.tick(reading(3000), NANOS_PER_SEC);
    let third = monitor.tick(reading(3000), 2 * NANOS_PER_SEC);
    assert_eq!(first.network.received_rate, 0);
    assert_eq!(second.network.received_rate, 2000);
    let kb_per_sec = second.network.received_rate as f64 / RATE_UNITS_PER_KB as f64;
    assert!((kb_per_sec - 1.953125).abs() < 1e-9);
    assert_eq!(third.network.received_rate, 0);
    assert_eq!(
        (first.network.received, second.network.received, third.network.received),
        (1000, 3000, 3000)
    );
    assert_eq!((first.timestamp, second.timestamp, third.timestamp), (0, NANOS_PER_SEC, 2 * NANOS_PER_SEC));
}

#[test]
fn tick_builds_the_whole_snapshot() {
    let mut monitor = SystemMonitor::new(
        &vec![NetworkCounters { received: 100, transmitted: 50 }],
        1_000,
    );
    let r = CounterReading {
        cores: vec![20_000, 40_000],
        used_memory: 3,
        total_memory: 4,
        interfaces: vec![
            NetworkCounters { received: 1124, transmitted: 50 },
            NetworkCounters { received: 1024, transmitted: 2048 },
        ],
        processes: vec![process(1, 10), process(2, 30), process(3, 30)],
    };
    let data = monitor.tick(r, 1_000 + 2 * NANOS_PER_SEC);
    assert_eq!(data.cpu.usage, 30_000);
    assert_eq!(data.cpu.cores, vec![20_000, 40_000]);
    assert_eq!((data.memory.used, data.memory.total, data.memory.used_percent), (3, 4, 75_000));
    assert_eq!((data.network.received, data.network.transmitted), (2148, 2098));
    assert_eq!(data.network.received_rate, 1024);
    assert_eq!(data.network.transmitted_rate, 1024);
    let pids: Vec<u32> = data.processes.iter().map(|p| p.pid).collect();
    assert_eq!(pids, vec![2, 3, 1]);
    assert_eq!(data.timestamp, 1_000 + 2 * NANOS_PER_SEC);
}

#[test]
fn tick_with_a_clock_that_went_backwards_gives_no_rate() {
    let mut monitor = SystemMonitor::new(&vec![], 5 * NANOS_PER_SEC);
    let data = monitor.tick(reading(4096), 4 * NANOS_PER_SEC);
    assert_eq!(data.network.received_rate, 0);
    // The next tick measures against the counters and the time of this one.
    let next = monitor.tick(reading(4096 + 1024), 5 * NANOS_PER_SEC);
    assert_eq!(next.network.received_rate, 1024);
}

fn snapshot_at(timestamp: u64) -> SystemData {
    let mut monitor = SystemMonitor::new(&vec![], timestamp);
    monitor.tick(reading(0), timestamp)
}

#[test]
fn queue_delivers_in_sending_order() {
    let mut queue: SnapshotQueue<SystemData> = SnapshotQueue::new();
    assert!(queue.is_empty());
    queue.send(snapshot_at(10));
    queue.send(snapshot_at(20));
    queue.send(snapshot_at(30));
    assert_eq!(queue.len(), 3);
    let seen: Vec<u64> = queue.drain().iter().map(|d| d.timestamp).collect();
    assert_eq!(seen, vec![10, 20, 30]);
    assert!(queue.is_empty());
    assert!(queue.drain().is_empty());
}

#[test]
fn queue_try_recv_takes_the_oldest() {
    let mut queue: SnapshotQueue<u32> = SnapshotQueue::new();
    assert_eq!(queue.try_recv(), None);
    queue.send(1);
    queue.send(2);
    assert_eq!(queue.try_recv(), Some(1));
    queue.send(3);
    assert_eq!(queue.try_recv(), Some(2));
    assert_eq!(queue.try_recv(), Some(3));
    assert_eq!(queue.try_recv(), None);
}
