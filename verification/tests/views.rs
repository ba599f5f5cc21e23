use vitals::channel::SnapshotQueue;
use vitals::charts::{CpuView, DashboardView, MemoryView, NetworkView, Ui, VitalsWindow};
use vitals::config::ColorConfig;
use vitals::enhanced::{
    average_disk_usage, DiskData, EnhancedSystemData, EnhancedSystemMonitor, GpuData,
    DISK_REFRESH_NANOS,
};
use vitals::navigation::NavigationPage;
use vitals::pinned::{PinnedFolder, PinnedManager};
use vitals::rate::NANOS_PER_SEC;
use vitals::system::{CounterReading, NetworkCounters, SystemData, SystemMonitor};
use vitals::update_checker::{UpdateChecker, CURRENT_VERSION};
use vitals::window::SlidingWindow;

fn contents(w: &SlidingWindow<u32>) -> Vec<u32> {
    w.points().iter().copied().collect()
}

fn snapshot(core: u32, used: u64, received: u64, transmitted: u64, now: u64) -> SystemData {
    let mut monitor = SystemMonitor::new(&vec![], now.saturating_sub(NANOS_PER_SEC));
    monitor.tick(
        CounterReading {
            cores: vec![core],
            used_memory: used,
            total_memory: 100,
            interfaces: vec![NetworkCounters { received, transmitted }],
            processes: vec![],
        },
        now,
    )
}

fn enhanced(core: u32, used: u64, received: u64, transmitted: u64) -> EnhancedSystemData {
    EnhancedSystemMonitor::new().enhance(snapshot(core, used, received, transmitted, NANOS_PER_SEC))
}

#[test]
fn ui_update_feeds_the_three_graphs() {
    let mut ui = Ui::new();
    ui.update_data(&snapshot(12_000, 40, 500 * 1024, 0, NANOS_PER_SEC));
    assert_eq!(contents(ui.cpu_graph()), vec![12_000]);
    assert_eq!(contents(ui.memory_graph()), vec![40_000]);
    assert_eq!(contents(ui.network_graph()), vec![50_000]);
}

#[test]
fn ui_poll_applies_every_waiting_snapshot_oldest_first() {
    let mut ui = Ui::new();
    let mut queue: SnapshotQueue<SystemData> = SnapshotQueue::new();
    assert_eq!(ui.poll(&mut queue), 0);
    for i in 1..=3u32 {
        queue.send(snapshot(i * 1000, i as u64, 0, 0, i as u64 * NANOS_PER_SEC));
    }
    assert_eq!(ui.poll(&mut queue), 3);
    assert!(queue.is_empty());
    assert_eq!(contents(ui.cpu_graph()), vec![1000, 2000, 3000]);
    assert_eq!(contents(ui.memory_graph()), vec![1000, 2000, 3000]);
    assert_eq!(contents(ui.network_graph()), vec![0, 0, 0]);
}

#[test]
fn ui_poll_of_a_burst_keeps_the_newest() {
    let mut ui = Ui::new();
    let mut queue: SnapshotQueue<SystemData> = SnapshotQueue::new();
    for i in 0..130u32 {
        queue.send(snapshot(i, 0, 0, 0, NANOS_PER_SEC));
    }
    assert_eq!(ui.poll(&mut queue), 130);
    let cpu = contents(ui.cpu_graph());
    assert_eq!(cpu.len(), 120);
    assert_eq!(cpu[0], 10);
    assert_eq!(cpu[119], 129);
}

#[test]
fn dashboard_shows_both_directions_together() {
    let mut view = DashboardView::new();
    view.update_data(&enhanced(5000, 25, 300 * 1024, 200 * 1024));
    assert_eq!(contents(view.cpu_sparkline()), vec![5000]);
    assert_eq!(contents(view.memory_sparkline()), vec![25_000]);
    assert_eq!(contents(view.network_sparkline()), vec![50_000]);
    assert_eq!(view.cpu_sparkline().max_points(), 60);
}

#[test]
fn detail_views_follow_their_metric() {
    let data = enhanced(7000, 10, 100 * 1024, 2000 * 1024);
    let mut cpu = CpuView::new();
    let mut memory = MemoryView::new();
    let mut network = NetworkView::new();
    cpu.update_data(&data);
    memory.update_data(&data);
    network.update_data(&data);
    assert_eq!(contents(cpu.chart()), vec![7000]);
    assert_eq!(contents(memory.chart()), vec![10_000]);
    assert_eq!(contents(network.chart().first()), vec![10_000]);
    assert_eq!(contents(network.chart().second()), vec![100_000]);
    assert_eq!(cpu.chart().max_points(), 240);
}

#[test]
fn vitals_window_hands_data_to_every_view() {
    let mut window = VitalsWindow::new();
    window.update_data(&enhanced(7000, 10, 100 * 1024, 100 * 1024));
    window.update_data(&enhanced(8000, 20, 0, 0));
    assert_eq!(contents(window.dashboard_view().cpu_sparkline()), vec![7000, 8000]);
    assert_eq!(contents(window.dashboard_view().network_sparkline()), vec![20_000, 0]);
    assert_eq!(contents(window.cpu_view().chart()), vec![7000, 8000]);
    assert_eq!(contents(window.memory_view().chart()), vec![10_000, 20_000]);
    assert_eq!(contents(window.network_view().chart().first()), vec![10_000, 0]);
    assert_eq!(contents(window.network_view().chart().second()), vec![10_000, 0]);
}

#[test]
fn disk_usage_share() {
    let d = DiskData::new("sda".to_string(), "/".to_string(), 1000, 250);
    assert_eq!(d.name, "sda");
    assert_eq!(d.mount_point, "/");
    assert_eq!((d.total_space, d.available_space, d.used_percent), (1000, 250, 75_000));
    assert_eq!(DiskData::new(String::new(), String::new(), 0, 0).used_percent, 0);
    assert_eq!(DiskData::new(String::new(), String::new(), 10, 20).used_percent, 0);
    let copy = d.duplicate();
    assert_eq!((copy.name, copy.mount_point), (d.name, d.mount_point));
    assert_eq!(copy.used_percent, 75_000);
}

#[test]
fn disk_usage_average() {
    assert_eq!(average_disk_usage(&vec![]), None);
    let disks = vec![
        DiskData::new("a".to_string(), "/".to_string(), 100, 50),
        DiskData::new("b".to_string(), "/home".to_string(), 100, 0),
        DiskData::new("c".to_string(), "/tmp".to_string(), 100, 99),
    ];
    assert_eq!(average_disk_usage(&disks), Some(50_333));
}

#[test]
fn gpu_placeholder() {
    let g = GpuData::unavailable();
    assert!(!g.available);
    assert_eq!(g.name, "Not Available");
    assert_eq!((g.usage, g.temperature), (0, 0));
}

#[test]
fn disks_are_read_first_and_then_every_ten_seconds() {
    let mut monitor = EnhancedSystemMonitor::new();
    assert!(monitor.disk_refresh_due(0));
    monitor.store_disks(vec![DiskData::new("a".to_string(), "/".to_string(), 100, 50)], 1_000);
    assert!(!monitor.disk_refresh_due(1_000));
    assert!(!monitor.disk_refresh_due(1_000 + DISK_REFRESH_NANOS));
    assert!(monitor.disk_refresh_due(1_001 + DISK_REFRESH_NANOS));
    assert!(!monitor.disk_refresh_due(0));
    assert_eq!(DISK_REFRESH_NANOS, 10 * NANOS_PER_SEC);
}

#[test]
fn enhance_carries_the_snapshot_and_the_remembered_disks() {
    let mut monitor = EnhancedSystemMonitor::new();
    let bare = monitor.enhance(snapshot(1000, 1, 0, 0, NANOS_PER_SEC));
    assert!(bare.disks.is_empty());
    monitor.store_disks(
        vec![
            DiskData::new("a".to_string(), "/".to_string(), 100, 50),
            DiskData::new("b".to_string(), "/home".to_string(), 200, 50),
        ],
        0,
    );
    let data = monitor.enhance(snapshot(9000, 30, 2048, 1024, NANOS_PER_SEC));
    assert_eq!(data.cpu.usage, 9000);
    assert_eq!(data.memory.used, 30);
    assert_eq!(data.network.received_rate, 2048);
    assert_eq!(data.network.transmitted_rate, 1024);
    let names: Vec<&str> = data.disks.iter().map(|d| d.name.as_str()).collect();
    assert_eq!(names, vec!["a", "b"]);
    assert_eq!(data.disks[1].used_percent, 75_000);
    assert!(!data.gpu.available);
    assert_eq!(data.gpu.name, "Not Available");
}

#[test]
fn config_defaults() {
    let c = ColorConfig::default();
    assert_eq!(c.background, "#0a0a0a");
    assert_eq!(c.primary, "#1a1a1a");
    assert_eq!(c.secondary, "#121212");
    assert_eq!(c.text, "#ffffff");
    assert_eq!(c.accent, "#4a9eff");
    assert_eq!(c.last_wallpaper, None);
    assert_eq!(c.color_preset, None);
    assert_eq!(c.sidebar_position.as_deref(), Some("left"));
    assert_eq!(c.notifications_enabled, Some(true));
    assert_eq!(c.notification_sounds_enabled, Some(true));
    assert_eq!(c.sidebar_visible, Some(true));
    assert_eq!(c.rounding.as_deref(), Some("rounded"));
    assert_eq!(c.show_hidden_files, Some(false));
}

#[test]
fn config_setters_change_one_setting() {
    let mut c = ColorConfig::default();
    c.update_colors("#000001", "#000002", "#000003", "#000004", "#000005");
    assert_eq!(
        (c.background.as_str(), c.primary.as_str(), c.secondary.as_str()),
        ("#000001", "#000002", "#000003")
    );
    assert_eq!((c.text.as_str(), c.accent.as_str()), ("#000004", "#000005"));
    assert_eq!(c.rounding.as_deref(), Some("rounded"));
    c.set_wallpaper("/pictures/a.png");
    c.set_preset("nord");
    c.set_sidebar_position("right");
    c.set_notifications_enabled(false);
    c.set_notification_sounds_enabled(false);
    c.set_sidebar_visible(false);
    c.set_rounding("sharp");
    c.set_show_hidden_files(true);
    assert_eq!(c.last_wallpaper.as_deref(), Some("/pictures/a.png"));
    assert_eq!(c.color_preset.as_deref(), Some("nord"));
    assert_eq!(c.sidebar_position.as_deref(), Some("right"));
    assert_eq!(c.notifications_enabled, Some(false));
    assert_eq!(c.notification_sounds_enabled, Some(false));
    assert_eq!(c.sidebar_visible, Some(false));
    assert_eq!(c.rounding.as_deref(), Some("sharp"));
    assert_eq!(c.show_hidden_files, Some(true));
    assert_eq!(c.background, "#000001");
}

fn paths(pinned: &Vec<PinnedFolder>) -> Vec<(String, String)> {
    pinned.iter().map(|p| (p.name.clone(), p.path.clone())).collect()
}

#[test]
fn pinned_add_appends_once() {
    let mut pinned: Vec<PinnedFolder> = Vec::new();
    assert!(!PinnedManager::is_pinned(&pinned, "/home/u"));
    assert!(PinnedManager::add(&mut pinned, "/home/u", Some("u".to_string())));
    assert!(PinnedManager::add(&mut pinned, "/", None));
    assert!(!PinnedManager::add(&mut pinned, "/home/u", Some("other".to_string())));
    assert!(PinnedManager::is_pinned(&pinned, "/home/u"));
    assert!(PinnedManager::is_pinned(&pinned, "/"));
    assert!(!PinnedManager::is_pinned(&pinned, "/home"));
    assert_eq!(
        paths(&pinned),
        vec![("u".to_string(), "/home/u".to_string()), ("/".to_string(), "/".to_string())]
    );
}

#[test]
fn pinned_remove_drops_every_match_and_keeps_order() {
    let mut pinned = vec![
        PinnedFolder { name: "a".to_string(), path: "/a".to_string() },
        PinnedFolder { name: "b".to_string(), path: "/b".to_string() },
        PinnedFolder { name: "a2".to_string(), path: "/a".to_string() },
        PinnedFolder { name: "c".to_string(), path: "/c".to_string() },
    ];
    PinnedManager::remove(&mut pinned, "/a");
    assert_eq!(
        paths(&pinned),
        vec![("b".to_string(), "/b".to_string()), ("c".to_string(), "/c".to_string())]
    );
    PinnedManager::remove(&mut pinned, "/missing");
    assert_eq!(pinned.len(), 2);
    PinnedManager::remove(&mut pinned, "/c");
    PinnedManager::remove(&mut pinned, "/b");
    assert!(pinned.is_empty());
}

#[test]
fn update_check_is_switched_off() {
    let info = UpdateChecker::new().check_update();
    assert!(!info.available);
    assert_eq!(info.latest_version, "unknown");
    assert_eq!(info.current_version, CURRENT_VERSION);
    assert_eq!(info.current_version, "0.1.0");
}

#[test]
fn sidebar_rows_select_pages() {
    let pages: Vec<NavigationPage> = (0..7).map(NavigationPage::from_row).collect();
    assert_eq!(
        pages,
        vec![
            NavigationPage::Dashboard,
            NavigationPage::Cpu,
            NavigationPage::Gpu,
            NavigationPage::Memory,
            NavigationPage::Disk,
            NavigationPage::Network,
            NavigationPage::Processes,
        ]
    );
    assert_eq!(NavigationPage::from_row(7), NavigationPage::Dashboard);
    assert_eq!(NavigationPage::from_row(-1), NavigationPage::Dashboard);
    let names: Vec<&str> = pages.iter().map(|p| p.page_name()).collect();
    assert_eq!(names, vec!["dashboard", "cpu", "gpu", "memory", "disk", "network", "processes"]);
}

#[test]
fn vitals_window_starts_empty_with_the_chart_lengths() {
    let window = VitalsWindow::new();
    assert!(window.dashboard_view().cpu_sparkline().is_empty());
    assert!(window.dashboard_view().memory_sparkline().is_empty());
    assert!(window.dashboard_view().network_sparkline().is_empty());
    assert!(window.cpu_view().chart().is_empty());
    assert!(window.memory_view().chart().is_empty());
    assert!(window.network_view().chart().first().is_empty());
    assert!(window.network_view().chart().second().is_empty());
    assert_eq!(window.dashboard_view().cpu_sparkline().max_points(), 60);
    assert_eq!(window.dashboard_view().memory_sparkline().max_points(), 60);
    assert_eq!(window.dashboard_view().network_sparkline().max_points(), 60);
    assert_eq!(window.cpu_view().chart().max_points(), 240);
    assert_eq!(window.memory_view().chart().max_points(), 240);
    assert_eq!(window.network_view().chart().first().max_points(), 240);
    assert_eq!(window.network_view().chart().second().max_points(), 240);
}
