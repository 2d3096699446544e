use sulphur::resource_monitor::{MeasurementType, ResourceMonitor, UpdateIntervals};
use sulphur::units::CpuUsage;

fn cpu_percent_milli(snapshot_cpu: &Vec<CpuUsage>) -> Vec<u64> {
    snapshot_cpu.iter().map(|c| c.milli_percent()).collect()
}

#[test]
fn snapshot_always_has_capacity_length() {
    let intervals = UpdateIntervals { realtime: 500 };
    let mut monitor = ResourceMonitor::new(6, CpuUsage::from_milli_percent(0), intervals);
    for round in 0..10u64 {
        let snapshot = monitor.build_metrics();
        assert_eq!(snapshot.cpu_usage.len(), 6);
        assert_eq!(snapshot.net_usage_rate.len(), 6);
        monitor.refresh_realtime(CpuUsage::from_milli_percent(round * 7_000), &vec![(10, 20)], 500);
    }
}

#[test]
fn snapshot_is_idempotent_without_refresh() {
    let intervals = UpdateIntervals { realtime: 500 };
    let mut monitor = ResourceMonitor::new(4, CpuUsage::from_milli_percent(33_000), intervals);
    monitor.refresh_realtime(CpuUsage::from_milli_percent(55_000), &vec![(1_000, 2_000)], 700);

    let first = monitor.build_metrics();
    let second = monitor.build_metrics();

    assert_eq!(first.cpu_usage, second.cpu_usage);
    assert_eq!(first.net_usage_rate, second.net_usage_rate);
}

#[test]
fn snapshot_pads_only_before_capacity_is_reached() {
    let intervals = UpdateIntervals { realtime: 500 };
    let mut monitor = ResourceMonitor::new(4, CpuUsage::from_milli_percent(30_000), intervals);

    // One seeded sample, three padded slots at the tail.
    let early = monitor.build_metrics();
    assert_eq!(cpu_percent_milli(&early.cpu_usage), vec![30_000, 0, 0, 0]);
    assert_eq!(early.net_usage_rate[1].net_usage().bytes(), 0);
    assert_eq!(early.net_usage_rate[1].duration(), 0);

    monitor.refresh_realtime(CpuUsage::from_milli_percent(40_000), &vec![(5, 5)], 500);
    monitor.refresh_realtime(CpuUsage::from_milli_percent(50_000), &vec![(5, 5)], 500);
    monitor.refresh_realtime(CpuUsage::from_milli_percent(60_000), &vec![(5, 5)], 500);

    // At capacity: the snapshot is exactly the reversed history, no padding.
    let full = monitor.build_metrics();
    assert_eq!(cpu_percent_milli(&full.cpu_usage), vec![60_000, 50_000, 40_000, 30_000]);

    // And it never pads again: the next refresh evicts the oldest sample.
    monitor.refresh_realtime(CpuUsage::from_milli_percent(70_000), &vec![(5, 5)], 500);
    let evicted = monitor.build_metrics();
    assert_eq!(cpu_percent_milli(&evicted.cpu_usage), vec![70_000, 60_000, 50_000, 40_000]);
}

#[test]
fn refresh_combines_interface_counters_into_one_rate() {
    let intervals = UpdateIntervals { realtime: 500 };
    let mut monitor = ResourceMonitor::new(2, CpuUsage::from_milli_percent(0), intervals);
    monitor.refresh_realtime(
        CpuUsage::from_milli_percent(10_000),
        &vec![(128, 0), (128, 0), (200, 56), (500, 12)],
        10_000,
    );

    let snapshot = monitor.build_metrics();
    let newest = &snapshot.net_usage_rate[0];
    assert_eq!(newest.net_usage().bytes(), 1_024);
    assert_eq!(newest.duration(), 10_000);
    // 1024 bytes over 10 seconds: 102.4 bytes per second.
    let bytes_per_second = newest.as_information_rate() as f64 / 1000.0;
    assert!((bytes_per_second - 102.4).abs() <= 10e-6);
}

#[test]
fn capacity_four_scenario_reaches_the_expected_snapshot() {
    let intervals = UpdateIntervals { realtime: 1_000 };
    // CPU samples inserted oldest first: 5, 20, 60, 95 percent.
    let mut monitor = ResourceMonitor::new(4, CpuUsage::from_milli_percent(5_000), intervals);
    monitor.refresh_realtime(CpuUsage::from_milli_percent(20_000), &vec![], 1_000);
    monitor.refresh_realtime(CpuUsage::from_milli_percent(60_000), &vec![], 1_000);
    monitor.refresh_realtime(CpuUsage::from_milli_percent(95_000), &vec![], 1_000);

    let snapshot = monitor.build_metrics();
    assert_eq!(cpu_percent_milli(&snapshot.cpu_usage), vec![95_000, 60_000, 20_000, 5_000]);

    let line = snapshot.render_usage_graph(MeasurementType::Cpu);
    assert_eq!(line, "⣠⣾");
}

#[test]
fn update_intervals_are_kept() {
    let intervals = UpdateIntervals { realtime: 250 };
    let monitor = ResourceMonitor::new(2, CpuUsage::from_milli_percent(0), intervals);
    assert_eq!(monitor.update_intervals(), intervals);
}
