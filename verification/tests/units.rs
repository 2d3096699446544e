use sulphur::units::{CpuUsage, NetUsage, NetUsageRate};

#[test]
fn net_usage_addition() {
    let net_usage_1 = NetUsage::from_bytes(100);
    let net_usage_2 = NetUsage::from_bytes(100);
    let net_usage_3 = NetUsage::from_bytes(100);

    let total_net_usage = net_usage_1.saturating_add(net_usage_2).saturating_add(net_usage_3);
    let total_net_usage_bytes = total_net_usage.bytes();

    assert_eq!(total_net_usage_bytes, 300);
}

#[test]
fn net_usage_rate_collection() {
    let collected_net_usage =
        NetUsage::saturating_sum(&vec![128, 128, 256, 512].into_iter().map(NetUsage::from_bytes).collect());

    let time_period_millis = 10_000;
    let net_usage_rate =
        NetUsageRate::from_usage_and_duration(collected_net_usage, time_period_millis);

    let bytes_per_second = net_usage_rate.as_information_rate() as f64 / 1000.0;

    assert!((bytes_per_second - 102.4).abs() <= 10e-6);
}

#[test]
fn net_usage_sum_of_nothing_is_zero() {
    let total = NetUsage::saturating_sum(&Vec::new());
    assert_eq!(total.bytes(), 0);
}

#[test]
fn net_usage_addition_saturates() {
    let huge = NetUsage::from_bytes(u64::MAX - 10);
    let more = NetUsage::from_bytes(100);
    assert_eq!(huge.saturating_add(more).bytes(), u64::MAX);
}

#[test]
fn cpu_usage_clamps_to_domain() {
    assert_eq!(CpuUsage::from_milli_percent(42_000).milli_percent(), 42_000);
    assert_eq!(CpuUsage::from_milli_percent(250_000).milli_percent(), 100_000);

    let a = CpuUsage::from_milli_percent(70_000);
    let b = CpuUsage::from_milli_percent(50_000);
    assert_eq!(a.saturating_add(b).milli_percent(), 100_000);
    assert_eq!(a.saturating_sub(b).milli_percent(), 20_000);
    assert_eq!(b.saturating_sub(a).milli_percent(), 0);
}

#[test]
fn net_usage_rate_keeps_its_parts() {
    let rate = NetUsageRate::from_usage_and_duration(NetUsage::from_bytes(777), 1_500);
    assert_eq!(rate.net_usage().bytes(), 777);
    assert_eq!(rate.duration(), 1_500);

    let idle = NetUsageRate::idle();
    assert_eq!(idle.net_usage().bytes(), 0);
    assert_eq!(idle.duration(), 0);
}

#[test]
fn information_rate_is_exact_milli_bytes_per_second() {
    // 3 bytes over 2 seconds: 1.5 bytes per second.
    let rate = NetUsageRate::from_usage_and_duration(NetUsage::from_bytes(3), 2_000);
    assert_eq!(rate.as_information_rate(), 1_500);
}
