use sulphur::grading::{CpuUsageGrading, MeasurementGrade, MeasurementGrading, NetUsageRateGrading};
use sulphur::units::{CpuUsage, NetUsage, NetUsageRate};

#[test]
fn cpu_usage_grading() {
    assert_eq!(
        CpuUsageGrading.scale(CpuUsage::from_milli_percent(1_000)),
        MeasurementGrade::Idle
    );
    assert_eq!(
        CpuUsageGrading.scale(CpuUsage::from_milli_percent(20_000)),
        MeasurementGrade::Low
    );
    assert_eq!(
        CpuUsageGrading.scale(CpuUsage::from_milli_percent(60_000)),
        MeasurementGrade::Medium
    );
    assert_eq!(
        CpuUsageGrading.scale(CpuUsage::from_milli_percent(90_000)),
        MeasurementGrade::High
    );
}

#[test]
fn net_usage_rate_grading() {
    let grader = NetUsageRateGrading;
    // 1 kilobyte over 1 second: 8 kbit/s.
    assert_eq!(
        grader.scale(NetUsageRate::from_usage_and_duration(
            NetUsage::from_bytes(1_000),
            1_000
        )),
        MeasurementGrade::Idle
    );
    // 2 megabytes over 1 second: 16 Mbit/s.
    assert_eq!(
        grader.scale(NetUsageRate::from_usage_and_duration(
            NetUsage::from_bytes(2_000_000),
            1_000
        )),
        MeasurementGrade::Low
    );
    // 20 megabytes over 1 second: 160 Mbit/s.
    assert_eq!(
        grader.scale(NetUsageRate::from_usage_and_duration(
            NetUsage::from_bytes(20_000_000),
            1_000
        )),
        MeasurementGrade::Medium
    );
    // 950 megabits over 1 second.
    assert_eq!(
        grader.scale(NetUsageRate::from_usage_and_duration(
            NetUsage::from_bytes(118_750_000),
            1_000
        )),
        MeasurementGrade::High
    );
}

#[test]
fn cpu_band_boundaries_belong_to_the_higher_band() {
    // 10.0 percent is Low, 9.999 percent is Idle.
    assert_eq!(
        CpuUsageGrading.scale(CpuUsage::from_milli_percent(10_000)),
        MeasurementGrade::Low
    );
    assert_eq!(
        CpuUsageGrading.scale(CpuUsage::from_milli_percent(9_999)),
        MeasurementGrade::Idle
    );
    assert_eq!(
        CpuUsageGrading.scale(CpuUsage::from_milli_percent(45_000)),
        MeasurementGrade::Medium
    );
    assert_eq!(
        CpuUsageGrading.scale(CpuUsage::from_milli_percent(44_999)),
        MeasurementGrade::Low
    );
    assert_eq!(
        CpuUsageGrading.scale(CpuUsage::from_milli_percent(80_000)),
        MeasurementGrade::High
    );
    assert_eq!(
        CpuUsageGrading.scale(CpuUsage::from_milli_percent(79_999)),
        MeasurementGrade::Medium
    );
}

#[test]
fn net_band_boundaries_belong_to_the_higher_band() {
    let grader = NetUsageRateGrading;
    // Exactly 10 Mbit/s over 1 second: 1 250 000 bytes.
    assert_eq!(
        grader.scale(NetUsageRate::from_usage_and_duration(
            NetUsage::from_bytes(1_250_000),
            1_000
        )),
        MeasurementGrade::Low
    );
    assert_eq!(
        grader.scale(NetUsageRate::from_usage_and_duration(
            NetUsage::from_bytes(1_249_999),
            1_000
        )),
        MeasurementGrade::Idle
    );
    // Exactly 800 Mbit/s over 1 second: 100 000 000 bytes.
    assert_eq!(
        grader.scale(NetUsageRate::from_usage_and_duration(
            NetUsage::from_bytes(100_000_000),
            1_000
        )),
        MeasurementGrade::High
    );
    assert_eq!(
        grader.scale(NetUsageRate::from_usage_and_duration(
            NetUsage::from_bytes(99_999_999),
            1_000
        )),
        MeasurementGrade::Medium
    );
}

#[test]
fn zero_duration_rates_grade_by_traffic() {
    let grader = NetUsageRateGrading;
    // The idle seed value grades Idle; traffic over an empty period is
    // treated as an unbounded rate.
    assert_eq!(grader.scale(NetUsageRate::idle()), MeasurementGrade::Idle);
    assert_eq!(
        grader.scale(NetUsageRate::from_usage_and_duration(NetUsage::from_bytes(1), 0)),
        MeasurementGrade::High
    );
}
