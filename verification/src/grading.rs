//! Classification of measurements into ordinal severity grades.
//!
//! Each metric has four half-open bands; a value on a band boundary always
//! belongs to the higher-severity band.

use vstd::prelude::*;

use crate::units::CpuUsage;
use crate::units::NetUsageRate;

verus! {

/// Ordinal severity of a single measurement, from least to most loaded.
#[derive(PartialEq, Eq, Structural, Clone, Copy, Debug)]
pub enum MeasurementGrade {
    Idle,
    Low,
    Medium,
    High,
}

/// Ordinal rank of a grade: `Idle` is 0, `High` is 3.
pub open spec fn spec_grade_rank(grade: MeasurementGrade) -> int {
    match grade {
        MeasurementGrade::Idle => 0,
        MeasurementGrade::Low => 1,
        MeasurementGrade::Medium => 2,
        MeasurementGrade::High => 3,
    }
}

/// The grade of a CPU ratio given in thousandths of a percent.
///
/// Bands, in percent: below 10 is `Idle`, 10 to 45 is `Low`, 45 to 80 is
/// `Medium`, 80 and above is `High`.
pub open spec fn spec_cpu_grade(milli_percent: int) -> MeasurementGrade {
    if milli_percent < 10_000 {
        MeasurementGrade::Idle
    } else if milli_percent < 45_000 {
        MeasurementGrade::Low
    } else if milli_percent < 80_000 {
        MeasurementGrade::Medium
    } else {
        MeasurementGrade::High
    }
}

/// The grade of a network rate given as a byte count over a period in
/// milliseconds.
///
/// Bands, in megabits per second: below 10 is `Idle`, 10 to 100 is `Low`,
/// 100 to 800 is `Medium`, 800 and above is `High`.  The rate compares as
/// `bytes * 8 < band * 1000 * millis`, which is exact and never divides.
/// Over an empty period the rate is taken as zero when no bytes were seen
/// (the idle default) and as unbounded otherwise.
pub open spec fn spec_net_grade(bytes: int, millis: int) -> MeasurementGrade {
    if millis == 0 {
        if bytes == 0 {
            MeasurementGrade::Idle
        } else {
            MeasurementGrade::High
        }
    } else if bytes * 8 < 10_000 * millis {
        MeasurementGrade::Idle
    } else if bytes * 8 < 100_000 * millis {
        MeasurementGrade::Low
    } else if bytes * 8 < 800_000 * millis {
        MeasurementGrade::Medium
    } else {
        MeasurementGrade::High
    }
}

/// A grading scale for one measurement kind.
pub trait MeasurementGrading {
    type Measurement;

    /// The grade this scale assigns, as a mathematical function.
    spec fn grade_spec(&self, measurement: Self::Measurement) -> MeasurementGrade;

    /// Classify one measurement; total over the measurement's whole domain.
    fn scale(&self, measurement: Self::Measurement) -> (grade: MeasurementGrade)
        ensures
            grade == self.grade_spec(measurement),
    ;
}

/// Grading scale for CPU usage ratios.
pub struct CpuUsageGrading;

/// Grading scale for network utilization rates.
pub struct NetUsageRateGrading;

impl MeasurementGrading for CpuUsageGrading {
    type Measurement = CpuUsage;

    open spec fn grade_spec(&self, measurement: CpuUsage) -> MeasurementGrade {
        spec_cpu_grade(measurement@)
    }

    fn scale(&self, measurement: CpuUsage) -> (grade: MeasurementGrade) {
        let milli_percent = measurement.milli_percent();
        if milli_percent < 10_000 {
            MeasurementGrade::Idle
        } else if milli_percent < 45_000 {
            MeasurementGrade::Low
        } else if milli_percent < 80_000 {
            MeasurementGrade::Medium
        } else {
            MeasurementGrade::High
        }
    }
}

impl MeasurementGrading for NetUsageRateGrading {
    type Measurement = NetUsageRate;

    open spec fn grade_spec(&self, measurement: NetUsageRate) -> MeasurementGrade {
        spec_net_grade(measurement@.0, measurement@.1)
    }

    fn scale(&self, measurement: NetUsageRate) -> (grade: MeasurementGrade) {
        let bytes = measurement.net_usage().bytes();
        let millis = measurement.duration();
        if millis == 0 {
            if bytes == 0 {
                MeasurementGrade::Idle
            } else {
                MeasurementGrade::High
            }
        } else {
            let bits: u128 = (bytes as u128) * 8;
            let millis_wide: u128 = millis as u128;
            if bits < 10_000 * millis_wide {
                MeasurementGrade::Idle
            } else if bits < 100_000 * millis_wide {
                MeasurementGrade::Low
            } else if bits < 800_000 * millis_wide {
                MeasurementGrade::Medium
            } else {
                MeasurementGrade::High
            }
        }
    }
}

/// Grading a CPU ratio is monotonic: a higher load never gets a lower grade.
pub proof fn lemma_cpu_grading_monotonic(lower: int, higher: int)
    requires
        lower <= higher,
    ensures
        spec_grade_rank(spec_cpu_grade(lower)) <= spec_grade_rank(spec_cpu_grade(higher)),
{
}

/// Grading a network rate is monotonic: over the same period, more traffic
/// never gets a lower grade.
pub proof fn lemma_net_grading_monotonic(fewer_bytes: int, more_bytes: int, millis: int)
    requires
        0 <= fewer_bytes <= more_bytes,
        0 <= millis,
    ensures
        spec_grade_rank(spec_net_grade(fewer_bytes, millis)) <= spec_grade_rank(
            spec_net_grade(more_bytes, millis),
        ),
{
}

} // verus!
