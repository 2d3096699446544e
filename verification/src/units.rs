//! Strongly-typed measurement values.
//!
//! All measurements are exact integers: a CPU ratio is stored in thousandths
//! of a percent, network usage in bytes, and time spans in milliseconds.

use vstd::prelude::*;

verus! {

/// Largest representable CPU ratio: 100 percent, in thousandths of a percent.
pub const CPU_MILLI_PERCENT_MAX: u64 = 100_000;

/// Instant CPU usage measurement: a ratio in `[0, 100]` percent, stored in
/// thousandths of a percent.
#[derive(PartialEq, Eq, Structural, Clone, Copy, Debug)]
pub struct CpuUsage {
    milli_percent: u64,
}

impl View for CpuUsage {
    type V = int;

    closed spec fn view(&self) -> int {
        self.milli_percent as int
    }
}

impl CpuUsage {
    /// Every constructor clamps, so a value never leaves the ratio domain.
    #[verifier::type_invariant]
    closed spec fn inv(&self) -> bool {
        self.milli_percent <= CPU_MILLI_PERCENT_MAX
    }

    /// Build a CPU usage value from thousandths of a percent, clamping to the
    /// `[0, 100]` percent domain.
    pub fn from_milli_percent(milli_percent: u64) -> (r: CpuUsage)
        ensures
            r@ == if milli_percent <= CPU_MILLI_PERCENT_MAX {
                milli_percent as int
            } else {
                CPU_MILLI_PERCENT_MAX as int
            },
            r@ <= CPU_MILLI_PERCENT_MAX,
    {
        if milli_percent <= CPU_MILLI_PERCENT_MAX {
            CpuUsage { milli_percent }
        } else {
            CpuUsage { milli_percent: CPU_MILLI_PERCENT_MAX }
        }
    }

    /// The stored ratio, in thousandths of a percent; never above 100
    /// percent, since every constructor clamps.
    pub fn milli_percent(&self) -> (r: u64)
        ensures
            r as int == self@,
            r <= CPU_MILLI_PERCENT_MAX,
    {
        proof {
            use_type_invariant(self);
        }
        self.milli_percent
    }

    /// Add two usage values, clamping the result to the `[0, 100]` percent
    /// domain so the sum is still a valid ratio.
    pub fn saturating_add(self, other: CpuUsage) -> (r: CpuUsage)
        ensures
            r@ == if self@ + other@ <= CPU_MILLI_PERCENT_MAX {
                self@ + other@
            } else {
                CPU_MILLI_PERCENT_MAX as int
            },
    {
        if self.milli_percent <= CPU_MILLI_PERCENT_MAX
            && other.milli_percent <= CPU_MILLI_PERCENT_MAX - self.milli_percent {
            CpuUsage { milli_percent: self.milli_percent + other.milli_percent }
        } else {
            CpuUsage { milli_percent: CPU_MILLI_PERCENT_MAX }
        }
    }

    /// Subtract a usage value, clamping at zero.
    pub fn saturating_sub(self, other: CpuUsage) -> (r: CpuUsage)
        ensures
            r@ == if self@ >= other@ {
                self@ - other@
            } else {
                0int
            },
    {
        proof {
            use_type_invariant(self);
        }
        if self.milli_percent >= other.milli_percent {
            CpuUsage { milli_percent: self.milli_percent - other.milli_percent }
        } else {
            CpuUsage { milli_percent: 0 }
        }
    }
}

/// Accumulating network utilization measurement.
///
/// Stores the number of bytes that have been received and/or transmitted
/// within an arbitrary time period.
#[derive(PartialEq, Eq, Structural, Clone, Copy, Debug)]
pub struct NetUsage {
    bytes: u64,
}

/// Mathematical sum of the byte counts of a sequence of usage values.
pub open spec fn spec_sum_bytes(s: Seq<NetUsage>) -> int
    decreases s.len(),
{
    if s.len() == 0 {
        0
    } else {
        spec_sum_bytes(s.drop_last()) + s.last()@
    }
}

impl View for NetUsage {
    type V = int;

    closed spec fn view(&self) -> int {
        self.bytes as int
    }
}

impl NetUsage {
    /// Build a usage value from a byte count.
    pub fn from_bytes(bytes: u64) -> (r: NetUsage)
        ensures
            r@ == bytes as int,
    {
        NetUsage { bytes }
    }

    /// The stored byte count.
    pub fn bytes(&self) -> (r: u64)
        ensures
            r as int == self@,
    {
        self.bytes
    }

    /// Add two usage values, saturating at the largest representable count.
    pub fn saturating_add(self, other: NetUsage) -> (r: NetUsage)
        ensures
            r@ == if self@ + other@ <= u64::MAX {
                self@ + other@
            } else {
                u64::MAX as int
            },
    {
        NetUsage { bytes: self.bytes.saturating_add(other.bytes) }
    }

    /// Combine the usage of several sources (for example, multiple network
    /// interfaces) into one value, saturating at the largest representable
    /// count.
    pub fn saturating_sum(items: &Vec<NetUsage>) -> (r: NetUsage)
        ensures
            r@ == if spec_sum_bytes(items@) <= u64::MAX {
                spec_sum_bytes(items@)
            } else {
                u64::MAX as int
            },
    {
        let mut total = NetUsage { bytes: 0 };
        let mut i: usize = 0;
        while i < items.len()
            invariant
                i <= items@.len(),
                total@ == if spec_sum_bytes(items@.take(i as int)) <= u64::MAX {
                    spec_sum_bytes(items@.take(i as int))
                } else {
                    u64::MAX as int
                },
            decreases items@.len() - i,
        {
            assert(items@.take(i + 1).drop_last() =~= items@.take(i as int));
            assert(items@.take(i + 1).last() == items@[i as int]);
            total = total.saturating_add(items[i]);
            i = i + 1;
        }
        assert(items@.take(items@.len() as int) =~= items@);
        total
    }
}

/// Network utilization rate.
///
/// Pairs an accumulated usage with the time period, in milliseconds, over
/// which it was observed.  The rate is derived on demand and the originating
/// interval is never discarded.
#[derive(PartialEq, Eq, Structural, Clone, Copy, Debug)]
pub struct NetUsageRate {
    net_usage: NetUsage,
    duration_millis: u64,
}

impl View for NetUsageRate {
    type V = (int, int);

    closed spec fn view(&self) -> (int, int) {
        (self.net_usage@, self.duration_millis as int)
    }
}

impl NetUsageRate {
    /// Pair an accumulated usage with the period, in milliseconds, over which
    /// it was observed.
    pub fn from_usage_and_duration(usage: NetUsage, duration_millis: u64) -> (r: NetUsageRate)
        ensures
            r@ == (usage@, duration_millis as int),
    {
        NetUsageRate { net_usage: usage, duration_millis }
    }

    /// The rate observed over an empty period with no traffic: the idle
    /// default used to seed and pad sample histories.
    pub fn idle() -> (r: NetUsageRate)
        ensures
            r@ == (0int, 0int),
    {
        NetUsageRate { net_usage: NetUsage { bytes: 0 }, duration_millis: 0 }
    }

    /// The accumulated usage.
    pub fn net_usage(&self) -> (r: NetUsage)
        ensures
            r@ == self@.0,
    {
        self.net_usage
    }

    /// The observation period, in milliseconds.
    pub fn duration(&self) -> (r: u64)
        ensures
            r as int == self@.1,
    {
        self.duration_millis
    }

    /// The derived information rate, in thousandths of a byte per second,
    /// rounded towards zero.
    pub fn as_information_rate(&self) -> (r: u128)
        requires
            self@.1 > 0,
        ensures
            r as int == self@.0 * 1_000_000 / self@.1,
    {
        let bytes = self.net_usage.bytes as u128;
        let millis = self.duration_millis as u128;
        (bytes * 1_000_000) / millis
    }
}

} // verus!
