//! The sampler: fixed-capacity rolling histories of host utilization
//! samples, with snapshot extraction.
//!
//! The histories live in ring buffers whose contents are named by the
//! trusted boundary in `ring`; everything built on top of those names is
//! verified here.

use vstd::prelude::*;

use ringbuffer::AllocRingBuffer;

use crate::metrics::Metrics;
use crate::metrics::MetricsView;
use crate::metrics::spec_cpu_views;
use crate::metrics::spec_rate_views;
use crate::ring::cpu_ring_capacity;
use crate::ring::cpu_ring_contents;
use crate::ring::cpu_ring_enqueue;
use crate::ring::cpu_ring_new;
use crate::ring::cpu_ring_to_vec;
use crate::ring::rate_ring_capacity;
use crate::ring::rate_ring_contents;
use crate::ring::rate_ring_enqueue;
use crate::ring::rate_ring_new;
use crate::ring::rate_ring_to_vec;
use crate::units::CPU_MILLI_PERCENT_MAX;
use crate::units::CpuUsage;
use crate::units::NetUsage;
use crate::units::NetUsageRate;

verus! {

/// The metric kinds the sampler tracks.
#[derive(PartialEq, Eq, Structural, Hash, Clone, Copy, Debug)]
pub enum MeasurementType {
    Cpu,
    Net,
}

/// How often each sampling activity runs.
#[derive(PartialEq, Eq, Structural, Clone, Copy, Debug)]
pub struct UpdateIntervals {
    /// Period of the realtime sampling tick, in milliseconds.
    pub realtime: u64,
}

/// Mathematical content of the sampler: the fixed capacity and the per-metric
/// sample histories, ordered oldest first.
#[verifier::ext_equal]
pub struct MonitorView {
    pub capacity: nat,
    /// CPU ratios, in thousandths of a percent.
    pub cpu: Seq<int>,
    /// Network rates, as (byte count, period in milliseconds) pairs.
    pub net: Seq<(int, int)>,
}

/// One step of bounded-history insertion: the value becomes the newest
/// sample, and once the history is at capacity exactly the oldest sample is
/// evicted.
pub open spec fn spec_evict_push<A>(s: Seq<A>, v: A, capacity: nat) -> Seq<A> {
    if s.len() < capacity {
        s.push(v)
    } else {
        s.subrange(1, s.len() as int).push(v)
    }
}

/// What always holds of the sampler's mathematical content: histories are
/// seeded (never empty), never exceed the positive capacity, and hold
/// values of the metrics' domains.
pub open spec fn spec_monitor_inv(m: MonitorView) -> bool {
    &&& m.capacity >= 1
    &&& 1 <= m.cpu.len() <= m.capacity
    &&& 1 <= m.net.len() <= m.capacity
    &&& forall|i: int| 0 <= i < m.cpu.len() ==> 0 <= #[trigger] m.cpu[i] <= CPU_MILLI_PERCENT_MAX
    &&& forall|i: int|
        0 <= i < m.net.len() ==> 0 <= #[trigger] m.net[i].0 && 0 <= m.net[i].1
}

/// The snapshot of the CPU history: reversed to newest first, then padded at
/// the tail with the idle ratio up to the capacity.
pub open spec fn spec_snapshot_cpu(m: MonitorView) -> Seq<int> {
    m.cpu.reverse() + Seq::new((m.capacity - m.cpu.len()) as nat, |i: int| 0int)
}

/// The snapshot of the network history: reversed to newest first, then
/// padded at the tail with the idle rate up to the capacity.
pub open spec fn spec_snapshot_net(m: MonitorView) -> Seq<(int, int)> {
    m.net.reverse() + Seq::new((m.capacity - m.net.len()) as nat, |i: int| (0int, 0int))
}

/// The full snapshot a sampler state yields.
pub open spec fn spec_metrics_of(m: MonitorView) -> MetricsView {
    MetricsView { cpu: spec_snapshot_cpu(m), net: spec_snapshot_net(m) }
}

/// Mathematical sum of received plus transmitted bytes over a sequence of
/// per-interface counter pairs.
pub open spec fn spec_total_interface_bytes(s: Seq<(u64, u64)>) -> int
    decreases s.len(),
{
    if s.len() == 0 {
        0
    } else {
        spec_total_interface_bytes(s.drop_last()) + s.last().0 + s.last().1
    }
}

/// The combined interface traffic as stored: the total, saturated at the
/// largest representable byte count.
pub open spec fn spec_combined_bytes(s: Seq<(u64, u64)>) -> int {
    if spec_total_interface_bytes(s) <= u64::MAX {
        spec_total_interface_bytes(s)
    } else {
        u64::MAX as int
    }
}

/// Owner of the rolling sample histories.
///
/// Created once at service start with a fixed capacity; a single writer
/// appends one sample per metric on every refresh, and readers take
/// immutable snapshots.
pub struct ResourceMonitor {
    capacity: usize,
    update_intervals: UpdateIntervals,
    cpu_usage: AllocRingBuffer<u64>,
    net_usage_rate: AllocRingBuffer<(u64, u64)>,
}

impl View for ResourceMonitor {
    type V = MonitorView;

    closed spec fn view(&self) -> MonitorView {
        MonitorView {
            capacity: self.capacity as nat,
            cpu: cpu_ring_contents(self.cpu_usage).map_values(|v: u64| v as int),
            net: rate_ring_contents(self.net_usage_rate).map_values(
                |p: (u64, u64)| (p.0 as int, p.1 as int),
            ),
        }
    }
}

impl ResourceMonitor {
    /// Internal consistency: the ring buffers were created with the declared
    /// capacity and their contents satisfy the history invariant.
    pub closed spec fn wf(&self) -> bool {
        &&& self.capacity >= 1
        &&& cpu_ring_capacity(self.cpu_usage) == self.capacity as nat
        &&& rate_ring_capacity(self.net_usage_rate) == self.capacity as nat
        &&& spec_monitor_inv(self@)
    }

    /// The configured update intervals.
    pub closed spec fn spec_update_intervals(&self) -> UpdateIntervals {
        self.update_intervals
    }

    /// Create a sampler with the given positive capacity, seeding the CPU
    /// history with one externally measured sample and the network history
    /// with the idle rate, so neither history is ever observed empty.
    pub fn new(
        capacity: usize,
        initial_cpu_usage: CpuUsage,
        update_intervals: UpdateIntervals,
    ) -> (r: ResourceMonitor)
        requires
            capacity >= 1,
        ensures
            r.wf(),
            spec_monitor_inv(r@),
            r@.capacity == capacity as nat,
            r@.cpu == seq![initial_cpu_usage@],
            r@.net == seq![(0int, 0int)],
            r.spec_update_intervals() == update_intervals,
    {
        let mut cpu_usage = cpu_ring_new(capacity);
        let mut net_usage_rate = rate_ring_new(capacity);
        let _ = cpu_ring_enqueue(&mut cpu_usage, initial_cpu_usage.milli_percent());
        let _ = rate_ring_enqueue(&mut net_usage_rate, (0, 0));
        let r = ResourceMonitor { capacity, update_intervals, cpu_usage, net_usage_rate };
        proof {
            assert(r@.cpu =~= seq![initial_cpu_usage@]);
            assert(r@.net =~= seq![(0int, 0int)]);
        }
        r
    }

    /// Record one refresh cycle from externally measured values: the new CPU
    /// ratio, the per-interface (received, transmitted) byte counters since
    /// the last refresh, and the elapsed wall-clock time since the last
    /// refresh.  Appends one sample to each history, evicting the oldest
    /// sample of a history already at capacity.
    pub fn refresh_realtime(
        &mut self,
        cpu_usage_value: CpuUsage,
        interface_usage: &Vec<(u64, u64)>,
        elapsed_millis: u64,
    )
        requires
            old(self).wf(),
        ensures
            final(self).wf(),
            spec_monitor_inv(final(self)@),
            final(self)@.capacity == old(self)@.capacity,
            final(self).spec_update_intervals() == old(self).spec_update_intervals(),
            final(self)@.cpu == spec_evict_push(
                old(self)@.cpu,
                cpu_usage_value@,
                old(self)@.capacity,
            ),
            final(self)@.net == spec_evict_push(
                old(self)@.net,
                (spec_combined_bytes(interface_usage@), elapsed_millis as int),
                old(self)@.capacity,
            ),
    {
        let _ = cpu_ring_enqueue(&mut self.cpu_usage, cpu_usage_value.milli_percent());
        proof {
            assert(self@.cpu =~= spec_evict_push(
                old(self)@.cpu,
                cpu_usage_value@,
                old(self)@.capacity,
            ));
        }

        let mut combined: u128 = 0;
        let mut i: usize = 0;
        while i < interface_usage.len()
            invariant
                i <= interface_usage@.len(),
                combined == if spec_total_interface_bytes(interface_usage@.take(i as int))
                    <= u64::MAX {
                    spec_total_interface_bytes(interface_usage@.take(i as int))
                } else {
                    u64::MAX as int
                },
            decreases interface_usage@.len() - i,
        {
            assert(interface_usage@.take(i + 1).drop_last() =~= interface_usage@.take(i as int));
            assert(interface_usage@.take(i + 1).last() == interface_usage@[i as int]);
            let (received, transmitted) = interface_usage[i];
            combined = combined + received as u128 + transmitted as u128;
            if combined > u64::MAX as u128 {
                combined = u64::MAX as u128;
            }
            i = i + 1;
        }
        assert(interface_usage@.take(interface_usage@.len() as int) =~= interface_usage@);
        let combined_bytes = combined as u64;

        let _ = rate_ring_enqueue(&mut self.net_usage_rate, (combined_bytes, elapsed_millis));
        proof {
            assert(self@.net =~= spec_evict_push(
                old(self)@.net,
                (spec_combined_bytes(interface_usage@), elapsed_millis as int),
                old(self)@.capacity,
            ));
        }
    }

    /// Take an immutable snapshot of the current histories: each is read
    /// oldest to newest, reversed to newest first, and padded at the tail
    /// with the metric's idle default until it is exactly `capacity` long.
    /// Pure read; the sampler state is unchanged.
    pub fn build_metrics(&self) -> (r: Metrics)
        requires
            self.wf(),
        ensures
            r@ == spec_metrics_of(self@),
            r@.cpu.len() == self@.capacity,
            r@.net.len() == self@.capacity,
    {
        let raw_cpu = cpu_ring_to_vec(&self.cpu_usage);
        let sample_count = raw_cpu.len();
        let mut cpu_usage: Vec<CpuUsage> = Vec::new();
        let mut i: usize = sample_count;
        while i > 0
            invariant
                i <= sample_count,
                sample_count == raw_cpu@.len(),
                raw_cpu@ == cpu_ring_contents(self.cpu_usage),
                self.wf(),
                spec_cpu_views(cpu_usage@) == self@.cpu.reverse().take(
                    (sample_count - i) as int,
                ),
            decreases i,
        {
            i = i - 1;
            let sample = CpuUsage::from_milli_percent(raw_cpu[i]);
            let ghost prev = cpu_usage@;
            cpu_usage.push(sample);
            proof {
                let pushed = (sample_count - i) as int;
                assert(spec_cpu_views(prev).len() == prev.len());
                assert(prev.len() == pushed - 1);
                assert(self@.cpu[i as int] == raw_cpu@[i as int] as int);
                assert forall|p: int| 0 <= p < pushed implies spec_cpu_views(cpu_usage@)[p]
                    == self@.cpu.reverse().take(pushed)[p] by {
                    assert(self@.cpu.reverse()[p] == self@.cpu[sample_count - 1 - p]);
                    if p < pushed - 1 {
                        assert(cpu_usage@[p] == prev[p]);
                        assert(spec_cpu_views(prev)[p] == self@.cpu.reverse().take(pushed - 1)[p]);
                    } else {
                        assert(cpu_usage@[p] == sample);
                    }
                }
                assert(spec_cpu_views(cpu_usage@) =~= self@.cpu.reverse().take(pushed));
            }
        }
        while cpu_usage.len() < self.capacity
            invariant
                self.wf(),
                sample_count == self@.cpu.len(),
                sample_count <= cpu_usage@.len() <= self@.capacity,
                spec_cpu_views(cpu_usage@) == self@.cpu.reverse() + Seq::new(
                    (cpu_usage@.len() - sample_count) as nat,
                    |k: int| 0int,
                ),
            decreases self@.capacity - cpu_usage@.len(),
        {
            let pad = CpuUsage::from_milli_percent(0);
            let ghost prev = cpu_usage@;
            cpu_usage.push(pad);
            proof {
                let padded = self@.cpu.reverse() + Seq::new(
                    (cpu_usage@.len() - sample_count) as nat,
                    |k: int| 0int,
                );
                assert(spec_cpu_views(prev).len() == prev.len());
                assert forall|p: int| 0 <= p < cpu_usage@.len() implies spec_cpu_views(cpu_usage@)[p]
                    == padded[p] by {
                    if p < prev.len() {
                        assert(cpu_usage@[p] == prev[p]);
                        assert(spec_cpu_views(prev)[p] == (self@.cpu.reverse() + Seq::new(
                            (prev.len() - sample_count) as nat,
                            |k: int| 0int,
                        ))[p]);
                    } else {
                        assert(cpu_usage@[p] == pad);
                    }
                }
                assert(spec_cpu_views(cpu_usage@) =~= padded);
            }
        }

        let raw_rates = rate_ring_to_vec(&self.net_usage_rate);
        let rate_count = raw_rates.len();
        let mut net_usage_rate: Vec<NetUsageRate> = Vec::new();
        let mut j: usize = rate_count;
        while j > 0
            invariant
                j <= rate_count,
                rate_count == raw_rates@.len(),
                raw_rates@ == rate_ring_contents(self.net_usage_rate),
                self.wf(),
                spec_rate_views(net_usage_rate@) == self@.net.reverse().take(
                    (rate_count - j) as int,
                ),
            decreases j,
        {
            j = j - 1;
            let (bytes, millis) = raw_rates[j];
            let sample = NetUsageRate::from_usage_and_duration(NetUsage::from_bytes(bytes), millis);
            let ghost prev = net_usage_rate@;
            net_usage_rate.push(sample);
            proof {
                let pushed = (rate_count - j) as int;
                assert(spec_rate_views(prev).len() == prev.len());
                assert(prev.len() == pushed - 1);
                assert(self@.net[j as int] == (raw_rates@[j as int].0 as int,
                    raw_rates@[j as int].1 as int));
                assert forall|p: int| 0 <= p < pushed implies spec_rate_views(net_usage_rate@)[p]
                    == self@.net.reverse().take(pushed)[p] by {
                    assert(self@.net.reverse()[p] == self@.net[rate_count - 1 - p]);
                    if p < pushed - 1 {
                        assert(net_usage_rate@[p] == prev[p]);
                        assert(spec_rate_views(prev)[p] == self@.net.reverse().take(pushed - 1)[p]);
                    } else {
                        assert(net_usage_rate@[p] == sample);
                    }
                }
                assert(spec_rate_views(net_usage_rate@) =~= self@.net.reverse().take(pushed));
            }
        }
        while net_usage_rate.len() < self.capacity
            invariant
                self.wf(),
                rate_count == self@.net.len(),
                rate_count <= net_usage_rate@.len() <= self@.capacity,
                spec_rate_views(net_usage_rate@) == self@.net.reverse() + Seq::new(
                    (net_usage_rate@.len() - rate_count) as nat,
                    |k: int| (0int, 0int),
                ),
            decreases self@.capacity - net_usage_rate@.len(),
        {
            let pad = NetUsageRate::idle();
            let ghost prev = net_usage_rate@;
            net_usage_rate.push(pad);
            proof {
                let padded = self@.net.reverse() + Seq::new(
                    (net_usage_rate@.len() - rate_count) as nat,
                    |k: int| (0int, 0int),
                );
                assert(spec_rate_views(prev).len() == prev.len());
                assert forall|p: int| 0 <= p < net_usage_rate@.len() implies spec_rate_views(
                    net_usage_rate@,
                )[p] == padded[p] by {
                    if p < prev.len() {
                        assert(net_usage_rate@[p] == prev[p]);
                        assert(spec_rate_views(prev)[p] == (self@.net.reverse() + Seq::new(
                            (prev.len() - rate_count) as nat,
                            |k: int| (0int, 0int),
                        ))[p]);
                    } else {
                        assert(net_usage_rate@[p] == pad);
                    }
                }
                assert(spec_rate_views(net_usage_rate@) =~= padded);
            }
        }

        let r = Metrics { cpu_usage, net_usage_rate };
        proof {
            assert(r@.cpu =~= spec_snapshot_cpu(self@));
            assert(r@.net =~= spec_snapshot_net(self@));
            assert(r@ =~= spec_metrics_of(self@));
        }
        r
    }

    /// The configured update intervals.
    pub fn update_intervals(&self) -> (r: UpdateIntervals)
        ensures
            r == self.spec_update_intervals(),
    {
        self.update_intervals
    }
}

/// Whatever refreshes have happened, a snapshot's sequences are always
/// exactly `capacity` long.
pub proof fn lemma_snapshot_length(m: MonitorView)
    requires
        spec_monitor_inv(m),
    ensures
        spec_metrics_of(m).cpu.len() == m.capacity,
        spec_metrics_of(m).net.len() == m.capacity,
{
}

/// Snapshots are idempotent: two snapshots taken from the same sampler
/// state, with no refresh in between, are identical.
pub proof fn lemma_snapshot_idempotent(m: MonitorView, first: MetricsView, second: MetricsView)
    requires
        first == spec_metrics_of(m),
        second == spec_metrics_of(m),
    ensures
        first == second,
{
}

/// A history at capacity stays at capacity across any further insertion:
/// once a buffer has filled, no later snapshot ever pads again.
pub proof fn lemma_full_history_stays_full<A>(s: Seq<A>, v: A, capacity: nat)
    requires
        capacity >= 1,
        s.len() == capacity,
    ensures
        spec_evict_push(s, v, capacity).len() == capacity,
{
    assert(s.subrange(1, s.len() as int).len() == s.len() - 1);
}

/// Before a history reaches capacity, a snapshot's tail is padded with the
/// metric's idle default; once at capacity, the snapshot is exactly the
/// reversed history and no slot holds padding.
pub proof fn lemma_snapshot_padding(m: MonitorView)
    requires
        spec_monitor_inv(m),
    ensures
        forall|i: int| m.cpu.len() <= i < m.capacity ==> spec_metrics_of(m).cpu[i] == 0,
        forall|i: int|
            m.net.len() <= i < m.capacity ==> spec_metrics_of(m).net[i] == (0int, 0int),
        m.cpu.len() == m.capacity ==> spec_metrics_of(m).cpu == m.cpu.reverse(),
        m.net.len() == m.capacity ==> spec_metrics_of(m).net == m.net.reverse(),
{
    if m.cpu.len() == m.capacity {
        assert(spec_snapshot_cpu(m) =~= m.cpu.reverse());
    }
    if m.net.len() == m.capacity {
        assert(spec_snapshot_net(m) =~= m.net.reverse());
    }
}

} // verus!

