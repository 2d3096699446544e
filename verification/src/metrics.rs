//! The immutable snapshot of the rolling sample histories.

use vstd::prelude::*;

use crate::graph;
use crate::resource_monitor::MeasurementType;
use crate::units::CpuUsage;
use crate::units::NetUsageRate;

verus! {

/// Mathematical content of a snapshot: for each metric the sample values,
/// ordered newest first.
#[verifier::ext_equal]
pub struct MetricsView {
    /// CPU ratios, in thousandths of a percent.
    pub cpu: Seq<int>,
    /// Network rates, as (byte count, period in milliseconds) pairs.
    pub net: Seq<(int, int)>,
}

/// The sample values of a sequence of CPU measurements.
pub open spec fn spec_cpu_views(s: Seq<CpuUsage>) -> Seq<int> {
    s.map_values(|c: CpuUsage| c@)
}

/// The sample values of a sequence of network-rate measurements.
pub open spec fn spec_rate_views(s: Seq<NetUsageRate>) -> Seq<(int, int)> {
    s.map_values(|r: NetUsageRate| r@)
}

/// A point-in-time copy of the sample histories, ordered newest first and
/// padded at the tail with each metric's idle default up to the sampler's
/// capacity.
#[derive(Clone, Debug)]
pub struct Metrics {
    pub cpu_usage: Vec<CpuUsage>,
    pub net_usage_rate: Vec<NetUsageRate>,
}

impl View for Metrics {
    type V = MetricsView;

    open spec fn view(&self) -> MetricsView {
        MetricsView {
            cpu: spec_cpu_views(self.cpu_usage@),
            net: spec_rate_views(self.net_usage_rate@),
        }
    }
}

impl Metrics {
    /// Render this snapshot's history of one metric as a sparkline, oldest
    /// sample on the left.
    pub fn render_usage_graph(&self, measurement_type: MeasurementType) -> (r: String)
        ensures
            r@ == graph::spec_render(self@, measurement_type),
    {
        graph::render(self, measurement_type)
    }
}

} // verus!
