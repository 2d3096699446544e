//! Resident resource-metrics sampler and exporter core.
//!
//! The library keeps a bounded rolling history of host utilization samples
//! (CPU load and aggregate network throughput), classifies each sample into
//! an ordinal severity grade, and renders the graded history as a compact
//! multi-level sparkline.  Measurements are modeled as exact integers:
//! CPU ratios in thousandths of a percent, network usage in bytes, and
//! durations in milliseconds.

pub mod client;
pub mod grading;
pub mod graph;
pub mod metrics;
pub mod resource_monitor;
pub mod ring;
pub mod server;
pub mod units;

pub use grading::{CpuUsageGrading, MeasurementGrade, MeasurementGrading, NetUsageRateGrading};
pub use metrics::Metrics;
pub use resource_monitor::{MeasurementType, ResourceMonitor, UpdateIntervals};
pub use units::{CpuUsage, NetUsage, NetUsageRate};
