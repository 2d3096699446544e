//! Decision logic of the concurrent service loop.
//!
//! The service races three activities — a periodic sampling timer, a
//! request-serving loop, and a shutdown-signal wait — around one shared
//! sampler.  The timer plumbing, the listener and the signal handling are
//! outside work; what is decided here is how the configuration determines
//! the sampling plan, and what each activity's event does to the service.

use vstd::prelude::*;

verus! {

/// Number of retained samples for a sparkline of the given glyph length:
/// two samples render to one glyph.
pub fn measurement_capacity(graph_length: u8) -> (capacity: usize)
    ensures
        capacity == 2 * graph_length as int,
{
    graph_length as usize * 2
}

/// Period of the sampling timer, in milliseconds: the lookback span divided
/// by the capacity, rounded towards zero.
pub fn measurement_interval_millis(span_seconds: u8, capacity: usize) -> (interval: u64)
    requires
        capacity >= 1,
    ensures
        interval == span_seconds as int * 1000 / capacity as int,
{
    span_seconds as u64 * 1000 / capacity as u64
}

/// Whether the service is still doing work or winding down.
#[derive(PartialEq, Eq, Structural, Clone, Copy, Debug)]
pub enum ServicePhase {
    Running,
    Stopping,
}

/// What one of the racing activities observed at a suspension point.
#[derive(PartialEq, Eq, Structural, Clone, Copy, Debug)]
pub enum ServiceEvent {
    /// The sampling timer ticked.
    TimerTick,
    /// A request for the current snapshot arrived.
    MetricsRequest,
    /// The external shutdown signal fired.
    ShutdownSignal,
    /// The request listener failed to bind or serve.
    ListenerFailure,
}

/// What the service does in response to an event.
#[derive(PartialEq, Eq, Structural, Clone, Copy, Debug)]
pub enum ServiceAction {
    /// Take the shared lock and append one sample per metric.
    RefreshSamples,
    /// Take the shared lock, snapshot, and serialize the response.
    ServeSnapshot,
    /// Signal the shared cancellation token so the other activities stop.
    CancelActivities,
    /// Do nothing: the service is winding down.
    Ignore,
}

/// The service's transition function: while running, ticks refresh and
/// requests serve a snapshot; the shutdown signal or a listener failure
/// cancels the remaining activities; once stopping, no further work is done.
pub open spec fn spec_service_step(phase: ServicePhase, event: ServiceEvent) -> (
    ServicePhase,
    ServiceAction,
) {
    match phase {
        ServicePhase::Running => match event {
            ServiceEvent::TimerTick => (ServicePhase::Running, ServiceAction::RefreshSamples),
            ServiceEvent::MetricsRequest => (ServicePhase::Running, ServiceAction::ServeSnapshot),
            ServiceEvent::ShutdownSignal => (
                ServicePhase::Stopping,
                ServiceAction::CancelActivities,
            ),
            ServiceEvent::ListenerFailure => (
                ServicePhase::Stopping,
                ServiceAction::CancelActivities,
            ),
        },
        ServicePhase::Stopping => (ServicePhase::Stopping, ServiceAction::Ignore),
    }
}

/// Decide the service's next phase and action for one observed event.
pub fn service_step(phase: ServicePhase, event: ServiceEvent) -> (r: (ServicePhase, ServiceAction))
    ensures
        r == spec_service_step(phase, event),
{
    match phase {
        ServicePhase::Running => match event {
            ServiceEvent::TimerTick => (ServicePhase::Running, ServiceAction::RefreshSamples),
            ServiceEvent::MetricsRequest => (ServicePhase::Running, ServiceAction::ServeSnapshot),
            ServiceEvent::ShutdownSignal => (
                ServicePhase::Stopping,
                ServiceAction::CancelActivities,
            ),
            ServiceEvent::ListenerFailure => (
                ServicePhase::Stopping,
                ServiceAction::CancelActivities,
            ),
        },
        ServicePhase::Stopping => (ServicePhase::Stopping, ServiceAction::Ignore),
    }
}

/// Stopping is final: after the first cancelling event, every later event
/// leaves the service stopping and causes no further work.
pub proof fn lemma_stopping_is_final(event: ServiceEvent)
    ensures
        spec_service_step(ServicePhase::Stopping, event).0 is Stopping,
        spec_service_step(ServicePhase::Stopping, event).1 is Ignore,
{
}

} // verus!
