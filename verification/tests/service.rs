use sulphur::client::metrics_http_uri;
use sulphur::server::{
    measurement_capacity, measurement_interval_millis, service_step, ServiceAction, ServiceEvent,
    ServicePhase,
};

#[test]
fn sampling_plan_follows_the_configuration() {
    // The default configuration: 5 glyphs over a 5 second lookback span.
    let capacity = measurement_capacity(5);
    assert_eq!(capacity, 10);
    assert_eq!(measurement_interval_millis(5, capacity), 500);

    // An uneven division rounds towards zero.
    assert_eq!(measurement_interval_millis(7, measurement_capacity(3)), 1_166);
}

#[test]
fn running_service_refreshes_and_serves() {
    assert_eq!(
        service_step(ServicePhase::Running, ServiceEvent::TimerTick),
        (ServicePhase::Running, ServiceAction::RefreshSamples)
    );
    assert_eq!(
        service_step(ServicePhase::Running, ServiceEvent::MetricsRequest),
        (ServicePhase::Running, ServiceAction::ServeSnapshot)
    );
}

#[test]
fn shutdown_or_listener_failure_cancels_the_rest() {
    assert_eq!(
        service_step(ServicePhase::Running, ServiceEvent::ShutdownSignal),
        (ServicePhase::Stopping, ServiceAction::CancelActivities)
    );
    assert_eq!(
        service_step(ServicePhase::Running, ServiceEvent::ListenerFailure),
        (ServicePhase::Stopping, ServiceAction::CancelActivities)
    );
}

#[test]
fn stopping_service_does_no_further_work() {
    for event in [
        ServiceEvent::TimerTick,
        ServiceEvent::MetricsRequest,
        ServiceEvent::ShutdownSignal,
        ServiceEvent::ListenerFailure,
    ] {
        assert_eq!(
            service_step(ServicePhase::Stopping, event),
            (ServicePhase::Stopping, ServiceAction::Ignore)
        );
    }
}

#[test]
fn metrics_uri_points_at_the_metrics_path() {
    assert_eq!(metrics_http_uri("127.0.0.1:8899"), "http://127.0.0.1:8899/metrics");
}
