use newsletter::telemetry::{
    filter_directives, init_subscriber, installation_result, TelemetryError,
};
use tracing_subscriber::util::SubscriberInitExt;

#[test]
fn a_subscriber_is_installed_once() {
    let first = tracing::Dispatch::new(tracing_subscriber::registry());
    let second = tracing::Dispatch::new(tracing_subscriber::registry());
    assert_eq!(init_subscriber(first), Ok(()));
    assert_eq!(init_subscriber(second), Err(TelemetryError::AlreadyInstalled));
}

#[test]
fn the_environment_overrides_the_fallback_filter() {
    assert_eq!(filter_directives(Some("debug".to_string()), "info"), "debug");
}

#[test]
fn the_fallback_filter_is_used_without_the_environment() {
    assert_eq!(filter_directives(None, "info"), "info");
}

#[test]
fn a_successful_attempt_is_reported_as_success() {
    assert_eq!(installation_result(Ok(())), Ok(()));
}

#[test]
fn a_failed_attempt_is_reported_as_already_installed() {
    let first = tracing::Dispatch::new(tracing_subscriber::registry());
    let second = tracing::Dispatch::new(tracing_subscriber::registry());
    assert!(first.try_init().is_ok());
    let attempt = second.try_init();
    assert!(attempt.is_err());
    assert_eq!(installation_result(attempt), Err(TelemetryError::AlreadyInstalled));
}
