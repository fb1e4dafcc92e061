use analytics::periodic::Severity;
use analytics::startup::{is_development, start_analytics, startup_notice, StartupTask};
use analytics::transport::{DeliveryError, HttpStatus};

#[test]
fn development_mode_starts_an_inert_reporter() {
    let started = start_analytics(
        "user-42".to_string(),
        "phc_key".to_string(),
        1,
        "http://localhost:3030".to_string(),
        true,
    );
    assert!(started.tasks.is_empty());
    assert!(!started.manager.is_enabled());
    assert!(started.manager.startup_event().is_none());
    assert_eq!(started.manager.distinct_id(), "user-42");
}

#[test]
fn production_mode_starts_both_tasks() {
    let started = start_analytics(
        "user-42".to_string(),
        "phc_key".to_string(),
        2,
        "http://localhost:3030".to_string(),
        false,
    );
    assert_eq!(
        started.tasks,
        vec![StartupTask::SendStartupEvent, StartupTask::RunPeriodicEvents]
    );
    assert!(started.manager.is_enabled());
    assert_eq!(started.manager.interval_secs(), 7200);
    assert_eq!(started.manager.distinct_id(), "user-42");
    assert_eq!(started.manager.health_url(), "http://localhost:3030/health");
    let request = started.manager.startup_event().unwrap();
    assert_eq!(request.payload.event, "app_started");
    assert_eq!(request.payload.api_key, "phc_key");
    assert_eq!(request.url, "https://eu.i.posthog.com/capture/");
    assert_eq!(request.payload.properties.len(), 8);
}

#[test]
fn development_mode_is_a_debug_build_or_a_set_flag() {
    assert!(is_development(true, None));
    assert!(is_development(true, Some("false")));
    assert!(is_development(false, Some("true")));
    assert!(!is_development(false, None));
    assert!(!is_development(false, Some("false")));
    assert!(!is_development(false, Some("TRUE")));
    assert!(!is_development(false, Some("1")));
    assert!(!is_development(false, Some("")));
}

#[test]
fn startup_event_failure_is_logged_as_an_error() {
    assert!(startup_notice(&Ok(())).is_none());
    let rejected = Err(DeliveryError::RemoteRejected(HttpStatus::new(403).unwrap()));
    let notice = startup_notice(&rejected).unwrap();
    assert_eq!(notice.severity, Severity::Error);
    assert_eq!(
        notice.message,
        "Failed to send initial PostHog event: PostHog API error: 403 Forbidden"
    );
    let failed = Err(DeliveryError::Transport("dns error".to_string()));
    assert_eq!(
        startup_notice(&failed).unwrap().message,
        "Failed to send initial PostHog event: dns error"
    );
}
