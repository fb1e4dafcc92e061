use analytics::host::HostInfo;
use analytics::manager::AnalyticsManager;
use analytics::properties::{PropValue, Properties};

fn manager(enabled: bool) -> AnalyticsManager {
    AnalyticsManager::new(
        "phc_key".to_string(),
        "user-42".to_string(),
        1,
        "http://localhost:3030".to_string(),
        enabled,
    )
}

fn known_host() -> HostInfo {
    HostInfo {
        os_name: Some("Ubuntu".to_string()),
        os_version: Some("22.04".to_string()),
        kernel_version: None,
        host_name: Some("workstation".to_string()),
        cpu_count: 16,
        total_memory: 34_359_738_368,
    }
}

fn text(value: &str) -> PropValue {
    PropValue::Text(value.to_string())
}

#[test]
fn new_reporter_keeps_its_configuration() {
    let reporter = manager(true);
    assert!(reporter.is_enabled());
    assert_eq!(reporter.interval_secs(), 3600);
    assert_eq!(reporter.distinct_id(), "user-42");
    assert_eq!(reporter.health_url(), "http://localhost:3030/health");
    assert_eq!(reporter.pipes_url(), "http://localhost:3030/pipes/list");
    assert!(!manager(false).is_enabled());
}

#[test]
fn interval_is_counted_in_seconds() {
    let make = |hours: u64| {
        AnalyticsManager::new(String::new(), String::new(), hours, String::new(), true)
            .interval_secs()
    };
    assert_eq!(make(0), 0);
    assert_eq!(make(24), 86_400);
    assert_eq!(make(u64::MAX / 3600), (u64::MAX / 3600) * 3600);
}

#[test]
fn set_enabled_switches_the_flag_only() {
    let mut reporter = manager(false);
    reporter.set_enabled(true);
    assert!(reporter.is_enabled());
    assert_eq!(reporter.interval_secs(), 3600);
    assert_eq!(reporter.distinct_id(), "user-42");
    reporter.set_enabled(false);
    assert!(!reporter.is_enabled());
    assert!(reporter.send_event("anything", None).is_none());
}

#[test]
fn disabled_reporter_sends_nothing() {
    let reporter = manager(false);
    assert!(reporter.send_event("app_started", None).is_none());
    let mut extra = Properties::new();
    extra.insert("k".to_string(), PropValue::Count(1));
    assert!(reporter.send_event("app_still_running", Some(extra)).is_none());
    assert!(reporter.send_event_from("app_started", None, &known_host()).is_none());
}

#[test]
fn request_without_extra_properties_holds_the_base() {
    let request = manager(true).capture_request("app_started", None, &known_host());
    assert_eq!(request.url, "https://eu.i.posthog.com/capture/");
    assert_eq!(request.payload.api_key, "phc_key");
    assert_eq!(request.payload.event, "app_started");
    let props = &request.payload.properties;
    assert_eq!(props.len(), 8);
    assert_eq!(props.get("distinct_id"), Some(&text("user-42")));
    assert_eq!(props.get("$lib"), Some(&text("rust-reqwest")));
    assert_eq!(props.get("os_name"), Some(&text("Ubuntu")));
    assert_eq!(props.get("os_version"), Some(&text("22.04")));
    assert_eq!(props.get("kernel_version"), Some(&text("")));
    assert_eq!(props.get("host_name"), Some(&text("workstation")));
    assert_eq!(props.get("cpu_count"), Some(&PropValue::Count(16)));
    assert_eq!(props.get("total_memory"), Some(&PropValue::Count(34_359_738_368)));
}

#[test]
fn extra_properties_overwrite_base_properties_of_the_same_name() {
    let mut extra = Properties::new();
    extra.insert("$lib".to_string(), text("custom"));
    extra.insert("cpu_count".to_string(), text("many"));
    extra.insert("is_healthy".to_string(), PropValue::Flag(true));
    let request = manager(true).capture_request("probe", Some(extra), &known_host());
    let props = &request.payload.properties;
    assert_eq!(props.len(), 9);
    assert_eq!(props.get("$lib"), Some(&text("custom")));
    assert_eq!(props.get("cpu_count"), Some(&text("many")));
    assert_eq!(props.get("is_healthy"), Some(&PropValue::Flag(true)));
    assert_eq!(props.get("distinct_id"), Some(&text("user-42")));
    assert_eq!(props.get("os_name"), Some(&text("Ubuntu")));
    assert_eq!(props.get("os_version"), Some(&text("22.04")));
    assert_eq!(props.get("kernel_version"), Some(&text("")));
    assert_eq!(props.get("host_name"), Some(&text("workstation")));
    assert_eq!(props.get("total_memory"), Some(&PropValue::Count(34_359_738_368)));
}

#[test]
fn empty_extra_properties_change_nothing() {
    let request = manager(true).capture_request("probe", Some(Properties::new()), &known_host());
    assert_eq!(request.payload.properties.len(), 8);
    assert_eq!(request.payload.properties.get("$lib"), Some(&text("rust-reqwest")));
}

#[test]
fn enabled_reporter_builds_the_request() {
    let request = manager(true).send_event_from("app_started", None, &known_host()).unwrap();
    assert_eq!(request.url, "https://eu.i.posthog.com/capture/");
    assert_eq!(request.payload.event, "app_started");
    assert_eq!(request.payload.api_key, "phc_key");
    assert_eq!(request.payload.properties.get("host_name"), Some(&text("workstation")));
}

#[test]
fn send_event_reads_the_host() {
    let mut extra = Properties::new();
    extra.insert("answer".to_string(), PropValue::Count(42));
    let request = manager(true).send_event("probe", Some(extra)).unwrap();
    assert_eq!(request.url, "https://eu.i.posthog.com/capture/");
    assert_eq!(request.payload.api_key, "phc_key");
    assert_eq!(request.payload.event, "probe");
    let props = &request.payload.properties;
    assert_eq!(props.len(), 9);
    assert_eq!(props.get("answer"), Some(&PropValue::Count(42)));
    assert_eq!(props.get("distinct_id"), Some(&text("user-42")));
    assert_eq!(props.get("$lib"), Some(&text("rust-reqwest")));
    for name in ["os_name", "os_version", "kernel_version", "host_name"] {
        assert!(matches!(props.get(name), Some(PropValue::Text(_))), "{name}");
    }
    assert!(matches!(props.get("cpu_count"), Some(PropValue::Count(count)) if *count >= 1));
    assert!(matches!(props.get("total_memory"), Some(PropValue::Count(bytes)) if *bytes > 0));
}
