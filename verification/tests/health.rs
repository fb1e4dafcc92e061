use analytics::health::{check_recording_health, HealthCheckError, HealthStatus};
use analytics::properties::PropValue;
use analytics::transport::{FetchOutcome, HttpStatus};

fn health(frame: &str, audio: &str, ui: &str) -> HealthStatus {
    HealthStatus::from_statuses(frame.to_string(), audio.to_string(), ui.to_string())
}

fn reply(code: u16, body: &str) -> FetchOutcome {
    FetchOutcome::Reply {
        status: HttpStatus::new(code).unwrap(),
        body: Ok(body.as_bytes().to_vec()),
    }
}

fn text(value: &str) -> PropValue {
    PropValue::Text(value.to_string())
}

#[test]
fn healthy_when_every_status_is_ok_or_disabled() {
    let words = ["ok", "disabled"];
    for frame in words {
        for audio in words {
            for ui in words {
                let status = health(frame, audio, ui);
                assert!(status.is_healthy(), "{frame} {audio} {ui}");
                assert_eq!(status.frame_status(), frame);
                assert_eq!(status.audio_status(), audio);
                assert_eq!(status.ui_status(), ui);
                assert_eq!(status.error(), &None);
            }
        }
    }
}

#[test]
fn unhealthy_when_any_status_is_something_else() {
    for bad in ["error", "unknown", "", "OK", "ok ", "stale", "enabled"] {
        assert!(!health(bad, "ok", "ok").is_healthy(), "frame {bad:?}");
        assert!(!health("ok", bad, "disabled").is_healthy(), "audio {bad:?}");
        assert!(!health("disabled", "ok", bad).is_healthy(), "ui {bad:?}");
        assert!(!health(bad, bad, bad).is_healthy(), "all {bad:?}");
    }
}

#[test]
fn missing_members_count_as_unknown() {
    let status = HealthStatus::from_members(Some("ok".to_string()), None, Some("ok".to_string()));
    assert!(!status.is_healthy());
    assert_eq!(status.frame_status(), "ok");
    assert_eq!(status.audio_status(), "unknown");
    assert_eq!(status.ui_status(), "ok");
    let none = HealthStatus::from_members(None, None, None);
    assert!(!none.is_healthy());
    assert_eq!(none.frame_status(), "unknown");
    assert_eq!(none.audio_status(), "unknown");
    assert_eq!(none.ui_status(), "unknown");
    let all = HealthStatus::from_members(
        Some("ok".to_string()),
        Some("disabled".to_string()),
        Some("ok".to_string()),
    );
    assert!(all.is_healthy());
}

#[test]
fn degraded_health_reports_error_everywhere() {
    let status = HealthStatus::degraded("connection refused".to_string());
    assert!(!status.is_healthy());
    assert_eq!(status.frame_status(), "error");
    assert_eq!(status.audio_status(), "error");
    assert_eq!(status.ui_status(), "error");
    assert_eq!(status.error(), &Some("connection refused".to_string()));
}

#[test]
fn health_properties_hold_flag_and_statuses() {
    let props = health("ok", "disabled", "error").to_properties();
    assert_eq!(props.len(), 4);
    assert_eq!(props.get("is_healthy"), Some(&PropValue::Flag(false)));
    assert_eq!(props.get("frame_status"), Some(&text("ok")));
    assert_eq!(props.get("audio_status"), Some(&text("disabled")));
    assert_eq!(props.get("ui_status"), Some(&text("error")));
    assert_eq!(props.get("error"), None);
}

#[test]
fn degraded_health_properties_hold_the_error() {
    let props = HealthStatus::degraded("boom".to_string()).to_properties();
    assert_eq!(props.len(), 5);
    assert_eq!(props.get("is_healthy"), Some(&PropValue::Flag(false)));
    assert_eq!(props.get("frame_status"), Some(&text("error")));
    assert_eq!(props.get("audio_status"), Some(&text("error")));
    assert_eq!(props.get("ui_status"), Some(&text("error")));
    assert_eq!(props.get("error"), Some(&text("boom")));
}

#[test]
fn http_500_gives_a_degraded_health_not_an_error() {
    let status = check_recording_health(reply(500, "ignored")).unwrap();
    assert!(!status.is_healthy());
    assert_eq!(status.frame_status(), "error");
    assert_eq!(status.audio_status(), "error");
    assert_eq!(status.ui_status(), "error");
    assert_eq!(
        status.error(),
        &Some("Health check failed with status: 500 Internal Server Error".to_string())
    );
}

#[test]
fn unsuccessful_status_wins_over_a_good_body() {
    let body = r#"{"frame_status":"ok","audio_status":"ok","ui_status":"ok"}"#;
    let status = check_recording_health(reply(404, body)).unwrap();
    assert!(!status.is_healthy());
    assert_eq!(status.frame_status(), "error");
    assert_eq!(
        status.error(),
        &Some("Health check failed with status: 404 Not Found".to_string())
    );
}

#[test]
fn successful_reply_is_decoded() {
    let body = r#"{"frame_status":"ok","audio_status":"disabled","ui_status":"ok","extra":1}"#;
    let status = check_recording_health(reply(200, body)).unwrap();
    assert!(status.is_healthy());
    assert_eq!(status.frame_status(), "ok");
    assert_eq!(status.audio_status(), "disabled");
    assert_eq!(status.ui_status(), "ok");
    assert_eq!(status.error(), &None);
}

#[test]
fn statuses_are_taken_as_they_come() {
    let body = r#"{"frame_status":"stale","audio_status":"ok","ui_status":"ok"}"#;
    let status = check_recording_health(reply(200, body)).unwrap();
    assert!(!status.is_healthy());
    assert_eq!(status.frame_status(), "stale");
}

#[test]
fn absent_or_non_text_members_are_unknown() {
    let body = r#"{"frame_status":"ok","audio_status":true,"ui_status":null}"#;
    let status = check_recording_health(reply(200, body)).unwrap();
    assert!(!status.is_healthy());
    assert_eq!(status.frame_status(), "ok");
    assert_eq!(status.audio_status(), "unknown");
    assert_eq!(status.ui_status(), "unknown");
    let empty = check_recording_health(reply(204, "{}")).unwrap();
    assert!(!empty.is_healthy());
    assert_eq!(empty.frame_status(), "unknown");
    assert_eq!(empty.audio_status(), "unknown");
    assert_eq!(empty.ui_status(), "unknown");
}

#[test]
fn a_document_that_is_no_object_has_no_members() {
    for body in ["[1, 2]", "\"ok\"", "42", "null"] {
        let status = check_recording_health(reply(200, body)).unwrap();
        assert!(!status.is_healthy());
        assert_eq!(status.frame_status(), "unknown");
        assert_eq!(status.audio_status(), "unknown");
        assert_eq!(status.ui_status(), "unknown");
    }
}

#[test]
fn undecodable_body_is_an_error() {
    let result = check_recording_health(reply(200, "not json"));
    assert_eq!(
        result.unwrap_err(),
        HealthCheckError::Undecodable("expected ident at line 1 column 2".to_string())
    );
    let empty = check_recording_health(reply(200, ""));
    assert_eq!(
        empty.unwrap_err(),
        HealthCheckError::Undecodable("EOF while parsing a value at line 1 column 0".to_string())
    );
    let trailing = check_recording_health(reply(200, "{} {}"));
    assert!(matches!(trailing, Err(HealthCheckError::Undecodable(_))));
}

#[test]
fn unread_body_of_a_successful_reply_is_an_error() {
    let outcome = FetchOutcome::Reply {
        status: HttpStatus::new(200).unwrap(),
        body: Err("connection reset".to_string()),
    };
    assert_eq!(
        check_recording_health(outcome).unwrap_err(),
        HealthCheckError::Transport("connection reset".to_string())
    );
}

#[test]
fn unread_body_of_an_unsuccessful_reply_does_not_matter() {
    let outcome = FetchOutcome::Reply {
        status: HttpStatus::new(503).unwrap(),
        body: Err("connection reset".to_string()),
    };
    let status = check_recording_health(outcome).unwrap();
    assert!(!status.is_healthy());
    assert_eq!(
        status.error(),
        &Some("Health check failed with status: 503 Service Unavailable".to_string())
    );
}

#[test]
fn transport_failure_is_an_error() {
    let result = check_recording_health(FetchOutcome::Failed("error sending request".to_string()));
    assert_eq!(
        result.unwrap_err(),
        HealthCheckError::Transport("error sending request".to_string())
    );
}

#[test]
fn health_check_error_messages() {
    assert_eq!(HealthCheckError::Transport("timed out".to_string()).message(), "timed out");
    assert_eq!(
        HealthCheckError::Undecodable("expected value at line 1 column 1".to_string()).message(),
        "error decoding response body: expected value at line 1 column 1"
    );
}
