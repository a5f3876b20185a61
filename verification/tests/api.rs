use rustylight_server::api::auth::{AuthError, AuthGuard};
use rustylight_server::api::handlers::{
    apply_light_request, current_light, validate_post_body, version_at, HealthResponse, PostLightError,
    VersionResponse,
};
use rustylight_server::device::{LightState, SharedState};

#[test]
fn validate_light_state_rejects_blink_ms_below_minimum() {
    let state = LightState {
        on: true,
        r: 255,
        g: 0,
        b: 0,
        blink: true,
        blink_on_ms: Some(40),
        blink_off_ms: Some(500),
        ..Default::default()
    };
    assert!(validate_post_body(&state).is_err());
}

#[test]
fn validate_light_state_rejects_blink_ms_above_maximum() {
    let state = LightState {
        on: true,
        r: 255,
        g: 0,
        b: 0,
        blink: true,
        blink_on_ms: Some(500),
        blink_off_ms: Some(11000),
        ..Default::default()
    };
    assert!(validate_post_body(&state).is_err());
}

#[test]
fn validate_light_state_accepts_valid_blink() {
    let state = LightState {
        on: true,
        r: 255,
        g: 0,
        b: 0,
        blink: true,
        blink_on_ms: Some(500),
        blink_off_ms: Some(500),
        ..Default::default()
    };
    assert!(validate_post_body(&state).is_ok());
}

#[test]
fn validate_messages_name_the_field_and_value() {
    let low = LightState { blink: true, blink_on_ms: Some(40), ..Default::default() };
    assert_eq!(validate_post_body(&low), Err("blink_on_ms must be 50–10000, got 40".to_string()));
    let high = LightState { blink: true, blink_off_ms: Some(11000), ..Default::default() };
    assert_eq!(
        validate_post_body(&high),
        Err("blink_off_ms must be 50–10000, got 11000".to_string())
    );
    let both = LightState {
        blink: true,
        blink_on_ms: Some(0),
        blink_off_ms: Some(65535),
        ..Default::default()
    };
    assert_eq!(validate_post_body(&both), Err("blink_on_ms must be 50–10000, got 0".to_string()));
}

#[test]
fn validate_bounds_are_inclusive() {
    let lo = LightState { blink: true, blink_on_ms: Some(50), blink_off_ms: Some(10000), ..Default::default() };
    assert!(validate_post_body(&lo).is_ok());
    let below = LightState { blink: true, blink_on_ms: Some(49), ..Default::default() };
    assert!(validate_post_body(&below).is_err());
    let above = LightState { blink: true, blink_off_ms: Some(10001), ..Default::default() };
    assert!(validate_post_body(&above).is_err());
}

#[test]
fn validate_ignores_durations_without_blink() {
    let s = LightState { blink: false, blink_on_ms: Some(1), blink_off_ms: Some(60000), ..Default::default() };
    assert!(validate_post_body(&s).is_ok());
    let d = LightState { blink: true, ..Default::default() };
    assert!(validate_post_body(&d).is_ok());
}

#[test]
fn auth_error_missing_key_is_401() {
    assert_eq!(AuthError::MissingKey.status_code(), 401);
}

#[test]
fn auth_error_invalid_key_is_401() {
    assert_eq!(AuthError::InvalidKey.status_code(), 401);
}

#[test]
fn auth_error_messages() {
    assert_eq!(AuthError::MissingKey.message(), "missing header: X-Api-Key");
    assert_eq!(AuthError::InvalidKey.message(), "invalid API key");
}

#[test]
fn authorize_checks_presence_and_value() {
    let psk = "test-psk-for-integration-tests!!";
    assert_eq!(AuthGuard::authorize(None, psk), Err(AuthError::MissingKey));
    assert_eq!(AuthGuard::authorize(Some(b"wrong-key"), psk), Err(AuthError::InvalidKey));
    assert_eq!(AuthGuard::authorize(Some(psk.as_bytes()), psk), Ok(AuthGuard));
    assert_eq!(AuthGuard::authorize(Some(b""), psk), Err(AuthError::InvalidKey));
    assert_eq!(
        AuthGuard::authorize(Some(b"test-psk-for-integration-tests!"), psk),
        Err(AuthError::InvalidKey)
    );
}

#[test]
fn authorize_refuses_non_text_header() {
    let psk = "k\u{7f}y";
    assert_eq!(AuthGuard::authorize(Some(psk.as_bytes()), psk), Err(AuthError::InvalidKey));
    let tab = "a\tb";
    assert_eq!(AuthGuard::authorize(Some(tab.as_bytes()), tab), Ok(AuthGuard));
    let umlaut = "ä";
    assert_eq!(AuthGuard::authorize(Some(umlaut.as_bytes()), umlaut), Err(AuthError::InvalidKey));
}

#[test]
fn post_stores_state_when_connected() {
    let mut s = SharedState::default();
    s.connected = true;
    let green = LightState { on: true, g: 255, ..Default::default() };
    assert_eq!(apply_light_request(&mut s, green), Ok(()));
    assert!(s.state_dirty);
    assert_eq!(current_light(&s), (green, true));
}

#[test]
fn post_refused_without_device() {
    let mut s = SharedState::default();
    let red = LightState { on: true, r: 255, ..Default::default() };
    let err = apply_light_request(&mut s, red).unwrap_err();
    assert_eq!(err, PostLightError::NotConnected);
    assert_eq!(err.status_code(), 503);
    assert_eq!(err.message(), "Busylight not connected");
    assert_eq!(s.light_state, LightState::default());
    assert!(!s.state_dirty);
}

#[test]
fn post_with_bad_blink_is_400_even_without_device() {
    let mut s = SharedState::default();
    let bad = LightState {
        on: true,
        r: 255,
        blink: true,
        blink_on_ms: Some(10),
        blink_off_ms: Some(500),
        ..Default::default()
    };
    let err = apply_light_request(&mut s, bad).unwrap_err();
    assert_eq!(err.status_code(), 400);
    assert_eq!(err.message(), "blink_on_ms must be 50–10000, got 10");
    assert_eq!(s.light_state, LightState::default());
}

#[test]
fn invalid_json_is_400() {
    let err = PostLightError::InvalidJson("expected value".to_string());
    assert_eq!(err.status_code(), 400);
    assert_eq!(err.message(), "invalid JSON: expected value");
}

#[test]
fn get_light_reports_disconnected() {
    let s = SharedState::default();
    assert_eq!(current_light(&s), (LightState::default(), false));
}

#[test]
fn healthcheck_status() {
    let ok = HealthResponse::from_checks(true, true, Some(4096));
    assert_eq!(ok.status, "ok");
    assert_eq!(ok.status_code(), 200);
    assert_eq!(ok.memory_accounting, Some(4096));
    assert_eq!(HealthResponse::from_checks(true, true, None).status_code(), 200);
    let no_device = HealthResponse::from_checks(false, true, None);
    assert_eq!(no_device.status, "degraded");
    assert_eq!(no_device.status_code(), 503);
    let no_log = HealthResponse::from_checks(true, false, Some(1));
    assert_eq!(no_log.status, "degraded");
    assert_eq!(no_log.status_code(), 503);
    assert!(!no_log.log_writable);
    assert!(no_log.busylight_connected);
}

#[test]
fn version_falls_back_to_unknown_time() {
    let v = VersionResponse::new("1.0.0", None);
    assert_eq!(v.version, "1.0.0");
    assert_eq!(v.time, "unknown");
    let t = VersionResponse::new("1.0.0", Some("2026-05-19T10:00:00Z".to_string()));
    assert_eq!(t.time, "2026-05-19T10:00:00Z");
}

#[test]
fn version_response_has_a_time() {
    let v = rustylight_server::api::handlers::version_response("1.0.0");
    assert_eq!(v.version, "1.0.0");
    assert!(v.time.ends_with('Z'));
    assert_eq!(v.time.len(), 20);
    assert_eq!(&v.time[4..5], "-");
    assert_eq!(&v.time[10..11], "T");
}

#[test]
fn version_at_formats_or_says_unknown() {
    assert_eq!(version_at("1.0.0", 0).time, "1970-01-01T00:00:00Z");
    assert_eq!(version_at("1.0.0", 1_747_394_400).time, "2025-05-16T11:20:00Z");
    assert_eq!(version_at("1.0.0", 253_402_300_799).time, "9999-12-31T23:59:59Z");
    assert_eq!(version_at("1.0.0", 253_402_300_800).time, "unknown");
    assert_eq!(version_at("1.0.0", -62_167_219_200).time, "0000-01-01T00:00:00Z");
    assert_eq!(version_at("1.0.0", -62_167_219_201).time, "unknown");
    assert_eq!(version_at("1.0.0", i64::MIN).time, "unknown");
}
