use rustylight_server::device::manager::{on_connected, on_write_result, poll_step, UsbAction};
use rustylight_server::device::models::{known_devices, supported_devices, ModelVariant};
use rustylight_server::device::report::build_report;
use rustylight_server::device::{DeviceError, LightState, SharedState};

#[test]
fn light_state_default_is_off() {
    let state = LightState::default();
    assert!(!state.on);
    assert!(!state.blink);
    assert_eq!(state.r, 0);
}

#[test]
fn known_vid_pid_resolves_to_variant() {
    assert!(ModelVariant::from_vid_pid(0x04D8, 0xF848).is_some());
    assert!(ModelVariant::from_vid_pid(0x27BB, 0x3BCA).is_some());
}

#[test]
fn unknown_vid_pid_returns_none() {
    assert!(ModelVariant::from_vid_pid(0xDEAD, 0xBEEF).is_none());
}

#[test]
fn every_documented_model_is_recognised() {
    assert_eq!(ModelVariant::from_vid_pid(0x04D8, 0xF848), Some(ModelVariant::UcOmega));
    assert_eq!(ModelVariant::from_vid_pid(0x04D8, 0xF8F8), Some(ModelVariant::Uc));
    assert_eq!(ModelVariant::from_vid_pid(0x04D8, 0x2013), Some(ModelVariant::Lync));
    assert_eq!(ModelVariant::from_vid_pid(0x04D8, 0x2014), Some(ModelVariant::Lync));
    assert_eq!(ModelVariant::from_vid_pid(0x27BB, 0x3BCA), Some(ModelVariant::Alpha));
    assert_eq!(ModelVariant::from_vid_pid(0x27BB, 0x3BCB), Some(ModelVariant::Alpha));
    assert_eq!(ModelVariant::from_vid_pid(0x27BB, 0x3BCD), Some(ModelVariant::Omega));
    assert_eq!(ModelVariant::from_vid_pid(0x27BB, 0x3BC8), Some(ModelVariant::Uc2));
    assert_eq!(ModelVariant::from_vid_pid(0x27BB, 0x3BC9), Some(ModelVariant::Uc2));
    assert_eq!(known_devices().len(), 9);
}

#[test]
fn swapped_vendor_is_not_recognised() {
    assert_eq!(ModelVariant::from_vid_pid(0x27BB, 0xF848), None);
    assert_eq!(ModelVariant::from_vid_pid(0x04D8, 0x3BCA), None);
}

#[test]
fn effective_blink_durations_default_to_500() {
    let s = LightState::default();
    assert_eq!(s.effective_blink_on_ms(), 500);
    assert_eq!(s.effective_blink_off_ms(), 500);
    let t = LightState { blink_on_ms: Some(70), blink_off_ms: Some(9000), ..Default::default() };
    assert_eq!(t.effective_blink_on_ms(), 70);
    assert_eq!(t.effective_blink_off_ms(), 9000);
}

#[test]
fn device_error_messages() {
    assert_eq!(DeviceError::NotConnected.message(), "device not connected");
    assert_eq!(DeviceError::Hid("pipe".to_string()).message(), "HID error: pipe");
}

#[test]
fn shared_state_default_is_disconnected_and_off() {
    let s = SharedState::default();
    assert!(!s.connected);
    assert!(!s.state_dirty);
    assert_eq!(s.light_state, LightState::default());
}

#[test]
fn manager_connects_then_sends_and_drops_on_failure() {
    let mut s = SharedState::default();
    assert!(matches!(poll_step(&mut s, false), UsbAction::Connect));
    on_connected(&mut s);
    assert!(s.connected);
    assert!(s.state_dirty);
    let red = LightState { on: true, r: 255, ..Default::default() };
    s.light_state = red;
    match poll_step(&mut s, true) {
        UsbAction::Send(report) => assert_eq!(report, build_report(&red)),
        UsbAction::Connect => panic!("expected a report"),
    }
    assert!(!s.state_dirty);
    assert!(on_write_result(&mut s, true));
    assert!(s.connected);
    assert!(!on_write_result(&mut s, false));
    assert!(!s.connected);
    assert_eq!(s.light_state, red);
    on_connected(&mut s);
    match poll_step(&mut s, true) {
        UsbAction::Send(report) => assert_eq!(report, build_report(&red)),
        UsbAction::Connect => panic!("expected a report"),
    }
}

#[test]
fn supported_devices_in_listing_order() {
    let ids = vec![(0x1234, 0x0001), (0x27BB, 0x3BCD), (0x04D8, 0xDEAD), (0x04D8, 0x2013)];
    assert_eq!(
        supported_devices(&ids),
        vec![(1, ModelVariant::Omega), (3, ModelVariant::Lync)]
    );
    assert_eq!(supported_devices(&vec![]), vec![]);
}
