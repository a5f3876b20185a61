use rustylight_server::device::report::{build_report, scale, ticks, FOOTER_BASE, WRITE_SIZE};
use rustylight_server::device::LightState;

fn payload(buf: &[u8; WRITE_SIZE]) -> &[u8] {
    &buf[1..]
}

fn checksum_ok(p: &[u8]) -> bool {
    let expected: u16 = p[..FOOTER_BASE + 6].iter().map(|&b| b as u16).sum();
    let actual = ((p[FOOTER_BASE + 6] as u16) << 8) | p[FOOTER_BASE + 7] as u16;
    expected == actual
}

#[test]
fn report_is_65_bytes() {
    let buf = build_report(&LightState::default());
    assert_eq!(buf.len(), 65);
}

#[test]
fn report_id_byte_is_zero() {
    let buf = build_report(&LightState::default());
    assert_eq!(buf[0], 0x00);
}

#[test]
fn off_state_has_correct_layout_and_checksum() {
    let buf = build_report(&LightState::default());
    let p = payload(&buf);
    assert_eq!(p[0], 0x10);
    assert_eq!(p[1], 0x00);
    assert_eq!(p[2], 0x00);
    assert_eq!(p[3], 0x00);
    assert_eq!(p[4], 0x00);
    assert_eq!(p[5], 0x00);
    assert_eq!(p[6], 0x00);
    assert_eq!(&p[8..FOOTER_BASE], &[0u8; FOOTER_BASE - 8]);
    assert_eq!(p[FOOTER_BASE + 3], 0x00);
    assert_eq!(p[FOOTER_BASE + 4], 0x0F);
    assert_eq!(p[FOOTER_BASE + 5], 0xFF);
    // 0x10 (step 0) + 0x0F + 0xFF (footer pad) = 0x011E
    assert_eq!(p[FOOTER_BASE + 6], 0x01);
    assert_eq!(p[FOOTER_BASE + 7], 0x1E);
    assert!(checksum_ok(p));
}

#[test]
fn steady_red_step0_and_checksum() {
    let state = LightState { on: true, r: 255, g: 0, b: 0, ..Default::default() };
    let buf = build_report(&state);
    let p = payload(&buf);
    assert_eq!(p[0], 0x10);
    assert_eq!(p[1], 0x00);
    assert_eq!(p[2], 100);
    assert_eq!(p[3], 0);
    assert_eq!(p[4], 0);
    assert_eq!(p[5], 0);
    assert_eq!(p[6], 0);
    assert_eq!(p[7], 0);
    assert_eq!(&p[8..FOOTER_BASE], &[0u8; FOOTER_BASE - 8]);
    // 0x10 + 0x64 (step 0) + 0x0F + 0xFF (footer pad) = 0x0182
    assert_eq!(p[FOOTER_BASE + 6], 0x01);
    assert_eq!(p[FOOTER_BASE + 7], 0x82);
    assert!(checksum_ok(p));
}

#[test]
fn scale_function_maps_255_to_100_and_0_to_0() {
    assert_eq!(scale(255), 100);
    assert_eq!(scale(0), 0);
    assert_eq!(scale(128), 50);
}

#[test]
fn blink_single_color_timing() {
    let state = LightState {
        on: true,
        r: 0,
        g: 255,
        b: 0,
        blink: true,
        blink_on_ms: Some(500),
        blink_off_ms: Some(300),
        ..Default::default()
    };
    let buf = build_report(&state);
    let p = payload(&buf);
    assert_eq!(p[0], 0x10);
    assert_eq!(p[1], 0x00);
    assert_eq!(p[2], 0);
    assert_eq!(p[3], 100);
    assert_eq!(p[4], 0);
    assert_eq!(p[5], 5);
    assert_eq!(p[6], 3);
    assert!(checksum_ok(p));
}

#[test]
fn blink_two_colors_step0_and_step1() {
    let state = LightState {
        on: true,
        r: 255,
        g: 0,
        b: 0,
        blink: true,
        blink_on_ms: Some(500),
        blink_off_ms: Some(500),
        r2: Some(0),
        g2: Some(0),
        b2: Some(255),
    };
    let buf = build_report(&state);
    let p = payload(&buf);
    assert_eq!(p[0], 0x11);
    assert_eq!(p[1], 0x01);
    assert_eq!(p[2], 100);
    assert_eq!(p[3], 0);
    assert_eq!(p[4], 0);
    assert_eq!(p[5], 5);
    assert_eq!(p[6], 0);
    assert_eq!(p[8], 0x10);
    assert_eq!(p[9], 0x01);
    assert_eq!(p[10], 0);
    assert_eq!(p[11], 0);
    assert_eq!(p[12], 100);
    assert_eq!(p[13], 5);
    assert_eq!(p[14], 0);
    assert!(checksum_ok(p));
}

#[test]
fn ticks_clamps_to_one_and_255() {
    assert_eq!(ticks(0), 1);
    assert_eq!(ticks(50), 1);
    assert_eq!(ticks(99), 1);
    assert_eq!(ticks(100), 1);
    assert_eq!(ticks(250), 2);
    assert_eq!(ticks(10000), 100);
    assert_eq!(ticks(25500), 255);
    assert_eq!(ticks(65535), 255);
}

#[test]
fn scale_exact_values() {
    assert_eq!(scale(1), 0);
    assert_eq!(scale(3), 1);
    assert_eq!(scale(254), 99);
    assert_eq!(scale(51), 20);
}

#[test]
fn off_ignores_colour_and_blink() {
    let off_red = LightState {
        on: false,
        r: 255,
        g: 12,
        b: 7,
        blink: true,
        blink_on_ms: Some(1000),
        blink_off_ms: Some(200),
        r2: Some(9),
        g2: None,
        b2: Some(1),
    };
    assert_eq!(build_report(&off_red), build_report(&LightState::default()));
}

#[test]
fn steady_ignores_blink_settings() {
    let a = LightState { on: true, r: 10, g: 20, b: 30, ..Default::default() };
    let b = LightState {
        on: true,
        r: 10,
        g: 20,
        b: 30,
        blink: false,
        blink_on_ms: Some(60),
        blink_off_ms: Some(9000),
        r2: Some(255),
        g2: Some(255),
        b2: Some(255),
    };
    assert_eq!(build_report(&a), build_report(&b));
}

#[test]
fn blink_with_zero_second_colour_is_single_colour() {
    let state = LightState {
        on: true,
        r: 255,
        g: 255,
        b: 255,
        blink: true,
        blink_on_ms: None,
        blink_off_ms: Some(1000),
        r2: Some(0),
        g2: Some(0),
        b2: Some(0),
    };
    let buf = build_report(&state);
    let p = payload(&buf);
    assert_eq!(&p[0..8], &[0x10, 0, 100, 100, 100, 5, 10, 0]);
    assert_eq!(&p[8..16], &[0u8; 8]);
    assert!(checksum_ok(p));
}

#[test]
fn checksum_of_bright_two_colour_blink() {
    let state = LightState {
        on: true,
        r: 255,
        g: 255,
        b: 255,
        blink: true,
        blink_on_ms: Some(10000),
        blink_off_ms: Some(10000),
        r2: Some(255),
        g2: Some(255),
        b2: Some(255),
    };
    let buf = build_report(&state);
    let p = payload(&buf);
    // step 0: 0x11 + 1 + 3*100 + 100; step 1: 0x10 + 1 + 3*100 + 100; pad 0x0F + 0xFF
    let sum: u16 = 0x11 + 1 + 300 + 100 + 0x10 + 1 + 300 + 100 + 0x0F + 0xFF;
    assert_eq!(p[FOOTER_BASE + 6], (sum >> 8) as u8);
    assert_eq!(p[FOOTER_BASE + 7], (sum & 0xFF) as u8);
    assert!(checksum_ok(p));
}
