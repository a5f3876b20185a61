use rustylight_server::config::{ensure_psk, generate_psk, Config};
use rustylight_server::text::{encode_hex, push_decimal};

#[test]
fn defaults_are_correct() {
    let cfg = Config::default();
    assert_eq!(cfg.server.port, 8443);
    assert_eq!(cfg.tls.cert_file, "/etc/rustylight/tls.crt");
    assert_eq!(cfg.logging.level, "info");
    assert_eq!(cfg.auth.psk, "");
}

#[test]
fn generates_non_empty_psk() {
    let psk = generate_psk();
    assert!(!psk.is_empty());
    assert_eq!(psk.len(), 64);
}

#[test]
fn generated_psk_is_lowercase_hex_and_fresh() {
    let a = generate_psk();
    let b = generate_psk();
    assert!(a.chars().all(|c| c.is_ascii_digit() || ('a'..='f').contains(&c)));
    assert_ne!(a, b);
}

#[test]
fn ensure_psk_fills_an_empty_key_once() {
    let mut cfg = Config::default();
    assert!(ensure_psk(&mut cfg));
    assert_eq!(cfg.auth.psk.len(), 64);
    assert_eq!(cfg.server.port, 8443);
    let first = cfg.auth.psk.clone();
    assert!(!ensure_psk(&mut cfg));
    assert_eq!(cfg.auth.psk, first);
}

#[test]
fn ensure_psk_keeps_a_set_key() {
    let mut cfg = Config::default();
    cfg.auth.psk = "abc123".to_string();
    assert!(!ensure_psk(&mut cfg));
    assert_eq!(cfg.auth.psk, "abc123");
}

#[test]
fn hex_encoding_is_two_lowercase_digits_per_byte() {
    assert_eq!(encode_hex(&[]), "");
    assert_eq!(encode_hex(&[0x00, 0x0f, 0xa5, 0xff]), "000fa5ff");
}

#[test]
fn decimal_rendering() {
    let mut s = String::from("n=");
    push_decimal(&mut s, 0);
    assert_eq!(s, "n=0");
    let mut s = String::new();
    push_decimal(&mut s, 65535);
    assert_eq!(s, "65535");
    let mut s = String::new();
    push_decimal(&mut s, 100);
    assert_eq!(s, "100");
}
