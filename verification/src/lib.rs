//! Control logic of a daemon that drives a Kuando Busylight over USB HID and
//! serves its state through an authenticated REST API: request validation,
//! API-key checks, the shared light state, model detection, the HID report
//! encoding, the configuration defaults and key generation, and the
//! self-signed TLS certificate.

pub mod api;
pub mod clock;
pub mod config;
pub mod device;
pub mod proc_status;
pub mod text;
pub mod tls;
pub mod x509;
