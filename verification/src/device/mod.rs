pub mod manager;
pub mod models;
pub mod report;

use vstd::prelude::*;

verus! {

/// Blink duration, in milliseconds, used when a request leaves it unset.
pub const DEFAULT_BLINK_MS: u16 = 500;

/// The desired (or current) state of the light.
///
/// `r`, `g`, `b` are the primary colour. When `blink` is set the light
/// alternates between the primary colour and either the secondary colour
/// (`r2`, `g2`, `b2`) or darkness, with the given on/off durations.
#[derive(Clone, Copy, Debug, PartialEq, Eq, Structural)]
pub struct LightState {
    pub on: bool,
    pub r: u8,
    pub g: u8,
    pub b: u8,
    pub blink: bool,
    pub blink_on_ms: Option<u16>,
    pub blink_off_ms: Option<u16>,
    pub r2: Option<u8>,
    pub g2: Option<u8>,
    pub b2: Option<u8>,
}

/// The value of an optional field, or `default` when it is unset.
pub open spec fn or_default<T>(v: Option<T>, default: T) -> T {
    match v {
        Some(x) => x,
        None => default,
    }
}

impl LightState {
    /// The "on" duration of a blink cycle, with the default applied.
    pub open spec fn spec_on_ms(self) -> u16 {
        or_default(self.blink_on_ms, DEFAULT_BLINK_MS)
    }

    /// The "off" duration of a blink cycle, with the default applied.
    pub open spec fn spec_off_ms(self) -> u16 {
        or_default(self.blink_off_ms, DEFAULT_BLINK_MS)
    }

    /// The light that is fully off: every field false, zero or unset.
    pub open spec fn spec_default() -> LightState {
        LightState {
            on: false,
            r: 0,
            g: 0,
            b: 0,
            blink: false,
            blink_on_ms: None,
            blink_off_ms: None,
            r2: None,
            g2: None,
            b2: None,
        }
    }

    pub fn effective_blink_on_ms(&self) -> (ms: u16)
        ensures
            ms == self.spec_on_ms(),
    {
        match self.blink_on_ms {
            Some(ms) => ms,
            None => DEFAULT_BLINK_MS,
        }
    }

    pub fn effective_blink_off_ms(&self) -> (ms: u16)
        ensures
            ms == self.spec_off_ms(),
    {
        match self.blink_off_ms {
            Some(ms) => ms,
            None => DEFAULT_BLINK_MS,
        }
    }
}

impl Default for LightState {
    fn default() -> (s: LightState)
        ensures
            s == LightState::spec_default(),
    {
        LightState {
            on: false,
            r: 0,
            g: 0,
            b: 0,
            blink: false,
            blink_on_ms: None,
            blink_off_ms: None,
            r2: None,
            g2: None,
            b2: None,
        }
    }
}

/// Failures of a light device.
#[derive(Debug, Clone, PartialEq, Eq)]
pub enum DeviceError {
    NotConnected,
    Hid(String),
}

impl DeviceError {
    /// The human-readable description of the error.
    pub fn message(&self) -> (m: String)
        ensures
            m@ == match self {
                DeviceError::NotConnected => "device not connected"@,
                DeviceError::Hid(detail) => "HID error: "@ + detail@,
            },
    {
        match self {
            DeviceError::NotConnected => String::from_str("device not connected"),
            DeviceError::Hid(detail) => {
                let mut m = String::from_str("HID error: ");
                m.append(detail.as_str());
                m
            },
        }
    }
}

/// A light device that can be driven with a `LightState`, for callers that
/// provide their own implementation (a mock in tests, for one).
pub trait BuslightDevice: Send + Sync {
    fn set_state(&self, state: &LightState) -> Result<(), DeviceError>;

    fn is_connected(&self) -> bool;
}

/// The state shared between the API handlers and the USB manager.
pub struct SharedState {
    /// Whether a Busylight is currently open.
    pub connected: bool,
    /// The last light state that a client set.
    pub light_state: LightState,
    /// Whether `light_state` changed since the USB manager last read it.
    pub state_dirty: bool,
}

impl Default for SharedState {
    fn default() -> (s: SharedState)
        ensures
            !s.connected,
            s.light_state == LightState::spec_default(),
            !s.state_dirty,
    {
        SharedState { connected: false, light_state: LightState::default(), state_dirty: false }
    }
}

} // verus!
