//! The decisions of the HTTP handlers: which light requests are accepted,
//! what a request does to the shared state, and what the health check and
//! version endpoints answer.

use crate::clock::{
    format_rfc3339, in_four_digit_years, is_rfc3339_utc, now_unix_timestamp, rfc3339_text,
    ClockReading,
};
use crate::device::{LightState, SharedState};
use crate::text::{decimal, push_decimal};
use vstd::prelude::*;

verus! {

/// Shortest accepted blink duration, in milliseconds.
pub const MIN_BLINK_MS: u16 = 50;

/// Longest accepted blink duration, in milliseconds.
pub const MAX_BLINK_MS: u16 = 10000;

pub open spec fn blink_ms_in_range(ms: u16) -> bool {
    MIN_BLINK_MS <= ms && ms <= MAX_BLINK_MS
}

/// A request is accepted unless it blinks with a duration (after defaults)
/// outside 50..=10000 ms. Durations of a light that does not blink are
/// ignored.
pub open spec fn spec_valid_post_body(s: LightState) -> bool {
    !s.blink || (blink_ms_in_range(s.spec_on_ms()) && blink_ms_in_range(s.spec_off_ms()))
}

/// The message that refuses a request; the "on" duration is checked first.
pub open spec fn validation_message(s: LightState) -> Seq<char> {
    if !blink_ms_in_range(s.spec_on_ms()) {
        "blink_on_ms must be 50–10000, got "@ + decimal(s.spec_on_ms() as nat)
    } else {
        "blink_off_ms must be 50–10000, got "@ + decimal(s.spec_off_ms() as nat)
    }
}

/// Checks the blink durations of a requested light state.
pub fn validate_post_body(state: &LightState) -> (res: Result<(), String>)
    ensures
        res is Ok <==> spec_valid_post_body(*state),
        !state.blink ==> res is Ok,
        state.blink && state.blink_on_ms is None && state.blink_off_ms is None ==> res is Ok,
        state.blink ==> (state.blink_on_ms matches Some(ms) && !(50 <= ms <= 10000) ==> res is Err),
        state.blink ==> (state.blink_off_ms matches Some(ms) && !(50 <= ms <= 10000) ==> res is Err),
        res matches Err(m) ==> m@ == validation_message(*state),
{
    if state.blink {
        let on_ms = state.effective_blink_on_ms();
        let off_ms = state.effective_blink_off_ms();
        if !(MIN_BLINK_MS <= on_ms && on_ms <= MAX_BLINK_MS) {
            let mut m = String::from_str("blink_on_ms must be 50–10000, got ");
            push_decimal(&mut m, on_ms);
            return Err(m);
        }
        if !(MIN_BLINK_MS <= off_ms && off_ms <= MAX_BLINK_MS) {
            let mut m = String::from_str("blink_off_ms must be 50–10000, got ");
            push_decimal(&mut m, off_ms);
            return Err(m);
        }
    }
    proof {
        lemma_valid_post_body(*state, state.spec_on_ms(), state.spec_off_ms());
    }
    Ok(())
}

/// Why a request to set the light was refused.
#[derive(Debug, Clone, PartialEq, Eq)]
pub enum PostLightError {
    /// The body is not a light state; the detail comes from the JSON parser.
    InvalidJson(String),
    /// The light state has a blink duration out of range.
    InvalidBody(String),
    /// No Busylight is connected.
    NotConnected,
}

impl PostLightError {
    /// The HTTP status of the refusal: 400 for a bad body, 503 without a
    /// device.
    pub fn status_code(&self) -> (code: u16)
        ensures
            code == match self {
                PostLightError::NotConnected => 503u16,
                _ => 400u16,
            },
    {
        match self {
            PostLightError::NotConnected => 503,
            _ => 400,
        }
    }

    /// The message of the refusal's JSON body.
    pub fn message(&self) -> (m: String)
        ensures
            m@ == match self {
                PostLightError::InvalidJson(detail) => "invalid JSON: "@ + detail@,
                PostLightError::InvalidBody(msg) => msg@,
                PostLightError::NotConnected => "Busylight not connected"@,
            },
    {
        match self {
            PostLightError::InvalidJson(detail) => {
                let mut m = String::from_str("invalid JSON: ");
                m.append(detail.as_str());
                m
            },
            PostLightError::InvalidBody(msg) => msg.clone(),
            PostLightError::NotConnected => String::from_str("Busylight not connected"),
        }
    }
}

/// The shared state after a client set the light to `l`.
pub open spec fn spec_posted(s: SharedState, l: LightState) -> SharedState {
    SharedState { light_state: l, state_dirty: true, ..s }
}

/// Applies a request that sets the light to `state`: a valid state is stored
/// and marked for sending if a device is connected. A refused request leaves
/// the shared state as it was; validation comes before the device check.
pub fn apply_light_request(shared: &mut SharedState, state: LightState) -> (res: Result<
    (),
    PostLightError,
>)
    ensures
        !spec_valid_post_body(state) ==> (res matches Err(PostLightError::InvalidBody(m)) && m@
            == validation_message(state)),
        spec_valid_post_body(state) && !old(shared).connected ==> res == Err::<
            (),
            PostLightError,
        >(PostLightError::NotConnected),
        res is Ok <==> spec_valid_post_body(state) && old(shared).connected,
        res is Ok ==> *final(shared) == spec_posted(*old(shared), state),
        res is Ok ==> final(shared).light_state == state && final(shared).state_dirty
            && final(shared).connected,
        res is Err ==> *final(shared) == *old(shared),
{
    match validate_post_body(&state) {
        Err(m) => {
            return Err(PostLightError::InvalidBody(m));
        },
        Ok(()) => {},
    }
    if !shared.connected {
        return Err(PostLightError::NotConnected);
    }
    shared.light_state = state;
    shared.state_dirty = true;
    Ok(())
}

/// What a read of the light reports: the current light state and whether a
/// device is connected.
pub fn current_light(shared: &SharedState) -> (cur: (LightState, bool))
    ensures
        cur == (shared.light_state, shared.connected),
{
    (shared.light_state, shared.connected)
}

/// A read after an accepted write gives back the state written, the write
/// marks the state for sending, and the connection flag is untouched by it.
pub proof fn lemma_read_after_write(s: SharedState, l: LightState)
    ensures
        spec_posted(s, l).light_state == l,
        spec_posted(s, l).state_dirty,
        spec_posted(s, l).connected == s.connected,
{
}

/// A request is accepted exactly when it does not blink, or when both of its
/// blink durations, an unset one counting as 500 ms, lie in 50..=10000 ms.
pub proof fn lemma_valid_post_body(s: LightState, on_ms: u16, off_ms: u16)
    requires
        s.blink_on_ms matches Some(v) ==> on_ms == v,
        s.blink_on_ms is None ==> on_ms == 500,
        s.blink_off_ms matches Some(v) ==> off_ms == v,
        s.blink_off_ms is None ==> off_ms == 500,
    ensures
        spec_valid_post_body(s) <==> (!s.blink || (50 <= on_ms <= 10000 && 50 <= off_ms
            <= 10000)),
{
}

/// A light that does not blink is always accepted, whatever its durations.
pub proof fn lemma_steady_always_valid(s: LightState)
    requires
        !s.blink,
    ensures
        spec_valid_post_body(s),
{
}

/// A blinking light with both durations left unset is accepted: the default
/// of 500 ms lies in range.
pub proof fn lemma_default_durations_valid(s: LightState)
    requires
        s.blink_on_ms is None,
        s.blink_off_ms is None,
    ensures
        spec_valid_post_body(s),
{
}

/// The answer of the health check.
#[derive(Debug, Clone, Copy, PartialEq, Eq)]
pub struct HealthResponse {
    /// "ok" when every check passed, "degraded" otherwise.
    pub status: &'static str,
    pub busylight_connected: bool,
    pub log_writable: bool,
    /// The resident set size of the process in bytes, when it could be read.
    pub memory_accounting: Option<u64>,
}

impl HealthResponse {
    /// The health report for the given outcome of the two checks and the
    /// measured memory use. Memory use is reported, not checked.
    pub fn from_checks(
        busylight_connected: bool,
        log_writable: bool,
        memory_accounting: Option<u64>,
    ) -> (h: HealthResponse)
        ensures
            h.busylight_connected == busylight_connected,
            h.log_writable == log_writable,
            h.memory_accounting == memory_accounting,
            h.status@ == if busylight_connected && log_writable {
                "ok"@
            } else {
                "degraded"@
            },
    {
        let healthy = busylight_connected && log_writable;
        HealthResponse {
            status: if healthy {
                "ok"
            } else {
                "degraded"
            },
            busylight_connected,
            log_writable,
            memory_accounting,
        }
    }

    /// The HTTP status of the report: 200 when every check passed, 503
    /// otherwise.
    pub fn status_code(&self) -> (code: u16)
        ensures
            code == if self.busylight_connected && self.log_writable {
                200u16
            } else {
                503u16
            },
    {
        if self.busylight_connected && self.log_writable {
            200
        } else {
            503
        }
    }
}

/// The answer of the version endpoint.
#[derive(Debug, Clone, PartialEq, Eq)]
pub struct VersionResponse {
    pub version: &'static str,
    /// The current UTC time in RFC 3339, or "unknown".
    pub time: String,
    /// The clock reading that `time` was made from, when it was read from
    /// the clock.
    pub read_at: Option<ClockReading>,
}

impl VersionResponse {
    /// The version answer, given the formatted current time if formatting
    /// succeeded.
    pub fn new(version: &'static str, formatted_time: Option<String>) -> (v: VersionResponse)
        ensures
            v.version == version,
            v.time@ == match formatted_time {
                Some(t) => t@,
                None => "unknown"@,
            },
            v.read_at is None,
    {
        let time = match formatted_time {
            Some(t) => t,
            None => String::from_str("unknown"),
        };
        VersionResponse { version, time, read_at: None }
    }
}

/// The version answer at the Unix timestamp `unix_seconds`: its RFC 3339
/// text, or "unknown" for a timestamp outside the years 0..=9999.
pub fn version_at(version: &'static str, unix_seconds: i64) -> (v: VersionResponse)
    ensures
        v.version == version,
        v.time@ == "unknown"@ <==> !in_four_digit_years(unix_seconds as int),
        in_four_digit_years(unix_seconds as int) ==> v.time@ == rfc3339_text(unix_seconds)
            && is_rfc3339_utc(v.time@),
        v.read_at is None,
{
    let v = VersionResponse::new(version, format_rfc3339(unix_seconds));
    proof {
        reveal_strlit("unknown");
    }
    v
}

/// The version answer for the current time: the clock is read once, and the
/// answer holds the RFC 3339 text of that reading (or "unknown" for a time
/// outside the years 0..=9999) together with the reading itself.
pub fn version_response(version: &'static str) -> (v: VersionResponse)
    ensures
        v.version == version,
        v.read_at is Some,
        match v.read_at {
            Some(now) => if in_four_digit_years(now.spec_seconds() as int) {
                v.time@ == rfc3339_text(now.spec_seconds()) && is_rfc3339_utc(v.time@)
            } else {
                v.time@ == "unknown"@
            },
            None => false,
        },
{
    let now = now_unix_timestamp();
    let mut v = version_at(version, now.seconds());
    v.read_at = Some(now);
    proof {
        reveal_strlit("unknown");
    }
    v
}

} // verus!
