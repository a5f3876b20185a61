//! The decisions of the USB manager. The manager polls in a loop: while no
//! device is open it tries to open one; while one is open it sends the
//! report for the current light state (which also serves as the device's
//! keepalive) and drops the device when a write fails.

use crate::device::report::{build_report, report_bytes, WRITE_SIZE};
use crate::device::SharedState;
use vstd::prelude::*;

verus! {

/// What the USB manager does in one round of its loop.
pub enum UsbAction {
    /// Enumerate HID devices and open the first supported one.
    Connect,
    /// Write this report to the open device.
    Send([u8; WRITE_SIZE]),
}

/// The shared state after a supported device was opened: it is connected,
/// and the last light state is marked for (re)sending.
pub open spec fn spec_connected(s: SharedState) -> SharedState {
    SharedState { connected: true, state_dirty: true, ..s }
}

/// The shared state after a write to the device failed.
pub open spec fn spec_lost(s: SharedState) -> SharedState {
    SharedState { connected: false, ..s }
}

/// The shared state after the manager read the light state for sending.
pub open spec fn spec_taken(s: SharedState) -> SharedState {
    SharedState { state_dirty: false, ..s }
}

/// One round of the manager's loop. Without an open device it asks for a
/// connection and leaves the state alone; with one it reads the light
/// state, clears the "dirty" mark and hands back the report to send.
pub fn poll_step(shared: &mut SharedState, device_open: bool) -> (a: UsbAction)
    ensures
        !device_open ==> a is Connect && *final(shared) == *old(shared),
        device_open ==> (a matches UsbAction::Send(report) && report@ == report_bytes(
            old(shared).light_state,
        )),
        device_open ==> *final(shared) == spec_taken(*old(shared)),
{
    if !device_open {
        return UsbAction::Connect;
    }
    let state = shared.light_state;
    shared.state_dirty = false;
    UsbAction::Send(build_report(&state))
}

/// Records that a supported device was opened.
pub fn on_connected(shared: &mut SharedState)
    ensures
        *final(shared) == spec_connected(*old(shared)),
{
    shared.connected = true;
    shared.state_dirty = true;
}

/// Records the outcome of a write; returns whether the device stays open.
pub fn on_write_result(shared: &mut SharedState, write_ok: bool) -> (keep: bool)
    ensures
        keep == write_ok,
        write_ok ==> *final(shared) == *old(shared),
        !write_ok ==> *final(shared) == spec_lost(*old(shared)),
{
    if !write_ok {
        shared.connected = false;
    }
    write_ok
}

/// Connecting, losing the device and reading the state for sending never
/// change the light state: after a reconnection the manager sends the last
/// state that a client set.
pub proof fn lemma_usb_events_keep_light_state(s: SharedState)
    ensures
        spec_connected(s).light_state == s.light_state,
        spec_lost(s).light_state == s.light_state,
        spec_taken(s).light_state == s.light_state,
        spec_taken(spec_connected(spec_lost(s))).light_state == s.light_state,
{
}

} // verus!
