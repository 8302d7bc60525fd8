//! The device/session lifecycle state machine: which phase the session is
//! in, what each observation makes it do next, and the bounded random
//! cooldown that spaces out reconnect attempts.

use vstd::prelude::*;

use crate::hotplug::STARTUP_GRACE_MS;

verus! {

/// How long a failed device read backs off before the loop continues.
pub const DEVICE_READ_RETRY_MS: u64 = 50;

/// The exit status of an emergency stop.
pub const EMERGENCY_STOP_EXIT_CODE: i32 = 9;

/// The smallest and largest cooldown sleep, in milliseconds.
pub const COOLDOWN_MIN_MS: u64 = 1000;

pub const COOLDOWN_MAX_MS: u64 = 2000;

/// The phase a remapper session is in.
#[derive(Debug, Clone, Copy, PartialEq, Eq, Structural)]
pub enum SessionPhase {
    /// Enumerating and grabbing matching devices.
    Discovering,
    /// Waiting on device and hot-plug descriptors and dispatching events.
    InEventLoop,
    /// Devices were lost: outputs reset, handles released, sleeping briefly.
    Cooldown,
}

/// What the session loop observed.
#[derive(Debug, Clone, Copy, PartialEq, Eq, Structural)]
pub enum SessionEvent {
    /// Device discovery finished and found this many devices.
    DevicesRefreshed { count: usize },
    /// The hot-plug monitor reported a change this long after process start,
    /// to a virtual device or not.
    HotplugChange { elapsed_ms: u64, virtual_device: bool },
    /// Reading pending events from one device failed.
    DeviceReadFailed,
    /// The emergency-stop key combination is fully held on the input side.
    EmergencyCombo,
    /// The cooldown sleep and hot-plug drain finished.
    CooldownFinished,
}

/// What the embedding loop must do after a step.
#[derive(Debug, Clone, Copy, PartialEq, Eq, Structural)]
pub enum SessionAction {
    /// Nothing special: keep waiting for events.
    Proceed,
    /// Tell the user that no device was found; the loop still enters the
    /// event loop so a later hot-plug can recover.
    NotifyNoDevices,
    /// Tell the user which devices were found.
    NotifyDevicesDetected,
    /// Notify the loss, reset every output, release the devices, sleep a
    /// jittered interval and drain the hot-plug backlog.
    BeginCooldown,
    /// Log the failed read and retry after a short backoff.
    RetryRead,
    /// Reset every output and terminate the process with the emergency exit
    /// status.
    StopProcess,
}

/// The transition relation of the session state machine.
pub open spec fn spec_session_step(phase: SessionPhase, event: SessionEvent) -> (
    SessionPhase,
    SessionAction,
) {
    match (phase, event) {
        (SessionPhase::Discovering, SessionEvent::DevicesRefreshed { count }) => (
            SessionPhase::InEventLoop,
            if count == 0 {
                SessionAction::NotifyNoDevices
            } else {
                SessionAction::NotifyDevicesDetected
            },
        ),
        (SessionPhase::InEventLoop, SessionEvent::HotplugChange { elapsed_ms, virtual_device }) => {
            if elapsed_ms < STARTUP_GRACE_MS && virtual_device {
                (SessionPhase::InEventLoop, SessionAction::Proceed)
            } else {
                (SessionPhase::Cooldown, SessionAction::BeginCooldown)
            }
        },
        (SessionPhase::InEventLoop, SessionEvent::DeviceReadFailed) => (
            SessionPhase::InEventLoop,
            SessionAction::RetryRead,
        ),
        (SessionPhase::InEventLoop, SessionEvent::EmergencyCombo) => (
            SessionPhase::InEventLoop,
            SessionAction::StopProcess,
        ),
        (SessionPhase::Cooldown, SessionEvent::CooldownFinished) => (
            SessionPhase::Discovering,
            SessionAction::Proceed,
        ),
        _ => (phase, SessionAction::Proceed),
    }
}

/// One step of the session state machine: from the current phase and an
/// observation to the next phase and what the loop must do.
pub fn session_step(phase: SessionPhase, event: &SessionEvent) -> (r: (
    SessionPhase,
    SessionAction,
))
    ensures
        r == spec_session_step(phase, *event),
{
    match (phase, event) {
        (SessionPhase::Discovering, SessionEvent::DevicesRefreshed { count }) => (
            SessionPhase::InEventLoop,
            if *count == 0 {
                SessionAction::NotifyNoDevices
            } else {
                SessionAction::NotifyDevicesDetected
            },
        ),
        (SessionPhase::InEventLoop, SessionEvent::HotplugChange { elapsed_ms, virtual_device }) => {
            if *elapsed_ms < STARTUP_GRACE_MS && *virtual_device {
                (SessionPhase::InEventLoop, SessionAction::Proceed)
            } else {
                (SessionPhase::Cooldown, SessionAction::BeginCooldown)
            }
        },
        (SessionPhase::InEventLoop, SessionEvent::DeviceReadFailed) => (
            SessionPhase::InEventLoop,
            SessionAction::RetryRead,
        ),
        (SessionPhase::InEventLoop, SessionEvent::EmergencyCombo) => (
            SessionPhase::InEventLoop,
            SessionAction::StopProcess,
        ),
        (SessionPhase::Cooldown, SessionEvent::CooldownFinished) => (
            SessionPhase::Discovering,
            SessionAction::Proceed,
        ),
        _ => (phase, SessionAction::Proceed),
    }
}

/// Relies on rand::random_range: a value uniformly distributed in the given
/// half-open range; it panics only on an empty range, which the precondition
/// excludes, and nothing beyond the bounds can be promised of a random
/// value.
#[verifier::external_body]
fn random_in_range(lo: u64, hi: u64) -> (r: u64)
    requires
        lo < hi,
    ensures
        lo <= r < hi,
{
    rand::random_range(lo..hi)
}

/// The jittered cooldown sleep: at least one second and under two, randomized
/// so several instances sharing a bus do not reconnect in lockstep.
pub fn cooldown_jitter_ms() -> (r: u64)
    ensures
        COOLDOWN_MIN_MS <= r < COOLDOWN_MAX_MS,
{
    random_in_range(COOLDOWN_MIN_MS, COOLDOWN_MAX_MS)
}

} // verus!
