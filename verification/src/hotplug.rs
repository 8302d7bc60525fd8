//! Device hot-plug change events as delivered by the device-change monitor,
//! and the rule deciding when a change must trigger a reconnect.

use vstd::prelude::*;

use crate::strutil;

verus! {

/// How long after process start changes to virtual devices are ignored, so
/// the session does not react to the creation of its own output devices.
pub const STARTUP_GRACE_MS: u64 = 2000;

/// What a hot-plug change did.
#[derive(Debug, Clone)]
pub enum UdevAction {
    Add,
    Remove,
    Unknown(String),
}

impl UdevAction {
    /// Decode the action string of a change event.
    pub fn from_string(action: &str) -> (r: UdevAction)
        ensures
            action@ == "add"@ ==> r is Add,
            action@ == "remove"@ ==> r is Remove,
            action@ != "add"@ && action@ != "remove"@ ==> (r matches UdevAction::Unknown(any)
                && any@ == action@),
    {
        proof {
            reveal_strlit("add");
            reveal_strlit("remove");
            assert("add"@.len() == 3);
            assert("remove"@.len() == 6);
        }
        if strutil::str_eq(action, "add") {
            UdevAction::Add
        } else if strutil::str_eq(action, "remove") {
            UdevAction::Remove
        } else {
            UdevAction::Unknown(String::from_str(action))
        }
    }
}

/// One hot-plug change: what happened, the device's name, and its device
/// path in the OS device tree.
#[derive(Debug, Clone)]
pub struct UdevEvent {
    pub action: UdevAction,
    pub name: String,
    pub path: String,
}

/// The errors of the device-change monitor.
#[derive(Debug, Clone)]
pub enum UdevError {
    /// An OS call failed: the message and the error number.
    ErrnoError(String, i32),
    /// A failure with no error number.
    UnknownError(String),
    /// A failure wrapping another error's description.
    UnknownErrorWithInner(String, String),
}

impl UdevError {
    /// An error carrying the message and an OS error number.
    pub fn from_errno(msg: &str, errno: i32) -> (r: UdevError)
        ensures
            r matches UdevError::ErrnoError(m, e) && m@ == msg@ && e == errno,
    {
        UdevError::ErrnoError(String::from_str(msg), errno)
    }

    /// An error carrying only a message.
    pub fn new_unknown_error(msg: &str) -> (r: UdevError)
        ensures
            r matches UdevError::UnknownError(m) && m@ == msg@,
    {
        UdevError::UnknownError(String::from_str(msg))
    }

    /// An error carrying a message and the description of an inner error.
    pub fn new_unknown_error_with_inner(msg: &str, inner: &str) -> (r: UdevError)
        ensures
            r matches UdevError::UnknownErrorWithInner(m, e) && m@ == msg@ && e@ == inner@,
    {
        UdevError::UnknownErrorWithInner(String::from_str(msg), String::from_str(inner))
    }
}

/// A change is ignored when it happens within the startup grace period and
/// concerns a virtual device: right after start the session would otherwise
/// react to the creation of its own synthesized output devices.
pub open spec fn spec_ignore_hotplug(elapsed_ms: u64, path: Seq<char>) -> bool {
    elapsed_ms < STARTUP_GRACE_MS && strutil::spec_starts_with(path, "/devices/virtual/"@)
}

/// Decide whether a hot-plug change may be ignored, from the time since
/// process start and the changed device's path.
pub fn should_ignore_hotplug(elapsed_ms: u64, path: &str) -> (r: bool)
    ensures
        r == spec_ignore_hotplug(elapsed_ms, path@),
{
    elapsed_ms < STARTUP_GRACE_MS && strutil::str_starts_with(path, "/devices/virtual/")
}

} // verus!
