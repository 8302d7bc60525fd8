//! Event-type and event-code constants of the OS input subsystem, with the
//! classification helpers the rest of the library builds on.

use vstd::prelude::*;

verus! {

// Event type codes.
pub const EV_SYN: i32 = 0x00;
pub const EV_KEY: i32 = 0x01;
pub const EV_REL: i32 = 0x02;
pub const EV_ABS: i32 = 0x03;
pub const EV_MSC: i32 = 0x04;
pub const EV_SW: i32 = 0x05;
pub const EV_LED: i32 = 0x11;
pub const EV_SND: i32 = 0x12;
pub const EV_REP: i32 = 0x14;
pub const EV_FF: i32 = 0x15;
pub const EV_PWR: i32 = 0x16;
pub const EV_FF_STATUS: i32 = 0x17;

// Synchronization codes.
pub const SYN_REPORT: i32 = 0;

// Key codes used by the library itself (modifier keys, the emergency-stop
// combination, and a few common keys).
pub const KEY_ESC: i32 = 1;
pub const KEY_LEFTCTRL: i32 = 29;
pub const KEY_A: i32 = 30;
pub const KEY_LEFTSHIFT: i32 = 42;
pub const KEY_Z: i32 = 44;
pub const KEY_X: i32 = 45;
pub const KEY_C: i32 = 46;
pub const KEY_RIGHTSHIFT: i32 = 54;
pub const KEY_LEFTALT: i32 = 56;
pub const KEY_RIGHTCTRL: i32 = 97;
pub const KEY_RIGHTALT: i32 = 100;
pub const KEY_LEFTMETA: i32 = 125;
pub const KEY_RIGHTMETA: i32 = 126;
pub const KEY_MAX: i32 = 0x2ff;

// Mouse button codes.
pub const BTN_MOUSE: i32 = 0x110;
pub const BTN_LEFT: i32 = 0x110;
pub const BTN_RIGHT: i32 = 0x111;
pub const BTN_MIDDLE: i32 = 0x112;
pub const BTN_SIDE: i32 = 0x113;
pub const BTN_EXTRA: i32 = 0x114;
pub const BTN_FORWARD: i32 = 0x115;
pub const BTN_BACK: i32 = 0x116;
pub const BTN_1: i32 = 0x101;

// Relative axis codes.
pub const REL_X: i32 = 0x00;
pub const REL_Y: i32 = 0x01;
pub const REL_Z: i32 = 0x02;
pub const REL_RX: i32 = 0x03;
pub const REL_RY: i32 = 0x04;
pub const REL_RZ: i32 = 0x05;
pub const REL_HWHEEL: i32 = 0x06;
pub const REL_DIAL: i32 = 0x07;
pub const REL_WHEEL: i32 = 0x08;
pub const REL_MISC: i32 = 0x09;
pub const REL_WHEEL_HI_RES: i32 = 0x0b;
pub const REL_HWHEEL_HI_RES: i32 = 0x0c;

/// The closed set of event kinds the OS input layer delivers.
#[derive(Debug, Clone, Copy, PartialEq, Eq, Structural, Hash)]
pub enum EventType {
    EvSyn,
    EvKey,
    EvRel,
    EvAbs,
    EvMsc,
    EvSw,
    EvLed,
    EvSnd,
    EvRep,
    EvFf,
    EvPwr,
    EvFfStatus,
}

/// True when `t` is the numeric code of a known event type.
pub open spec fn is_event_type_code(t: i32) -> bool {
    t == EV_SYN || t == EV_KEY || t == EV_REL || t == EV_ABS || t == EV_MSC
        || t == EV_SW || t == EV_LED || t == EV_SND || t == EV_REP || t == EV_FF
        || t == EV_PWR || t == EV_FF_STATUS
}

/// The numeric code of an event type.
pub open spec fn spec_type_code(t: EventType) -> i32 {
    match t {
        EventType::EvSyn => EV_SYN,
        EventType::EvKey => EV_KEY,
        EventType::EvRel => EV_REL,
        EventType::EvAbs => EV_ABS,
        EventType::EvMsc => EV_MSC,
        EventType::EvSw => EV_SW,
        EventType::EvLed => EV_LED,
        EventType::EvSnd => EV_SND,
        EventType::EvRep => EV_REP,
        EventType::EvFf => EV_FF,
        EventType::EvPwr => EV_PWR,
        EventType::EvFfStatus => EV_FF_STATUS,
    }
}

impl EventType {
    /// The numeric code the OS uses for this event type.
    pub fn code(self) -> (r: i32)
        ensures
            r == spec_type_code(self),
    {
        match self {
            EventType::EvSyn => EV_SYN,
            EventType::EvKey => EV_KEY,
            EventType::EvRel => EV_REL,
            EventType::EvAbs => EV_ABS,
            EventType::EvMsc => EV_MSC,
            EventType::EvSw => EV_SW,
            EventType::EvLed => EV_LED,
            EventType::EvSnd => EV_SND,
            EventType::EvRep => EV_REP,
            EventType::EvFf => EV_FF,
            EventType::EvPwr => EV_PWR,
            EventType::EvFfStatus => EV_FF_STATUS,
        }
    }

    /// Decode a numeric event-type code.  Unknown codes are a hardware or
    /// programmer error and are excluded by the precondition.
    pub fn from_i32(type_: i32) -> (r: EventType)
        requires
            is_event_type_code(type_),
        ensures
            spec_type_code(r) == type_,
    {
        if type_ == EV_SYN {
            EventType::EvSyn
        } else if type_ == EV_KEY {
            EventType::EvKey
        } else if type_ == EV_REL {
            EventType::EvRel
        } else if type_ == EV_ABS {
            EventType::EvAbs
        } else if type_ == EV_MSC {
            EventType::EvMsc
        } else if type_ == EV_SW {
            EventType::EvSw
        } else if type_ == EV_LED {
            EventType::EvLed
        } else if type_ == EV_SND {
            EventType::EvSnd
        } else if type_ == EV_REP {
            EventType::EvRep
        } else if type_ == EV_FF {
            EventType::EvFf
        } else if type_ == EV_PWR {
            EventType::EvPwr
        } else {
            EventType::EvFfStatus
        }
    }
}

/// Name of an event type, or the empty string for an unknown code.
pub open spec fn spec_type_name(t: i32) -> Seq<char> {
    if t == EV_SYN {
        "EV_SYN"@
    } else if t == EV_KEY {
        "EV_KEY"@
    } else if t == EV_REL {
        "EV_REL"@
    } else if t == EV_ABS {
        "EV_ABS"@
    } else if t == EV_MSC {
        "EV_MSC"@
    } else if t == EV_SW {
        "EV_SW"@
    } else if t == EV_LED {
        "EV_LED"@
    } else if t == EV_SND {
        "EV_SND"@
    } else if t == EV_REP {
        "EV_REP"@
    } else if t == EV_FF {
        "EV_FF"@
    } else if t == EV_PWR {
        "EV_PWR"@
    } else if t == EV_FF_STATUS {
        "EV_FF_STATUS"@
    } else {
        ""@
    }
}

/// Look up the symbolic name of an event type code; empty for unknown codes.
pub fn get_type_name(type_: i32) -> (r: &'static str)
    ensures
        r@ == spec_type_name(type_),
{
    if type_ == EV_SYN {
        "EV_SYN"
    } else if type_ == EV_KEY {
        "EV_KEY"
    } else if type_ == EV_REL {
        "EV_REL"
    } else if type_ == EV_ABS {
        "EV_ABS"
    } else if type_ == EV_MSC {
        "EV_MSC"
    } else if type_ == EV_SW {
        "EV_SW"
    } else if type_ == EV_LED {
        "EV_LED"
    } else if type_ == EV_SND {
        "EV_SND"
    } else if type_ == EV_REP {
        "EV_REP"
    } else if type_ == EV_FF {
        "EV_FF"
    } else if type_ == EV_PWR {
        "EV_PWR"
    } else if type_ == EV_FF_STATUS {
        "EV_FF_STATUS"
    } else {
        ""
    }
}

/// Name of an event code within its type, or empty when the code is not one
/// this library names.
pub open spec fn spec_code_name(t: i32, code: i32) -> Seq<char> {
    if t == EV_SYN {
        if code == SYN_REPORT {
            "SYN_REPORT"@
        } else {
            ""@
        }
    } else if t == EV_KEY {
        if code == KEY_ESC {
            "KEY_ESC"@
        } else if code == KEY_LEFTCTRL {
            "KEY_LEFTCTRL"@
        } else if code == KEY_A {
            "KEY_A"@
        } else if code == KEY_LEFTSHIFT {
            "KEY_LEFTSHIFT"@
        } else if code == KEY_Z {
            "KEY_Z"@
        } else if code == KEY_X {
            "KEY_X"@
        } else if code == KEY_C {
            "KEY_C"@
        } else if code == KEY_RIGHTSHIFT {
            "KEY_RIGHTSHIFT"@
        } else if code == KEY_LEFTALT {
            "KEY_LEFTALT"@
        } else if code == KEY_RIGHTCTRL {
            "KEY_RIGHTCTRL"@
        } else if code == KEY_RIGHTALT {
            "KEY_RIGHTALT"@
        } else if code == KEY_LEFTMETA {
            "KEY_LEFTMETA"@
        } else if code == KEY_RIGHTMETA {
            "KEY_RIGHTMETA"@
        } else if code == BTN_1 {
            "BTN_1"@
        } else if code == BTN_LEFT {
            "BTN_LEFT"@
        } else if code == BTN_RIGHT {
            "BTN_RIGHT"@
        } else if code == BTN_MIDDLE {
            "BTN_MIDDLE"@
        } else if code == BTN_SIDE {
            "BTN_SIDE"@
        } else if code == BTN_EXTRA {
            "BTN_EXTRA"@
        } else if code == BTN_FORWARD {
            "BTN_FORWARD"@
        } else if code == BTN_BACK {
            "BTN_BACK"@
        } else {
            ""@
        }
    } else if t == EV_REL {
        if code == REL_X {
            "REL_X"@
        } else if code == REL_Y {
            "REL_Y"@
        } else if code == REL_Z {
            "REL_Z"@
        } else if code == REL_RX {
            "REL_RX"@
        } else if code == REL_RY {
            "REL_RY"@
        } else if code == REL_RZ {
            "REL_RZ"@
        } else if code == REL_HWHEEL {
            "REL_HWHEEL"@
        } else if code == REL_DIAL {
            "REL_DIAL"@
        } else if code == REL_WHEEL {
            "REL_WHEEL"@
        } else if code == REL_MISC {
            "REL_MISC"@
        } else if code == REL_WHEEL_HI_RES {
            "REL_WHEEL_HI_RES"@
        } else if code == REL_HWHEEL_HI_RES {
            "REL_HWHEEL_HI_RES"@
        } else {
            ""@
        }
    } else {
        ""@
    }
}

/// Look up the symbolic name of an event code; empty when the library does
/// not name it.
pub fn get_code_name(type_: i32, code: i32) -> (r: &'static str)
    ensures
        r@ == spec_code_name(type_, code),
{
    if type_ == EV_SYN {
        if code == SYN_REPORT {
            "SYN_REPORT"
        } else {
            ""
        }
    } else if type_ == EV_KEY {
        if code == KEY_ESC {
            "KEY_ESC"
        } else if code == KEY_LEFTCTRL {
            "KEY_LEFTCTRL"
        } else if code == KEY_A {
            "KEY_A"
        } else if code == KEY_LEFTSHIFT {
            "KEY_LEFTSHIFT"
        } else if code == KEY_Z {
            "KEY_Z"
        } else if code == KEY_X {
            "KEY_X"
        } else if code == KEY_C {
            "KEY_C"
        } else if code == KEY_RIGHTSHIFT {
            "KEY_RIGHTSHIFT"
        } else if code == KEY_LEFTALT {
            "KEY_LEFTALT"
        } else if code == KEY_RIGHTCTRL {
            "KEY_RIGHTCTRL"
        } else if code == KEY_RIGHTALT {
            "KEY_RIGHTALT"
        } else if code == KEY_LEFTMETA {
            "KEY_LEFTMETA"
        } else if code == KEY_RIGHTMETA {
            "KEY_RIGHTMETA"
        } else if code == BTN_1 {
            "BTN_1"
        } else if code == BTN_LEFT {
            "BTN_LEFT"
        } else if code == BTN_RIGHT {
            "BTN_RIGHT"
        } else if code == BTN_MIDDLE {
            "BTN_MIDDLE"
        } else if code == BTN_SIDE {
            "BTN_SIDE"
        } else if code == BTN_EXTRA {
            "BTN_EXTRA"
        } else if code == BTN_FORWARD {
            "BTN_FORWARD"
        } else if code == BTN_BACK {
            "BTN_BACK"
        } else {
            ""
        }
    } else if type_ == EV_REL {
        if code == REL_X {
            "REL_X"
        } else if code == REL_Y {
            "REL_Y"
        } else if code == REL_Z {
            "REL_Z"
        } else if code == REL_RX {
            "REL_RX"
        } else if code == REL_RY {
            "REL_RY"
        } else if code == REL_RZ {
            "REL_RZ"
        } else if code == REL_HWHEEL {
            "REL_HWHEEL"
        } else if code == REL_DIAL {
            "REL_DIAL"
        } else if code == REL_WHEEL {
            "REL_WHEEL"
        } else if code == REL_MISC {
            "REL_MISC"
        } else if code == REL_WHEEL_HI_RES {
            "REL_WHEEL_HI_RES"
        } else if code == REL_HWHEEL_HI_RES {
            "REL_HWHEEL_HI_RES"
        } else {
            ""
        }
    } else {
        ""
    }
}

/// The eight modifier key codes, in the fixed order used by the modifier
/// snapshot/restore protocol: left/right alt, ctrl, shift, meta.
pub open spec fn spec_modifier_keys() -> Seq<i32> {
    seq![
        KEY_LEFTALT,
        KEY_RIGHTALT,
        KEY_LEFTCTRL,
        KEY_RIGHTCTRL,
        KEY_LEFTSHIFT,
        KEY_RIGHTSHIFT,
        KEY_LEFTMETA,
        KEY_RIGHTMETA,
    ]
}

/// True when `code` is one of the eight modifier keys.
pub open spec fn is_modifier_key(code: i32) -> bool {
    spec_modifier_keys().contains(code)
}

/// The eight modifier key codes as a vector, in snapshot order.
pub fn modifier_keys() -> (r: Vec<i32>)
    ensures
        r@ == spec_modifier_keys(),
{
    let r = vec![
        KEY_LEFTALT,
        KEY_RIGHTALT,
        KEY_LEFTCTRL,
        KEY_RIGHTCTRL,
        KEY_LEFTSHIFT,
        KEY_RIGHTSHIFT,
        KEY_LEFTMETA,
        KEY_RIGHTMETA,
    ];
    proof {
        assert(r@ =~= spec_modifier_keys());
    }
    r
}

/// The eight modifier key codes are pairwise distinct.
pub proof fn lemma_modifier_keys_distinct()
    ensures
        forall|i: int, j: int|
            0 <= i < j < spec_modifier_keys().len() ==> spec_modifier_keys()[i]
                != spec_modifier_keys()[j],
{
    assert forall|i: int, j: int|
        0 <= i < j < spec_modifier_keys().len() implies spec_modifier_keys()[i]
        != spec_modifier_keys()[j] by {
        let m = spec_modifier_keys();
        assert(m[0] == KEY_LEFTALT && m[1] == KEY_RIGHTALT && m[2] == KEY_LEFTCTRL && m[3]
            == KEY_RIGHTCTRL && m[4] == KEY_LEFTSHIFT && m[5] == KEY_RIGHTSHIFT && m[6]
            == KEY_LEFTMETA && m[7] == KEY_RIGHTMETA);
    }
}

/// The key combination that triggers an emergency stop when all of its keys
/// are held at once on the input side.
pub open spec fn spec_emergency_combo() -> Seq<i32> {
    seq![KEY_Z, KEY_X, KEY_C, KEY_LEFTSHIFT, KEY_LEFTALT]
}

/// The emergency-stop key combination as a vector.
pub fn emergency_combo() -> (r: Vec<i32>)
    ensures
        r@ == spec_emergency_combo(),
{
    let r = vec![KEY_Z, KEY_X, KEY_C, KEY_LEFTSHIFT, KEY_LEFTALT];
    proof {
        assert(r@ =~= spec_emergency_combo());
    }
    r
}

/// Every key code from 0 through `KEY_MAX`, for configuring an output device
/// that must accept any key event.
pub fn all_key_codes() -> (r: Vec<i32>)
    ensures
        r@.len() == KEY_MAX + 1,
        forall|i: int| 0 <= i < r@.len() ==> r@[i] == i,
{
    let mut r: Vec<i32> = Vec::new();
    let mut code: i32 = 0;
    while code <= KEY_MAX
        invariant
            0 <= code <= KEY_MAX + 1,
            r@.len() == code,
            forall|i: int| 0 <= i < r@.len() ==> r@[i] == i,
        decreases KEY_MAX - code + 1,
    {
        r.push(code);
        code = code + 1;
    }
    r
}

} // verus!
