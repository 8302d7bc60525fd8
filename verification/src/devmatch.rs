//! Device selection: compiled name and id patterns, and the filter that
//! decides which physical input devices a remapper session opens.

use vstd::prelude::*;

use crate::devices::EventCodes;
use crate::ec;
use crate::strutil::spec_starts_with;

verus! {

/// The name prefix of every virtual output device this library creates;
/// devices carrying it are never re-opened as inputs of a grabbing session.
pub const UINPUT_DEVICE_NAME_PREFIX: &'static str = "key-remapper";

/// What `regex::Regex::is_match` returns for a pattern and a haystack; the
/// result is a function of the two texts alone.
pub uninterp spec fn regex_match(pattern: Seq<char>, text: Seq<char>) -> bool;

#[verifier::external_type_specification]
#[verifier::external_body]
pub struct ExRegex(regex::Regex);

/// A compiled pattern together with its source text.
pub struct NamePattern {
    pattern: String,
    re: regex::Regex,
}

impl NamePattern {
    /// The source text this pattern was compiled from.
    pub closed spec fn spec_pattern(&self) -> Seq<char> {
        self.pattern@
    }

    /// Relies on regex::Regex::new: compiles the pattern, or reports that
    /// the pattern text is not a valid regular expression.
    #[verifier::external_body]
    pub fn compile(pattern: &str) -> (r: Option<NamePattern>)
        ensures
            r matches Some(p) ==> p.spec_pattern() == pattern@,
    {
        match regex::Regex::new(pattern) {
            Ok(re) => Some(NamePattern { pattern: pattern.to_owned(), re }),
            Err(_) => None,
        }
    }

    /// Relies on regex::Regex::is_match: true if and only if the pattern
    /// matches anywhere in `text`.
    #[verifier::external_body]
    pub fn is_match(&self, text: &str) -> (r: bool)
        ensures
            r == regex_match(self.spec_pattern(), text@),
    {
        self.re.is_match(text)
    }
}

/// Event types a plain keyboard may report besides keys.
pub open spec fn spec_keyboard_side_type(t: ec::EventType) -> bool {
    t == ec::EventType::EvSyn || t == ec::EventType::EvMsc || t == ec::EventType::EvLed || t
        == ec::EventType::EvRep
}

/// Every reported event type is a key or a keyboard side type.
pub open spec fn spec_keyboard_types_only(events: Seq<EventCodes>) -> bool {
    forall|i: int|
        0 <= i < events.len() ==> (#[trigger] events[i]).event_type == ec::EventType::EvKey
            || spec_keyboard_side_type(events[i].event_type)
}

/// Some reported event type is the key type.
pub open spec fn spec_has_key_events(events: Seq<EventCodes>) -> bool {
    exists|i: int| 0 <= i < events.len() && (#[trigger] events[i]).event_type == ec::EventType::EvKey
}

/// The device filter.  A device is selected when its name does not carry the
/// session's own output prefix, its name matches the name pattern, and — if
/// its id also matches the id pattern — it looks like a keyboard (unless
/// non-keyboard devices are allowed).  A virtual device of any remapper
/// instance is refused in grab mode.  A device whose id does not match the
/// id pattern is selected on the name match alone.
pub open spec fn spec_device_selected(
    name: Seq<char>,
    id_str: Seq<char>,
    events: Seq<EventCodes>,
    abs_count: nat,
    name_pattern: Seq<char>,
    id_pattern: Seq<char>,
    uinput_devices_prefix: Seq<char>,
    use_non_keyboard: bool,
    grab_devices: bool,
) -> bool {
    if spec_starts_with(name, uinput_devices_prefix) {
        false
    } else if !regex_match(name_pattern, name) {
        false
    } else if !regex_match(id_pattern, id_str) {
        true
    } else if !use_non_keyboard && abs_count > 0 {
        false
    } else if !use_non_keyboard && !spec_keyboard_types_only(events) {
        false
    } else if !(use_non_keyboard || spec_has_key_events(events)) {
        false
    } else if spec_starts_with(name, UINPUT_DEVICE_NAME_PREFIX@) && grab_devices {
        false
    } else {
        true
    }
}

/// Decide whether one enumerated device belongs to this session, from its
/// name, its vendor/product id string, and the event types it supports.
pub fn device_selected(
    name: &str,
    id_str: &str,
    events: &[EventCodes],
    abs_count: usize,
    name_pattern: &NamePattern,
    id_pattern: &NamePattern,
    uinput_devices_prefix: &str,
    use_non_keyboard: bool,
    grab_devices: bool,
) -> (r: bool)
    ensures
        r == spec_device_selected(
            name@,
            id_str@,
            events@,
            abs_count as nat,
            name_pattern.spec_pattern(),
            id_pattern.spec_pattern(),
            uinput_devices_prefix@,
            use_non_keyboard,
            grab_devices,
        ),
{
    if crate::strutil::str_starts_with(name, uinput_devices_prefix) {
        return false;
    }
    if !name_pattern.is_match(name) {
        return false;
    }
    if !id_pattern.is_match(id_str) {
        return true;
    }
    let mut select = false;
    if use_non_keyboard {
        select = true;
    } else if abs_count > 0 {
        return false;
    } else {
        let n = events.len();
        let mut i: usize = 0;
        while i < n
            invariant
                0 <= i <= n,
                n == events@.len(),
                !use_non_keyboard,
                abs_count == 0,
                !spec_starts_with(name@, uinput_devices_prefix@),
                regex_match(name_pattern.spec_pattern(), name@),
                regex_match(id_pattern.spec_pattern(), id_str@),
                forall|j: int|
                    0 <= j < i ==> (#[trigger] events@[j]).event_type == ec::EventType::EvKey
                        || spec_keyboard_side_type(events@[j].event_type),
                select == exists|j: int|
                    0 <= j < i && (#[trigger] events@[j]).event_type == ec::EventType::EvKey,
            decreases n - i,
        {
            let t = events[i].event_type;
            if t.code() == ec::EV_KEY {
                select = true;
            } else if t.code() == ec::EV_SYN || t.code() == ec::EV_MSC || t.code() == ec::EV_LED
                || t.code() == ec::EV_REP {
                // fine for a keyboard device to report these
            } else {
                proof {
                    assert(events@[i as int].event_type != ec::EventType::EvKey
                        && !spec_keyboard_side_type(events@[i as int].event_type));
                    assert(!spec_keyboard_types_only(events@));
                }
                return false;
            }
            proof {
                if select && !(exists|j: int|
                    0 <= j < i && (#[trigger] events@[j]).event_type == ec::EventType::EvKey)
                    && events@[i as int].event_type == ec::EventType::EvKey {
                    assert(exists|j: int|
                        0 <= j < i + 1 && (#[trigger] events@[j]).event_type
                            == ec::EventType::EvKey);
                }
            }
            i = i + 1;
        }
    }
    if !select {
        return false;
    }
    if crate::strutil::str_starts_with(name, UINPUT_DEVICE_NAME_PREFIX) && grab_devices {
        return false;
    }
    true
}

} // verus!
