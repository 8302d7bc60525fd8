//! The event value type: one hardware or synthetic input event, its
//! classification predicates, and the modifier-specification language used
//! to match events against required modifier combinations.

use vstd::prelude::*;

use crate::ec;
use crate::strutil;

verus! {

/// Which of the tracked modifiers were active when an event was dispatched.
/// `esc` is input-side only: this library lets remapper logic treat the
/// escape key as an extra user-defined modifier.
#[derive(Debug, Clone, Copy, PartialEq, Eq, Structural, Hash)]
pub struct ModifierSet {
    pub alt: bool,
    pub ctrl: bool,
    pub shift: bool,
    pub winkey: bool,
    pub esc: bool,
}

impl ModifierSet {
    /// The empty modifier set.
    pub fn none() -> (r: ModifierSet)
        ensures
            r == (ModifierSet { alt: false, ctrl: false, shift: false, winkey: false, esc: false }),
    {
        ModifierSet { alt: false, ctrl: false, shift: false, winkey: false, esc: false }
    }

    /// True when no modifier is active.
    pub open spec fn spec_is_empty(self) -> bool {
        !self.alt && !self.ctrl && !self.shift && !self.winkey && !self.esc
    }
}

/// How one modifier flag fares against a modifier specification: a mismatch
/// is tolerated only when the flag is not requested and the specification
/// carries the wildcard.
pub open spec fn spec_mod_flag_ok(current: bool, wanted: bool, wildcard: bool) -> bool {
    !(current != wanted && (wanted || !wildcard))
}

/// Whether an event's modifier set satisfies a modifier specification.
/// Each of `a c s w e` in the specification requires that modifier to be on;
/// an unlisted modifier must be off unless the wildcard `*` is present.
pub open spec fn spec_mods_match(mods: ModifierSet, spec: Seq<char>) -> bool {
    let wildcard = spec.contains('*');
    spec_mod_flag_ok(mods.alt, spec.contains('a'), wildcard)
        && spec_mod_flag_ok(mods.ctrl, spec.contains('c'), wildcard)
        && spec_mod_flag_ok(mods.shift, spec.contains('s'), wildcard)
        && spec_mod_flag_ok(mods.winkey, spec.contains('w'), wildcard)
        && spec_mod_flag_ok(mods.esc, spec.contains('e'), wildcard)
}

/// True when every character of `s` appears in `valid`.
pub open spec fn spec_valid_modifiers(s: Seq<char>, valid: Seq<char>) -> bool {
    forall|i: int| 0 <= i < s.len() ==> valid.contains(s[i])
}

/// Check a modifier specification against the set of accepted characters.
/// An invalid character is a programmer error; callers are expected to stop
/// when this returns false.
pub fn validate_modifiers(in_modifiers: &str, valid_modifiers: &str) -> (r: bool)
    ensures
        r == spec_valid_modifiers(in_modifiers@, valid_modifiers@),
{
    let len = in_modifiers.unicode_len();
    let mut i: usize = 0;
    while i < len
        invariant
            0 <= i <= len,
            len == in_modifiers@.len(),
            forall|j: int| 0 <= j < i ==> valid_modifiers@.contains(in_modifiers@[j]),
        decreases len - i,
    {
        if !strutil::str_contains_char(valid_modifiers, in_modifiers.get_char(i)) {
            return false;
        }
        i = i + 1;
    }
    true
}

/// Represents a single event of the OS input layer.
#[derive(Debug, Clone, Copy, PartialEq, Eq, Structural, Hash)]
pub struct InputEvent {
    pub time_sec: i64,
    pub time_usec: i64,
    pub event_type: ec::EventType,
    pub code: i32,
    pub value: i32,
    pub modifiers: ModifierSet,
}

impl InputEvent {
    /// True when this is a synchronization marker.
    pub open spec fn spec_is_syn_report(self) -> bool {
        self.event_type == ec::EventType::EvSyn && self.code == ec::SYN_REPORT && self.value == 0
    }

    /// True when this is a key event.
    pub open spec fn spec_is_key_event(self) -> bool {
        self.event_type == ec::EventType::EvKey
    }

    /// A key event's value must be 0 (released), 1 (pressed) or 2 (repeat);
    /// anything else is a hardware or programmer error.
    pub open spec fn spec_has_valid_key_value(self) -> bool {
        self.spec_is_key_event() ==> 0 <= self.value <= 2
    }

    /// The modifier set attached to this event.
    pub open spec fn spec_modifiers(self) -> ModifierSet {
        self.modifiers
    }

    /// Construct an event with an explicit timestamp and no modifiers.
    pub fn with_timestamp(time_sec: i64, time_usec: i64, event_type: ec::EventType, code: i32, value: i32) -> (r: InputEvent)
        ensures
            r == (InputEvent {
                time_sec,
                time_usec,
                event_type,
                code,
                value,
                modifiers: ModifierSet { alt: false, ctrl: false, shift: false, winkey: false, esc: false },
            }),
    {
        InputEvent {
            time_sec,
            time_usec,
            event_type,
            code,
            value,
            modifiers: ModifierSet::none(),
        }
    }

    /// Construct an event at time zero with no modifiers.
    pub fn new(event_type: ec::EventType, code: i32, value: i32) -> (r: InputEvent)
        ensures
            r == (InputEvent {
                time_sec: 0,
                time_usec: 0,
                event_type,
                code,
                value,
                modifiers: ModifierSet { alt: false, ctrl: false, shift: false, winkey: false, esc: false },
            }),
    {
        InputEvent::with_timestamp(0, 0, event_type, code, value)
    }

    /// The synchronization-marker event.
    pub fn new_syn_report() -> (r: InputEvent)
        ensures
            r == spec_syn_report(),
    {
        InputEvent::new(ec::EventType::EvSyn, ec::SYN_REPORT, 0)
    }

    /// A key event for `code` with the given value.
    pub fn new_key_event(code: i32, value: i32) -> (r: InputEvent)
        ensures
            r == spec_key_event(code, value),
    {
        InputEvent::new(ec::EventType::EvKey, code, value)
    }

    /// Attach the modifier snapshot taken when this event was read.  The
    /// event itself never computes its modifiers: the dispatch loop sets
    /// them from the input-side tracker, so that modifiers pressed on one
    /// keyboard apply to keys pressed on another.
    pub fn set_modifiers(&mut self, alt: bool, ctrl: bool, shift: bool, winkey: bool, esc: bool)
        ensures
            *final(self) == (InputEvent {
                modifiers: ModifierSet { alt, ctrl, shift, winkey, esc },
                ..*old(self)
            }),
    {
        self.modifiers = ModifierSet { alt, ctrl, shift, winkey, esc };
    }

    /// True when the alt modifier was on for this event.
    pub fn with_alt(&self) -> (r: bool)
        ensures
            r == self.spec_modifiers().alt,
    {
        self.modifiers.alt
    }

    /// True when the ctrl modifier was on for this event.
    pub fn with_ctrl(&self) -> (r: bool)
        ensures
            r == self.spec_modifiers().ctrl,
    {
        self.modifiers.ctrl
    }

    /// True when the shift modifier was on for this event.
    pub fn with_shift(&self) -> (r: bool)
        ensures
            r == self.spec_modifiers().shift,
    {
        self.modifiers.shift
    }

    /// True when the meta ("windows") modifier was on for this event.
    pub fn with_winkey(&self) -> (r: bool)
        ensures
            r == self.spec_modifiers().winkey,
    {
        self.modifiers.winkey
    }

    /// True when the escape pseudo-modifier was on for this event.
    pub fn with_esc(&self) -> (r: bool)
        ensures
            r == self.spec_modifiers().esc,
    {
        self.modifiers.esc
    }

    /// Whether this event's modifiers satisfy the specification `modifiers`.
    /// The specification must use only the characters `a c s w e *`.
    pub fn with_modifiers(&self, modifiers: &str) -> (r: bool)
        requires
            spec_valid_modifiers(modifiers@, "acswe*"@),
        ensures
            r == spec_mods_match(self.spec_modifiers(), modifiers@),
    {
        let wildcard = strutil::str_contains_char(modifiers, '*');
        let alt = strutil::str_contains_char(modifiers, 'a');
        let ctrl = strutil::str_contains_char(modifiers, 'c');
        let shift = strutil::str_contains_char(modifiers, 's');
        let win = strutil::str_contains_char(modifiers, 'w');
        let esc = strutil::str_contains_char(modifiers, 'e');

        if self.with_alt() != alt && (alt || !wildcard) {
            return false;
        }
        if self.with_ctrl() != ctrl && (ctrl || !wildcard) {
            return false;
        }
        if self.with_shift() != shift && (shift || !wildcard) {
            return false;
        }
        if self.with_winkey() != win && (win || !wildcard) {
            return false;
        }
        if self.with_esc() != esc && (esc || !wildcard) {
            return false;
        }
        true
    }

    /// True when this is a synchronization marker.
    pub fn is_syn_report(&self) -> (r: bool)
        ensures
            r == self.spec_is_syn_report(),
    {
        self.event_type.code() == ec::EV_SYN && self.code == ec::SYN_REPORT && self.value == 0
    }

    /// True when this is a key event.
    pub fn is_key_event(&self) -> (r: bool)
        ensures
            r == self.spec_is_key_event(),
    {
        self.event_type.code() == ec::EV_KEY
    }

    /// True when this is a key event for `key` whose modifiers satisfy the
    /// specification.
    pub fn is_key(&self, key: i32, modifiers: &str) -> (r: bool)
        requires
            spec_valid_modifiers(modifiers@, "acswe*"@),
        ensures
            r == (self.spec_is_key_event() && self.code == key
                && spec_mods_match(self.spec_modifiers(), modifiers@)),
    {
        self.is_key_event() && key == self.code && self.with_modifiers(modifiers)
    }

    /// True when this is a key event for any of `keys` whose modifiers
    /// satisfy the specification.
    pub fn is_any_key(&self, keys: &[i32], modifiers: &str) -> (r: bool)
        requires
            spec_valid_modifiers(modifiers@, "acswe*"@),
        ensures
            r == (self.spec_is_key_event() && keys@.contains(self.code)
                && spec_mods_match(self.spec_modifiers(), modifiers@)),
    {
        self.is_key_event() && strutil::slice_contains_i32(keys, self.code)
            && self.with_modifiers(modifiers)
    }

    /// True when this is a key-down (value 1) event for `key` under the
    /// modifier specification.
    pub fn is_key_down(&self, key: i32, modifiers: &str) -> (r: bool)
        requires
            spec_valid_modifiers(modifiers@, "acswe*"@),
        ensures
            r == (self.spec_is_key_event() && self.value == 1 && self.code == key
                && spec_mods_match(self.spec_modifiers(), modifiers@)),
    {
        self.is_key_event() && self.value == 1 && key == self.code
            && self.with_modifiers(modifiers)
    }

    /// True when this is a key-up (value 0) event for `key` under the
    /// modifier specification.
    pub fn is_key_up(&self, key: i32, modifiers: &str) -> (r: bool)
        requires
            spec_valid_modifiers(modifiers@, "acswe*"@),
        ensures
            r == (self.spec_is_key_event() && self.value == 0 && self.code == key
                && spec_mods_match(self.spec_modifiers(), modifiers@)),
    {
        self.is_key_event() && self.value == 0 && key == self.code
            && self.with_modifiers(modifiers)
    }

    /// True when this is a key-down or key-repeat (value > 0) event for
    /// `key` under the modifier specification.
    pub fn is_key_on(&self, key: i32, modifiers: &str) -> (r: bool)
        requires
            spec_valid_modifiers(modifiers@, "acswe*"@),
        ensures
            r == (self.spec_is_key_event() && self.value > 0 && self.code == key
                && spec_mods_match(self.spec_modifiers(), modifiers@)),
    {
        self.is_key_event() && self.value > 0 && key == self.code
            && self.with_modifiers(modifiers)
    }

    /// True when this is a key-down (value 1) event for any of `keys` under
    /// the modifier specification.
    pub fn is_any_key_down(&self, keys: &[i32], modifiers: &str) -> (r: bool)
        requires
            spec_valid_modifiers(modifiers@, "acswe*"@),
        ensures
            r == (self.spec_is_key_event() && self.value == 1 && keys@.contains(self.code)
                && spec_mods_match(self.spec_modifiers(), modifiers@)),
    {
        self.is_key_event() && self.value == 1 && strutil::slice_contains_i32(keys, self.code)
            && self.with_modifiers(modifiers)
    }

    /// True when this is a key-up (value 0) event for any of `keys` under
    /// the modifier specification.
    pub fn is_any_key_up(&self, keys: &[i32], modifiers: &str) -> (r: bool)
        requires
            spec_valid_modifiers(modifiers@, "acswe*"@),
        ensures
            r == (self.spec_is_key_event() && self.value == 0 && keys@.contains(self.code)
                && spec_mods_match(self.spec_modifiers(), modifiers@)),
    {
        self.is_key_event() && self.value == 0 && strutil::slice_contains_i32(keys, self.code)
            && self.with_modifiers(modifiers)
    }

    /// True when this is a key-down or key-repeat (value > 0) event for any
    /// of `keys` under the modifier specification.
    pub fn is_any_key_on(&self, keys: &[i32], modifiers: &str) -> (r: bool)
        requires
            spec_valid_modifiers(modifiers@, "acswe*"@),
        ensures
            r == (self.spec_is_key_event() && self.value > 0 && keys@.contains(self.code)
                && spec_mods_match(self.spec_modifiers(), modifiers@)),
    {
        self.is_key_event() && self.value > 0 && strutil::slice_contains_i32(keys, self.code)
            && self.with_modifiers(modifiers)
    }

    /// True when this is a key event with value 1 (pressed).
    pub fn is_key_down_event(&self) -> (r: bool)
        ensures
            r == (self.spec_is_key_event() && self.value == 1),
    {
        self.is_key_event() && self.value == 1
    }

    /// True when this is a key event with value 1 or 2 (held down).
    pub fn is_key_on_event(&self) -> (r: bool)
        ensures
            r == (self.spec_is_key_event() && self.value > 0),
    {
        self.is_key_event() && self.value > 0
    }

    /// True when this is a key event with value 0 (released).
    pub fn is_key_up_event(&self) -> (r: bool)
        ensures
            r == (self.spec_is_key_event() && self.value == 0),
    {
        self.is_key_event() && self.value == 0
    }

    /// True when this is an autorepeat-configuration event.
    pub fn is_rep_event(&self) -> (r: bool)
        ensures
            r == (self.event_type == ec::EventType::EvRep),
    {
        self.event_type.code() == ec::EV_REP
    }

    /// True when this is a miscellaneous event.
    pub fn is_msc_event(&self) -> (r: bool)
        ensures
            r == (self.event_type == ec::EventType::EvMsc),
    {
        self.event_type.code() == ec::EV_MSC
    }

    /// True when this is a relative-motion event.
    pub fn is_rel_event(&self) -> (r: bool)
        ensures
            r == (self.event_type == ec::EventType::EvRel),
    {
        self.event_type.code() == ec::EV_REL
    }

    /// True when this is an absolute-motion event.
    pub fn is_abs_event(&self) -> (r: bool)
        ensures
            r == (self.event_type == ec::EventType::EvAbs),
    {
        self.event_type.code() == ec::EV_ABS
    }
}

/// The displayed name of an event type: its symbolic name, or a bracketed
/// note with the numeric code when the library does not name it.
pub open spec fn spec_type_name_string(t: ec::EventType) -> Seq<char> {
    if ec::spec_type_name(ec::spec_type_code(t)).len() > 0 {
        ec::spec_type_name(ec::spec_type_code(t))
    } else {
        "[Unknown type "@ + strutil::spec_dec_int(ec::spec_type_code(t) as int) + "]"@
    }
}

/// The displayed name of an event code: its symbolic name, or a bracketed
/// note with the numeric code when the library does not name it.
pub open spec fn spec_code_name_string(t: ec::EventType, code: i32) -> Seq<char> {
    if ec::spec_code_name(ec::spec_type_code(t), code).len() > 0 {
        ec::spec_code_name(ec::spec_type_code(t), code)
    } else {
        "[Unknown code "@ + strutil::spec_dec_int(code as int) + "]"@
    }
}

/// The modifier suffix of an event's display string: empty when no modifier
/// is set, otherwise the set modifiers' letters in brackets.
pub open spec fn spec_modifier_suffix(m: ModifierSet) -> Seq<char> {
    if m.spec_is_empty() {
        Seq::<char>::empty()
    } else {
        " modifiers=["@ + (if m.alt {
            "a"@
        } else {
            Seq::<char>::empty()
        }) + (if m.ctrl {
            "c"@
        } else {
            Seq::<char>::empty()
        }) + (if m.shift {
            "s"@
        } else {
            Seq::<char>::empty()
        }) + (if m.winkey {
            "w"@
        } else {
            Seq::<char>::empty()
        }) + (if m.esc {
            "e"@
        } else {
            Seq::<char>::empty()
        }) + "]"@
    }
}

/// The display string of an event: its timestamp, type, code, value and
/// modifiers, or a synchronization-marker banner.
pub open spec fn spec_event_string(ev: InputEvent) -> Seq<char> {
    if ev.spec_is_syn_report() {
        "{InputEvent: time="@ + strutil::spec_dec_int(ev.time_sec as int) + "."@
            + strutil::spec_usec_field(ev.time_usec as int) + " ===== SYN_REPORT =====}"@
    } else {
        "{InputEvent: time="@ + strutil::spec_dec_int(ev.time_sec as int) + "."@
            + strutil::spec_usec_field(ev.time_usec as int) + " type="@ + spec_type_name_string(
            ev.event_type,
        ) + " code="@ + spec_code_name_string(ev.event_type, ev.code) + " value="@
            + strutil::spec_dec_int(ev.value as int) + spec_modifier_suffix(ev.modifiers) + "}"@
    }
}

impl InputEvent {
    /// The displayed name of this event's type.
    pub fn event_type_name(&self) -> (r: String)
        ensures
            r@ == spec_type_name_string(self.event_type),
    {
        let name = ec::get_type_name(self.event_type.code());
        if name.unicode_len() > 0 {
            String::from_str(name)
        } else {
            let mut out = String::from_str("[Unknown type ");
            let num = strutil::i32_to_dec(self.event_type.code());
            out.append(num.as_str());
            out.append("]");
            proof {
                assert(out@ =~= spec_type_name_string(self.event_type));
            }
            out
        }
    }

    /// The displayed name of this event's code.
    pub fn code_name(&self) -> (r: String)
        ensures
            r@ == spec_code_name_string(self.event_type, self.code),
    {
        let name = ec::get_code_name(self.event_type.code(), self.code);
        if name.unicode_len() > 0 {
            String::from_str(name)
        } else {
            let mut out = String::from_str("[Unknown code ");
            let num = strutil::i32_to_dec(self.code);
            out.append(num.as_str());
            out.append("]");
            proof {
                assert(out@ =~= spec_code_name_string(self.event_type, self.code));
            }
            out
        }
    }

    fn modifier_suffix(&self) -> (r: String)
        ensures
            r@ == spec_modifier_suffix(self.modifiers),
    {
        let m = self.modifiers;
        if !m.alt && !m.ctrl && !m.shift && !m.winkey && !m.esc {
            return String::new();
        }
        let mut out = String::from_str(" modifiers=[");
        if m.alt {
            out.append("a");
        }
        if m.ctrl {
            out.append("c");
        }
        if m.shift {
            out.append("s");
        }
        if m.winkey {
            out.append("w");
        }
        if m.esc {
            out.append("e");
        }
        out.append("]");
        proof {
            assert(out@ =~= spec_modifier_suffix(self.modifiers));
        }
        out
    }

    /// Render this event for humans: timestamp, type, code, value and
    /// modifiers, or a synchronization-marker banner.
    pub fn event_string(&self) -> (r: String)
        ensures
            r@ == spec_event_string(*self),
    {
        let mut out = String::from_str("{InputEvent: time=");
        let sec = strutil::i64_to_dec(self.time_sec);
        out.append(sec.as_str());
        out.append(".");
        let usec = strutil::usec_field(self.time_usec);
        out.append(usec.as_str());
        if self.is_syn_report() {
            out.append(" ===== SYN_REPORT =====}");
            proof {
                assert(out@ =~= spec_event_string(*self));
            }
            return out;
        }
        out.append(" type=");
        let tn = self.event_type_name();
        out.append(tn.as_str());
        out.append(" code=");
        let cn = self.code_name();
        out.append(cn.as_str());
        out.append(" value=");
        let vs = strutil::i32_to_dec(self.value);
        out.append(vs.as_str());
        let ms = self.modifier_suffix();
        out.append(ms.as_str());
        out.append("}");
        proof {
            assert(out@ =~= spec_event_string(*self));
        }
        out
    }
}

/// The synchronization-marker event value.
pub open spec fn spec_syn_report() -> InputEvent {
    InputEvent {
        time_sec: 0,
        time_usec: 0,
        event_type: ec::EventType::EvSyn,
        code: ec::SYN_REPORT,
        value: 0,
        modifiers: ModifierSet { alt: false, ctrl: false, shift: false, winkey: false, esc: false },
    }
}

/// A key event value for `code` and `value` at time zero with no modifiers.
pub open spec fn spec_key_event(code: i32, value: i32) -> InputEvent {
    InputEvent {
        time_sec: 0,
        time_usec: 0,
        event_type: ec::EventType::EvKey,
        code,
        value,
        modifiers: ModifierSet { alt: false, ctrl: false, shift: false, winkey: false, esc: false },
    }
}

/// The three shapes of key transition a remapper matches against.
#[derive(Debug, Clone, Copy, PartialEq, Eq, Structural)]
pub enum KeyEventType {
    Pressed,
    Released,
    Down,
}

impl KeyEventType {
    /// Whether the event is a key event with the transition this selector
    /// stands for: `Pressed` is value 1, `Released` is value 0, and `Down`
    /// is value 1 or 2.
    pub fn match_event(&self, ev: &InputEvent) -> (r: bool)
        ensures
            r == match *self {
                KeyEventType::Pressed => ev.spec_is_key_event() && ev.value == 1,
                KeyEventType::Released => ev.spec_is_key_event() && ev.value == 0,
                KeyEventType::Down => ev.spec_is_key_event() && ev.value > 0,
            },
    {
        match self {
            KeyEventType::Pressed => ev.is_key_down_event(),
            KeyEventType::Released => ev.is_key_up_event(),
            KeyEventType::Down => ev.is_key_on_event(),
        }
    }
}

} // verus!
