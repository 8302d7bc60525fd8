//! The input-side key-state query API: a tracker fed exclusively by
//! physical-device events, with the convenience queries remapper callbacks
//! use to build key-combo logic, the modifier tagging performed before each
//! event is dispatched, and the emergency-stop combination check.

use vstd::prelude::*;

use crate::ec;
use crate::event::{InputEvent, ModifierSet};
use crate::tracker::{spec_record, ts_init, ts_key, InputEventTracker, TrackState};

verus! {

/// Whether the input side currently sees either key of a left/right pair —
/// or a single key — held down.
pub open spec fn spec_key_on(s: TrackState, code: i32) -> bool {
    ts_key(s, code) > 0
}

/// The modifier snapshot the dispatch loop attaches to each event before a
/// callback sees it.
pub open spec fn spec_modifier_snapshot(s: TrackState) -> ModifierSet {
    ModifierSet {
        alt: spec_key_on(s, ec::KEY_LEFTALT) || spec_key_on(s, ec::KEY_RIGHTALT),
        ctrl: spec_key_on(s, ec::KEY_LEFTCTRL) || spec_key_on(s, ec::KEY_RIGHTCTRL),
        shift: spec_key_on(s, ec::KEY_LEFTSHIFT) || spec_key_on(s, ec::KEY_RIGHTSHIFT),
        winkey: spec_key_on(s, ec::KEY_LEFTMETA) || spec_key_on(s, ec::KEY_RIGHTMETA),
        esc: spec_key_on(s, ec::KEY_ESC),
    }
}

/// All of the given codes are held down.
pub open spec fn spec_all_held(s: TrackState, codes: Seq<i32>) -> bool {
    forall|i: int| 0 <= i < codes.len() ==> ts_key(s, #[trigger] codes[i]) > 0
}

/// The key state of the physical input side, fed by the dispatch loop and
/// read by remapper callbacks.
pub struct InputState {
    tracker: InputEventTracker,
}

impl View for InputState {
    type V = TrackState;

    closed spec fn view(&self) -> TrackState {
        self.tracker@
    }
}

impl InputState {
    /// Internal consistency of the tracker table.
    pub closed spec fn wf(&self) -> bool {
        self.tracker.wf()
    }

    /// A fresh input tracker: nothing held.
    pub fn new() -> (r: InputState)
        ensures
            r.wf(),
            r@ == ts_init(),
    {
        InputState { tracker: InputEventTracker::new() }
    }

    /// Record one event read from a physical device.
    pub fn on_event(&mut self, ev: &InputEvent)
        requires
            old(self).wf(),
            ev.spec_has_valid_key_value(),
        ensures
            final(self).wf(),
            final(self)@ == spec_record(old(self)@, *ev),
    {
        self.tracker.on_event_sent(ev);
    }

    /// The last value a physical device reported for `code`, 0 when none.
    pub fn get_in_key_state(&self, code: i32) -> (r: i32)
        requires
            self.wf(),
        ensures
            r == ts_key(self@, code),
    {
        self.tracker.key_state(code)
    }

    /// True when the input side sees `code` held down.
    pub fn is_key_on(&self, code: i32) -> (r: bool)
        requires
            self.wf(),
        ensures
            r == spec_key_on(self@, code),
    {
        self.get_in_key_state(code) > 0
    }

    /// True when either alt key is held.
    pub fn is_alt_on(&self) -> (r: bool)
        requires
            self.wf(),
        ensures
            r == (spec_key_on(self@, ec::KEY_LEFTALT) || spec_key_on(self@, ec::KEY_RIGHTALT)),
    {
        self.is_key_on(ec::KEY_LEFTALT) || self.is_key_on(ec::KEY_RIGHTALT)
    }

    /// True when either ctrl key is held.
    pub fn is_ctrl_on(&self) -> (r: bool)
        requires
            self.wf(),
        ensures
            r == (spec_key_on(self@, ec::KEY_LEFTCTRL) || spec_key_on(self@, ec::KEY_RIGHTCTRL)),
    {
        self.is_key_on(ec::KEY_LEFTCTRL) || self.is_key_on(ec::KEY_RIGHTCTRL)
    }

    /// True when either shift key is held.
    pub fn is_shift_on(&self) -> (r: bool)
        requires
            self.wf(),
        ensures
            r == (spec_key_on(self@, ec::KEY_LEFTSHIFT) || spec_key_on(self@, ec::KEY_RIGHTSHIFT)),
    {
        self.is_key_on(ec::KEY_LEFTSHIFT) || self.is_key_on(ec::KEY_RIGHTSHIFT)
    }

    /// True when either meta ("windows") key is held.
    pub fn is_winkey_on(&self) -> (r: bool)
        requires
            self.wf(),
        ensures
            r == (spec_key_on(self@, ec::KEY_LEFTMETA) || spec_key_on(self@, ec::KEY_RIGHTMETA)),
    {
        self.is_key_on(ec::KEY_LEFTMETA) || self.is_key_on(ec::KEY_RIGHTMETA)
    }

    /// True when escape is held; this library lets remappers treat escape as
    /// an extra user-defined modifier.
    pub fn is_esc_on(&self) -> (r: bool)
        requires
            self.wf(),
        ensures
            r == spec_key_on(self@, ec::KEY_ESC),
    {
        self.is_key_on(ec::KEY_ESC)
    }

    /// The current modifier snapshot.
    pub fn modifier_snapshot(&self) -> (r: ModifierSet)
        requires
            self.wf(),
        ensures
            r == spec_modifier_snapshot(self@),
    {
        ModifierSet {
            alt: self.is_alt_on(),
            ctrl: self.is_ctrl_on(),
            shift: self.is_shift_on(),
            winkey: self.is_winkey_on(),
            esc: self.is_esc_on(),
        }
    }

    /// True when every one of `codes` is held at once.
    pub fn is_combo_held(&self, codes: &[i32]) -> (r: bool)
        requires
            self.wf(),
        ensures
            r == spec_all_held(self@, codes@),
    {
        let n = codes.len();
        let mut i: usize = 0;
        while i < n
            invariant
                0 <= i <= n,
                n == codes@.len(),
                self.wf(),
                forall|j: int| 0 <= j < i ==> ts_key(self@, #[trigger] codes@[j]) > 0,
            decreases n - i,
        {
            if !self.is_key_on(codes[i]) {
                return false;
            }
            i = i + 1;
        }
        true
    }

    /// One dispatch step: record the event on the input tracker, tag it with
    /// the modifier snapshot of the updated state, and report whether the
    /// emergency-stop combination is now fully held.  The tagged event is
    /// what a remapper callback receives.
    pub fn process_event(&mut self, ev: &InputEvent) -> (r: (InputEvent, bool))
        requires
            old(self).wf(),
            ev.spec_has_valid_key_value(),
        ensures
            final(self).wf(),
            final(self)@ == spec_record(old(self)@, *ev),
            r.0 == (InputEvent {
                modifiers: spec_modifier_snapshot(final(self)@),
                ..*ev
            }),
            r.1 == spec_all_held(final(self)@, ec::spec_emergency_combo()),
    {
        self.on_event(ev);
        let snapshot = self.modifier_snapshot();
        let mut tagged = *ev;
        tagged.set_modifiers(
            snapshot.alt,
            snapshot.ctrl,
            snapshot.shift,
            snapshot.winkey,
            snapshot.esc,
        );
        let combo = ec::emergency_combo();
        let emergency = self.is_combo_held(combo.as_slice());
        (tagged, emergency)
    }
}

} // verus!
