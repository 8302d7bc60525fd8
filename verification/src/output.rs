//! The output sink: wraps the event state tracker of one synthesized output
//! device.  Every send is deduplicated against the tracker, batches are
//! terminated by exactly one synchronization marker, and the modifier
//! snapshot/restore protocol injects a key press under an exact modifier
//! combination and then restores the previous modifier state.
//!
//! The sink plans writes: each operation returns the events that must be
//! transmitted to the OS-level device, in order, and updates the tracker as
//! if they were.  The embedding program performs the actual writes.

use vstd::prelude::*;

use crate::ec;
use crate::event::{spec_key_event, spec_syn_report, spec_valid_modifiers, InputEvent};
use crate::strutil;
use crate::tracker::{
    all_valid_key_values, lemma_run_concat, lemma_run_one, lemma_run_push, spec_accepted,
    spec_record, spec_release_seq, spec_run, spec_should_send, ts_init, ts_key, InputEventTracker,
    TrackState,
};

verus! {

/// A batch as transmitted: the given events, terminated by a synchronization
/// marker when the batch does not already end in one.
pub open spec fn spec_batch(evs: Seq<InputEvent>) -> Seq<InputEvent> {
    if evs.len() > 0 && evs.last().spec_is_syn_report() {
        evs
    } else {
        evs.push(spec_syn_report())
    }
}

/// Key events built from (code, value) pairs.
pub open spec fn spec_key_events_of(cvs: Seq<(i32, i32)>) -> Seq<InputEvent> {
    cvs.map_values(|cv: (i32, i32)| spec_key_event(cv.0, cv.1))
}

/// A release for each of the eight modifier keys, then one synchronization
/// marker.
pub open spec fn spec_release_all_mods_events() -> Seq<InputEvent> {
    ec::spec_modifier_keys().map_values(|k: i32| spec_key_event(k, 0)).push(spec_syn_report())
}

/// Key-down events for the requested modifiers, left variants only, in the
/// order alt, ctrl, shift, meta.
pub open spec fn spec_mods_down_events(a: bool, c: bool, s: bool, w: bool) -> Seq<InputEvent> {
    (if a {
        seq![spec_key_event(ec::KEY_LEFTALT, 1)]
    } else {
        Seq::empty()
    }) + (if c {
        seq![spec_key_event(ec::KEY_LEFTCTRL, 1)]
    } else {
        Seq::empty()
    }) + (if s {
        seq![spec_key_event(ec::KEY_LEFTSHIFT, 1)]
    } else {
        Seq::empty()
    }) + (if w {
        seq![spec_key_event(ec::KEY_LEFTMETA, 1)]
    } else {
        Seq::empty()
    })
}

/// A key tap: down, up, synchronization marker.
pub open spec fn spec_tap_events(code: i32) -> Seq<InputEvent> {
    seq![spec_key_event(code, 1), spec_key_event(code, 0), spec_syn_report()]
}

/// Key events restoring each modifier to its snapshot value, then one
/// synchronization marker.
pub open spec fn spec_restore_mods_events(snap: Seq<bool>) -> Seq<InputEvent> {
    Seq::new(
        ec::spec_modifier_keys().len(),
        |i: int|
            spec_key_event(
                ec::spec_modifier_keys()[i],
                if snap[i] {
                    1
                } else {
                    0
                },
            ),
    ).push(spec_syn_report())
}

/// Which of the eight modifier keys the sink currently believes are held.
pub open spec fn spec_snapshot(s: TrackState) -> Seq<bool> {
    Seq::new(ec::spec_modifier_keys().len(), |i: int| ts_key(s, ec::spec_modifier_keys()[i]) > 0)
}

/// Every event the modifier press protocol feeds through the sink, in order:
/// release all modifiers, press the requested ones, tap the key, restore the
/// snapshot.
pub open spec fn spec_press_events(
    snap: Seq<bool>,
    code: i32,
    a: bool,
    c: bool,
    s: bool,
    w: bool,
) -> Seq<InputEvent> {
    spec_release_all_mods_events() + spec_mods_down_events(a, c, s, w) + spec_tap_events(code)
        + spec_restore_mods_events(snap)
}

/// An output sink: the deduplicating tracker of one synthesized output
/// device.
pub struct OutputSink {
    tracker: InputEventTracker,
}

impl View for OutputSink {
    type V = TrackState;

    closed spec fn view(&self) -> TrackState {
        self.tracker@
    }
}

impl OutputSink {
    /// Internal consistency of the tracker table.
    pub closed spec fn wf(&self) -> bool {
        self.tracker.wf()
    }

    /// The sorted codes this sink believes are pressed.
    pub closed spec fn spec_pressed_codes(&self) -> Seq<i32> {
        self.tracker.spec_pressed_codes()
    }

    /// The pressed-code enumeration is strictly ascending and holds exactly
    /// the codes whose tracked value is positive.
    pub proof fn lemma_pressed_codes(&self)
        requires
            self.wf(),
        ensures
            forall|i: int, j: int|
                0 <= i < j < self.spec_pressed_codes().len()
                    ==> self.spec_pressed_codes()[i] < self.spec_pressed_codes()[j],
            forall|c: i32| self.spec_pressed_codes().contains(c) <==> ts_key(self@, c) > 0,
    {
        self.tracker.lemma_pressed_codes();
    }

    /// A sink for a freshly created output device.
    pub fn new() -> (r: OutputSink)
        ensures
            r.wf(),
            r@ == ts_init(),
    {
        OutputSink { tracker: InputEventTracker::new() }
    }

    /// The last value transmitted for `code`, 0 when none.
    pub fn key_state(&self, code: i32) -> (r: i32)
        requires
            self.wf(),
        ensures
            r == ts_key(self@, code),
    {
        self.tracker.key_state(code)
    }

    /// True when this sink believes `code` is held down.
    pub fn is_key_on(&self, code: i32) -> (r: bool)
        requires
            self.wf(),
        ensures
            r == (ts_key(self@, code) > 0),
    {
        self.key_state(code) > 0
    }

    /// Plan the transmission of one event.  A redundant event is silently
    /// dropped: the result is the event to write, or nothing.
    pub fn send_event(&mut self, ev: &InputEvent) -> (r: Option<InputEvent>)
        requires
            old(self).wf(),
            ev.spec_has_valid_key_value(),
        ensures
            final(self).wf(),
            final(self)@ == spec_run(old(self)@, seq![*ev]),
            r == if spec_should_send(old(self)@, *ev) {
                Some(*ev)
            } else {
                None::<InputEvent>
            },
    {
        proof {
            lemma_run_one(old(self)@, *ev);
        }
        if self.tracker.should_send(ev) {
            self.tracker.on_event_sent(ev);
            Some(*ev)
        } else {
            None
        }
    }

    /// Plan the transmission of one synchronization marker.
    pub fn send_syn_report(&mut self) -> (r: Option<InputEvent>)
        requires
            old(self).wf(),
        ensures
            final(self).wf(),
            final(self)@ == spec_run(old(self)@, seq![spec_syn_report()]),
            r == if spec_should_send(old(self)@, spec_syn_report()) {
                Some(spec_syn_report())
            } else {
                None::<InputEvent>
            },
    {
        self.send_event(&InputEvent::new_syn_report())
    }

    /// Plan the transmission of one key event.
    pub fn send_key_event(&mut self, code: i32, value: i32) -> (r: Option<InputEvent>)
        requires
            old(self).wf(),
            0 <= value <= 2,
        ensures
            final(self).wf(),
            final(self)@ == spec_run(old(self)@, seq![spec_key_event(code, value)]),
            r == if spec_should_send(old(self)@, spec_key_event(code, value)) {
                Some(spec_key_event(code, value))
            } else {
                None::<InputEvent>
            },
    {
        self.send_event(&InputEvent::new_key_event(code, value))
    }

    /// Plan the transmission of a batch: each event goes through the
    /// deduplicating send, and when the batch does not already end in a
    /// synchronization marker one is appended, so every transmitted batch is
    /// terminated by a marker.
    pub fn send_events(&mut self, events: &[InputEvent]) -> (r: Vec<InputEvent>)
        requires
            old(self).wf(),
            all_valid_key_values(events@),
        ensures
            final(self).wf(),
            final(self)@ == spec_run(old(self)@, spec_batch(events@)),
            r@ == spec_accepted(old(self)@, spec_batch(events@)),
    {
        let mut writes: Vec<InputEvent> = Vec::new();
        let n = events.len();
        let mut i: usize = 0;
        let mut last_event_is_sync = false;
        while i < n
            invariant
                0 <= i <= n,
                n == events@.len(),
                all_valid_key_values(events@),
                self.wf(),
                self@ == spec_run(old(self)@, events@.subrange(0, i as int)),
                writes@ == spec_accepted(old(self)@, events@.subrange(0, i as int)),
                last_event_is_sync == (i > 0 && events@[i as int - 1].spec_is_syn_report()),
            decreases n - i,
        {
            let ev = events[i];
            let ghost pre = events@.subrange(0, i as int);
            let ghost st = self@;
            let w = self.send_event(&ev);
            proof {
                let pre2 = events@.subrange(0, i as int + 1);
                assert(pre2 =~= pre.push(ev));
                lemma_run_push(old(self)@, pre, ev);
                lemma_run_one(st, ev);
            }
            if let Some(e) = w {
                writes.push(e);
            }
            last_event_is_sync = ev.is_syn_report();
            i = i + 1;
        }
        proof {
            assert(events@.subrange(0, n as int) =~= events@);
        }
        if !last_event_is_sync {
            let ghost st = self@;
            let w = self.send_syn_report();
            proof {
                assert(spec_batch(events@) == events@.push(spec_syn_report()));
                lemma_run_push(old(self)@, events@, spec_syn_report());
                lemma_run_one(st, spec_syn_report());
            }
            if let Some(e) = w {
                writes.push(e);
            }
        }
        writes
    }

    /// Plan the transmission of several key events as one batch.
    pub fn send_key_events(&mut self, code_and_values: &[(i32, i32)]) -> (r: Vec<InputEvent>)
        requires
            old(self).wf(),
            forall|i: int|
                0 <= i < code_and_values@.len() ==> 0 <= (#[trigger] code_and_values@[i]).1 <= 2,
        ensures
            final(self).wf(),
            final(self)@ == spec_run(old(self)@, spec_batch(spec_key_events_of(code_and_values@))),
            r@ == spec_accepted(old(self)@, spec_batch(spec_key_events_of(code_and_values@))),
    {
        let mut events: Vec<InputEvent> = Vec::new();
        let n = code_and_values.len();
        let mut i: usize = 0;
        while i < n
            invariant
                0 <= i <= n,
                n == code_and_values@.len(),
                events@.len() == i,
                forall|j: int|
                    0 <= j < i ==> events@[j] == spec_key_event(
                        code_and_values@[j].0,
                        code_and_values@[j].1,
                    ),
            decreases n - i,
        {
            let (code, value) = code_and_values[i];
            events.push(InputEvent::new_key_event(code, value));
            i = i + 1;
        }
        proof {
            assert(events@ =~= spec_key_events_of(code_and_values@));
        }
        self.send_events(events.as_slice())
    }

    /// Plan the release of everything this sink believes is pressed: for
    /// each pressed code, ascending, a release event and a synchronization
    /// marker.  Afterwards the sink believes nothing is pressed.
    pub fn reset(&mut self) -> (r: Vec<InputEvent>)
        requires
            old(self).wf(),
        ensures
            final(self).wf(),
            final(self)@ == ts_init(),
            r@ == spec_release_seq(old(self).spec_pressed_codes()),
    {
        self.tracker.reset()
    }

    /// Snapshot which of the eight modifier keys are currently held, in the
    /// fixed modifier order.
    fn save_out_modifier_state(&self) -> (r: Vec<bool>)
        requires
            self.wf(),
        ensures
            r@ == spec_snapshot(self@),
    {
        let mods = ec::modifier_keys();
        let mut r: Vec<bool> = Vec::new();
        let n = mods.len();
        let mut i: usize = 0;
        while i < n
            invariant
                0 <= i <= n,
                mods@ == ec::spec_modifier_keys(),
                n == mods@.len(),
                self.wf(),
                r@.len() == i,
                forall|j: int| 0 <= j < i ==> r@[j] == (ts_key(self@, mods@[j]) > 0),
            decreases n - i,
        {
            r.push(self.is_key_on(mods[i]));
            i = i + 1;
        }
        proof {
            assert(r@ =~= spec_snapshot(self@));
        }
        r
    }

    /// Send a release for every modifier key, then one synchronization
    /// marker.
    fn reset_out_modifiers(&mut self) -> (r: Vec<InputEvent>)
        requires
            old(self).wf(),
        ensures
            final(self).wf(),
            final(self)@ == spec_run(old(self)@, spec_release_all_mods_events()),
            r@ == spec_accepted(old(self)@, spec_release_all_mods_events()),
            forall|k: i32| ec::is_modifier_key(k) ==> ts_key(final(self)@, k) == 0,
            forall|k: i32| !ec::is_modifier_key(k) ==> ts_key(final(self)@, k) == ts_key(old(self)@, k),
            final(self)@.pending == false,
    {
        let ghost m = ec::spec_modifier_keys().map_values(|k: i32| spec_key_event(k, 0));
        let mods = ec::modifier_keys();
        let mut writes: Vec<InputEvent> = Vec::new();
        let n = mods.len();
        let mut i: usize = 0;
        proof {
            ec::lemma_modifier_keys_distinct();
        }
        while i < n
            invariant
                0 <= i <= n,
                mods@ == ec::spec_modifier_keys(),
                n == mods@.len(),
                m == ec::spec_modifier_keys().map_values(|k: i32| spec_key_event(k, 0)),
                self.wf(),
                self@ == spec_run(old(self)@, m.subrange(0, i as int)),
                writes@ == spec_accepted(old(self)@, m.subrange(0, i as int)),
                forall|j: int| 0 <= j < i ==> ts_key(self@, mods@[j]) == 0,
                forall|k: i32|
                    !mods@.subrange(0, i as int).contains(k) ==> ts_key(self@, k) == ts_key(
                        old(self)@,
                        k,
                    ),
            decreases n - i,
        {
            let ghost pre = m.subrange(0, i as int);
            let ghost st = self@;
            let ghost ev = m[i as int];
            proof {
                assert(ev == spec_key_event(mods@[i as int], 0));
            }
            let w = self.send_key_event(mods[i], 0);
            proof {
                let pre2 = m.subrange(0, i as int + 1);
                assert(pre2 =~= pre.push(ev));
                lemma_run_push(old(self)@, pre, ev);
                lemma_run_one(st, ev);
            }
            if let Some(e) = w {
                writes.push(e);
            }
            proof {
                assert forall|k: i32|
                    !mods@.subrange(0, i as int + 1).contains(k) implies ts_key(self@, k)
                    == ts_key(old(self)@, k) by {
                    assert(!mods@.subrange(0, i as int).contains(k)) by {
                        if mods@.subrange(0, i as int).contains(k) {
                            let j = choose|j: int|
                                0 <= j < i && mods@.subrange(0, i as int)[j] == k;
                            assert(mods@.subrange(0, i as int + 1)[j] == k);
                        }
                    }
                    assert(k != mods@[i as int]) by {
                        if k == mods@[i as int] {
                            assert(mods@.subrange(0, i as int + 1)[i as int] == k);
                        }
                    }
                    assert(ts_key(self@, k) == ts_key(st, k));
                }
                assert forall|j: int| 0 <= j < i + 1 implies ts_key(self@, mods@[j]) == 0 by {
                    if j < i {
                        assert(mods@[j] != mods@[i as int]);
                        assert(ts_key(st, mods@[j]) == 0);
                    } else {
                        assert(ts_key(self@, mods@[i as int]) == 0);
                    }
                }
            }
            i = i + 1;
        }
        proof {
            assert(m.subrange(0, n as int) =~= m);
        }
        let ghost st = self@;
        let w = self.send_syn_report();
        proof {
            assert(spec_release_all_mods_events() == m.push(spec_syn_report()));
            lemma_run_push(old(self)@, m, spec_syn_report());
            lemma_run_one(st, spec_syn_report());
        }
        if let Some(e) = w {
            writes.push(e);
        }
        proof {
            assert(forall|k: i32| ts_key(self@, k) == ts_key(st, k));
            assert forall|k: i32| ec::is_modifier_key(k) implies ts_key(self@, k) == 0 by {
                let j = choose|j: int|
                    0 <= j < ec::spec_modifier_keys().len() && ec::spec_modifier_keys()[j] == k;
                assert(ts_key(st, ec::spec_modifier_keys()[j]) == 0);
            }
            assert(mods@.subrange(0, n as int) =~= mods@);
            assert forall|k: i32| !ec::is_modifier_key(k) implies ts_key(self@, k) == ts_key(
                old(self)@,
                k,
            ) by {
                assert(!ec::spec_modifier_keys().contains(k));
                assert(ts_key(st, k) == ts_key(old(self)@, k));
            }
        }
        writes
    }

    /// Send each modifier key's snapshotted value, then one synchronization
    /// marker, so the device's modifier state matches the snapshot exactly.
    fn restore_out_modifier_state(&mut self, snap: &Vec<bool>) -> (r: Vec<InputEvent>)
        requires
            old(self).wf(),
            snap@.len() == ec::spec_modifier_keys().len(),
        ensures
            final(self).wf(),
            final(self)@ == spec_run(old(self)@, spec_restore_mods_events(snap@)),
            r@ == spec_accepted(old(self)@, spec_restore_mods_events(snap@)),
            forall|j: int|
                0 <= j < ec::spec_modifier_keys().len() ==> ts_key(
                    final(self)@,
                    ec::spec_modifier_keys()[j],
                ) == (if snap@[j] {
                    if ts_key(old(self)@, ec::spec_modifier_keys()[j]) != 0 {
                        ts_key(old(self)@, ec::spec_modifier_keys()[j])
                    } else {
                        1
                    }
                } else {
                    0
                }),
            forall|k: i32| !ec::is_modifier_key(k) ==> ts_key(final(self)@, k) == ts_key(old(self)@, k),
            final(self)@.pending == false,
    {
        let ghost m = Seq::new(
            ec::spec_modifier_keys().len(),
            |i: int|
                spec_key_event(
                    ec::spec_modifier_keys()[i],
                    if snap@[i] {
                        1
                    } else {
                        0
                    },
                ),
        );
        let mods = ec::modifier_keys();
        let mut writes: Vec<InputEvent> = Vec::new();
        let n = mods.len();
        let mut i: usize = 0;
        proof {
            ec::lemma_modifier_keys_distinct();
        }
        while i < n
            invariant
                0 <= i <= n,
                mods@ == ec::spec_modifier_keys(),
                n == mods@.len(),
                snap@.len() == n,
                m == Seq::new(
                    ec::spec_modifier_keys().len(),
                    |j: int|
                        spec_key_event(
                            ec::spec_modifier_keys()[j],
                            if snap@[j] {
                                1
                            } else {
                                0
                            },
                        ),
                ),
                self.wf(),
                self@ == spec_run(old(self)@, m.subrange(0, i as int)),
                writes@ == spec_accepted(old(self)@, m.subrange(0, i as int)),
                forall|j: int|
                    0 <= j < i ==> ts_key(self@, mods@[j]) == (if snap@[j] {
                        if ts_key(old(self)@, mods@[j]) != 0 {
                            ts_key(old(self)@, mods@[j])
                        } else {
                            1
                        }
                    } else {
                        0
                    }),
                forall|k: i32|
                    !mods@.subrange(0, i as int).contains(k) ==> ts_key(self@, k) == ts_key(
                        old(self)@,
                        k,
                    ),
            decreases n - i,
        {
            let ghost pre = m.subrange(0, i as int);
            let ghost st = self@;
            let value: i32 = if snap[i] {
                1
            } else {
                0
            };
            let ghost ev = m[i as int];
            proof {
                assert(ev == spec_key_event(mods@[i as int], value));
            }
            let w = self.send_key_event(mods[i], value);
            proof {
                let pre2 = m.subrange(0, i as int + 1);
                assert(pre2 =~= pre.push(ev));
                lemma_run_push(old(self)@, pre, ev);
                lemma_run_one(st, ev);
            }
            if let Some(e) = w {
                writes.push(e);
            }
            proof {
                assert forall|k: i32|
                    !mods@.subrange(0, i as int + 1).contains(k) implies ts_key(self@, k)
                    == ts_key(old(self)@, k) by {
                    assert(!mods@.subrange(0, i as int).contains(k)) by {
                        if mods@.subrange(0, i as int).contains(k) {
                            let j = choose|j: int|
                                0 <= j < i && mods@.subrange(0, i as int)[j] == k;
                            assert(mods@.subrange(0, i as int + 1)[j] == k);
                        }
                    }
                    assert(k != mods@[i as int]) by {
                        if k == mods@[i as int] {
                            assert(mods@.subrange(0, i as int + 1)[i as int] == k);
                        }
                    }
                    assert(ts_key(self@, k) == ts_key(st, k));
                }
                assert forall|j: int|
                    0 <= j < i + 1 implies ts_key(self@, mods@[j]) == (if snap@[j] {
                    if ts_key(old(self)@, mods@[j]) != 0 {
                        ts_key(old(self)@, mods@[j])
                    } else {
                        1
                    }
                } else {
                    0
                }) by {
                    if j < i {
                        assert(mods@[j] != mods@[i as int]);
                        assert(ts_key(self@, mods@[j]) == ts_key(st, mods@[j]));
                    } else {
                        assert(!mods@.subrange(0, i as int).contains(mods@[i as int])) by {
                            if mods@.subrange(0, i as int).contains(mods@[i as int]) {
                                let q = choose|q: int|
                                    0 <= q < i && mods@.subrange(0, i as int)[q] == mods@[
                                        i as int
                                    ];
                                assert(mods@[q] == mods@[i as int]);
                            }
                        }
                        assert(ts_key(st, mods@[i as int]) == ts_key(old(self)@, mods@[i as int]));
                    }
                }
            }
            i = i + 1;
        }
        proof {
            assert(m.subrange(0, n as int) =~= m);
        }
        let ghost st = self@;
        let w = self.send_syn_report();
        proof {
            assert(spec_restore_mods_events(snap@) == m.push(spec_syn_report()));
            lemma_run_push(old(self)@, m, spec_syn_report());
            lemma_run_one(st, spec_syn_report());
        }
        if let Some(e) = w {
            writes.push(e);
        }
        proof {
            assert(forall|k: i32| ts_key(self@, k) == ts_key(st, k));
            assert(mods@.subrange(0, n as int) =~= mods@);
            assert forall|k: i32| !ec::is_modifier_key(k) implies ts_key(self@, k) == ts_key(
                old(self)@,
                k,
            ) by {
                assert(!ec::spec_modifier_keys().contains(k));
                assert(ts_key(st, k) == ts_key(old(self)@, k));
            }
        }
        writes
    }

    /// Inject a press of `code` under an exact modifier combination.  The
    /// specification characters `a c s w` name the modifiers that must be
    /// held (left variants are pressed); every other modifier is released
    /// first, and afterwards every modifier is restored to the state it had
    /// before the call.  The lone wildcard specification `"*"` skips all
    /// modifier management and just taps the key.
    #[verifier::rlimit(100)]
    pub fn press_with_modifiers(&mut self, code: i32, modifiers: &str) -> (r: Vec<InputEvent>)
        requires
            old(self).wf(),
            modifiers@ == "*"@ || spec_valid_modifiers(modifiers@, "acsw"@),
        ensures
            final(self).wf(),
            modifiers@ == "*"@ ==> final(self)@ == spec_run(old(self)@, spec_tap_events(code))
                && r@ == spec_accepted(old(self)@, spec_tap_events(code)),
            modifiers@ != "*"@ ==> ({
                let full = spec_press_events(
                    spec_snapshot(old(self)@),
                    code,
                    modifiers@.contains('a'),
                    modifiers@.contains('c'),
                    modifiers@.contains('s'),
                    modifiers@.contains('w'),
                );
                &&& final(self)@ == spec_run(old(self)@, full)
                &&& r@ == spec_accepted(old(self)@, full)
                &&& forall|j: int|
                    0 <= j < ec::spec_modifier_keys().len() ==> ts_key(
                        final(self)@,
                        ec::spec_modifier_keys()[j],
                    ) == (if spec_snapshot(old(self)@)[j] {
                        1i32
                    } else {
                        0i32
                    })
                &&& forall|k: i32|
                    !ec::is_modifier_key(k) && k != code ==> ts_key(final(self)@, k) == ts_key(
                        old(self)@,
                        k,
                    )
                &&& (!ec::is_modifier_key(code) ==> ts_key(final(self)@, code) == 0)
            }),
    {
        if strutil::str_eq(modifiers, "*") {
            // raw mode: no modifier management, just a down/up pair
            let pair: Vec<(i32, i32)> = vec![(code, 1), (code, 0)];
            let writes = self.send_key_events(pair.as_slice());
            proof {
                assert(spec_key_events_of(pair@) =~= seq![
                    spec_key_event(code, 1),
                    spec_key_event(code, 0),
                ]);
                assert(spec_batch(spec_key_events_of(pair@)) =~= spec_tap_events(code));
            }
            return writes;
        }
        let a = strutil::str_contains_char(modifiers, 'a');
        let c = strutil::str_contains_char(modifiers, 'c');
        let s = strutil::str_contains_char(modifiers, 's');
        let w = strutil::str_contains_char(modifiers, 'w');
        proof {
            ec::lemma_modifier_keys_distinct();
        }

        let ghost s0 = self@;
        let ghost mk = ec::spec_modifier_keys();

        // save the pressed modifier state and release all modifiers
        let snap = self.save_out_modifier_state();
        let mut writes = self.reset_out_modifiers();
        let ghost p1 = spec_release_all_mods_events();
        let ghost s1 = self@;

        // press the requested modifiers
        let ghost d2 = Seq::<InputEvent>::empty();
        if a {
            let ghost st = self@;
            let ghost ev = spec_key_event(ec::KEY_LEFTALT, 1);
            let wr = self.send_key_event(ec::KEY_LEFTALT, 1);
            proof {
                lemma_run_push(s1, d2, ev);
                lemma_run_one(st, ev);
            }
            if let Some(e) = wr {
                writes.push(e);
            }
        }
        let ghost d2 = if a {
            seq![spec_key_event(ec::KEY_LEFTALT, 1)]
        } else {
            Seq::<InputEvent>::empty()
        };
        proof {
            if a {
                assert(d2 =~= Seq::<InputEvent>::empty().push(spec_key_event(ec::KEY_LEFTALT, 1)));
            }
            assert(writes@ =~= spec_accepted(s0, p1) + spec_accepted(s1, d2));
        }
        if c {
            let ghost st = self@;
            let ghost ev = spec_key_event(ec::KEY_LEFTCTRL, 1);
            let wr = self.send_key_event(ec::KEY_LEFTCTRL, 1);
            proof {
                lemma_run_push(s1, d2, ev);
                lemma_run_one(st, ev);
            }
            if let Some(e) = wr {
                writes.push(e);
            }
        }
        let ghost d2 = if c {
            d2.push(spec_key_event(ec::KEY_LEFTCTRL, 1))
        } else {
            d2
        };
        proof {
            assert(writes@ =~= spec_accepted(s0, p1) + spec_accepted(s1, d2));
        }
        if s {
            let ghost st = self@;
            let ghost ev = spec_key_event(ec::KEY_LEFTSHIFT, 1);
            let wr = self.send_key_event(ec::KEY_LEFTSHIFT, 1);
            proof {
                lemma_run_push(s1, d2, ev);
                lemma_run_one(st, ev);
            }
            if let Some(e) = wr {
                writes.push(e);
            }
        }
        let ghost d2 = if s {
            d2.push(spec_key_event(ec::KEY_LEFTSHIFT, 1))
        } else {
            d2
        };
        proof {
            assert(writes@ =~= spec_accepted(s0, p1) + spec_accepted(s1, d2));
        }
        if w {
            let ghost st = self@;
            let ghost ev = spec_key_event(ec::KEY_LEFTMETA, 1);
            let wr = self.send_key_event(ec::KEY_LEFTMETA, 1);
            proof {
                lemma_run_push(s1, d2, ev);
                lemma_run_one(st, ev);
            }
            if let Some(e) = wr {
                writes.push(e);
            }
        }
        let ghost d2 = if w {
            d2.push(spec_key_event(ec::KEY_LEFTMETA, 1))
        } else {
            d2
        };
        proof {
            assert(writes@ =~= spec_accepted(s0, p1) + spec_accepted(s1, d2));
            assert(d2 =~= spec_mods_down_events(a, c, s, w));
        }
        let ghost s2 = self@;

        // tap the key itself
        let ghost d3 = Seq::<InputEvent>::empty();
        let ghost st = self@;
        let wr = self.send_key_event(code, 1);
        proof {
            lemma_run_push(s2, d3, spec_key_event(code, 1));
            lemma_run_one(st, spec_key_event(code, 1));
        }
        if let Some(e) = wr {
            writes.push(e);
        }
        let ghost d3 = d3.push(spec_key_event(code, 1));
        proof {
            assert(writes@ =~= (spec_accepted(s0, p1) + spec_accepted(s1, d2)) + spec_accepted(
                s2,
                d3,
            ));
        }
        let ghost st = self@;
        let wr = self.send_key_event(code, 0);
        proof {
            lemma_run_push(s2, d3, spec_key_event(code, 0));
            lemma_run_one(st, spec_key_event(code, 0));
        }
        if let Some(e) = wr {
            writes.push(e);
        }
        let ghost d3 = d3.push(spec_key_event(code, 0));
        proof {
            assert(writes@ =~= (spec_accepted(s0, p1) + spec_accepted(s1, d2)) + spec_accepted(
                s2,
                d3,
            ));
        }
        let ghost st = self@;
        let wr = self.send_syn_report();
        proof {
            lemma_run_push(s2, d3, spec_syn_report());
            lemma_run_one(st, spec_syn_report());
        }
        if let Some(e) = wr {
            writes.push(e);
        }
        let ghost d3 = d3.push(spec_syn_report());
        proof {
            assert(writes@ =~= (spec_accepted(s0, p1) + spec_accepted(s1, d2)) + spec_accepted(
                s2,
                d3,
            ));
            assert(d3 =~= spec_tap_events(code));
        }
        let ghost s3 = self@;
        proof {
            assert(ts_key(s3, code) == 0);
            assert forall|j: int| 0 <= j < mk.len() implies ts_key(s3, mk[j]) == 0 || ts_key(
                s3,
                mk[j],
            ) == 1 by {
                assert(ec::is_modifier_key(mk[j]));
                assert(ts_key(s1, mk[j]) == 0);
            }
        }

        // restore the saved modifier state
        let restore_writes = self.restore_out_modifier_state(&snap);
        let ghost p4 = spec_restore_mods_events(snap@);
        let mut rest = restore_writes;
        writes.append(&mut rest);

        proof {
            // stitch the four phases together
            lemma_run_concat(s0, p1, d2);
            lemma_run_concat(s0, p1 + d2, d3);
            lemma_run_concat(s0, (p1 + d2) + d3, p4);
            let full = spec_press_events(spec_snapshot(s0), code, a, c, s, w);
            assert(snap@ == spec_snapshot(s0));
            assert(full == ((p1 + d2) + d3) + p4);
            assert(spec_run(s0, p1 + d2) == s2);
            assert(spec_run(s0, (p1 + d2) + d3) == s3);
            assert(final(self)@ == spec_run(s0, full));
            assert(writes@ =~= (((spec_accepted(s0, p1) + spec_accepted(s1, d2)) + spec_accepted(
                s2,
                d3,
            )) + spec_accepted(s3, p4)));
            assert(writes@ == spec_accepted(s0, full));
            // the snapshot is restored exactly
            assert forall|j: int| 0 <= j < mk.len() implies ts_key(final(self)@, mk[j]) == (
            if spec_snapshot(s0)[j] {
                1i32
            } else {
                0i32
            }) by {
                assert(snap@[j] == spec_snapshot(s0)[j]);
                assert(ts_key(s3, mk[j]) == 0 || ts_key(s3, mk[j]) == 1);
            }
            assert forall|k: i32| !ec::is_modifier_key(k) && k != code implies ts_key(
                final(self)@,
                k,
            ) == ts_key(s0, k) by {
                assert(!mk.contains(k));
                assert(ts_key(s1, k) == ts_key(s0, k));
                assert(ts_key(s2, k) == ts_key(s1, k));
                assert(ts_key(s3, k) == ts_key(s2, k));
            }
        }
        writes
    }
}

} // verus!
