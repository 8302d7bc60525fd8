//! The event state tracker: a per-code table of the last accepted key value
//! plus a flag telling whether a synchronization marker is due.  The tracker
//! decides which events are redundant and must be suppressed, records the
//! events that were actually forwarded, and synthesizes the release events
//! that zero out all pressed keys on reset.
//!
//! The abstract model of a tracker is a [`TrackState`]: a partial map from
//! key code to last accepted value (absent means released) and the pending
//! flag.  Every operation is specified against that model.

use vstd::prelude::*;

use crate::ec;
use crate::event::{spec_key_event, spec_syn_report, InputEvent};

verus! {

/// The abstract state of an event state tracker.
pub struct TrackState {
    /// Last accepted value per key code; a missing code means released (0).
    pub keys: Map<i32, i32>,
    /// True when a non-sync event was accepted since the last forwarded
    /// synchronization marker.
    pub pending: bool,
}

/// The last accepted value for `code`, 0 when none was recorded.
pub open spec fn ts_key(s: TrackState, code: i32) -> i32 {
    if s.keys.dom().contains(code) {
        s.keys[code]
    } else {
        0
    }
}

/// The state of a freshly created tracker: nothing pressed, no sync due.
pub open spec fn ts_init() -> TrackState {
    TrackState { keys: Map::empty(), pending: false }
}

/// The deduplication rule.  A synchronization marker passes only when one is
/// due; a key release passes only when the key is held; a key press passes
/// only when the key is released; a key repeat passes only when the key is
/// held; everything else always passes.
pub open spec fn spec_should_send(s: TrackState, ev: InputEvent) -> bool {
    if ev.spec_is_syn_report() && !s.pending {
        false
    } else if ev.spec_is_key_event() {
        if ev.value == 0 {
            ts_key(s, ev.code) != 0
        } else if ev.value == 1 {
            ts_key(s, ev.code) == 0
        } else {
            ts_key(s, ev.code) != 0
        }
    } else {
        true
    }
}

/// The effect of recording an event: an accepted key event overwrites the
/// code's entry, and the pending flag becomes true exactly when the event is
/// not a synchronization marker.
pub open spec fn spec_record(s: TrackState, ev: InputEvent) -> TrackState {
    TrackState {
        keys: if ev.spec_is_key_event() && spec_should_send(s, ev) {
            s.keys.insert(ev.code, ev.value)
        } else {
            s.keys
        },
        pending: !ev.spec_is_syn_report(),
    }
}

/// The tracker state after filtering a whole sequence: each event is
/// recorded only when the rule accepts it in the state reached so far.
pub open spec fn spec_run(s: TrackState, evs: Seq<InputEvent>) -> TrackState
    decreases evs.len(),
{
    if evs.len() == 0 {
        s
    } else {
        let prev = spec_run(s, evs.drop_last());
        if spec_should_send(prev, evs.last()) {
            spec_record(prev, evs.last())
        } else {
            prev
        }
    }
}

/// The subsequence of events the filter accepts, in order.
pub open spec fn spec_accepted(s: TrackState, evs: Seq<InputEvent>) -> Seq<InputEvent>
    decreases evs.len(),
{
    if evs.len() == 0 {
        Seq::empty()
    } else {
        let prev = spec_run(s, evs.drop_last());
        if spec_should_send(prev, evs.last()) {
            spec_accepted(s, evs.drop_last()).push(evs.last())
        } else {
            spec_accepted(s, evs.drop_last())
        }
    }
}

/// Every event of `evs` carries a valid key value.
pub open spec fn all_valid_key_values(evs: Seq<InputEvent>) -> bool {
    forall|i: int| 0 <= i < evs.len() ==> (#[trigger] evs[i]).spec_has_valid_key_value()
}

/// Running the filter over a single event.
pub proof fn lemma_run_one(s: TrackState, ev: InputEvent)
    ensures
        spec_run(s, seq![ev]) == (if spec_should_send(s, ev) {
            spec_record(s, ev)
        } else {
            s
        }),
        spec_accepted(s, seq![ev]) == (if spec_should_send(s, ev) {
            seq![ev]
        } else {
            Seq::<InputEvent>::empty()
        }),
{
    assert(seq![ev].drop_last() =~= Seq::<InputEvent>::empty());
    assert(spec_run(s, Seq::<InputEvent>::empty()) == s);
    assert(spec_accepted(s, Seq::<InputEvent>::empty()) == Seq::<InputEvent>::empty());
    if spec_should_send(s, ev) {
        assert(spec_accepted(s, seq![ev]) =~= seq![ev]);
    }
}

/// Running the filter over a sequence extended by one event.
pub proof fn lemma_run_push(s: TrackState, evs: Seq<InputEvent>, ev: InputEvent)
    ensures
        spec_run(s, evs.push(ev)) == (if spec_should_send(spec_run(s, evs), ev) {
            spec_record(spec_run(s, evs), ev)
        } else {
            spec_run(s, evs)
        }),
        spec_accepted(s, evs.push(ev)) == (if spec_should_send(spec_run(s, evs), ev) {
            spec_accepted(s, evs).push(ev)
        } else {
            spec_accepted(s, evs)
        }),
{
    assert(evs.push(ev).drop_last() =~= evs);
    assert(evs.push(ev).last() == ev);
}

/// Filtering distributes over concatenation: running `a` then `b` reaches
/// the same state as running `a + b`, and accepts the same events.
pub proof fn lemma_run_concat(s: TrackState, a: Seq<InputEvent>, b: Seq<InputEvent>)
    ensures
        spec_run(s, a + b) == spec_run(spec_run(s, a), b),
        spec_accepted(s, a + b) == spec_accepted(s, a) + spec_accepted(spec_run(s, a), b),
    decreases b.len(),
{
    if b.len() == 0 {
        assert(a + b =~= a);
        assert(spec_accepted(s, a) + spec_accepted(spec_run(s, a), b) =~= spec_accepted(s, a));
    } else {
        lemma_run_concat(s, a, b.drop_last());
        assert((a + b).drop_last() =~= a + b.drop_last());
        assert((a + b).last() == b.last());
        let prev = spec_run(s, a + b.drop_last());
        if spec_should_send(prev, b.last()) {
            assert(spec_accepted(s, a + b) =~= spec_accepted(s, a) + spec_accepted(
                spec_run(s, a),
                b,
            ));
        }
    }
}

/// The key-to-value map described by a sequence of table entries; later
/// entries win, though the table keeps codes unique.
pub open spec fn entries_map(s: Seq<(i32, i32)>) -> Map<i32, i32>
    decreases s.len(),
{
    if s.len() == 0 {
        Map::empty()
    } else {
        entries_map(s.drop_last()).insert(s.last().0, s.last().1)
    }
}

/// True when some entry of `s` carries `code`.
pub open spec fn seq_has_code(s: Seq<(i32, i32)>, code: i32) -> bool {
    exists|i: int| 0 <= i < s.len() && s[i].0 == code
}

/// Entries are strictly ascending by code.
pub open spec fn entries_sorted(s: Seq<(i32, i32)>) -> bool {
    forall|i: int, j: int| 0 <= i < j < s.len() ==> s[i].0 < s[j].0
}

proof fn lemma_entries_map_dom(s: Seq<(i32, i32)>, code: i32)
    ensures
        entries_map(s).dom().contains(code) <==> seq_has_code(s, code),
    decreases s.len(),
{
    if s.len() > 0 {
        lemma_entries_map_dom(s.drop_last(), code);
        if seq_has_code(s, code) && s.last().0 != code {
            let i = choose|i: int| 0 <= i < s.len() && s[i].0 == code;
            assert(s.drop_last()[i] == s[i]);
        }
    }
}

proof fn lemma_entries_map_get(s: Seq<(i32, i32)>, i: int)
    requires
        entries_sorted(s),
        0 <= i < s.len(),
    ensures
        entries_map(s).dom().contains(s[i].0),
        entries_map(s)[s[i].0] == s[i].1,
    decreases s.len(),
{
    if i == s.len() - 1 {
        assert(s[i] == s.last());
    } else {
        lemma_entries_map_get(s.drop_last(), i);
        assert(s.drop_last()[i] == s[i]);
        assert(s.last().0 != s[i].0);
    }
}

proof fn lemma_entries_map_update(s: Seq<(i32, i32)>, i: int, v: i32)
    requires
        entries_sorted(s),
        0 <= i < s.len(),
    ensures
        entries_map(s.update(i, (s[i].0, v))) =~= entries_map(s).insert(s[i].0, v),
    decreases s.len(),
{
    let code = s[i].0;
    let s2 = s.update(i, (code, v));
    if i == s.len() - 1 {
        assert(s2.drop_last() =~= s.drop_last());
        assert(s2.last() == (code, v));
    } else {
        lemma_entries_map_update(s.drop_last(), i, v);
        assert(s2.drop_last() =~= s.drop_last().update(i, (code, v)));
        assert(s2.last() == s.last());
        assert(s.last().0 != code);
        assert(entries_map(s2) =~= entries_map(s).insert(code, v));
    }
}

proof fn lemma_entries_map_insert(s: Seq<(i32, i32)>, i: int, code: i32, v: i32)
    requires
        0 <= i <= s.len(),
        !seq_has_code(s, code),
    ensures
        entries_map(s.insert(i, (code, v))) =~= entries_map(s).insert(code, v),
    decreases s.len(),
{
    let s2 = s.insert(i, (code, v));
    if i == s.len() {
        assert(s2.drop_last() =~= s);
        assert(s2.last() == (code, v));
    } else {
        assert(forall|j: int| 0 <= j < s.drop_last().len() ==> s.drop_last()[j] == s[j]);
        lemma_entries_map_insert(s.drop_last(), i, code, v);
        assert(s2.drop_last() =~= s.drop_last().insert(i, (code, v)));
        assert(s2.last() == s.last());
        assert(s[s.len() - 1].0 != code);
        assert(s.last().0 != code);
        assert(entries_map(s2) =~= entries_map(s).insert(code, v));
    }
}

/// The codes of the entries of `s` whose recorded value is positive.
pub open spec fn pressed_of(s: Seq<(i32, i32)>) -> Seq<i32>
    decreases s.len(),
{
    if s.len() == 0 {
        Seq::empty()
    } else {
        if s.last().1 > 0 {
            pressed_of(s.drop_last()).push(s.last().0)
        } else {
            pressed_of(s.drop_last())
        }
    }
}

/// For each code, in order, a release event followed by a synchronization
/// marker.
pub open spec fn spec_release_seq(codes: Seq<i32>) -> Seq<InputEvent>
    decreases codes.len(),
{
    if codes.len() == 0 {
        Seq::empty()
    } else {
        spec_release_seq(codes.drop_last()) + seq![
            spec_key_event(codes.last(), 0),
            spec_syn_report(),
        ]
    }
}

/// Tracks the last accepted value for every key code of one event stream,
/// and whether a synchronization marker is due.
pub struct InputEventTracker {
    key_states: Vec<(i32, i32)>,
    syn_report_pending: bool,
}

impl View for InputEventTracker {
    type V = TrackState;

    closed spec fn view(&self) -> TrackState {
        TrackState { keys: entries_map(self.key_states@), pending: self.syn_report_pending }
    }
}

impl InputEventTracker {
    /// The table is kept strictly sorted by code, so resets enumerate
    /// pressed keys in ascending order.
    pub closed spec fn wf(&self) -> bool {
        entries_sorted(self.key_states@)
    }

    /// The sorted sequence of codes currently recorded as pressed.
    pub closed spec fn spec_pressed_codes(&self) -> Seq<i32> {
        pressed_of(self.key_states@)
    }

    /// A new tracker: every key released, no synchronization marker due.
    pub fn new() -> (r: InputEventTracker)
        ensures
            r.wf(),
            r@ == ts_init(),
    {
        let r = InputEventTracker { key_states: Vec::new(), syn_report_pending: false };
        proof {
            assert(r@.keys =~= ts_init().keys);
        }
        r
    }

    /// The last accepted value for `code`, 0 when none was accepted.
    pub fn key_state(&self, code: i32) -> (r: i32)
        requires
            self.wf(),
        ensures
            r == ts_key(self@, code),
    {
        let len = self.key_states.len();
        let mut i: usize = 0;
        while i < len
            invariant
                0 <= i <= len,
                len == self.key_states@.len(),
                forall|j: int| 0 <= j < i ==> self.key_states@[j].0 != code,
                entries_sorted(self.key_states@),
            decreases len - i,
        {
            let (c, v) = self.key_states[i];
            if c == code {
                proof {
                    lemma_entries_map_get(self.key_states@, i as int);
                }
                return v;
            }
            i = i + 1;
        }
        proof {
            lemma_entries_map_dom(self.key_states@, code);
        }
        0
    }

    /// Decide whether `ev` must be forwarded or suppressed as redundant.
    /// Pure with respect to the current state.
    pub fn should_send(&self, ev: &InputEvent) -> (r: bool)
        requires
            self.wf(),
            ev.spec_has_valid_key_value(),
        ensures
            r == spec_should_send(self@, *ev),
    {
        if ev.is_syn_report() && !self.syn_report_pending {
            return false;
        }
        if ev.is_key_event() {
            let current = self.key_state(ev.code);
            if ev.value == 0 {
                if current == 0 {
                    return false;
                }
            } else if ev.value == 1 {
                if current != 0 {
                    return false;
                }
            } else {
                if current == 0 {
                    return false;
                }
            }
        }
        true
    }

    fn table_set(&mut self, code: i32, value: i32)
        requires
            old(self).wf(),
        ensures
            final(self).wf(),
            final(self)@.keys == old(self)@.keys.insert(code, value),
            final(self)@.pending == old(self)@.pending,
    {
        let len = self.key_states.len();
        let mut i: usize = 0;
        while i < len && self.key_states[i].0 < code
            invariant
                *self == *old(self),
                0 <= i <= len,
                len == self.key_states@.len(),
                forall|j: int| 0 <= j < i ==> self.key_states@[j].0 < code,
            decreases len - i,
        {
            i = i + 1;
        }
        if i < len && self.key_states[i].0 == code {
            proof {
                lemma_entries_map_update(self.key_states@, i as int, value);
            }
            self.key_states.set(i, (code, value));
            proof {
                assert(entries_sorted(self.key_states@));
            }
        } else {
            proof {
                let s = self.key_states@;
                assert forall|j: int| 0 <= j < s.len() implies s[j].0 != code by {
                    if j >= i {
                        assert(s[i as int].0 >= code);
                        if j > i {
                            assert(s[i as int].0 < s[j].0);
                        }
                    }
                }
                lemma_entries_map_insert(s, i as int, code, value);
            }
            self.key_states.insert(i, (code, value));
            proof {
                let s = old(self).key_states@;
                let s2 = self.key_states@;
                assert forall|a: int, b: int| 0 <= a < b < s2.len() implies s2[a].0 < s2[b].0 by {
                    if b < i {
                        assert(s2[a] == s[a] && s2[b] == s[b]);
                    } else if a < i && b == i {
                        assert(s2[a] == s[a]);
                    } else if a < i && b > i {
                        assert(s2[a] == s[a] && s2[b] == s[b - 1]);
                        assert(s[i as int].0 >= code || i == s.len());
                        if a < i && i < b - 1 + 1 {
                        }
                        assert(s[b - 1].0 >= code);
                    } else if a == i {
                        assert(s2[b] == s[b - 1]);
                        assert(s[b - 1].0 > code || s[b - 1].0 == code || s[b - 1].0 < code);
                        assert(b - 1 >= i);
                        if b - 1 == i {
                            assert(s[i as int].0 > code);
                        } else {
                            assert(s[i as int].0 > code);
                            assert(s[i as int].0 < s[b - 1].0);
                        }
                    } else {
                        assert(s2[a] == s[a - 1] && s2[b] == s[b - 1]);
                    }
                }
            }
        }
    }

    /// Record an event that was forwarded downstream: an accepted key event
    /// updates the key table, and a synchronization marker clears the
    /// pending flag while any other event sets it.
    pub fn on_event_sent(&mut self, ev: &InputEvent)
        requires
            old(self).wf(),
            ev.spec_has_valid_key_value(),
        ensures
            final(self).wf(),
            final(self)@ == spec_record(old(self)@, *ev),
    {
        let record = self.is_key_and_should_send(ev);
        if record {
            self.table_set(ev.code, ev.value);
        }
        self.syn_report_pending = !ev.is_syn_report();
    }

    fn is_key_and_should_send(&self, ev: &InputEvent) -> (r: bool)
        requires
            self.wf(),
            ev.spec_has_valid_key_value(),
        ensures
            r == (ev.spec_is_key_event() && spec_should_send(self@, *ev)),
    {
        ev.is_key_event() && self.should_send(ev)
    }

    /// Synthesize, for every key currently pressed and in ascending code
    /// order, a release event followed by a synchronization marker; then
    /// clear the whole table and the pending flag.
    pub fn reset(&mut self) -> (r: Vec<InputEvent>)
        requires
            old(self).wf(),
        ensures
            final(self).wf(),
            final(self)@ == ts_init(),
            r@ == spec_release_seq(old(self).spec_pressed_codes()),
    {
        let mut reset_events: Vec<InputEvent> = Vec::new();
        let len = self.key_states.len();
        let mut i: usize = 0;
        while i < len
            invariant
                *self == *old(self),
                0 <= i <= len,
                len == self.key_states@.len(),
                reset_events@ == spec_release_seq(pressed_of(self.key_states@.subrange(0, i as int))),
            decreases len - i,
        {
            let (code, value) = self.key_states[i];
            let ghost prefix = self.key_states@.subrange(0, i as int);
            if value > 0 {
                reset_events.push(InputEvent::new_key_event(code, 0));
                reset_events.push(InputEvent::new_syn_report());
            }
            proof {
                let prefix2 = self.key_states@.subrange(0, i + 1);
                assert(prefix2.drop_last() =~= prefix);
                assert(prefix2.last() == self.key_states@[i as int]);
                if value > 0 {
                    assert(pressed_of(prefix2) == pressed_of(prefix).push(code));
                    assert(pressed_of(prefix2).drop_last() =~= pressed_of(prefix));
                    assert(reset_events@ =~= spec_release_seq(pressed_of(prefix2)));
                } else {
                    assert(pressed_of(prefix2) == pressed_of(prefix));
                }
            }
            i = i + 1;
        }
        proof {
            assert(self.key_states@.subrange(0, len as int) =~= self.key_states@);
        }
        self.key_states.clear();
        self.syn_report_pending = false;
        proof {
            assert(self@.keys =~= ts_init().keys);
        }
        reset_events
    }

    /// The pressed-code enumeration used by [`Self::reset`] is strictly
    /// ascending and holds exactly the codes whose tracked value is
    /// positive.
    pub proof fn lemma_pressed_codes(&self)
        requires
            self.wf(),
        ensures
            forall|i: int, j: int|
                0 <= i < j < self.spec_pressed_codes().len()
                    ==> self.spec_pressed_codes()[i] < self.spec_pressed_codes()[j],
            forall|c: i32| self.spec_pressed_codes().contains(c) <==> ts_key(self@, c) > 0,
    {
        lemma_pressed_of_props(self.key_states@);
        assert forall|c: i32| self.spec_pressed_codes().contains(c) <==> ts_key(self@, c) > 0 by {
            lemma_pressed_membership(self.key_states@, c);
        }
    }
}

/// Some entry of `s` carries `code` with a positive value.
pub open spec fn has_pressed(s: Seq<(i32, i32)>, code: i32) -> bool {
    exists|k: int| 0 <= k < s.len() && (#[trigger] s[k]).0 == code && s[k].1 > 0
}

proof fn lemma_pressed_of_props(s: Seq<(i32, i32)>)
    requires
        entries_sorted(s),
    ensures
        forall|i: int, j: int|
            0 <= i < j < pressed_of(s).len() ==> pressed_of(s)[i] < pressed_of(s)[j],
        forall|i: int| 0 <= i < pressed_of(s).len() ==> has_pressed(s, #[trigger] pressed_of(s)[i]),
    decreases s.len(),
{
    if s.len() > 0 {
        lemma_pressed_of_props(s.drop_last());
        assert(forall|j: int| 0 <= j < s.drop_last().len() ==> s.drop_last()[j] == s[j]);
        let p = pressed_of(s);
        let pd = pressed_of(s.drop_last());
        assert forall|i: int| 0 <= i < p.len() implies has_pressed(s, #[trigger] p[i]) by {
            if s.last().1 > 0 && i == p.len() - 1 {
                assert((s[s.len() - 1]).0 == p[i] && s[s.len() - 1].1 > 0);
            } else {
                assert(has_pressed(s.drop_last(), pd[i]));
                let k = choose|k: int|
                    0 <= k < s.drop_last().len() && (#[trigger] s.drop_last()[k]).0 == pd[i]
                        && s.drop_last()[k].1 > 0;
                assert((s[k]).0 == p[i] && s[k].1 > 0);
            }
        }
        if s.last().1 > 0 {
            assert forall|i: int, j: int| 0 <= i < j < p.len() implies p[i] < p[j] by {
                if j == p.len() - 1 {
                    assert(has_pressed(s.drop_last(), pd[i]));
                    let k = choose|k: int|
                        0 <= k < s.drop_last().len() && (#[trigger] s.drop_last()[k]).0 == pd[i]
                            && s.drop_last()[k].1 > 0;
                    assert(s[k].0 < s.last().0);
                }
            }
        }
    }
}

proof fn lemma_pressed_membership(s: Seq<(i32, i32)>, c: i32)
    requires
        entries_sorted(s),
    ensures
        pressed_of(s).contains(c) <==> (entries_map(s).dom().contains(c) && entries_map(s)[c] > 0),
    decreases s.len(),
{
    if s.len() == 0 {
    } else {
        lemma_pressed_membership(s.drop_last(), c);
        lemma_entries_map_dom(s.drop_last(), c);
        let p = pressed_of(s);
        let pd = pressed_of(s.drop_last());
        if s.last().0 == c {
            // the last entry decides: the code cannot occur earlier
            assert(!seq_has_code(s.drop_last(), c)) by {
                if seq_has_code(s.drop_last(), c) {
                    let i = choose|i: int| 0 <= i < s.drop_last().len() && s.drop_last()[i].0 == c;
                    assert(s[i].0 < s.last().0);
                }
            }
            if s.last().1 > 0 {
                assert(p[p.len() - 1] == c);
                assert(p.contains(c));
            } else {
                if pd.contains(c) {
                    let i = choose|i: int| 0 <= i < pd.len() && pd[i] == c;
                    lemma_pressed_of_props(s.drop_last());
                    assert(has_pressed(s.drop_last(), c));
                    let k = choose|k: int|
                        0 <= k < s.drop_last().len() && (#[trigger] s.drop_last()[k]).0 == c
                            && s.drop_last()[k].1 > 0;
                    assert(seq_has_code(s.drop_last(), c));
                }
                if p.contains(c) {
                    let i = choose|i: int| 0 <= i < p.len() && p[i] == c;
                    assert(pd.contains(c));
                }
            }
        } else {
            if s.last().1 > 0 {
                if p.contains(c) {
                    let i = choose|i: int| 0 <= i < p.len() && p[i] == c;
                    assert(i < p.len() - 1);
                    assert(pd[i] == c);
                    assert(pd.contains(c));
                }
                if pd.contains(c) {
                    let i = choose|i: int| 0 <= i < pd.len() && pd[i] == c;
                    assert(p[i] == c);
                    assert(p.contains(c));
                }
            }
        }
    }
}

} // verus!
