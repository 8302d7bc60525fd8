//! Properties of the deduplication filter, proved once and for all over the
//! abstract tracker model: the accepted-event stream never carries a
//! duplicate key-down, repeats only while the key is held, and never two
//! adjacent synchronization markers.

use vstd::prelude::*;

use crate::event::InputEvent;
use crate::tracker::{
    spec_accepted, spec_record, spec_run, spec_should_send, ts_init, ts_key, TrackState,
};

verus! {

/// Every event of `evs` is a key event for `code` with a valid value.
pub open spec fn all_key_events_for(evs: Seq<InputEvent>, code: i32) -> bool {
    forall|i: int|
        0 <= i < evs.len() ==> (#[trigger] evs[i]).spec_is_key_event() && evs[i].code == code
            && 0 <= evs[i].value <= 2
}

/// Some event strictly between positions `i` and `j` is a release.
pub open spec fn has_up_between(acc: Seq<InputEvent>, i: int, j: int) -> bool {
    exists|k: int| i < k < j && (#[trigger] acc[k]).value == 0
}

/// Accepted key-down events strictly alternate with accepted releases:
/// between two accepted downs there is always an accepted up.
pub open spec fn no_duplicate_down(acc: Seq<InputEvent>) -> bool {
    forall|i: int, j: int|
        #![trigger acc[i], acc[j]]
        0 <= i < j < acc.len() && acc[i].value == 1 && acc[j].value == 1 ==> has_up_between(
            acc,
            i,
            j,
        )
}

/// An accepted repeat is always immediately preceded by an accepted down or
/// repeat.
pub open spec fn repeat_only_while_held(acc: Seq<InputEvent>) -> bool {
    forall|i: int|
        0 <= i < acc.len() && (#[trigger] acc[i]).value == 2 ==> i > 0 && (acc[i - 1].value == 1
            || acc[i - 1].value == 2)
}

/// No accepted synchronization marker immediately follows another.
pub open spec fn no_double_sync(acc: Seq<InputEvent>) -> bool {
    forall|i: int|
        0 <= i && i + 1 < acc.len() && (#[trigger] acc[i]).spec_is_syn_report()
            ==> !acc[i + 1].spec_is_syn_report()
}

/// In a single-code key stream started from a fresh tracker, the tracked
/// value for the code is the value of the last accepted event, and every
/// accepted event is a key event for that code with a valid value.
proof fn lemma_state_is_last_accepted(evs: Seq<InputEvent>, code: i32)
    requires
        all_key_events_for(evs, code),
    ensures
        ({
            let acc = spec_accepted(ts_init(), evs);
            let st = spec_run(ts_init(), evs);
            &&& ts_key(st, code) == if acc.len() == 0 {
                0
            } else {
                acc.last().value as int
            }
            &&& all_key_events_for(acc, code)
        }),
    decreases evs.len(),
{
    if evs.len() > 0 {
        let head = evs.drop_last();
        assert(all_key_events_for(head, code));
        lemma_state_is_last_accepted(head, code);
        let e = evs.last();
        let prev = spec_run(ts_init(), head);
        let acc0 = spec_accepted(ts_init(), head);
        let acc = spec_accepted(ts_init(), evs);
        if spec_should_send(prev, e) {
            assert(acc == acc0.push(e));
            assert(acc.last() == e);
            assert(ts_key(spec_record(prev, e), code) == e.value as int);
        }
    }
}

/// After filtering through a fresh tracker, the pending flag is set exactly
/// when the last accepted event was not a synchronization marker.
proof fn lemma_pending_tracks_last(evs: Seq<InputEvent>)
    ensures
        ({
            let acc = spec_accepted(ts_init(), evs);
            let st = spec_run(ts_init(), evs);
            st.pending == (acc.len() > 0 && !acc.last().spec_is_syn_report())
        }),
    decreases evs.len(),
{
    if evs.len() > 0 {
        lemma_pending_tracks_last(evs.drop_last());
    }
}

proof fn lemma_ndd_push(acc0: Seq<InputEvent>, e: InputEvent)
    requires
        no_duplicate_down(acc0),
        e.value == 1 ==> acc0.len() == 0 || acc0.last().value == 0,
    ensures
        no_duplicate_down(acc0.push(e)),
{
    let acc = acc0.push(e);
    let n = acc0.len() as int;
    assert forall|i: int, j: int|
        #![trigger acc[i], acc[j]]
        0 <= i < j < acc.len() && acc[i].value == 1 && acc[j].value == 1 implies has_up_between(
        acc,
        i,
        j,
    ) by {
        if j < n {
            assert(acc0[i].value == 1 && acc0[j].value == 1);
            assert(has_up_between(acc0, i, j));
            let k = choose|k: int| i < k < j && (#[trigger] acc0[k]).value == 0;
            assert(acc[k].value == 0);
        } else {
            // the new event is an accepted down, so the previous accepted
            // event must have been a release
            assert(acc0[i].value == 1);
            assert(acc0.len() > 0);
            assert(acc[n - 1].value == 0);
            assert(i < n - 1 < j);
        }
    }
}

proof fn lemma_rep_push(acc0: Seq<InputEvent>, e: InputEvent)
    requires
        repeat_only_while_held(acc0),
        e.value == 2 ==> acc0.len() > 0 && (acc0.last().value == 1 || acc0.last().value == 2),
    ensures
        repeat_only_while_held(acc0.push(e)),
{
    let acc = acc0.push(e);
    let n = acc0.len() as int;
    assert forall|i: int|
        0 <= i < acc.len() && (#[trigger] acc[i]).value == 2 implies i > 0 && (acc[i - 1].value
            == 1 || acc[i - 1].value == 2) by {
        if i < n {
            assert(acc0[i].value == 2);
            assert(acc[i - 1] == acc0[i - 1]);
        } else {
            assert(acc[i - 1] == acc0.last());
        }
    }
}

proof fn lemma_sync_push(acc0: Seq<InputEvent>, e: InputEvent)
    requires
        no_double_sync(acc0),
        e.spec_is_syn_report() ==> acc0.len() > 0 && !acc0.last().spec_is_syn_report(),
    ensures
        no_double_sync(acc0.push(e)),
{
    let acc = acc0.push(e);
    let n = acc0.len() as int;
    assert forall|i: int|
        0 <= i && i + 1 < acc.len() && (#[trigger] acc[i]).spec_is_syn_report()
            implies !acc[i + 1].spec_is_syn_report() by {
        if i + 1 < n {
            assert(acc0[i].spec_is_syn_report());
            assert(acc[i + 1] == acc0[i + 1]);
        } else {
            assert(acc[i] == acc0[n - 1]);
        }
    }
}

/// No duplicate down: in any stream of key events for a single code, the
/// events the filter accepts never contain two key-downs without an
/// intervening accepted release.
pub proof fn lemma_no_duplicate_down(evs: Seq<InputEvent>, code: i32)
    requires
        all_key_events_for(evs, code),
    ensures
        no_duplicate_down(spec_accepted(ts_init(), evs)),
    decreases evs.len(),
{
    if evs.len() == 0 {
    } else {
        let head = evs.drop_last();
        assert(all_key_events_for(head, code));
        lemma_no_duplicate_down(head, code);
        lemma_state_is_last_accepted(head, code);
        let e = evs.last();
        let prev = spec_run(ts_init(), head);
        let acc0 = spec_accepted(ts_init(), head);
        if spec_should_send(prev, e) {
            if e.value == 1 {
                assert(ts_key(prev, code) == 0);
            }
            lemma_ndd_push(acc0, e);
        }
    }
}

/// Repeat only while held: an accepted repeat event for a code is always
/// immediately preceded, among accepted events, by an accepted down or
/// another accepted repeat.
pub proof fn lemma_repeat_only_while_held(evs: Seq<InputEvent>, code: i32)
    requires
        all_key_events_for(evs, code),
    ensures
        repeat_only_while_held(spec_accepted(ts_init(), evs)),
    decreases evs.len(),
{
    if evs.len() == 0 {
    } else {
        let head = evs.drop_last();
        assert(all_key_events_for(head, code));
        lemma_repeat_only_while_held(head, code);
        lemma_state_is_last_accepted(head, code);
        let e = evs.last();
        let prev = spec_run(ts_init(), head);
        let acc0 = spec_accepted(ts_init(), head);
        if spec_should_send(prev, e) {
            if e.value == 2 {
                assert(ts_key(prev, code) != 0);
                assert(acc0.len() > 0);
                assert(acc0.last().spec_is_key_event() && 0 <= acc0.last().value <= 2);
                assert(acc0.last().value == 1 || acc0.last().value == 2);
            }
            lemma_rep_push(acc0, e);
        }
    }
}

/// Reset completeness, shape of the synthesized sequence: the release
/// events a reset produces come in one release/sync pair per pressed code,
/// with the pair order following the code order.
pub proof fn lemma_release_seq_shape(codes: Seq<i32>)
    ensures
        crate::tracker::spec_release_seq(codes).len() == 2 * codes.len(),
        forall|i: int|
            0 <= i < codes.len() ==> #[trigger] crate::tracker::spec_release_seq(codes)[2 * i]
                == crate::event::spec_key_event(codes[i], 0),
        forall|i: int|
            0 <= i < codes.len() ==> #[trigger] crate::tracker::spec_release_seq(codes)[2 * i + 1]
                == crate::event::spec_syn_report(),
    decreases codes.len(),
{
    if codes.len() > 0 {
        lemma_release_seq_shape(codes.drop_last());
    }
}

/// Round trip through the output sink: sending the same key-down or key-up
/// event twice, with no intervening event, transmits it at most once — the
/// second send is always suppressed as redundant.
pub proof fn lemma_round_trip_single_write(s: TrackState, code: i32, value: i32)
    requires
        value == 0 || value == 1,
    ensures
        ({
            let ev = crate::event::spec_key_event(code, value);
            spec_accepted(s, seq![ev, ev]) == spec_accepted(s, seq![ev])
        }),
{
    let ev = crate::event::spec_key_event(code, value);
    crate::tracker::lemma_run_one(s, ev);
    assert(seq![ev, ev].drop_last() =~= seq![ev]);
    assert(seq![ev, ev].last() == ev);
    let s1 = spec_run(s, seq![ev]);
    assert(!spec_should_send(s1, ev));
}

/// Sync suppression: in any stream of events, the filter never accepts two
/// synchronization markers in a row.
pub proof fn lemma_sync_suppression(evs: Seq<InputEvent>)
    ensures
        no_double_sync(spec_accepted(ts_init(), evs)),
    decreases evs.len(),
{
    if evs.len() == 0 {
    } else {
        let head = evs.drop_last();
        lemma_sync_suppression(head);
        lemma_pending_tracks_last(head);
        let e = evs.last();
        let prev = spec_run(ts_init(), head);
        let acc0 = spec_accepted(ts_init(), head);
        if spec_should_send(prev, e) {
            if e.spec_is_syn_report() {
                assert(prev.pending);
            }
            lemma_sync_push(acc0, e);
        }
    }
}

} // verus!
