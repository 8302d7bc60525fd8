use keyremapper::ec;
use keyremapper::event::InputEvent;
use keyremapper::output::OutputSink;

#[test]
fn test_send_event_deduplicates() {
    let mut out = OutputSink::new();
    let down = InputEvent::new_key_event(ec::KEY_A, 1);
    // first send goes through
    assert_eq!(Some(down), out.send_event(&down));
    // the identical second send produces no write
    assert_eq!(None, out.send_event(&down));
    // the release goes through, a second one does not
    let up = InputEvent::new_key_event(ec::KEY_A, 0);
    assert_eq!(Some(up), out.send_event(&up));
    assert_eq!(None, out.send_event(&up));
}

#[test]
fn test_send_syn_report_only_when_pending() {
    let mut out = OutputSink::new();
    // nothing was sent: the marker is redundant
    assert_eq!(None, out.send_syn_report());
    out.send_key_event(ec::KEY_Z, 1);
    assert_eq!(Some(InputEvent::new_syn_report()), out.send_syn_report());
    // and immediately after a marker, another one is redundant
    assert_eq!(None, out.send_syn_report());
}

#[test]
fn test_send_events_appends_sync() {
    let mut out = OutputSink::new();
    let batch = vec![
        InputEvent::new_key_event(10, 1),
        InputEvent::new_key_event(11, 1),
    ];
    let writes = out.send_events(&batch);
    let expected = vec![
        InputEvent::new_key_event(10, 1),
        InputEvent::new_key_event(11, 1),
        InputEvent::new_syn_report(),
    ];
    assert_eq!(expected, writes);

    // a batch already ending in a marker gets no second one
    let batch2 = vec![
        InputEvent::new_key_event(10, 0),
        InputEvent::new_syn_report(),
    ];
    let writes2 = out.send_events(&batch2);
    assert_eq!(batch2, writes2);

    // an empty batch still emits a marker when one is pending
    out.send_key_event(12, 1);
    let writes3 = out.send_events(&[]);
    assert_eq!(vec![InputEvent::new_syn_report()], writes3);
}

#[test]
fn test_send_key_events_batch() {
    let mut out = OutputSink::new();
    let writes = out.send_key_events(&[(20, 1), (20, 0)]);
    let expected = vec![
        InputEvent::new_key_event(20, 1),
        InputEvent::new_key_event(20, 0),
        InputEvent::new_syn_report(),
    ];
    assert_eq!(expected, writes);
}

#[test]
fn test_output_reset() {
    let mut out = OutputSink::new();
    out.send_key_event(3, 1);
    out.send_key_event(1, 1);
    out.send_key_event(2, 1);
    out.send_key_event(2, 0);
    let writes = out.reset();
    let expected = vec![
        InputEvent::new_key_event(1, 0),
        InputEvent::new_syn_report(),
        InputEvent::new_key_event(3, 0),
        InputEvent::new_syn_report(),
    ];
    assert_eq!(expected, writes);
    assert_eq!(0, out.key_state(1));
    assert_eq!(0, out.key_state(3));
    assert!(!out.is_key_on(1));
}

#[test]
fn test_press_with_modifiers_restores_snapshot() {
    // the output believes left ctrl is held (mirroring a physical hold)
    let mut out = OutputSink::new();
    out.send_key_event(ec::KEY_LEFTCTRL, 1);

    let writes = out.press_with_modifiers(ec::KEY_A, "s");

    let expected = vec![
        // release the held modifiers, one marker
        InputEvent::new_key_event(ec::KEY_LEFTCTRL, 0),
        InputEvent::new_syn_report(),
        // press the requested modifier
        InputEvent::new_key_event(ec::KEY_LEFTSHIFT, 1),
        // tap the key
        InputEvent::new_key_event(ec::KEY_A, 1),
        InputEvent::new_key_event(ec::KEY_A, 0),
        InputEvent::new_syn_report(),
        // restore: ctrl down again, the injected shift released, one marker
        InputEvent::new_key_event(ec::KEY_LEFTCTRL, 1),
        InputEvent::new_key_event(ec::KEY_LEFTSHIFT, 0),
        InputEvent::new_syn_report(),
    ];
    assert_eq!(expected, writes);

    // afterwards exactly ctrl is held, as before the call
    assert_eq!(1, out.key_state(ec::KEY_LEFTCTRL));
    assert_eq!(0, out.key_state(ec::KEY_LEFTSHIFT));
    assert_eq!(0, out.key_state(ec::KEY_LEFTALT));
    assert_eq!(0, out.key_state(ec::KEY_LEFTMETA));
    assert_eq!(0, out.key_state(ec::KEY_A));
}

#[test]
fn test_press_with_modifiers_no_modifiers_held() {
    let mut out = OutputSink::new();
    let writes = out.press_with_modifiers(ec::KEY_A, "a");
    let expected = vec![
        // nothing was held, so the release pass writes nothing, not even a
        // marker (none is pending on a fresh output)
        InputEvent::new_key_event(ec::KEY_LEFTALT, 1),
        InputEvent::new_key_event(ec::KEY_A, 1),
        InputEvent::new_key_event(ec::KEY_A, 0),
        InputEvent::new_syn_report(),
        InputEvent::new_key_event(ec::KEY_LEFTALT, 0),
        InputEvent::new_syn_report(),
    ];
    assert_eq!(expected, writes);
    // every modifier is released afterwards
    for code in [
        ec::KEY_LEFTALT,
        ec::KEY_RIGHTALT,
        ec::KEY_LEFTCTRL,
        ec::KEY_RIGHTCTRL,
        ec::KEY_LEFTSHIFT,
        ec::KEY_RIGHTSHIFT,
        ec::KEY_LEFTMETA,
        ec::KEY_RIGHTMETA,
    ] {
        assert_eq!(0, out.key_state(code));
    }
}

#[test]
fn test_press_with_modifiers_wildcard() {
    let mut out = OutputSink::new();
    out.send_key_event(ec::KEY_LEFTCTRL, 1);
    let writes = out.press_with_modifiers(ec::KEY_A, "*");
    // raw mode: no modifier management at all, ctrl stays held
    let expected = vec![
        InputEvent::new_key_event(ec::KEY_A, 1),
        InputEvent::new_key_event(ec::KEY_A, 0),
        InputEvent::new_syn_report(),
    ];
    assert_eq!(expected, writes);
    assert_eq!(1, out.key_state(ec::KEY_LEFTCTRL));
    assert_eq!(0, out.key_state(ec::KEY_A));
}

#[test]
fn test_round_trip_single_write() {
    // the same key event sent twice through the sink is written once
    let mut out = OutputSink::new();
    let down = InputEvent::new_key_event(ec::KEY_C, 1);
    let first = out.send_event(&down);
    let second = out.send_event(&down);
    let writes: usize = [first, second].iter().filter(|w| w.is_some()).count();
    assert_eq!(1, writes);
}

#[test]
fn test_press_with_modifiers_two_held_overlapping_spec() {
    // shift and right-ctrl are held; the spec requests shift itself
    let mut out = OutputSink::new();
    out.send_key_event(ec::KEY_LEFTSHIFT, 1);
    out.send_key_event(ec::KEY_RIGHTCTRL, 1);

    out.press_with_modifiers(ec::KEY_C, "s");

    // afterwards exactly the two previously held modifiers are held again
    assert_eq!(1, out.key_state(ec::KEY_LEFTSHIFT));
    assert_eq!(1, out.key_state(ec::KEY_RIGHTCTRL));
    for code in [
        ec::KEY_LEFTALT,
        ec::KEY_RIGHTALT,
        ec::KEY_LEFTCTRL,
        ec::KEY_RIGHTSHIFT,
        ec::KEY_LEFTMETA,
        ec::KEY_RIGHTMETA,
    ] {
        assert_eq!(0, out.key_state(code));
    }
    assert_eq!(0, out.key_state(ec::KEY_C));
}

#[test]
fn test_press_wildcard_on_held_modifier_releases_it() {
    // raw mode skips the snapshot/restore, so tapping a key that happens to
    // be a held modifier leaves it released: the down is suppressed as a
    // duplicate and the up goes through
    let mut out = OutputSink::new();
    out.send_key_event(ec::KEY_LEFTCTRL, 1);
    let writes = out.press_with_modifiers(ec::KEY_LEFTCTRL, "*");
    let expected = vec![
        InputEvent::new_key_event(ec::KEY_LEFTCTRL, 0),
        InputEvent::new_syn_report(),
    ];
    assert_eq!(expected, writes);
    assert_eq!(0, out.key_state(ec::KEY_LEFTCTRL));
}
