use keyremapper::ec;
use keyremapper::ec::EventType;
use keyremapper::event::InputEvent;
use keyremapper::tracker::InputEventTracker;

#[test]
fn test_input_event_tracker() {
    let mut et = InputEventTracker::new();

    assert_eq!(0, et.key_state(0));
    assert_eq!(0, et.key_state(1));

    // a sync marker with nothing pending is redundant
    assert_eq!(false, et.should_send(&InputEvent::new(EventType::EvSyn, 0, 0)));
    assert_eq!(false, et.should_send(&InputEvent::new(EventType::EvKey, 1, 0)));
    assert_eq!(true, et.should_send(&InputEvent::new(EventType::EvKey, 1, 1)));
    assert_eq!(false, et.should_send(&InputEvent::new(EventType::EvKey, 1, 2)));
    assert_eq!(true, et.should_send(&InputEvent::new(EventType::EvKey, 2, 1)));

    et.on_event_sent(&InputEvent::new(EventType::EvKey, 1, 1));
    et.on_event_sent(&InputEvent::new_syn_report());

    assert_eq!(false, et.should_send(&InputEvent::new(EventType::EvSyn, 0, 0)));
    assert_eq!(true, et.should_send(&InputEvent::new(EventType::EvKey, 1, 0)));
    assert_eq!(false, et.should_send(&InputEvent::new(EventType::EvKey, 1, 1)));
    assert_eq!(true, et.should_send(&InputEvent::new(EventType::EvKey, 1, 2)));
    assert_eq!(true, et.should_send(&InputEvent::new(EventType::EvKey, 2, 1)));

    et.on_event_sent(&InputEvent::new(EventType::EvKey, 1, 2));
    et.on_event_sent(&InputEvent::new_syn_report());

    assert_eq!(false, et.should_send(&InputEvent::new(EventType::EvSyn, 0, 0)));
    assert_eq!(true, et.should_send(&InputEvent::new(EventType::EvKey, 1, 0)));
    assert_eq!(false, et.should_send(&InputEvent::new(EventType::EvKey, 1, 1)));
    assert_eq!(true, et.should_send(&InputEvent::new(EventType::EvKey, 1, 2)));
    assert_eq!(true, et.should_send(&InputEvent::new(EventType::EvKey, 2, 1)));

    et.on_event_sent(&InputEvent::new(EventType::EvKey, 3, 1));
    et.on_event_sent(&InputEvent::new_syn_report());

    assert_eq!(true, et.should_send(&InputEvent::new(EventType::EvRel, 5, 1)));
    et.on_event_sent(&InputEvent::new(EventType::EvRel, 5, 1));
    et.on_event_sent(&InputEvent::new_syn_report());
    assert_eq!(true, et.should_send(&InputEvent::new(EventType::EvRel, 5, 1)));

    {
        let reset_events = et.reset();

        let expected: Vec<InputEvent> = vec![
            InputEvent::new(EventType::EvKey, 1, 0),
            InputEvent::new_syn_report(),
            InputEvent::new(EventType::EvKey, 3, 0),
            InputEvent::new_syn_report(),
        ];
        assert_eq!(expected, reset_events);
    }

    {
        let reset_events = et.reset();

        let expected: Vec<InputEvent> = vec![];
        assert_eq!(expected, reset_events);
    }
}

#[test]
fn test_fresh_tracker_accepts_down_then_suppresses_duplicate() {
    // a down on a fresh tracker is accepted
    let mut et = InputEventTracker::new();
    let down = InputEvent::new_key_event(30, 1);
    assert!(et.should_send(&down));
    et.on_event_sent(&down);
    // the same down again is a duplicate and suppressed
    assert!(!et.should_send(&down));
    // the matching release is accepted
    assert!(et.should_send(&InputEvent::new_key_event(30, 0)));
}

#[test]
fn test_reset_releases_pressed_codes_in_order() {
    let mut et = InputEventTracker::new();
    et.on_event_sent(&InputEvent::new_key_event(3, 1));
    et.on_event_sent(&InputEvent::new_key_event(1, 1));
    assert_eq!(1, et.key_state(1));
    assert_eq!(1, et.key_state(3));

    let reset_events = et.reset();
    let expected: Vec<InputEvent> = vec![
        InputEvent::new_key_event(1, 0),
        InputEvent::new_syn_report(),
        InputEvent::new_key_event(3, 0),
        InputEvent::new_syn_report(),
    ];
    assert_eq!(expected, reset_events);
    assert_eq!(0, et.key_state(1));
    assert_eq!(0, et.key_state(3));
}

#[test]
fn test_reset_skips_released_codes() {
    let mut et = InputEventTracker::new();
    et.on_event_sent(&InputEvent::new_key_event(7, 1));
    et.on_event_sent(&InputEvent::new_key_event(7, 0));
    et.on_event_sent(&InputEvent::new_key_event(9, 1));
    let reset_events = et.reset();
    let expected: Vec<InputEvent> = vec![
        InputEvent::new_key_event(9, 0),
        InputEvent::new_syn_report(),
    ];
    assert_eq!(expected, reset_events);
    assert_eq!(0, et.key_state(9));
}

// feed a stream through the filter the way the output sink does, collecting
// what would actually be transmitted
fn filter_stream(events: &[InputEvent]) -> Vec<InputEvent> {
    let mut et = InputEventTracker::new();
    let mut accepted: Vec<InputEvent> = Vec::new();
    for ev in events {
        if et.should_send(ev) {
            et.on_event_sent(ev);
            accepted.push(*ev);
        }
    }
    accepted
}

#[test]
fn test_no_duplicate_down_on_stream() {
    let code = 5;
    let stream = vec![
        InputEvent::new_key_event(code, 1),
        InputEvent::new_key_event(code, 1),
        InputEvent::new_key_event(code, 2),
        InputEvent::new_key_event(code, 0),
        InputEvent::new_key_event(code, 0),
        InputEvent::new_key_event(code, 1),
    ];
    let accepted = filter_stream(&stream);
    let expected = vec![
        InputEvent::new_key_event(code, 1),
        InputEvent::new_key_event(code, 2),
        InputEvent::new_key_event(code, 0),
        InputEvent::new_key_event(code, 1),
    ];
    assert_eq!(expected, accepted);
    // no two accepted downs without an accepted up in between
    for i in 0..accepted.len() {
        for j in i + 1..accepted.len() {
            if accepted[i].value == 1 && accepted[j].value == 1 {
                assert!(accepted[i + 1..j].iter().any(|e| e.value == 0));
            }
        }
    }
}

#[test]
fn test_repeat_only_while_held_on_stream() {
    let code = 8;
    let stream = vec![
        InputEvent::new_key_event(code, 2),
        InputEvent::new_key_event(code, 1),
        InputEvent::new_key_event(code, 2),
        InputEvent::new_key_event(code, 2),
        InputEvent::new_key_event(code, 0),
        InputEvent::new_key_event(code, 2),
    ];
    let accepted = filter_stream(&stream);
    let expected = vec![
        InputEvent::new_key_event(code, 1),
        InputEvent::new_key_event(code, 2),
        InputEvent::new_key_event(code, 2),
        InputEvent::new_key_event(code, 0),
    ];
    assert_eq!(expected, accepted);
    for i in 0..accepted.len() {
        if accepted[i].value == 2 {
            assert!(i > 0 && (accepted[i - 1].value == 1 || accepted[i - 1].value == 2));
        }
    }
}

#[test]
fn test_sync_suppression_on_stream() {
    let stream = vec![
        InputEvent::new_syn_report(),
        InputEvent::new_key_event(4, 1),
        InputEvent::new_syn_report(),
        InputEvent::new_syn_report(),
        InputEvent::new(EventType::EvRel, ec::REL_Y, 2),
        InputEvent::new_syn_report(),
    ];
    let accepted = filter_stream(&stream);
    let expected = vec![
        InputEvent::new_key_event(4, 1),
        InputEvent::new_syn_report(),
        InputEvent::new(EventType::EvRel, ec::REL_Y, 2),
        InputEvent::new_syn_report(),
    ];
    assert_eq!(expected, accepted);
    for i in 0..accepted.len().saturating_sub(1) {
        assert!(!(accepted[i].is_syn_report() && accepted[i + 1].is_syn_report()));
    }
}
