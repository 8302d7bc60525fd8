use keyremapper::ec;
use keyremapper::ec::EventType;
use keyremapper::event::{InputEvent, KeyEventType, ModifierSet};

#[test]
fn test_input_event_format_ev_key() {
    assert_eq!(
        "{InputEvent: time=0.000000 type=EV_KEY code=KEY_A value=1}",
        InputEvent::new(EventType::EvKey, ec::KEY_A, 1).event_string().as_str()
    )
}

#[test]
fn test_input_event_format_ev_time() {
    assert_eq!(
        "{InputEvent: time=1.000002 type=EV_KEY code=KEY_A value=1}",
        InputEvent {
            time_sec: 1,
            time_usec: 2,
            event_type: EventType::EvKey,
            code: ec::KEY_A,
            value: 1,
            modifiers: ModifierSet::none(),
        }
        .event_string()
        .as_str()
    )
}

#[test]
fn test_input_event_format_ev_key_btn() {
    assert_eq!(
        "{InputEvent: time=0.000000 type=EV_KEY code=BTN_1 value=1}",
        InputEvent::new(EventType::EvKey, ec::BTN_1, 1).event_string().as_str()
    )
}

#[test]
fn test_input_event_format_ev_key_unknown() {
    assert_eq!(
        "{InputEvent: time=0.000000 type=EV_KEY code=[Unknown code 999999] value=1}",
        InputEvent::new(EventType::EvKey, 999999, 1).event_string().as_str()
    )
}

#[test]
fn test_format_syn_report() {
    assert_eq!(
        "{InputEvent: time=0.000000 ===== SYN_REPORT =====}",
        InputEvent::new_syn_report().event_string().as_str()
    )
}

#[test]
fn test_format_negative_time_and_modifiers() {
    let mut ev = InputEvent::with_timestamp(-3, 7, EventType::EvKey, ec::KEY_Z, 2);
    ev.set_modifiers(true, false, true, false, true);
    assert_eq!(
        "{InputEvent: time=-3.000007 type=EV_KEY code=KEY_Z value=2 modifiers=[ase]}",
        ev.event_string().as_str()
    )
}

#[test]
fn test_format_unknown_type() {
    // EvFf has a known type name but no named codes
    assert_eq!(
        "{InputEvent: time=0.000000 type=EV_FF code=[Unknown code 2] value=-10}",
        InputEvent::new(EventType::EvFf, 2, -10).event_string().as_str()
    )
}

#[test]
fn test_type_and_code_names() {
    assert_eq!("EV_SYN", ec::get_type_name(ec::EV_SYN));
    assert_eq!("EV_KEY", ec::get_type_name(ec::EV_KEY));
    assert_eq!("", ec::get_type_name(12345));
    assert_eq!("KEY_A", ec::get_code_name(ec::EV_KEY, ec::KEY_A));
    assert_eq!("SYN_REPORT", ec::get_code_name(ec::EV_SYN, ec::SYN_REPORT));
    assert_eq!("REL_WHEEL", ec::get_code_name(ec::EV_REL, ec::REL_WHEEL));
    assert_eq!("", ec::get_code_name(ec::EV_KEY, 987654));
    let ev = InputEvent::new(EventType::EvRel, ec::REL_X, -5);
    assert_eq!("EV_REL", ev.event_type_name().as_str());
    assert_eq!("REL_X", ev.code_name().as_str());
}

#[test]
fn test_event_type_from_i32() {
    assert_eq!(EventType::EvKey, EventType::from_i32(ec::EV_KEY));
    assert_eq!(EventType::EvSyn, EventType::from_i32(ec::EV_SYN));
    assert_eq!(EventType::EvFfStatus, EventType::from_i32(ec::EV_FF_STATUS));
    assert_eq!(ec::EV_REP, EventType::EvRep.code());
}

#[test]
fn test_validate_modifiers() {
    keyremapper::event::validate_modifiers("", "a");
    keyremapper::event::validate_modifiers("a", "a");

    keyremapper::event::validate_modifiers("", "sa");
    keyremapper::event::validate_modifiers("a", "sa");
    keyremapper::event::validate_modifiers("s", "sa");
    keyremapper::event::validate_modifiers("as", "sa");
}

#[test]
fn test_validate_modifiers_results() {
    assert!(keyremapper::event::validate_modifiers("as", "sa"));
    assert!(!keyremapper::event::validate_modifiers("c", "sa"));
    assert!(!keyremapper::event::validate_modifiers("sca", "sa"));
}

#[test]
fn test_with_modifiers_wildcard_ignores_undeclared() {
    // an event tagged with esc and alt
    let mut ev = InputEvent::new_key_event(ec::KEY_A, 1);
    ev.set_modifiers(true, false, false, false, true);
    // the wildcard tolerates the undeclared alt
    assert!(ev.with_modifiers("e*"));
    // without the wildcard the undeclared alt rejects the event
    assert!(!ev.with_modifiers("e"));
}

#[test]
fn test_with_modifiers_exact() {
    let mut ev = InputEvent::new_key_event(ec::KEY_A, 1);
    ev.set_modifiers(false, true, false, false, false);
    assert!(ev.with_modifiers("c"));
    assert!(!ev.with_modifiers(""));
    assert!(!ev.with_modifiers("cs"));
    assert!(ev.with_modifiers("*"));
    assert!(ev.with_modifiers("c*"));
    let plain = InputEvent::new_key_event(ec::KEY_A, 1);
    assert!(plain.with_modifiers(""));
    assert!(plain.with_modifiers("*"));
    assert!(!plain.with_modifiers("c"));
}

#[test]
fn test_event_predicates() {
    let down = InputEvent::new_key_event(ec::KEY_A, 1);
    let up = InputEvent::new_key_event(ec::KEY_A, 0);
    let repeat = InputEvent::new_key_event(ec::KEY_A, 2);
    let syn = InputEvent::new_syn_report();
    let rel = InputEvent::new(EventType::EvRel, ec::REL_X, 3);

    assert!(down.is_key_event() && down.is_key_down_event() && down.is_key_on_event());
    assert!(!down.is_key_up_event());
    assert!(up.is_key_up_event() && !up.is_key_on_event());
    assert!(repeat.is_key_on_event() && !repeat.is_key_down_event());
    assert!(syn.is_syn_report() && !syn.is_key_event());
    assert!(!down.is_syn_report());
    assert!(rel.is_rel_event() && !rel.is_abs_event() && !rel.is_msc_event() && !rel.is_rep_event());

    assert!(down.is_key(ec::KEY_A, "*"));
    assert!(!down.is_key(ec::KEY_Z, "*"));
    assert!(down.is_key_down(ec::KEY_A, ""));
    assert!(!up.is_key_down(ec::KEY_A, ""));
    assert!(up.is_key_up(ec::KEY_A, ""));
    assert!(down.is_key_on(ec::KEY_A, ""));
    assert!(repeat.is_key_on(ec::KEY_A, ""));

    let keys = [ec::KEY_Z, ec::KEY_A];
    assert!(down.is_any_key(&keys, "*"));
    assert!(down.is_any_key_down(&keys, ""));
    assert!(up.is_any_key_up(&keys, ""));
    assert!(repeat.is_any_key_on(&keys, ""));
    assert!(!down.is_any_key(&[ec::KEY_Z, ec::KEY_X], "*"));
}

#[test]
fn test_key_event_type_match() {
    let down = InputEvent::new_key_event(ec::KEY_C, 1);
    let up = InputEvent::new_key_event(ec::KEY_C, 0);
    let repeat = InputEvent::new_key_event(ec::KEY_C, 2);
    assert!(KeyEventType::Pressed.match_event(&down));
    assert!(!KeyEventType::Pressed.match_event(&up));
    assert!(KeyEventType::Released.match_event(&up));
    assert!(!KeyEventType::Released.match_event(&repeat));
    assert!(KeyEventType::Down.match_event(&down));
    assert!(KeyEventType::Down.match_event(&repeat));
    assert!(!KeyEventType::Down.match_event(&up));
}

#[test]
fn test_constructors() {
    let ev = InputEvent::with_timestamp(10, 20, EventType::EvMsc, 4, 5);
    assert_eq!(10, ev.time_sec);
    assert_eq!(20, ev.time_usec);
    assert_eq!(EventType::EvMsc, ev.event_type);
    assert_eq!(4, ev.code);
    assert_eq!(5, ev.value);
    assert!(!ev.with_alt() && !ev.with_ctrl() && !ev.with_shift() && !ev.with_winkey() && !ev.with_esc());

    let syn = InputEvent::new_syn_report();
    assert_eq!(EventType::EvSyn, syn.event_type);
    assert_eq!(ec::SYN_REPORT, syn.code);
    assert_eq!(0, syn.value);

    let mut key = InputEvent::new_key_event(ec::KEY_X, 1);
    assert_eq!(EventType::EvKey, key.event_type);
    key.set_modifiers(true, true, false, true, false);
    assert!(key.with_alt() && key.with_ctrl() && !key.with_shift() && key.with_winkey() && !key.with_esc());
}
