use rkvm_client::event::{
    Axis, Button, Direction, Event, Key, KeyKind, RawInputEvent, Scroll, EV_KEY, EV_REL,
};

fn raw(type_: u16, code: u16, value: i32) -> RawInputEvent {
    RawInputEvent { type_, code, value, tv_sec: 0, tv_usec: 0 }
}

#[test]
fn to_raw_mouse_move_x() {
    let e = Event::MouseMove { axis: Axis::X, delta: 5 };
    assert_eq!(e.to_raw(), raw(EV_REL, 0, 5));
}

#[test]
fn to_raw_mouse_move_y() {
    let e = Event::MouseMove { axis: Axis::Y, delta: -7 };
    assert_eq!(e.to_raw(), raw(EV_REL, 1, -7));
}

#[test]
fn to_raw_scroll_tiers() {
    assert_eq!(Event::MouseScroll { delta: 1, scroll: Scroll::Lo }.to_raw(), raw(EV_REL, 8, 1));
    assert_eq!(
        Event::MouseScroll { delta: 120, scroll: Scroll::HiRes }.to_raw(),
        raw(EV_REL, 11, 120)
    );
    assert_eq!(
        Event::MouseScroll { delta: -120, scroll: Scroll::HiResH }.to_raw(),
        raw(EV_REL, 12, -120)
    );
}

#[test]
fn to_raw_key_edges() {
    let down = Event::Key { direction: Direction::Down, kind: KeyKind::Key(Key::A) };
    let up = Event::Key { direction: Direction::Up, kind: KeyKind::Key(Key::A) };
    assert_eq!(down.to_raw(), raw(EV_KEY, 30, 1));
    assert_eq!(up.to_raw(), raw(EV_KEY, 30, 0));
}

#[test]
fn to_raw_button_edges() {
    let down = Event::Key { direction: Direction::Down, kind: KeyKind::Button(Button::Left) };
    assert_eq!(down.to_raw(), raw(EV_KEY, 272, 1));
}

#[test]
fn round_trip_all_sample_events() {
    let samples = vec![
        Event::MouseMove { axis: Axis::X, delta: 3 },
        Event::MouseMove { axis: Axis::Y, delta: -3 },
        Event::MouseScroll { delta: 1, scroll: Scroll::Lo },
        Event::MouseScroll { delta: 2, scroll: Scroll::HiRes },
        Event::MouseScroll { delta: -2, scroll: Scroll::HiResH },
        Event::Key { direction: Direction::Up, kind: KeyKind::Key(Key::Z) },
        Event::Key { direction: Direction::Down, kind: KeyKind::Key(Key::Space) },
        Event::Key { direction: Direction::Up, kind: KeyKind::Button(Button::Middle) },
        Event::Key { direction: Direction::Down, kind: KeyKind::Button(Button::Task) },
    ];
    for e in samples {
        assert_eq!(Event::from_raw(e.to_raw()), Some(e));
    }
}

#[test]
fn round_trip_preserves_direction_through_values() {
    // Up must come back through raw value 0, Down through raw value 1.
    let up = Event::Key { direction: Direction::Up, kind: KeyKind::Key(Key::Q) };
    let down = Event::Key { direction: Direction::Down, kind: KeyKind::Key(Key::Q) };
    assert_eq!(up.to_raw().value, 0);
    assert_eq!(down.to_raw().value, 1);
    assert_eq!(Event::from_raw(up.to_raw()), Some(up));
    assert_eq!(Event::from_raw(down.to_raw()), Some(down));
}

#[test]
fn from_raw_rejects_unregistered_relative_axis() {
    // Code 6 is a relative axis this system never produces.
    assert_eq!(Event::from_raw(raw(EV_REL, 6, 1)), None);
}

#[test]
fn from_raw_rejects_unknown_event_type() {
    assert_eq!(Event::from_raw(raw(3, 0, 1)), None);
}

#[test]
fn from_raw_rejects_key_with_unknown_code() {
    // Code 200 resolves to neither a known key nor a known button.
    assert_eq!(Event::from_raw(raw(EV_KEY, 200, 1)), None);
}

#[test]
fn from_raw_rejects_key_with_non_edge_value() {
    // Key auto-repeat (value 2) is not produced by to_raw.
    assert_eq!(Event::from_raw(raw(EV_KEY, 30, 2)), None);
}

#[test]
fn key_kind_from_raw_prefers_keys_then_buttons() {
    assert_eq!(KeyKind::from_raw(30), Some(KeyKind::Key(Key::A)));
    assert_eq!(KeyKind::from_raw(272), Some(KeyKind::Button(Button::Left)));
    assert_eq!(KeyKind::from_raw(5000), None);
}

#[test]
fn key_kind_to_raw_matches_parts() {
    assert_eq!(KeyKind::Key(Key::Enter).to_raw(), 28);
    assert_eq!(KeyKind::Button(Button::Right).to_raw(), 273);
}
