use rkvm_client::device::{DevType, Device, DeviceSetup, SetupAction};
use rkvm_client::event::{Axis, Button, Direction, Event, Key, KeyKind, EV_SYN};
use rkvm_client::writer::{route_event, EventWriter, Keyboard, Mouse};

fn build_device(dev_type: DevType) -> Device {
    let mut setup = DeviceSetup::new(dev_type);
    loop {
        match setup.next_action() {
            SetupAction::CreateDescriptor => setup.descriptor_created(true),
            SetupAction::SetMetadata => setup.metadata_set(),
            SetupAction::EnableType { .. } => setup.enable_returned(0),
            SetupAction::EnableCode { .. } => setup.enable_returned(0),
            SetupAction::CreateHandle => setup.handle_returned(0),
            SetupAction::Complete => return setup.into_device(),
            other => panic!("unexpected action during a clean build: {:?}", other),
        }
    }
}

fn writer() -> EventWriter {
    let mouse = Mouse::new(build_device(DevType::Mouse));
    let keyboard = Keyboard::new(build_device(DevType::Keyboard));
    EventWriter::new(mouse, keyboard)
}

#[test]
fn left_button_goes_to_the_mouse() {
    let mut w = writer();
    let e = Event::Key { direction: Direction::Down, kind: KeyKind::Button(Button::Left) };
    assert_eq!(route_event(&e), DevType::Mouse);
    w.write(e);
    assert_eq!(w.mouse_written().len(), 2);
    assert_eq!(w.keyboard_written().len(), 0);
    assert_eq!(w.mouse_written()[0], e.to_raw());
}

#[test]
fn letter_key_goes_to_the_keyboard() {
    let mut w = writer();
    let e = Event::Key { direction: Direction::Down, kind: KeyKind::Key(Key::A) };
    assert_eq!(route_event(&e), DevType::Keyboard);
    w.write(e);
    assert_eq!(w.keyboard_written().len(), 2);
    assert_eq!(w.mouse_written().len(), 0);
    assert_eq!(w.keyboard_written()[0], e.to_raw());
}

#[test]
fn mouse_motion_goes_to_the_mouse() {
    let mut w = writer();
    let e = Event::MouseMove { axis: Axis::X, delta: 5 };
    assert_eq!(route_event(&e), DevType::Mouse);
    w.write(e);
    assert_eq!(w.mouse_written().len(), 2);
    assert_eq!(w.keyboard_written().len(), 0);
}

#[test]
fn right_and_middle_buttons_go_to_the_mouse() {
    for b in [Button::Right, Button::Middle] {
        let e = Event::Key { direction: Direction::Up, kind: KeyKind::Button(b) };
        assert_eq!(route_event(&e), DevType::Mouse);
    }
}

#[test]
fn extra_buttons_go_to_the_keyboard() {
    for b in [Button::Side, Button::Extra, Button::Forward, Button::Back, Button::Task] {
        let e = Event::Key { direction: Direction::Down, kind: KeyKind::Button(b) };
        assert_eq!(route_event(&e), DevType::Keyboard);
    }
}

#[test]
fn every_write_appends_one_sync_record() {
    let mut w = writer();
    w.write(Event::MouseMove { axis: Axis::Y, delta: 1 });
    w.write(Event::MouseMove { axis: Axis::X, delta: 2 });
    let written = w.mouse_written();
    assert_eq!(written.len(), 4);
    for i in [1, 3] {
        assert_eq!(written[i].type_, EV_SYN);
        assert_eq!(written[i].code, 0);
        assert_eq!(written[i].value, 0);
    }
}
