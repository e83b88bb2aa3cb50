//! Routing of portable events to the pair of virtual devices.
//!
//! The writer owns one mouse and one keyboard device, constructed
//! together.  Motion and scroll always go to the mouse; a key event
//! goes to the mouse exactly when its kind is one of the mouse buttons
//! left, right or middle (the mouse is the device that advertises
//! button capabilities), and to the keyboard otherwise.

use vstd::prelude::*;

use crate::device::{
    DevType,
    Device,
    in_capabilities,
    sync_event,
};
use crate::event::{Button, Event, KeyKind, RawInputEvent, event_to_raw};

verus! {

/// The device an event is delivered to.
pub open spec fn route(e: Event) -> DevType {
    match e {
        Event::MouseMove { .. } => DevType::Mouse,
        Event::MouseScroll { .. } => DevType::Mouse,
        Event::Key { kind, .. } => match kind {
            KeyKind::Button(Button::Left) => DevType::Mouse,
            KeyKind::Button(Button::Right) => DevType::Mouse,
            KeyKind::Button(Button::Middle) => DevType::Mouse,
            _ => DevType::Keyboard,
        },
    }
}

/// The device an event is delivered to.
pub fn route_event(event: &Event) -> (t: DevType)
    ensures
        t == route(*event),
{
    match *event {
        Event::MouseMove { .. } => DevType::Mouse,
        Event::MouseScroll { .. } => DevType::Mouse,
        Event::Key { kind, .. } => match kind {
            KeyKind::Button(Button::Left) => DevType::Mouse,
            KeyKind::Button(Button::Right) => DevType::Mouse,
            KeyKind::Button(Button::Middle) => DevType::Mouse,
            _ => DevType::Keyboard,
        },
    }
}

/// Whether a button is one of the three the mouse device serves.
pub open spec fn standard_button(b: Button) -> bool {
    b == Button::Left || b == Button::Right || b == Button::Middle
}

/// Law: for every event whose button (if any) is among left, right
/// and middle, both the translated record and the synchronization
/// record that follows it lie within the advertised capabilities of
/// the device the event is routed to.  The extra buttons (side, extra,
/// forward, back, task) are routed to the keyboard, which does not
/// advertise their codes, so they are excluded here.
pub proof fn lemma_routed_event_in_capabilities(e: Event)
    requires
        match e {
            Event::Key { kind: KeyKind::Button(b), .. } => standard_button(b),
            _ => true,
        },
    ensures
        in_capabilities(route(e), event_to_raw(e).type_, event_to_raw(e).code),
        in_capabilities(route(e), sync_event().type_, sync_event().code),
{
    let t = route(e);
    let caps = crate::device::capabilities_spec(t);
    assert(caps[0].type_ == sync_event().type_ && caps[0].lo <= sync_event().code <= caps[0].hi);
    match e {
        Event::MouseMove { .. } => {
            assert(caps[1].type_ == event_to_raw(e).type_ && caps[1].lo <= event_to_raw(e).code
                <= caps[1].hi);
        },
        Event::MouseScroll { .. } => {
            assert(caps[1].type_ == event_to_raw(e).type_ && caps[1].lo <= event_to_raw(e).code
                <= caps[1].hi);
        },
        Event::Key { kind, .. } => match kind {
            KeyKind::Button(_) => {
                assert(caps[2].type_ == event_to_raw(e).type_ && caps[2].lo <= event_to_raw(
                    e,
                ).code <= caps[2].hi);
            },
            KeyKind::Key(k) => {
                assert(crate::event::key_code(k) <= 248);
                assert(caps[1].type_ == event_to_raw(e).type_ && caps[1].lo <= event_to_raw(
                    e,
                ).code <= caps[1].hi);
            },
        },
    }
}

/// The virtual mouse device.
pub struct Mouse {
    device: Device,
}

impl View for Mouse {
    type V = Seq<RawInputEvent>;

    /// The raw records the mouse has handed out, in order.
    closed spec fn view(&self) -> Seq<RawInputEvent> {
        self.device@
    }
}

impl Mouse {
    /// Wrap a finished device of mouse type.
    pub fn new(device: Device) -> (m: Mouse)
        requires
            device.dev_type_spec() == DevType::Mouse,
        ensures
            m@ == device@,
    {
        Mouse { device }
    }

    /// Write one event to the mouse device: the translated record and
    /// its synchronization record, in that order.
    pub fn write(&mut self, event: Event) -> (r: Vec<RawInputEvent>)
        ensures
            r@ == seq![event_to_raw(event), sync_event()],
            final(self)@ == old(self)@ + r@,
    {
        self.device.write(event)
    }

    /// The raw records handed out so far, in order.
    pub fn written(&self) -> (r: &Vec<RawInputEvent>)
        ensures
            r@ == self@,
    {
        self.device.written()
    }
}

/// The virtual keyboard device.
pub struct Keyboard {
    device: Device,
}

impl View for Keyboard {
    type V = Seq<RawInputEvent>;

    /// The raw records the keyboard has handed out, in order.
    closed spec fn view(&self) -> Seq<RawInputEvent> {
        self.device@
    }
}

impl Keyboard {
    /// Wrap a finished device of keyboard type.
    pub fn new(device: Device) -> (k: Keyboard)
        requires
            device.dev_type_spec() == DevType::Keyboard,
        ensures
            k@ == device@,
    {
        Keyboard { device }
    }

    /// Write one event to the keyboard device: the translated record
    /// and its synchronization record, in that order.
    pub fn write(&mut self, event: Event) -> (r: Vec<RawInputEvent>)
        ensures
            r@ == seq![event_to_raw(event), sync_event()],
            final(self)@ == old(self)@ + r@,
    {
        self.device.write(event)
    }

    /// The raw records handed out so far, in order.
    pub fn written(&self) -> (r: &Vec<RawInputEvent>)
        ensures
            r@ == self@,
    {
        self.device.written()
    }
}

/// The event router: owns the mouse and the keyboard, constructed
/// together.  If the second device of the pair fails to construct,
/// the first must be torn down by its own teardown sequence before
/// the failure propagates — construction of the pair leaks nothing.
pub struct EventWriter {
    mouse: Mouse,
    keyboard: Keyboard,
}

impl EventWriter {
    /// The raw records delivered to the mouse device, in order.
    pub closed spec fn mouse_events(&self) -> Seq<RawInputEvent> {
        self.mouse@
    }

    /// The raw records delivered to the keyboard device, in order.
    pub closed spec fn keyboard_events(&self) -> Seq<RawInputEvent> {
        self.keyboard@
    }

    /// Combine the two finished devices into a router.
    pub fn new(mouse: Mouse, keyboard: Keyboard) -> (w: EventWriter)
        ensures
            w.mouse_events() == mouse@,
            w.keyboard_events() == keyboard@,
    {
        EventWriter { mouse, keyboard }
    }

    /// Write one event to the device it routes to.  Exactly one
    /// device receives the translated record followed by one
    /// synchronization record; the other device is untouched.
    pub fn write(&mut self, event: Event) -> (r: Vec<RawInputEvent>)
        ensures
            r@ == seq![event_to_raw(event), sync_event()],
            route(event) == DevType::Mouse ==> {
                &&& final(self).mouse_events() == old(self).mouse_events() + r@
                &&& final(self).keyboard_events() == old(self).keyboard_events()
            },
            route(event) == DevType::Keyboard ==> {
                &&& final(self).keyboard_events() == old(self).keyboard_events() + r@
                &&& final(self).mouse_events() == old(self).mouse_events()
            },
    {
        match route_event(&event) {
            DevType::Mouse => self.mouse.write(event),
            DevType::Keyboard => self.keyboard.write(event),
        }
    }

    /// The raw records delivered to the mouse so far, in order.
    pub fn mouse_written(&self) -> (r: &Vec<RawInputEvent>)
        ensures
            r@ == self.mouse_events(),
    {
        self.mouse.written()
    }

    /// The raw records delivered to the keyboard so far, in order.
    pub fn keyboard_written(&self) -> (r: &Vec<RawInputEvent>)
        ensures
            r@ == self.keyboard_events(),
    {
        self.keyboard.written()
    }
}

} // verus!
