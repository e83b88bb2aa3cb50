//! Portable input events and their bit-exact mapping to raw OS input codes.
//!
//! An [`Event`] is the wire-level portable representation of one input
//! change (mouse motion, wheel scroll, key or button edge).  A
//! [`RawInputEvent`] is the OS-level record injected into a virtual
//! device.  [`Event::to_raw`] and [`Event::from_raw`] are the two
//! directions of the mapping; the lemmas at the bottom prove that the
//! mapping round-trips and that every raw triple outside its image is
//! rejected.

use vstd::prelude::*;

verus! {

/// Raw event type: synchronization report.
pub const EV_SYN: u16 = 0;
/// Raw event type: key or button edge.
pub const EV_KEY: u16 = 1;
/// Raw event type: relative axis motion.
pub const EV_REL: u16 = 2;

/// Relative axis code: horizontal motion.
pub const REL_X: u16 = 0;
/// Relative axis code: vertical motion.
pub const REL_Y: u16 = 1;
/// Relative axis code: low-resolution wheel notches.
pub const REL_WHEEL: u16 = 8;
/// Relative axis code: high-resolution wheel.
pub const REL_WHEEL_HI_RES: u16 = 11;
/// Relative axis code: high-resolution horizontal wheel.
pub const REL_HWHEEL_HI_RES: u16 = 12;
/// Largest relative axis code.
pub const REL_MAX: u16 = 15;

/// Synchronization code: flush the current report to consumers.
pub const SYN_REPORT: u16 = 0;
/// Largest synchronization code.
pub const SYN_MAX: u16 = 15;

/// Mouse axis of a relative motion event.
#[derive(Clone, Copy, Debug, PartialEq, Eq, Structural)]
pub enum Axis {
    X,
    Y,
}

/// Edge direction of a key or button event.
#[derive(Clone, Copy, Debug, PartialEq, Eq, Structural)]
pub enum Direction {
    Up,
    Down,
}

/// Resolution tier of a wheel scroll event.
#[derive(Clone, Copy, Debug, PartialEq, Eq, Structural)]
pub enum Scroll {
    Lo,
    HiRes,
    HiResH,
}

/// Mouse button identifiers, a closed enumeration.
#[derive(Clone, Copy, Debug, PartialEq, Eq, Structural)]
pub enum Button {
    Left,
    Right,
    Middle,
    Side,
    Extra,
    Forward,
    Back,
    Task,
}

/// Keyboard key identifiers, a closed enumeration.
#[derive(Clone, Copy, Debug, PartialEq, Eq, Structural)]
pub enum Key {
    Esc,
    Backspace,
    Tab,
    Q,
    W,
    E,
    R,
    T,
    Y,
    U,
    I,
    O,
    P,
    Enter,
    LeftCtrl,
    A,
    S,
    D,
    F,
    G,
    H,
    J,
    K,
    L,
    LeftShift,
    Z,
    X,
    C,
    V,
    B,
    N,
    M,
    RightShift,
    LeftAlt,
    Space,
    CapsLock,
}

/// Either a keyboard key or a mouse button.
#[derive(Clone, Copy, Debug, PartialEq, Eq, Structural)]
pub enum KeyKind {
    Key(Key),
    Button(Button),
}

/// A portable input event.
///
/// `delta` payloads are opaque relative displacements; they are carried
/// through the raw mapping unchanged and never validated beyond being
/// representable in 32 bits.
#[derive(Clone, Copy, Debug, PartialEq, Eq, Structural)]
pub enum Event {
    MouseMove { axis: Axis, delta: i32 },
    MouseScroll { delta: i32, scroll: Scroll },
    Key { direction: Direction, kind: KeyKind },
}

/// The OS-level input record.  The timestamp is always zero-filled by
/// this system; the OS assigns the real timestamp on injection.
#[derive(Clone, Copy, Debug, PartialEq, Eq, Structural)]
pub struct RawInputEvent {
    pub type_: u16,
    pub code: u16,
    pub value: i32,
    pub tv_sec: i64,
    pub tv_usec: i64,
}

/// The raw code a keyboard key maps to.
pub open spec fn key_code(k: Key) -> u16 {
    match k {
        Key::Esc => 1,
        Key::Backspace => 14,
        Key::Tab => 15,
        Key::Q => 16,
        Key::W => 17,
        Key::E => 18,
        Key::R => 19,
        Key::T => 20,
        Key::Y => 21,
        Key::U => 22,
        Key::I => 23,
        Key::O => 24,
        Key::P => 25,
        Key::Enter => 28,
        Key::LeftCtrl => 29,
        Key::A => 30,
        Key::S => 31,
        Key::D => 32,
        Key::F => 33,
        Key::G => 34,
        Key::H => 35,
        Key::J => 36,
        Key::K => 37,
        Key::L => 38,
        Key::LeftShift => 42,
        Key::Z => 44,
        Key::X => 45,
        Key::C => 46,
        Key::V => 47,
        Key::B => 48,
        Key::N => 49,
        Key::M => 50,
        Key::RightShift => 54,
        Key::LeftAlt => 56,
        Key::Space => 57,
        Key::CapsLock => 58,
    }
}

/// The keyboard key a raw code resolves to, if any.
pub open spec fn key_of_code(code: u16) -> Option<Key> {
    if code == 1 {
        Some(Key::Esc)
    } else if code == 14 {
        Some(Key::Backspace)
    } else if code == 15 {
        Some(Key::Tab)
    } else if code == 16 {
        Some(Key::Q)
    } else if code == 17 {
        Some(Key::W)
    } else if code == 18 {
        Some(Key::E)
    } else if code == 19 {
        Some(Key::R)
    } else if code == 20 {
        Some(Key::T)
    } else if code == 21 {
        Some(Key::Y)
    } else if code == 22 {
        Some(Key::U)
    } else if code == 23 {
        Some(Key::I)
    } else if code == 24 {
        Some(Key::O)
    } else if code == 25 {
        Some(Key::P)
    } else if code == 28 {
        Some(Key::Enter)
    } else if code == 29 {
        Some(Key::LeftCtrl)
    } else if code == 30 {
        Some(Key::A)
    } else if code == 31 {
        Some(Key::S)
    } else if code == 32 {
        Some(Key::D)
    } else if code == 33 {
        Some(Key::F)
    } else if code == 34 {
        Some(Key::G)
    } else if code == 35 {
        Some(Key::H)
    } else if code == 36 {
        Some(Key::J)
    } else if code == 37 {
        Some(Key::K)
    } else if code == 38 {
        Some(Key::L)
    } else if code == 42 {
        Some(Key::LeftShift)
    } else if code == 44 {
        Some(Key::Z)
    } else if code == 45 {
        Some(Key::X)
    } else if code == 46 {
        Some(Key::C)
    } else if code == 47 {
        Some(Key::V)
    } else if code == 48 {
        Some(Key::B)
    } else if code == 49 {
        Some(Key::N)
    } else if code == 50 {
        Some(Key::M)
    } else if code == 54 {
        Some(Key::RightShift)
    } else if code == 56 {
        Some(Key::LeftAlt)
    } else if code == 57 {
        Some(Key::Space)
    } else if code == 58 {
        Some(Key::CapsLock)
    } else {
        None
    }
}

/// The raw code a mouse button maps to.
pub open spec fn button_code(b: Button) -> u16 {
    match b {
        Button::Left => 272,
        Button::Right => 273,
        Button::Middle => 274,
        Button::Side => 275,
        Button::Extra => 276,
        Button::Forward => 277,
        Button::Back => 278,
        Button::Task => 279,
    }
}

/// The mouse button a raw code resolves to, if any.
pub open spec fn button_of_code(code: u16) -> Option<Button> {
    if code == 272 {
        Some(Button::Left)
    } else if code == 273 {
        Some(Button::Right)
    } else if code == 274 {
        Some(Button::Middle)
    } else if code == 275 {
        Some(Button::Side)
    } else if code == 276 {
        Some(Button::Extra)
    } else if code == 277 {
        Some(Button::Forward)
    } else if code == 278 {
        Some(Button::Back)
    } else if code == 279 {
        Some(Button::Task)
    } else {
        None
    }
}

/// The raw code of a key kind: its key or button code.
pub open spec fn keykind_code(k: KeyKind) -> u16 {
    match k {
        KeyKind::Key(key) => key_code(key),
        KeyKind::Button(button) => button_code(button),
    }
}

/// The key kind a raw code resolves to: a key first, then a button,
/// otherwise nothing.
pub open spec fn keykind_of_code(code: u16) -> Option<KeyKind> {
    match key_of_code(code) {
        Some(key) => Some(KeyKind::Key(key)),
        None => match button_of_code(code) {
            Some(button) => Some(KeyKind::Button(button)),
            None => None,
        },
    }
}

/// The relative axis code of a scroll resolution tier.
pub open spec fn scroll_code(s: Scroll) -> u16 {
    match s {
        Scroll::Lo => REL_WHEEL,
        Scroll::HiRes => REL_WHEEL_HI_RES,
        Scroll::HiResH => REL_HWHEEL_HI_RES,
    }
}

/// The relative axis code of a mouse axis.
pub open spec fn axis_code(a: Axis) -> u16 {
    match a {
        Axis::X => REL_X,
        Axis::Y => REL_Y,
    }
}

/// The raw value of an edge direction: release is 0, press is 1.
pub open spec fn direction_value(d: Direction) -> i32 {
    match d {
        Direction::Up => 0,
        Direction::Down => 1,
    }
}

/// The raw record an event translates to; timestamp zero-filled.
pub open spec fn event_to_raw(e: Event) -> RawInputEvent {
    match e {
        Event::MouseMove { axis, delta } => RawInputEvent {
            type_: EV_REL,
            code: axis_code(axis),
            value: delta,
            tv_sec: 0,
            tv_usec: 0,
        },
        Event::MouseScroll { delta, scroll } => RawInputEvent {
            type_: EV_REL,
            code: scroll_code(scroll),
            value: delta,
            tv_sec: 0,
            tv_usec: 0,
        },
        Event::Key { direction, kind } => RawInputEvent {
            type_: EV_KEY,
            code: keykind_code(kind),
            value: direction_value(direction),
            tv_sec: 0,
            tv_usec: 0,
        },
    }
}

/// The event a raw record translates back to, if its `(type, code,
/// value)` triple is one this system produces; the timestamp is
/// ignored.
pub open spec fn event_from_raw(r: RawInputEvent) -> Option<Event> {
    if r.type_ == EV_REL {
        if r.code == REL_WHEEL {
            Some(Event::MouseScroll { delta: r.value, scroll: Scroll::Lo })
        } else if r.code == REL_WHEEL_HI_RES {
            Some(Event::MouseScroll { delta: r.value, scroll: Scroll::HiRes })
        } else if r.code == REL_HWHEEL_HI_RES {
            Some(Event::MouseScroll { delta: r.value, scroll: Scroll::HiResH })
        } else if r.code == REL_X {
            Some(Event::MouseMove { axis: Axis::X, delta: r.value })
        } else if r.code == REL_Y {
            Some(Event::MouseMove { axis: Axis::Y, delta: r.value })
        } else {
            None
        }
    } else if r.type_ == EV_KEY && (r.value == 0 || r.value == 1) {
        match keykind_of_code(r.code) {
            Some(kind) => Some(
                Event::Key {
                    direction: if r.value == 0 {
                        Direction::Up
                    } else {
                        Direction::Down
                    },
                    kind,
                },
            ),
            None => None,
        }
    } else {
        None
    }
}

impl Key {
    /// The raw OS code of this key.
    pub fn to_raw(&self) -> (r: u16)
        ensures
            r == key_code(*self),
    {
        match self {
            Key::Esc => 1,
            Key::Backspace => 14,
            Key::Tab => 15,
            Key::Q => 16,
            Key::W => 17,
            Key::E => 18,
            Key::R => 19,
            Key::T => 20,
            Key::Y => 21,
            Key::U => 22,
            Key::I => 23,
            Key::O => 24,
            Key::P => 25,
            Key::Enter => 28,
            Key::LeftCtrl => 29,
            Key::A => 30,
            Key::S => 31,
            Key::D => 32,
            Key::F => 33,
            Key::G => 34,
            Key::H => 35,
            Key::J => 36,
            Key::K => 37,
            Key::L => 38,
            Key::LeftShift => 42,
            Key::Z => 44,
            Key::X => 45,
            Key::C => 46,
            Key::V => 47,
            Key::B => 48,
            Key::N => 49,
            Key::M => 50,
            Key::RightShift => 54,
            Key::LeftAlt => 56,
            Key::Space => 57,
            Key::CapsLock => 58,
        }
    }

    /// The key a raw OS code resolves to, if any.
    pub fn from_raw(code: u16) -> (r: Option<Key>)
        ensures
            r == key_of_code(code),
    {
        if code == 1 {
            Some(Key::Esc)
        } else if code == 14 {
            Some(Key::Backspace)
        } else if code == 15 {
            Some(Key::Tab)
        } else if code == 16 {
            Some(Key::Q)
        } else if code == 17 {
            Some(Key::W)
        } else if code == 18 {
            Some(Key::E)
        } else if code == 19 {
            Some(Key::R)
        } else if code == 20 {
            Some(Key::T)
        } else if code == 21 {
            Some(Key::Y)
        } else if code == 22 {
            Some(Key::U)
        } else if code == 23 {
            Some(Key::I)
        } else if code == 24 {
            Some(Key::O)
        } else if code == 25 {
            Some(Key::P)
        } else if code == 28 {
            Some(Key::Enter)
        } else if code == 29 {
            Some(Key::LeftCtrl)
        } else if code == 30 {
            Some(Key::A)
        } else if code == 31 {
            Some(Key::S)
        } else if code == 32 {
            Some(Key::D)
        } else if code == 33 {
            Some(Key::F)
        } else if code == 34 {
            Some(Key::G)
        } else if code == 35 {
            Some(Key::H)
        } else if code == 36 {
            Some(Key::J)
        } else if code == 37 {
            Some(Key::K)
        } else if code == 38 {
            Some(Key::L)
        } else if code == 42 {
            Some(Key::LeftShift)
        } else if code == 44 {
            Some(Key::Z)
        } else if code == 45 {
            Some(Key::X)
        } else if code == 46 {
            Some(Key::C)
        } else if code == 47 {
            Some(Key::V)
        } else if code == 48 {
            Some(Key::B)
        } else if code == 49 {
            Some(Key::N)
        } else if code == 50 {
            Some(Key::M)
        } else if code == 54 {
            Some(Key::RightShift)
        } else if code == 56 {
            Some(Key::LeftAlt)
        } else if code == 57 {
            Some(Key::Space)
        } else if code == 58 {
            Some(Key::CapsLock)
        } else {
            None
        }
    }
}

impl Button {
    /// The raw OS code of this button.
    pub fn to_raw(&self) -> (r: u16)
        ensures
            r == button_code(*self),
    {
        match self {
            Button::Left => 272,
            Button::Right => 273,
            Button::Middle => 274,
            Button::Side => 275,
            Button::Extra => 276,
            Button::Forward => 277,
            Button::Back => 278,
            Button::Task => 279,
        }
    }

    /// The button a raw OS code resolves to, if any.
    pub fn from_raw(code: u16) -> (r: Option<Button>)
        ensures
            r == button_of_code(code),
    {
        if code == 272 {
            Some(Button::Left)
        } else if code == 273 {
            Some(Button::Right)
        } else if code == 274 {
            Some(Button::Middle)
        } else if code == 275 {
            Some(Button::Side)
        } else if code == 276 {
            Some(Button::Extra)
        } else if code == 277 {
            Some(Button::Forward)
        } else if code == 278 {
            Some(Button::Back)
        } else if code == 279 {
            Some(Button::Task)
        } else {
            None
        }
    }
}

impl KeyKind {
    /// The raw OS code of this key kind.
    pub fn to_raw(&self) -> (r: u16)
        ensures
            r == keykind_code(*self),
    {
        match self {
            KeyKind::Key(key) => key.to_raw(),
            KeyKind::Button(button) => button.to_raw(),
        }
    }

    /// The key kind a raw OS code resolves to: a key first, then a
    /// button, otherwise nothing.
    pub fn from_raw(code: u16) -> (r: Option<KeyKind>)
        ensures
            r == keykind_of_code(code),
    {
        match Key::from_raw(code) {
            Some(key) => Some(KeyKind::Key(key)),
            None => match Button::from_raw(code) {
                Some(button) => Some(KeyKind::Button(button)),
                None => None,
            },
        }
    }
}

impl Event {
    /// Translate this event to the raw OS record, timestamp
    /// zero-filled.
    pub fn to_raw(&self) -> (r: RawInputEvent)
        ensures
            r == event_to_raw(*self),
    {
        let (type_, code, value): (u16, u16, i32) = match *self {
            Event::MouseScroll { delta, scroll } => match scroll {
                Scroll::Lo => (EV_REL, REL_WHEEL, delta),
                Scroll::HiRes => (EV_REL, REL_WHEEL_HI_RES, delta),
                Scroll::HiResH => (EV_REL, REL_HWHEEL_HI_RES, delta),
            },
            Event::MouseMove { axis: Axis::X, delta } => (EV_REL, REL_X, delta),
            Event::MouseMove { axis: Axis::Y, delta } => (EV_REL, REL_Y, delta),
            Event::Key { direction: Direction::Up, kind } => (EV_KEY, kind.to_raw(), 0),
            Event::Key { direction: Direction::Down, kind } => (EV_KEY, kind.to_raw(), 1),
        };
        RawInputEvent { type_, code, value, tv_sec: 0, tv_usec: 0 }
    }

    /// Translate a raw OS record back to a portable event; a triple
    /// this system never produces yields `None` (the record is
    /// dropped, not an error).
    pub fn from_raw(raw: RawInputEvent) -> (r: Option<Event>)
        ensures
            r == event_from_raw(raw),
    {
        if raw.type_ == EV_REL {
            if raw.code == REL_WHEEL {
                Some(Event::MouseScroll { delta: raw.value, scroll: Scroll::Lo })
            } else if raw.code == REL_WHEEL_HI_RES {
                Some(Event::MouseScroll { delta: raw.value, scroll: Scroll::HiRes })
            } else if raw.code == REL_HWHEEL_HI_RES {
                Some(Event::MouseScroll { delta: raw.value, scroll: Scroll::HiResH })
            } else if raw.code == REL_X {
                Some(Event::MouseMove { axis: Axis::X, delta: raw.value })
            } else if raw.code == REL_Y {
                Some(Event::MouseMove { axis: Axis::Y, delta: raw.value })
            } else {
                None
            }
        } else if raw.type_ == EV_KEY && (raw.value == 0 || raw.value == 1) {
            match KeyKind::from_raw(raw.code) {
                Some(kind) => Some(
                    Event::Key {
                        direction: if raw.value == 0 {
                            Direction::Up
                        } else {
                            Direction::Down
                        },
                        kind,
                    },
                ),
                None => None,
            }
        } else {
            None
        }
    }
}

/// Law: translating any event to its raw record and back returns the
/// same event; in particular `Up`/`Down` survive through raw values
/// 0/1 exactly.
pub proof fn lemma_event_round_trip(e: Event)
    ensures
        event_from_raw(event_to_raw(e)) == Some(e),
{
}

/// Whether an event's raw `(type, code, value)` triple equals the one
/// in `r` (the timestamp does not take part in the mapping).
pub open spec fn triple_matches(e: Event, r: RawInputEvent) -> bool {
    &&& event_to_raw(e).type_ == r.type_
    &&& event_to_raw(e).code == r.code
    &&& event_to_raw(e).value == r.value
}

/// Law: every raw record `from_raw` accepts translates back to the
/// same `(type, code, value)` triple, with the timestamp zero-filled.
pub proof fn lemma_raw_round_trip(r: RawInputEvent)
    ensures
        event_from_raw(r) matches Some(e) ==> event_to_raw(e) == (RawInputEvent {
            type_: r.type_,
            code: r.code,
            value: r.value,
            tv_sec: 0,
            tv_usec: 0,
        }),
{
}

/// Law: a raw record is rejected by `from_raw` exactly when no event
/// translates to its `(type, code, value)` triple — the reverse
/// mapping accepts nothing outside the image of `to_raw`.
pub proof fn lemma_from_raw_rejects_unknown(r: RawInputEvent)
    ensures
        event_from_raw(r) is None <==> forall|e: Event| !triple_matches(e, r),
{
    if event_from_raw(r) is Some {
        let e = event_from_raw(r)->0;
        assert(triple_matches(e, r));
    }
}

} // verus!
