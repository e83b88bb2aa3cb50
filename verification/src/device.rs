//! Virtual input device lifecycle: capability tables, the blocking
//! native construction sequence, and its rollback on failure.
//!
//! The native calls themselves (descriptor creation, metadata setters,
//! event enabling, injection-handle creation, writes) are syscalls that
//! an outer shell performs.  [`DeviceSetup`] is the decision core of
//! that sequence: it hands out the next native call to make, consumes
//! the call's return code, and guarantees that every failure path
//! releases exactly the native resources acquired so far — no handle
//! leaks on any path.  A finished setup yields a [`Device`], whose
//! write contract appends the mandatory synchronization event after
//! every translated record.

use vstd::prelude::*;

use crate::event::{Event, RawInputEvent, event_to_raw, EV_SYN, EV_KEY, EV_REL, SYN_REPORT, SYN_MAX, REL_MAX};

verus! {

/// Which virtual device a value belongs to.
#[derive(Clone, Copy, Debug, PartialEq, Eq, Structural)]
pub enum DevType {
    Keyboard,
    Mouse,
}

/// Vendor identifier reported for virtual devices.
pub const VENDOR_ID: u16 = 1;

/// Product identifier reported for virtual devices.
pub const PRODUCT_ID: u16 = 1;

/// Version identifier reported for virtual devices.
pub const VERSION_ID: u16 = 1;

/// USB bus type identifier reported for virtual devices.
pub const BUS_USB: u16 = 3;

/// Lowest mouse button code registered by the mouse device.
pub const BTN_LEFT: u16 = 272;

/// Highest mouse button code registered by the mouse device.
pub const BTN_GEAR_UP: u16 = 337;

/// Highest key code registered by the keyboard device.
pub const KEY_MICMUTE: u16 = 248;

/// The nul-terminated OS-visible name of a device type.
pub open spec fn dev_name_spec(dev_type: DevType) -> Seq<u8> {
    match dev_type {
        DevType::Mouse => seq![114u8, 107, 118, 109, 45, 109, 111, 117, 115, 101, 0],
        DevType::Keyboard => seq![
            114u8,
            107,
            118,
            109,
            45,
            107,
            101,
            121,
            98,
            111,
            97,
            114,
            100,
            0,
        ],
    }
}

/// The nul-terminated OS-visible name of a device type
/// (`rkvm-mouse` or `rkvm-keyboard`).
pub fn get_dev_name(dev_type: DevType) -> (r: Vec<u8>)
    ensures
        r@ == dev_name_spec(dev_type),
{
    let mut r: Vec<u8> = Vec::new();
    r.push(114);
    r.push(107);
    r.push(118);
    r.push(109);
    r.push(45);
    match dev_type {
        DevType::Mouse => {
            r.push(109);
            r.push(111);
            r.push(117);
            r.push(115);
            r.push(101);
            r.push(0);
        },
        DevType::Keyboard => {
            r.push(107);
            r.push(101);
            r.push(121);
            r.push(98);
            r.push(111);
            r.push(97);
            r.push(114);
            r.push(100);
            r.push(0);
        },
    }
    proof {
        assert(r@ =~= dev_name_spec(dev_type));
    }
    r
}

/// Identifying metadata set on a freshly created device descriptor.
pub struct DeviceMetadata {
    pub name: Vec<u8>,
    pub vendor: u16,
    pub product: u16,
    pub version: u16,
    pub bustype: u16,
}

/// The metadata a device type is registered with.
pub fn device_metadata(dev_type: DevType) -> (r: DeviceMetadata)
    ensures
        r.name@ == dev_name_spec(dev_type),
        r.vendor == VENDOR_ID,
        r.product == PRODUCT_ID,
        r.version == VERSION_ID,
        r.bustype == BUS_USB,
{
    DeviceMetadata {
        name: get_dev_name(dev_type),
        vendor: VENDOR_ID,
        product: PRODUCT_ID,
        version: VERSION_ID,
        bustype: BUS_USB,
    }
}

/// One entry of a capability table: an inclusive range of codes
/// registered for one raw event type.
#[derive(Clone, Copy, Debug, PartialEq, Eq, Structural)]
pub struct CodeSpan {
    pub type_: u16,
    pub lo: u16,
    pub hi: u16,
}

/// A capability span must be a nonempty range with room to walk one
/// past its end.
pub open spec fn span_wf(s: CodeSpan) -> bool {
    s.lo <= s.hi < 65535
}

/// The fixed capability table of a device type: which event types it
/// registers and, per type, the inclusive code ranges it accepts.
pub open spec fn capabilities_spec(dev_type: DevType) -> Seq<CodeSpan> {
    match dev_type {
        DevType::Mouse => seq![
            CodeSpan { type_: EV_SYN, lo: SYN_REPORT, hi: SYN_MAX },
            CodeSpan { type_: EV_REL, lo: 0, hi: REL_MAX },
            CodeSpan { type_: EV_KEY, lo: BTN_LEFT, hi: BTN_GEAR_UP },
        ],
        DevType::Keyboard => seq![
            CodeSpan { type_: EV_SYN, lo: SYN_REPORT, hi: SYN_MAX },
            CodeSpan { type_: EV_KEY, lo: 0, hi: KEY_MICMUTE },
        ],
    }
}

/// The capability table of a device type, as immutable data.
pub fn capabilities(dev_type: DevType) -> (r: Vec<CodeSpan>)
    ensures
        r@ == capabilities_spec(dev_type),
{
    let mut r: Vec<CodeSpan> = Vec::new();
    r.push(CodeSpan { type_: EV_SYN, lo: SYN_REPORT, hi: SYN_MAX });
    match dev_type {
        DevType::Mouse => {
            r.push(CodeSpan { type_: EV_REL, lo: 0, hi: REL_MAX });
            r.push(CodeSpan { type_: EV_KEY, lo: BTN_LEFT, hi: BTN_GEAR_UP });
        },
        DevType::Keyboard => {
            r.push(CodeSpan { type_: EV_KEY, lo: 0, hi: KEY_MICMUTE });
        },
    }
    proof {
        assert(r@ =~= capabilities_spec(dev_type));
    }
    r
}

/// Whether a `(type, code)` pair lies within a device type's
/// advertised capabilities.
pub open spec fn in_capabilities(dev_type: DevType, type_: u16, code: u16) -> bool {
    exists|i: int|
        {
            &&& 0 <= i < capabilities_spec(dev_type).len()
            &&& capabilities_spec(dev_type)[i].type_ == type_
            &&& capabilities_spec(dev_type)[i].lo <= code <= capabilities_spec(dev_type)[i].hi
        }
}

/// One enabling step of the construction sequence: register an event
/// type, or one event code of an already registered type.
#[derive(Clone, Copy, Debug, PartialEq, Eq, Structural)]
pub enum SetupStep {
    EnableType { type_: u16 },
    EnableCode { type_: u16, code: u16 },
}

/// The enabling steps of one capability span: the event type first,
/// then each code of the range in ascending order.
pub open spec fn span_steps(s: CodeSpan) -> Seq<SetupStep> {
    Seq::new(
        (2 + s.hi - s.lo) as nat,
        |i: int|
            if i == 0 {
                SetupStep::EnableType { type_: s.type_ }
            } else {
                SetupStep::EnableCode { type_: s.type_, code: (s.lo + i - 1) as u16 }
            },
    )
}

/// The enabling steps of a whole capability table, span by span.
pub open spec fn steps_of(spans: Seq<CodeSpan>) -> Seq<SetupStep>
    decreases spans.len(),
{
    if spans.len() == 0 {
        Seq::empty()
    } else {
        steps_of(spans.drop_last()) + span_steps(spans.last())
    }
}

/// The full enabling sequence of a device type.
pub open spec fn device_steps(dev_type: DevType) -> Seq<SetupStep> {
    steps_of(capabilities_spec(dev_type))
}

/// Flatten a capability table into its enabling steps.
fn build_steps(spans: &Vec<CodeSpan>) -> (r: Vec<SetupStep>)
    requires
        forall|i: int| 0 <= i < spans@.len() ==> span_wf(spans@[i]),
    ensures
        r@ == steps_of(spans@),
{
    let mut r: Vec<SetupStep> = Vec::new();
    let mut i: usize = 0;
    while i < spans.len()
        invariant
            0 <= i <= spans@.len(),
            forall|j: int| 0 <= j < spans@.len() ==> span_wf(spans@[j]),
            r@ == steps_of(spans@.subrange(0, i as int)),
        decreases spans@.len() - i,
    {
        let sp = spans[i];
        let ghost base = r@;
        r.push(SetupStep::EnableType { type_: sp.type_ });
        proof {
            assert(r@ =~= base + span_steps(sp).subrange(0, 1));
        }
        let mut k: u16 = sp.lo;
        while k <= sp.hi
            invariant
                span_wf(sp),
                sp.lo <= k <= sp.hi + 1,
                r@ == base + span_steps(sp).subrange(0, 1 + k - sp.lo),
            decreases sp.hi + 1 - k,
        {
            let ghost before = r@;
            r.push(SetupStep::EnableCode { type_: sp.type_, code: k });
            proof {
                assert(span_steps(sp)[1 + k - sp.lo] == SetupStep::EnableCode {
                    type_: sp.type_,
                    code: k,
                });
                assert(r@ =~= base + span_steps(sp).subrange(0, 2 + k - sp.lo));
            }
            k = k + 1;
        }
        proof {
            assert(span_steps(sp).subrange(0, 1 + (sp.hi + 1) - sp.lo) =~= span_steps(sp));
            assert(spans@.subrange(0, i + 1).drop_last() =~= spans@.subrange(0, i as int));
            assert(spans@.subrange(0, i + 1).last() == sp);
        }
        i = i + 1;
    }
    proof {
        assert(spans@.subrange(0, spans@.len() as int) =~= spans@);
    }
    r
}

/// Law: the enabling sequence registers one step per event type plus
/// one per code of its ranges — 3 + 16 + 16 + 66 steps for the mouse,
/// 2 + 16 + 249 for the keyboard.
pub proof fn lemma_device_steps_count()
    ensures
        device_steps(DevType::Mouse).len() == 101,
        device_steps(DevType::Keyboard).len() == 267,
{
    let e = Seq::<CodeSpan>::empty();
    let m = capabilities_spec(DevType::Mouse);
    let k = capabilities_spec(DevType::Keyboard);
    assert(m.drop_last() =~= seq![m[0], m[1]]);
    assert(seq![m[0], m[1]].drop_last() =~= seq![m[0]]);
    assert(seq![m[0]].drop_last() =~= e);
    assert(k.drop_last() =~= seq![k[0]]);
    assert(steps_of(e).len() == 0);
    assert(span_steps(m[0]).len() == 17);
    assert(span_steps(m[1]).len() == 17);
    assert(span_steps(m[2]).len() == 67);
    assert(span_steps(k[0]).len() == 17);
    assert(span_steps(k[1]).len() == 250);
    assert(steps_of(seq![m[0]]).len() == 17);
    assert(steps_of(seq![m[0], m[1]]).len() == 34);
    assert(steps_of(m).len() == 101);
    assert(steps_of(seq![k[0]]).len() == 17);
    assert(steps_of(k).len() == 267);
}

/// Why device construction or a device write failed.
#[derive(Clone, Copy, Debug, PartialEq, Eq, Structural)]
pub enum DeviceError {
    /// The native descriptor allocation returned no descriptor.
    CreateFailed,
    /// A native call returned a negative code; `errno` is its negation.
    Os { errno: i32 },
}

/// The next native call the construction sequence asks for, a rollback
/// instruction, or the terminal outcome.
#[derive(Clone, Copy, Debug, PartialEq, Eq, Structural)]
pub enum SetupAction {
    /// Allocate the native device descriptor.
    CreateDescriptor,
    /// Set the identifying metadata of [`device_metadata`] on the
    /// descriptor.
    SetMetadata,
    /// Register one event type.
    EnableType { type_: u16 },
    /// Register one event code of an already registered type.
    EnableCode { type_: u16, code: u16 },
    /// Materialize the managed injection handle from the descriptor.
    CreateHandle,
    /// Free the descriptor (rollback of a failed construction, or the
    /// second half of destruction).
    ReleaseDescriptor,
    /// Destroy the injection handle (first half of destruction).
    ReleaseHandle,
    /// Construction finished; descriptor and handle are live and owned.
    Complete,
    /// Construction failed; nothing is held any more.
    Fail { error: DeviceError },
}

/// The action performing one enabling step.
pub open spec fn step_action(s: SetupStep) -> SetupAction {
    match s {
        SetupStep::EnableType { type_ } => SetupAction::EnableType { type_ },
        SetupStep::EnableCode { type_, code } => SetupAction::EnableCode { type_, code },
    }
}

#[derive(Clone, Copy)]
enum Phase {
    Start,
    Metadata,
    Enabling,
    Handle,
    Rollback,
    Failed,
    Done,
}

/// The decision core of blocking native device construction.
///
/// The shell repeatedly asks [`DeviceSetup::next_action`], performs the
/// native call it names, and reports the return code back.  The
/// machine owes one guarantee above all: on every failure path the
/// partially constructed native resources are ordered released before
/// the failure is reported, so nothing leaks.
pub struct DeviceSetup {
    dev_type: DevType,
    steps: Vec<SetupStep>,
    idx: usize,
    phase: Phase,
    descriptor: bool,
    handle: bool,
    error: Option<DeviceError>,
}

impl DeviceSetup {
    /// The device type under construction.
    pub closed spec fn dev_type_spec(&self) -> DevType {
        self.dev_type
    }

    /// Whether the native descriptor is currently held.
    pub closed spec fn descriptor_held(&self) -> bool {
        self.descriptor
    }

    /// Whether the native injection handle is currently held.
    pub closed spec fn handle_held(&self) -> bool {
        self.handle
    }

    /// The enabling steps not yet performed.
    pub closed spec fn remaining_steps(&self) -> Seq<SetupStep> {
        self.steps@.subrange(self.idx as int, self.steps@.len() as int)
    }

    /// The failure recorded on the current rollback path, if any.
    pub closed spec fn pending_error(&self) -> Option<DeviceError> {
        self.error
    }

    /// Internal consistency: the step list is the device's, and each
    /// phase holds exactly the resources it claims.
    pub closed spec fn wf(&self) -> bool {
        &&& self.steps@ == device_steps(self.dev_type)
        &&& self.idx <= self.steps@.len()
        &&& match self.phase {
            Phase::Start => !self.descriptor && !self.handle && self.idx == 0,
            Phase::Metadata => self.descriptor && !self.handle && self.idx == 0,
            Phase::Enabling => self.descriptor && !self.handle && self.idx < self.steps@.len(),
            Phase::Handle => self.descriptor && !self.handle && self.idx == self.steps@.len(),
            Phase::Rollback => self.descriptor && !self.handle && self.error is Some,
            Phase::Failed => !self.descriptor && !self.handle && self.error is Some,
            Phase::Done => self.descriptor && self.handle,
        }
    }

    /// The native call to perform next, or the terminal outcome.
    pub closed spec fn next_action_spec(&self) -> SetupAction {
        match self.phase {
            Phase::Start => SetupAction::CreateDescriptor,
            Phase::Metadata => SetupAction::SetMetadata,
            Phase::Enabling => step_action(self.steps@[self.idx as int]),
            Phase::Handle => SetupAction::CreateHandle,
            Phase::Rollback => SetupAction::ReleaseDescriptor,
            Phase::Failed => SetupAction::Fail { error: self.error->Some_0 },
            Phase::Done => SetupAction::Complete,
        }
    }

    /// Start constructing a device of the given type.  Nothing is held
    /// yet; the first call to make is the descriptor allocation.
    pub fn new(dev_type: DevType) -> (s: Self)
        ensures
            s.wf(),
            s.dev_type_spec() == dev_type,
            !s.descriptor_held(),
            !s.handle_held(),
            s.remaining_steps() == device_steps(dev_type),
            s.next_action_spec() == SetupAction::CreateDescriptor,
    {
        let spans = capabilities(dev_type);
        proof {
            match dev_type {
                DevType::Mouse => {
                    assert(forall|i: int|
                        0 <= i < spans@.len() ==> span_wf(#[trigger] spans@[i]));
                },
                DevType::Keyboard => {
                    assert(forall|i: int|
                        0 <= i < spans@.len() ==> span_wf(#[trigger] spans@[i]));
                },
            }
        }
        let steps = build_steps(&spans);
        let s = DeviceSetup {
            dev_type,
            steps,
            idx: 0,
            phase: Phase::Start,
            descriptor: false,
            handle: false,
            error: None,
        };
        proof {
            assert(s.remaining_steps() =~= device_steps(dev_type));
        }
        s
    }

    /// The native call to perform next, or the terminal outcome.
    pub fn next_action(&self) -> (a: SetupAction)
        requires
            self.wf(),
        ensures
            a == self.next_action_spec(),
    {
        match self.phase {
            Phase::Start => SetupAction::CreateDescriptor,
            Phase::Metadata => SetupAction::SetMetadata,
            Phase::Enabling => match self.steps[self.idx] {
                SetupStep::EnableType { type_ } => SetupAction::EnableType { type_ },
                SetupStep::EnableCode { type_, code } => SetupAction::EnableCode { type_, code },
            },
            Phase::Handle => SetupAction::CreateHandle,
            Phase::Rollback => SetupAction::ReleaseDescriptor,
            Phase::Failed => match self.error {
                Some(error) => SetupAction::Fail { error },
                None => SetupAction::Fail { error: DeviceError::CreateFailed },
            },
            Phase::Done => SetupAction::Complete,
        }
    }

    /// Report the outcome of the descriptor allocation: `ok` means a
    /// descriptor was obtained.  An allocation failure is terminal at
    /// once — nothing was acquired, so nothing needs releasing.
    pub fn descriptor_created(&mut self, ok: bool)
        requires
            old(self).wf(),
            old(self).next_action_spec() == SetupAction::CreateDescriptor,
        ensures
            final(self).wf(),
            final(self).dev_type_spec() == old(self).dev_type_spec(),
            !final(self).handle_held(),
            ok ==> final(self).descriptor_held() && final(self).next_action_spec()
                == SetupAction::SetMetadata,
            !ok ==> !final(self).descriptor_held() && final(self).next_action_spec()
                == (SetupAction::Fail { error: DeviceError::CreateFailed }),
    {
        if ok {
            self.descriptor = true;
            self.phase = Phase::Metadata;
        } else {
            self.error = Some(DeviceError::CreateFailed);
            self.phase = Phase::Failed;
        }
    }

    /// Report that the metadata setters ran (they return nothing).
    /// The enabling steps follow, then the injection handle.
    pub fn metadata_set(&mut self)
        requires
            old(self).wf(),
            old(self).next_action_spec() == SetupAction::SetMetadata,
        ensures
            final(self).wf(),
            final(self).dev_type_spec() == old(self).dev_type_spec(),
            final(self).descriptor_held(),
            !final(self).handle_held(),
            final(self).remaining_steps() == device_steps(old(self).dev_type_spec()),
            final(self).next_action_spec() == (if final(self).remaining_steps().len() > 0 {
                step_action(final(self).remaining_steps()[0])
            } else {
                SetupAction::CreateHandle
            }),
    {
        if self.idx < self.steps.len() {
            self.phase = Phase::Enabling;
        } else {
            self.phase = Phase::Handle;
        }
        proof {
            assert(self.remaining_steps() =~= device_steps(self.dev_type));
        }
    }

    /// Report the return code of the current enabling call.  A
    /// non-negative code moves to the next step (or to handle
    /// creation); a negative code starts the rollback: the descriptor
    /// must be released before the failure is reported.
    pub fn enable_returned(&mut self, ret: i32)
        requires
            old(self).wf(),
            old(self).next_action_spec() matches SetupAction::EnableType { .. } || old(
                self,
            ).next_action_spec() matches SetupAction::EnableCode { .. },
            ret > i32::MIN,
        ensures
            final(self).wf(),
            final(self).dev_type_spec() == old(self).dev_type_spec(),
            final(self).descriptor_held(),
            !final(self).handle_held(),
            ret >= 0 ==> {
                &&& final(self).remaining_steps() == old(self).remaining_steps().drop_first()
                &&& final(self).next_action_spec() == (if final(self).remaining_steps().len()
                    > 0 {
                    step_action(final(self).remaining_steps()[0])
                } else {
                    SetupAction::CreateHandle
                })
            },
            ret < 0 ==> {
                &&& final(self).next_action_spec() == SetupAction::ReleaseDescriptor
                &&& final(self).pending_error() == Some(DeviceError::Os { errno: (-ret) as i32 })
            },
    {
        proof {
            assert(self.phase is Enabling);
        }
        if ret >= 0 {
            let n = self.steps.len();
            proof {
                assert(self.idx < n);
            }
            self.idx = self.idx + 1;
            if self.idx == n {
                self.phase = Phase::Handle;
            }
            proof {
                assert(self.remaining_steps() =~= old(self).remaining_steps().drop_first());
            }
        } else {
            self.error = Some(DeviceError::Os { errno: -ret });
            self.phase = Phase::Rollback;
        }
    }

    /// Report the return code of the injection-handle creation.  On
    /// success the construction is complete; on failure the descriptor
    /// must be released before the failure is reported.
    pub fn handle_returned(&mut self, ret: i32)
        requires
            old(self).wf(),
            old(self).next_action_spec() == SetupAction::CreateHandle,
            ret > i32::MIN,
        ensures
            final(self).wf(),
            final(self).dev_type_spec() == old(self).dev_type_spec(),
            final(self).descriptor_held(),
            ret >= 0 ==> final(self).handle_held() && final(self).next_action_spec()
                == SetupAction::Complete,
            ret < 0 ==> {
                &&& !final(self).handle_held()
                &&& final(self).next_action_spec() == SetupAction::ReleaseDescriptor
                &&& final(self).pending_error() == Some(DeviceError::Os { errno: (-ret) as i32 })
            },
    {
        if ret >= 0 {
            self.handle = true;
            self.phase = Phase::Done;
        } else {
            self.error = Some(DeviceError::Os { errno: -ret });
            self.phase = Phase::Rollback;
        }
    }

    /// Report that the descriptor was freed on a rollback path.  The
    /// machine then reports the recorded failure; nothing is held.
    pub fn descriptor_released(&mut self)
        requires
            old(self).wf(),
            old(self).next_action_spec() == SetupAction::ReleaseDescriptor,
        ensures
            final(self).wf(),
            final(self).dev_type_spec() == old(self).dev_type_spec(),
            !final(self).descriptor_held(),
            !final(self).handle_held(),
            final(self).next_action_spec() == (SetupAction::Fail {
                error: old(self).pending_error()->Some_0,
            }),
    {
        self.descriptor = false;
        self.phase = Phase::Failed;
    }

    /// Whether the native descriptor is currently held.
    pub fn descriptor_is_held(&self) -> (b: bool)
        ensures
            b == self.descriptor_held(),
    {
        self.descriptor
    }

    /// Whether the native injection handle is currently held.
    pub fn handle_is_held(&self) -> (b: bool)
        ensures
            b == self.handle_held(),
    {
        self.handle
    }

    /// Hand over the finished device.  Ownership of both native
    /// resources moves with it.
    pub fn into_device(self) -> (d: Device)
        requires
            self.wf(),
            self.next_action_spec() == SetupAction::Complete,
        ensures
            d.dev_type_spec() == self.dev_type_spec(),
            d@ == Seq::<RawInputEvent>::empty(),
    {
        Device { dev_type: self.dev_type, written: Vec::new() }
    }
}

/// Law: whenever construction reports failure, every native resource
/// acquired on the way has already been released — no leak on any
/// failure path, whichever step failed.
pub proof fn lemma_failure_releases_everything(s: DeviceSetup)
    requires
        s.wf(),
        s.next_action_spec() matches SetupAction::Fail { .. },
    ensures
        !s.descriptor_held(),
        !s.handle_held(),
{
}

/// The mandatory synchronization record that flushes a report to OS
/// consumers: type sync, code report, value 0.
pub open spec fn sync_event() -> RawInputEvent {
    RawInputEvent { type_: EV_SYN, code: SYN_REPORT, value: 0, tv_sec: 0, tv_usec: 0 }
}

/// A constructed virtual input device.  It records, in order, every
/// raw record it has handed out for injection.
pub struct Device {
    dev_type: DevType,
    written: Vec<RawInputEvent>,
}

impl View for Device {
    type V = Seq<RawInputEvent>;

    /// The raw records handed out for injection, in order.
    closed spec fn view(&self) -> Seq<RawInputEvent> {
        self.written@
    }
}

impl Device {
    /// The device's type.
    pub closed spec fn dev_type_spec(&self) -> DevType {
        self.dev_type
    }

    /// The device's type.
    pub fn dev_type(&self) -> (t: DevType)
        ensures
            t == self.dev_type_spec(),
    {
        self.dev_type
    }

    /// Write one logical event: emit the translated raw record
    /// followed immediately by exactly one synchronization record, in
    /// that order.  The returned pair is what the shell must inject.
    pub fn write(&mut self, event: Event) -> (r: Vec<RawInputEvent>)
        ensures
            r@ == seq![event_to_raw(event), sync_event()],
            final(self)@ == old(self)@ + r@,
            final(self).dev_type_spec() == old(self).dev_type_spec(),
    {
        let raw = event.to_raw();
        let sync = RawInputEvent { type_: EV_SYN, code: SYN_REPORT, value: 0, tv_sec: 0, tv_usec: 0 };
        let mut r: Vec<RawInputEvent> = Vec::new();
        r.push(raw);
        r.push(sync);
        self.written.push(raw);
        self.written.push(sync);
        proof {
            assert(r@ =~= seq![event_to_raw(event), sync_event()]);
            assert(self@ =~= old(self)@ + r@);
        }
        r
    }

    /// The raw records handed out so far, in order.
    pub fn written(&self) -> (r: &Vec<RawInputEvent>)
        ensures
            r@ == self@,
    {
        &self.written
    }

    /// Destruction order: the injection handle is destroyed strictly
    /// before the descriptor is freed, both exactly once.
    pub fn teardown_actions(&self) -> (r: Vec<SetupAction>)
        ensures
            r@ == seq![SetupAction::ReleaseHandle, SetupAction::ReleaseDescriptor],
    {
        let mut r: Vec<SetupAction> = Vec::new();
        r.push(SetupAction::ReleaseHandle);
        r.push(SetupAction::ReleaseDescriptor);
        proof {
            assert(r@ =~= seq![SetupAction::ReleaseHandle, SetupAction::ReleaseDescriptor]);
        }
        r
    }
}

/// Outcome of one native injection write: a negative return code
/// carries the OS error (its negation is the error number), any other
/// code is success.
pub fn write_result(ret: i32) -> (r: Result<(), DeviceError>)
    requires
        ret > i32::MIN,
    ensures
        r is Ok <==> ret >= 0,
        ret < 0 ==> r == Err::<(), DeviceError>(DeviceError::Os { errno: (-ret) as i32 }),
{
    if ret < 0 {
        Err(DeviceError::Os { errno: -ret })
    } else {
        Ok(())
    }
}

} // verus!
