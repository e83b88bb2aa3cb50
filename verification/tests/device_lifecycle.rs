use rkvm_client::device::{
    get_dev_name, device_metadata, write_result, DevType, Device, DeviceError, DeviceSetup,
    SetupAction, BUS_USB,
};
use rkvm_client::event::{Axis, Event, EV_SYN};

/// Drive a construction to completion, every native call succeeding.
fn build_device(dev_type: DevType) -> Device {
    let mut setup = DeviceSetup::new(dev_type);
    loop {
        match setup.next_action() {
            SetupAction::CreateDescriptor => setup.descriptor_created(true),
            SetupAction::SetMetadata => setup.metadata_set(),
            SetupAction::EnableType { .. } => setup.enable_returned(0),
            SetupAction::EnableCode { .. } => setup.enable_returned(0),
            SetupAction::CreateHandle => setup.handle_returned(0),
            SetupAction::Complete => return setup.into_device(),
            other => panic!("unexpected action during a clean build: {:?}", other),
        }
    }
}

#[test]
fn dev_names_are_nul_terminated_and_distinct() {
    assert_eq!(get_dev_name(DevType::Mouse), b"rkvm-mouse\0".to_vec());
    assert_eq!(get_dev_name(DevType::Keyboard), b"rkvm-keyboard\0".to_vec());
}

#[test]
fn metadata_carries_identifiers() {
    let m = device_metadata(DevType::Mouse);
    assert_eq!(m.name, b"rkvm-mouse\0".to_vec());
    assert_eq!(m.vendor, 1);
    assert_eq!(m.product, 1);
    assert_eq!(m.version, 1);
    assert_eq!(m.bustype, BUS_USB);
}

#[test]
fn clean_construction_completes() {
    let d = build_device(DevType::Mouse);
    assert_eq!(d.dev_type(), DevType::Mouse);
    assert!(d.written().is_empty());
}

#[test]
fn mouse_enables_its_capability_table() {
    // 17 sync steps, 17 relative-axis steps, 67 button steps, each
    // span preceded by its type registration.
    let mut setup = DeviceSetup::new(DevType::Mouse);
    let mut types = 0;
    let mut codes = 0;
    loop {
        match setup.next_action() {
            SetupAction::CreateDescriptor => setup.descriptor_created(true),
            SetupAction::SetMetadata => setup.metadata_set(),
            SetupAction::EnableType { .. } => {
                types += 1;
                setup.enable_returned(0);
            }
            SetupAction::EnableCode { .. } => {
                codes += 1;
                setup.enable_returned(0);
            }
            SetupAction::CreateHandle => setup.handle_returned(0),
            SetupAction::Complete => break,
            other => panic!("unexpected action: {:?}", other),
        }
    }
    assert_eq!(types, 3);
    assert_eq!(codes, 16 + 16 + 66);
}

#[test]
fn failed_descriptor_allocation_is_terminal_and_holds_nothing() {
    let mut setup = DeviceSetup::new(DevType::Keyboard);
    assert_eq!(setup.next_action(), SetupAction::CreateDescriptor);
    setup.descriptor_created(false);
    assert_eq!(
        setup.next_action(),
        SetupAction::Fail { error: DeviceError::CreateFailed }
    );
    assert!(!setup.descriptor_is_held());
    assert!(!setup.handle_is_held());
}

#[test]
fn enable_code_failure_releases_descriptor_and_reports_errno() {
    let mut setup = DeviceSetup::new(DevType::Mouse);
    setup.descriptor_created(true);
    setup.metadata_set();
    // Let the type registration and a few codes succeed, then fail one
    // enable-code call with an OS error.
    let mut enabled = 0;
    loop {
        match setup.next_action() {
            SetupAction::EnableType { .. } => setup.enable_returned(0),
            SetupAction::EnableCode { .. } => {
                if enabled == 5 {
                    setup.enable_returned(-13);
                    break;
                }
                enabled += 1;
                setup.enable_returned(0);
            }
            other => panic!("unexpected action: {:?}", other),
        }
    }
    // The partially constructed descriptor must be released first...
    assert!(setup.descriptor_is_held());
    assert_eq!(setup.next_action(), SetupAction::ReleaseDescriptor);
    setup.descriptor_released();
    // ...and only then is the underlying OS error reported, with
    // nothing left held.
    assert_eq!(
        setup.next_action(),
        SetupAction::Fail { error: DeviceError::Os { errno: 13 } }
    );
    assert!(!setup.descriptor_is_held());
    assert!(!setup.handle_is_held());
}

#[test]
fn handle_creation_failure_rolls_back_too() {
    let mut setup = DeviceSetup::new(DevType::Mouse);
    loop {
        match setup.next_action() {
            SetupAction::CreateDescriptor => setup.descriptor_created(true),
            SetupAction::SetMetadata => setup.metadata_set(),
            SetupAction::EnableType { .. } => setup.enable_returned(0),
            SetupAction::EnableCode { .. } => setup.enable_returned(0),
            SetupAction::CreateHandle => {
                setup.handle_returned(-12);
                break;
            }
            other => panic!("unexpected action: {:?}", other),
        }
    }
    assert_eq!(setup.next_action(), SetupAction::ReleaseDescriptor);
    setup.descriptor_released();
    assert_eq!(
        setup.next_action(),
        SetupAction::Fail { error: DeviceError::Os { errno: 12 } }
    );
    assert!(!setup.descriptor_is_held());
}

#[test]
fn write_emits_event_then_exactly_one_sync() {
    let mut d = build_device(DevType::Mouse);
    let records = d.write(Event::MouseMove { axis: Axis::X, delta: 4 });
    assert_eq!(records.len(), 2);
    assert_eq!(records[0], Event::MouseMove { axis: Axis::X, delta: 4 }.to_raw());
    assert_eq!(records[1].type_, EV_SYN);
    assert_eq!(records[1].code, 0);
    assert_eq!(records[1].value, 0);
    assert_eq!(d.written().as_slice(), records.as_slice());
}

#[test]
fn teardown_destroys_handle_before_descriptor() {
    let d = build_device(DevType::Keyboard);
    let actions = d.teardown_actions();
    assert_eq!(
        actions,
        vec![SetupAction::ReleaseHandle, SetupAction::ReleaseDescriptor]
    );
}

#[test]
fn write_result_maps_negative_codes_to_os_errors() {
    assert_eq!(write_result(0), Ok(()));
    assert_eq!(write_result(7), Ok(()));
    assert_eq!(write_result(-3), Err(DeviceError::Os { errno: 3 }));
}
