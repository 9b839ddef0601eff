use openvr_driver::error::{DriverError, InitError};
use openvr_driver::interfaces::{
    ActivationState, ControllerConfiguration, ControllerRole, DeviceProperties, Eye,
    VirtualDisplayBounds,
};
use openvr_driver::take_pending_device_activation;
use openvr_driver::vtables::device::{
    activate_thunk, component_name, component_pointer, debug_request_text, debug_response,
    take_pending_activation,
    PendingActivation,
};
use openvr_driver::vtables::display::{
    display_component_name, eye_from_raw, eye_output_viewport, projection_raw, to_unsigned,
    window_bounds_reply, Viewport, WindowBounds,
};
use openvr_driver::vtables::provider::{
    default_interface_versions, init_result_code, interface_version_table,
};
use openvr_driver::vtables::OpaquePointer;

#[test]
fn activation_index_is_recorded_and_taken_once() {
    let mut state = PendingActivation::new();
    assert_eq!(take_pending_activation(&mut state), None);
    assert_eq!(activate_thunk(&mut state, 3, &Ok(())), InitError { code: 0 });
    assert_eq!(state.index, Some(3));
    assert_eq!(take_pending_activation(&mut state), Some(3));
    assert_eq!(take_pending_activation(&mut state), None);
    activate_thunk(&mut state, 1, &Ok(()));
    activate_thunk(&mut state, 2, &Ok(()));
    assert_eq!(take_pending_device_activation(&mut state), Some(2));
    assert_eq!(take_pending_device_activation(&mut state), None);
}

#[test]
fn activation_returns_the_code_of_the_devices_outcome() {
    let mut state = PendingActivation::new();
    let failed = Err(DriverError::init(InitError { code: 108 }));
    assert_eq!(activate_thunk(&mut state, 4, &failed), InitError { code: 108 });
    assert_eq!(state.index, Some(4));
    let other = Err(DriverError::hardware_error("no tracking"));
    assert_eq!(activate_thunk(&mut state, 5, &other), InitError { code: 1 });
    assert_eq!(activate_thunk(&mut state, 6, &Err(DriverError::timeout())), InitError { code: 1 });
    assert_eq!(take_pending_activation(&mut state), Some(6));
}

#[test]
fn component_names() {
    assert_eq!(component_name(None), None);
    assert_eq!(component_name(Some(b"IVRDisplayComponent")), Some("IVRDisplayComponent"));
    assert_eq!(component_name(Some(b"")), Some(""));
    assert_eq!(component_name(Some(&[0xc3, 0x28])), None);
    assert_eq!(component_pointer(None), OpaquePointer { addr: 0 });
    assert_eq!(component_pointer(Some(OpaquePointer { addr: 4 })), OpaquePointer { addr: 4 });
    assert_eq!(display_component_name(), "IVRDisplayComponent");
}

#[test]
fn debug_request_is_handed_to_the_device_as_text() {
    assert_eq!(debug_request_text(Some(b"ping"), true, 64), Some("ping"));
    assert_eq!(debug_request_text(Some(b""), true, 1), Some(""));
    assert_eq!(debug_request_text(None, true, 64), None);
    assert_eq!(debug_request_text(Some(b"ping"), false, 64), None);
    assert_eq!(debug_request_text(Some(b"ping"), true, 0), None);
    assert_eq!(debug_request_text(Some(&[0xff, 0xff]), true, 64), None);
}

#[test]
fn debug_response_is_the_devices_reply_cut_to_the_buffer() {
    let full = b"pong: 42\0".to_vec();
    assert_eq!(debug_response("pong: 42", 1024), Some(full.clone()));
    assert_eq!(debug_response("pong: 42", full.len() as u32), Some(full.clone()));
    assert_eq!(debug_response("pong: 42", 5), Some(b"pong\0".to_vec()));
    assert_eq!(debug_response("pong: 42", 1), Some(vec![0]));
    assert_eq!(debug_response("pong: 42", 8), Some(b"pong: 4\0".to_vec()));
    assert_eq!(debug_response("", 64), Some(vec![0]));
    assert_eq!(debug_response("pong", 0), None);
    assert_eq!(debug_response("po\0ng", 64), None);
}

#[test]
fn init_codes_for_provider_outcomes() {
    assert_eq!(init_result_code(&Ok(())), InitError { code: 0 });
    assert_eq!(init_result_code(&Err(DriverError::init(InitError { code: 108 }))), InitError { code: 108 });
    assert_eq!(init_result_code(&Err(DriverError::init(InitError { code: 0 }))), InitError { code: 0 });
    assert_eq!(init_result_code(&Err(DriverError::timeout())), InitError { code: 1 });
    assert_eq!(init_result_code(&Err(DriverError::other("x"))), InitError { code: 1 });
    assert_eq!(init_result_code(&Err(DriverError::interface_not_found("x"))), InitError { code: 1 });
    assert_eq!(init_result_code(&Err(DriverError::device_not_found(1))), InitError { code: 1 });
}

#[test]
fn interface_version_tables() {
    let defaults = default_interface_versions();
    assert_eq!(defaults, vec!["IServerTrackedDeviceProvider_005", "ITrackedDeviceServerDriver_005"]);
    assert_eq!(
        interface_version_table(&defaults),
        vec![
            b"IServerTrackedDeviceProvider_005\0".to_vec(),
            b"ITrackedDeviceServerDriver_005\0".to_vec()
        ]
    );
    let mixed = vec!["a".to_string(), "b\0c".to_string(), "".to_string(), "d".to_string()];
    assert_eq!(interface_version_table(&mixed), vec![vec![b'a', 0], vec![0], vec![b'd', 0]]);
    assert_eq!(interface_version_table(&Vec::new()), Vec::<Vec<u8>>::new());
}

#[test]
fn window_bounds_and_viewport() {
    assert_eq!(
        window_bounds_reply((10, -20, 1920, 1080)),
        WindowBounds { x: 10, y: -20, width: 1920, height: 1080 }
    );
    assert_eq!(
        eye_output_viewport((10, 20, 1920, 1080)),
        Viewport { x: 0, y: 0, width: 960, height: 1080 }
    );
    assert_eq!(
        eye_output_viewport((0, 0, 1921, 1)),
        Viewport { x: 0, y: 0, width: 960, height: 1 }
    );
    assert_eq!(
        window_bounds_reply((0, 0, -1, i32::MIN)),
        WindowBounds { x: 0, y: 0, width: u32::MAX, height: 0x8000_0000 }
    );
    assert_eq!(
        eye_output_viewport((0, 0, -1, -2)),
        Viewport { x: 0, y: 0, width: 0x7fff_ffff, height: 0xffff_fffe }
    );
    for v in [0, 1, -1, i32::MAX, i32::MIN, -12345] {
        assert_eq!(to_unsigned(v), v as u32);
    }
}

#[test]
fn eyes() {
    assert_eq!(eye_from_raw(0), Eye::Left);
    assert_eq!(eye_from_raw(1), Eye::Right);
    assert_eq!(eye_from_raw(2), Eye::Left);
    assert_eq!(eye_from_raw(-1), Eye::Left);
    assert_eq!(Eye::from(0), Eye::Left);
    assert_eq!(Eye::from(1), Eye::Right);
    assert_eq!(Eye::from(77), Eye::Left);
    assert_eq!(Eye::Left.raw(), 0);
    assert_eq!(Eye::Right.raw(), 1);
}

#[test]
fn projection_is_symmetric_around_the_near_plane() {
    let raw = projection_raw();
    assert_eq!(f32::from_bits(raw.left), -0.1f32);
    assert_eq!(f32::from_bits(raw.right), 0.1f32);
    assert_eq!(f32::from_bits(raw.top), 0.1f32);
    assert_eq!(f32::from_bits(raw.bottom), -0.1f32);
}

#[test]
fn plain_data_types() {
    let p = DeviceProperties::default();
    assert_eq!(p.model_number, "Generic Model");
    assert_eq!(p.serial_number, "GENERIC_001");
    assert_eq!(p.render_model_name, "generic_hmd");
    assert_eq!(p.manufacturer_name, "Generic Manufacturer");
    assert_eq!(p.tracking_system_name, "lighthouse");
    assert_eq!(p.hardware_revision, "1.0");
    assert_eq!(p.firmware_version, "1.0.0");
    assert_eq!(p.tracking_firmware_version, "1.0.0");
    assert_ne!(ActivationState::Inactive, ActivationState::Active);
    assert_ne!(ActivationState::Activating, ActivationState::Deactivating);
    let c = ControllerConfiguration {
        role: ControllerRole::LeftHand,
        has_haptics: true,
        has_trackpad: false,
        has_joystick: true,
        has_trigger: true,
        has_grip: false,
        button_count: 4,
    };
    assert_eq!(c.clone().role, ControllerRole::LeftHand);
    assert_ne!(ControllerRole::RightHand, ControllerRole::Tracker);
    let b = VirtualDisplayBounds { x: 1, y: 2, width: 3, height: 4 };
    assert_eq!((b.x, b.y, b.width, b.height), (1, 2, 3, 4));
}
