use openvr_driver::error::{
    check_init_error, DriverError, InitError, IntoDriverError, INIT_ERROR_INTERFACE_NOT_FOUND,
    INIT_ERROR_INVALID_INTERFACE, INIT_ERROR_NONE, INIT_ERROR_UNKNOWN,
};
use openvr_driver::text::{
    c_string_bytes, decimal_text, has_interior_nul, signed_decimal_text, zero_padded3_text,
};
use openvr_driver::naming::interface_version_name;

#[test]
fn init_error_codes() {
    assert_eq!(InitError::none().code, 0);
    assert_eq!(InitError::unknown().code, 1);
    assert_eq!(InitError::invalid_interface().code, INIT_ERROR_INVALID_INTERFACE);
    assert_eq!(InitError::interface_not_found().code, INIT_ERROR_INTERFACE_NOT_FOUND);
    assert_eq!(INIT_ERROR_NONE, 0);
    assert_eq!(INIT_ERROR_UNKNOWN, 1);
    assert_ne!(INIT_ERROR_INVALID_INTERFACE, 0);
    assert_ne!(INIT_ERROR_INTERFACE_NOT_FOUND, 0);
    assert_ne!(INIT_ERROR_INVALID_INTERFACE, INIT_ERROR_INTERFACE_NOT_FOUND);
    assert!(InitError::none().is_none());
    assert!(!InitError::unknown().is_none());
    assert!(!InitError { code: -3 }.is_none());
}

#[test]
fn constructors_build_the_matching_variant() {
    assert!(matches!(DriverError::init(InitError { code: 5 }), DriverError::InitError(InitError { code: 5 })));
    assert!(matches!(DriverError::interface_not_found("a"), DriverError::InterfaceNotFound(s) if s == "a"));
    assert!(matches!(DriverError::component_not_found("b"), DriverError::ComponentNotFound(s) if s == "b"));
    assert!(matches!(DriverError::device_not_found(7), DriverError::DeviceNotFound(7)));
    assert!(matches!(DriverError::invalid_parameter("c"), DriverError::InvalidParameter(s) if s == "c"));
    assert!(matches!(DriverError::operation_failed("d"), DriverError::OperationFailed(s) if s == "d"));
    assert!(matches!(DriverError::hardware_error("e"), DriverError::HardwareError(s) if s == "e"));
    assert!(matches!(DriverError::not_implemented("f"), DriverError::NotImplemented(s) if s == "f"));
    assert!(matches!(DriverError::timeout(), DriverError::Timeout));
    assert!(matches!(DriverError::other("g"), DriverError::Other(s) if s == "g"));
}

#[test]
fn messages() {
    assert_eq!(DriverError::init(InitError { code: 108 }).to_string(), "OpenVR initialization error: 108");
    assert_eq!(DriverError::init(InitError { code: -1 }).to_string(), "OpenVR initialization error: -1");
    assert_eq!(DriverError::interface_not_found("IVRProperties").to_string(), "Interface not found: IVRProperties");
    assert_eq!(DriverError::component_not_found("IVRDisplayComponent").to_string(), "Component not found: IVRDisplayComponent");
    assert_eq!(DriverError::device_not_found(0).to_string(), "Device not found: 0");
    assert_eq!(DriverError::device_not_found(4294967295).to_string(), "Device not found: 4294967295");
    assert_eq!(DriverError::invalid_parameter("bad").to_string(), "Invalid parameter: bad");
    assert_eq!(DriverError::operation_failed("nope").to_string(), "Operation failed: nope");
    assert_eq!(DriverError::hardware_error("smoke").to_string(), "Hardware error: smoke");
    assert_eq!(DriverError::not_implemented("haptics").to_string(), "Not implemented: haptics");
    assert_eq!(DriverError::timeout().to_string(), "Operation timed out");
    assert_eq!(DriverError::other("anything").to_string(), "anything");
    assert_eq!(DriverError::other("").to_string(), "");
}

#[test]
fn check_init_error_separates_success_from_errors() {
    assert!(check_init_error(InitError::none()).is_ok());
    match check_init_error(InitError { code: 108 }) {
        Err(DriverError::InitError(e)) => assert_eq!(e.code, 108),
        _ => panic!("expected an init error"),
    }
    match check_init_error(InitError::unknown()) {
        Err(DriverError::InitError(e)) => assert_eq!(e, InitError { code: 1 }),
        _ => panic!("expected an init error"),
    }
}

#[test]
fn conversions_into_driver_error() {
    assert!(matches!(InitError { code: 9 }.into_driver_error(), DriverError::InitError(InitError { code: 9 })));
    assert!(matches!(DriverError::from(InitError { code: 2 }), DriverError::InitError(InitError { code: 2 })));
    let converted: DriverError = InitError { code: 3 }.into();
    assert!(matches!(converted, DriverError::InitError(InitError { code: 3 })));
}

#[test]
fn decimal_texts() {
    assert_eq!(decimal_text(0), "0");
    assert_eq!(decimal_text(9), "9");
    assert_eq!(decimal_text(10), "10");
    assert_eq!(decimal_text(1234567890), "1234567890");
    assert_eq!(decimal_text(u64::MAX), "18446744073709551615");
    assert_eq!(signed_decimal_text(0), "0");
    assert_eq!(signed_decimal_text(-1), "-1");
    assert_eq!(signed_decimal_text(i64::MIN), "-9223372036854775808");
    assert_eq!(signed_decimal_text(i64::MAX), "9223372036854775807");
    assert_eq!(zero_padded3_text(0), "000");
    assert_eq!(zero_padded3_text(5), "005");
    assert_eq!(zero_padded3_text(42), "042");
    assert_eq!(zero_padded3_text(99), "099");
    assert_eq!(zero_padded3_text(100), "100");
    assert_eq!(zero_padded3_text(999), "999");
    assert_eq!(zero_padded3_text(1000), "1000");
}

#[test]
fn c_strings() {
    assert_eq!(c_string_bytes(""), Some(vec![0]));
    assert_eq!(c_string_bytes("ab"), Some(vec![b'a', b'b', 0]));
    assert_eq!(c_string_bytes("é"), Some(vec![0xc3, 0xa9, 0]));
    assert_eq!(c_string_bytes("a\0b"), None);
    assert_eq!(c_string_bytes("\0"), None);
    assert!(has_interior_nul(&[1, 0, 2]));
    assert!(has_interior_nul(&[0]));
    assert!(!has_interior_nul(&[1, 2]));
    assert!(!has_interior_nul(&[]));
}

#[test]
fn version_names() {
    assert_eq!(interface_version_name("IServerTrackedDeviceProvider", 5), "IServerTrackedDeviceProvider_005");
    assert_eq!(interface_version_name("IVRServerDriverHost", 6), "IVRServerDriverHost_006");
    assert_eq!(interface_version_name("I", 0), "I_000");
    assert_eq!(interface_version_name("I", 12), "I_012");
    assert_eq!(interface_version_name("I", 255), "I_255");
    assert_eq!(interface_version_name("I", 1000), "I_1000");
    assert_eq!(interface_version_name("", 7), "_007");
}
