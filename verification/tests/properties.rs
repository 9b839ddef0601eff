use openvr_driver::error::DriverError;
use openvr_driver::properties::{
    hmd_properties, set_controller_properties, ContainerLookup, ControllerHand, EncodedValue,
    EncodedWrite, Properties, Property, PropertyBatch, PropertyError, PropertyId, PropertyTag,
    PropertyValue, PropertyWrite,
};

fn ready() -> Properties {
    let mut p = Properties::new();
    p.set_properties_interface(0x5000);
    p
}

fn summary(w: &EncodedWrite) -> (PropertyId, PropertyTag, String, u32) {
    (w.prop, w.tag, format!("{:?}", w.value), w.size)
}

fn submitted(plan: Result<Option<PropertyBatch>, DriverError>) -> PropertyBatch {
    match plan {
        Ok(Some(batch)) => batch,
        other => panic!("expected a batch, got {:?}", other),
    }
}

#[test]
fn batch_needs_a_property_interface() {
    let entries = vec![(PropertyId::IsOnDesktopBool, PropertyValue::Bool(true))];
    match Properties::new().write_property_batch(1, &entries) {
        Err(DriverError::InterfaceNotFound(m)) => assert_eq!(m, "IVRProperties not initialized"),
        other => panic!("unexpected {:?}", other),
    }
    let mut null = Properties::new();
    null.set_properties_interface(0);
    match null.write_property_batch(1, &entries) {
        Err(DriverError::InterfaceNotFound(m)) => assert_eq!(m, "IVRProperties is null"),
        other => panic!("unexpected {:?}", other),
    }
}

#[test]
fn batch_encodes_each_kind() {
    let entries = vec![
        (PropertyId::IsOnDesktopBool, PropertyValue::Bool(true)),
        (PropertyId::Raw(1234), PropertyValue::Int32(-5)),
        (PropertyId::CurrentUniverseIdUint64, PropertyValue::Uint64(u64::MAX)),
        (PropertyId::UserIpdMetersFloat, PropertyValue::Float(0.063f32.to_bits())),
        (PropertyId::ModelNumberString, PropertyValue::String("HMD".to_string())),
        (PropertyId::SerialNumberString, PropertyValue::String(String::new())),
    ];
    let batch = submitted(ready().write_property_batch(42, &entries));
    assert_eq!(batch.interface, 0x5000);
    assert_eq!(batch.container, 42);
    let got: Vec<_> = batch.writes.iter().map(summary).collect();
    assert_eq!(
        got,
        vec![
            (PropertyId::IsOnDesktopBool, PropertyTag::Bool, "Bool(true)".to_string(), 1),
            (PropertyId::Raw(1234), PropertyTag::Int32, "Int32(-5)".to_string(), 4),
            (
                PropertyId::CurrentUniverseIdUint64,
                PropertyTag::Uint64,
                format!("Uint64({})", u64::MAX),
                8
            ),
            (
                PropertyId::UserIpdMetersFloat,
                PropertyTag::Float,
                format!("Float({})", 0.063f32.to_bits()),
                4
            ),
            (
                PropertyId::ModelNumberString,
                PropertyTag::String,
                "Text([72, 77, 68, 0])".to_string(),
                4
            ),
            (PropertyId::SerialNumberString, PropertyTag::String, "Text([0])".to_string(), 1),
        ]
    );
}

#[test]
fn batch_skips_kinds_it_does_not_carry() {
    let entries = vec![
        (PropertyId::Raw(1), PropertyValue::Matrix34([0; 12])),
        (PropertyId::Raw(2), PropertyValue::Bool(false)),
        (PropertyId::Raw(3), PropertyValue::Vector3([0; 3])),
        (PropertyId::Raw(4), PropertyValue::Quaternion([0; 4])),
        (PropertyId::Raw(5), PropertyValue::Int32(9)),
    ];
    let batch = submitted(ready().write_property_batch(1, &entries));
    let props: Vec<_> = batch.writes.iter().map(|w| w.prop).collect();
    assert_eq!(props, vec![PropertyId::Raw(2), PropertyId::Raw(5)]);
}

#[test]
fn batch_with_nothing_to_write_is_a_success_without_submission() {
    assert!(matches!(ready().write_property_batch(1, &[]), Ok(None)));
    let only_skipped = vec![(PropertyId::Raw(1), PropertyValue::Vector3([1, 2, 3]))];
    assert!(matches!(ready().write_property_batch(1, &only_skipped), Ok(None)));
}

#[test]
fn batch_refuses_text_with_a_nul_byte() {
    let entries = vec![
        (PropertyId::Raw(1), PropertyValue::Bool(true)),
        (PropertyId::ModelNumberString, PropertyValue::String("a\0b".to_string())),
    ];
    match ready().write_property_batch(1, &entries) {
        Err(DriverError::InvalidParameter(m)) => assert_eq!(m, "String contains null byte"),
        other => panic!("unexpected {:?}", other),
    }
}

#[test]
fn batch_results() {
    assert!(Properties::batch_result(PropertyError::Success).is_ok());
    match Properties::batch_result(PropertyError::UnknownProperty) {
        Err(DriverError::OperationFailed(m)) => {
            assert_eq!(m, "WritePropertyBatch failed: TrackedProp_UnknownProperty")
        }
        other => panic!("unexpected {:?}", other),
    }
    match Properties::batch_result(PropertyError::Code(-7)) {
        Err(DriverError::OperationFailed(m)) => assert_eq!(m, "WritePropertyBatch failed: -7"),
        other => panic!("unexpected {:?}", other),
    }
}

#[test]
fn single_property_setters() {
    let p = ready();
    let b = submitted(p.set_bool(3, PropertyId::IsOnDesktopBool, false));
    assert_eq!(b.container, 3);
    assert_eq!(b.writes.len(), 1);
    assert_eq!(summary(&b.writes[0]), (PropertyId::IsOnDesktopBool, PropertyTag::Bool, "Bool(false)".to_string(), 1));
    let i = submitted(p.set_int32(3, PropertyId::Raw(9), i32::MIN));
    assert_eq!(summary(&i.writes[0]), (PropertyId::Raw(9), PropertyTag::Int32, format!("Int32({})", i32::MIN), 4));
    let u = submitted(p.set_uint64(3, PropertyId::CurrentUniverseIdUint64, 2));
    assert_eq!(summary(&u.writes[0]), (PropertyId::CurrentUniverseIdUint64, PropertyTag::Uint64, "Uint64(2)".to_string(), 8));
    let f = submitted(p.set_float(3, PropertyId::DisplayFrequencyFloat, 90.0f32.to_bits()));
    assert_eq!(summary(&f.writes[0]), (PropertyId::DisplayFrequencyFloat, PropertyTag::Float, format!("Float({})", 90.0f32.to_bits()), 4));
    let s = submitted(p.set_string(3, PropertyId::ModelNumberString, "ab"));
    assert!(matches!(&s.writes[0].value, EncodedValue::Text(t) if t == &vec![b'a', b'b', 0]));
    assert_eq!(s.writes[0].size, 3);
    assert!(matches!(p.set_string(3, PropertyId::ModelNumberString, "a\0"), Err(DriverError::InvalidParameter(_))));
    assert!(matches!(Properties::new().set_bool(3, PropertyId::IsOnDesktopBool, true), Err(DriverError::InterfaceNotFound(_))));
    assert!(matches!(Properties::new().set_int32(3, PropertyId::Raw(1), 1), Err(DriverError::InterfaceNotFound(_))));
    assert!(matches!(Properties::new().set_uint64(3, PropertyId::Raw(1), 1), Err(DriverError::InterfaceNotFound(_))));
    assert!(matches!(Properties::new().set_string(3, PropertyId::Raw(1), "x"), Err(DriverError::InterfaceNotFound(_))));
}

#[test]
fn set_property_by_value() {
    let p = ready();
    let b = submitted(p.set_property(1, PropertyId::Raw(1), &PropertyValue::Bool(true)));
    assert_eq!(b.writes[0].tag, PropertyTag::Bool);
    let s = submitted(p.set_property(1, PropertyId::Raw(1), &PropertyValue::String("x".into())));
    assert_eq!(s.writes[0].tag, PropertyTag::String);
    let f = submitted(p.set_property(1, PropertyId::Raw(1), &PropertyValue::Float(7)));
    assert_eq!(f.writes[0].tag, PropertyTag::Float);
    let i = submitted(p.set_property(1, PropertyId::Raw(1), &PropertyValue::Int32(7)));
    assert_eq!(i.writes[0].tag, PropertyTag::Int32);
    let u = submitted(p.set_property(1, PropertyId::Raw(1), &PropertyValue::Uint64(7)));
    assert_eq!(u.writes[0].tag, PropertyTag::Uint64);
    for v in [
        PropertyValue::Matrix34([0; 12]),
        PropertyValue::Vector3([0; 3]),
        PropertyValue::Quaternion([0; 4]),
    ] {
        match p.set_property(1, PropertyId::Raw(1), &v) {
            Err(DriverError::NotImplemented(m)) => {
                assert_eq!(m, "Matrix34/Vector3/Quaternion properties")
            }
            other => panic!("unexpected {:?}", other),
        }
        assert!(matches!(
            Properties::new().set_property(1, PropertyId::Raw(1), &v),
            Err(DriverError::NotImplemented(_))
        ));
    }
}

#[test]
fn hmd_properties_use_the_configured_values() {
    let freq = 90.0f32.to_bits();
    let ipd = 0.063f32.to_bits();
    let list = hmd_properties("Model X", "SN-1", freq, ipd);
    let got: Vec<String> = list.iter().map(|e| format!("{:?}", e)).collect();
    let want: Vec<String> = vec![
        (PropertyId::ModelNumberString, PropertyValue::String("Model X".into())),
        (PropertyId::SerialNumberString, PropertyValue::String("SN-1".into())),
        (PropertyId::DisplayFrequencyFloat, PropertyValue::Float(freq)),
        (PropertyId::UserIpdMetersFloat, PropertyValue::Float(ipd)),
        (PropertyId::UserHeadToEyeDepthMetersFloat, PropertyValue::Float(0.0f32.to_bits())),
        (PropertyId::SecondsFromVsyncToPhotonsFloat, PropertyValue::Float(0.11f32.to_bits())),
        (PropertyId::IsOnDesktopBool, PropertyValue::Bool(false)),
        (PropertyId::DisplayDebugModeBool, PropertyValue::Bool(true)),
        (PropertyId::CurrentUniverseIdUint64, PropertyValue::Uint64(2)),
        (PropertyId::ManufacturerNameString, PropertyValue::String("Simple VR".into())),
        (PropertyId::TrackingSystemNameString, PropertyValue::String("simplehmd".into())),
    ]
    .iter()
    .map(|e| format!("{:?}", e))
    .collect();
    assert_eq!(got, want);
}

#[test]
fn set_hmd_properties_plans_one_batch() {
    let p = ready();
    let batch = submitted(p.set_hmd_properties(8, "M", "S", 1, 2));
    assert_eq!(batch.container, 8);
    assert_eq!(batch.writes.len(), 11);
    assert_eq!(summary(&batch.writes[2]), (PropertyId::DisplayFrequencyFloat, PropertyTag::Float, "Float(1)".to_string(), 4));
    match p.set_hmd_properties(0, "M", "S", 1, 2) {
        Err(DriverError::OperationFailed(m)) => assert_eq!(m, "Invalid property container"),
        other => panic!("unexpected {:?}", other),
    }
    assert!(matches!(p.set_hmd_properties(8, "M\0", "S", 1, 2), Err(DriverError::InvalidParameter(_))));
    assert!(matches!(Properties::new().set_hmd_properties(8, "M", "S", 1, 2), Err(DriverError::InterfaceNotFound(_))));
    assert!(matches!(Properties::new().set_hmd_properties(0, "M", "S", 1, 2), Err(DriverError::OperationFailed(_))));
}

#[test]
fn container_lookup() {
    assert_eq!(Properties::new().get_property_container(5), ContainerLookup::Fallback(5));
    let mut null = Properties::new();
    null.set_properties_interface(0);
    assert_eq!(null.get_property_container(u32::MAX), ContainerLookup::Fallback(4294967295));
    assert_eq!(
        ready().get_property_container(5),
        ContainerLookup::AskHost { interface: 0x5000, device_index: 5 }
    );
}

#[test]
fn property_constructors_and_write_records() {
    let b = Property::bool(PropertyId::Raw(1), true);
    assert!(matches!(b.value, PropertyValue::Bool(true)) && b.id == PropertyId::Raw(1));
    assert!(matches!(Property::int32(PropertyId::Raw(2), -1).value, PropertyValue::Int32(-1)));
    assert!(matches!(Property::uint64(PropertyId::Raw(3), 9).value, PropertyValue::Uint64(9)));
    assert!(matches!(Property::float(PropertyId::Raw(4), 5).value, PropertyValue::Float(5)));
    assert!(matches!(Property::string(PropertyId::Raw(5), "s").value, PropertyValue::String(s) if s == "s"));
    assert!(matches!(Property::new(PropertyId::Raw(6), PropertyValue::Vector3([1, 2, 3])).value, PropertyValue::Vector3([1, 2, 3])));
    let mut w = PropertyWrite::new(Property::bool(PropertyId::Raw(1), true));
    assert_eq!(w.error, None);
    w.record(&Ok(()));
    assert_eq!(w.error, Some(PropertyError::Success));
    w.record(&Err(DriverError::timeout()));
    assert_eq!(w.error, Some(PropertyError::UnknownProperty));
    assert_eq!(w.property.id, PropertyId::Raw(1));
    let v = PropertyWrite::from_id_value(PropertyId::Raw(7), PropertyValue::Int32(3));
    assert!(v.error.is_none() && v.property.id == PropertyId::Raw(7));
    assert!(set_controller_properties(1, "m", "s", ControllerHand::Left).is_ok());
    assert!(set_controller_properties(2, "m", "s", ControllerHand::Right).is_ok());
}
