use openvr_driver::registry::{RecordArena, VersionRegistry};
use openvr_driver::schema::{MethodSignature, SemanticType};
use std::sync::Arc;
use openvr_driver::derive::{
    derive_interface_impl, plan_interface_impl, AttributeKind, StructAttribute,
    DeriveError, InterfaceImplPlan, VersionLiteral,
};

fn arms(plan: &InterfaceImplPlan) -> Vec<(usize, u8, String, String)> {
    plan.arms
        .iter()
        .map(|a| (a.index, a.number, a.interface_ident.clone(), a.variant.clone()))
        .collect()
}

const PROVIDER: &str = r#"
    /// A provider.
    #[derive(Default)]
    #[interface = "IServerTrackedDeviceProvider"]
    #[versions(4, 5)]
    pub struct MyProvider {
        vtables: Vtables,
    }
"#;

#[test]
fn plan_for_a_provider_with_two_versions() {
    let plan = derive_interface_impl(PROVIDER).unwrap();
    assert_eq!(plan.module_name, "myprovider_gen");
    assert_eq!(plan.interface, "IServerTrackedDeviceProvider");
    assert_eq!(
        arms(&plan),
        vec![
            (0, 4, "IServerTrackedDeviceProvider_004".to_string(), "V4".to_string()),
            (1, 5, "IServerTrackedDeviceProvider_005".to_string(), "V5".to_string()),
        ]
    );
}

#[test]
fn variants_keep_the_literal_as_written() {
    let plan = derive_interface_impl(
        "#[versions(005, 12u8, 255)] #[interface = \"IVRThing\"] struct Thing;",
    )
    .unwrap();
    assert_eq!(plan.module_name, "thing_gen");
    assert_eq!(
        arms(&plan),
        vec![
            (0, 5, "IVRThing_005".to_string(), "V005".to_string()),
            (1, 12, "IVRThing_012".to_string(), "V12u8".to_string()),
            (2, 255, "IVRThing_255".to_string(), "V255".to_string()),
        ]
    );
}

fn error_of(source: &str) -> DeriveError {
    match derive_interface_impl(source) {
        Err(e) => e,
        Ok(plan) => panic!("expected an error, got {:?}", plan),
    }
}

#[test]
fn derive_errors() {
    assert_eq!(error_of("fn f() {}"), DeriveError::NotAStruct);
    assert_eq!(error_of("not rust at all ((("), DeriveError::NotAStruct);
    assert_eq!(error_of("#[interface = \"I\"] struct S;"), DeriveError::MissingVersions);
    assert_eq!(error_of("struct S;"), DeriveError::MissingVersions);
    assert_eq!(error_of("#[versions] #[interface = \"I\"] struct S;"), DeriveError::VersionsNotAList);
    assert_eq!(error_of("#[versions = 3] #[interface = \"I\"] struct S;"), DeriveError::VersionsNotAList);
    assert_eq!(error_of("#[versions()] #[interface = \"I\"] struct S;"), DeriveError::VersionsUnparsed);
    assert_eq!(error_of("#[versions(a, b)] #[interface = \"I\"] struct S;"), DeriveError::VersionsUnparsed);
    assert_eq!(error_of("#[versions(1,)] #[interface = \"I\"] struct S;"), DeriveError::VersionsUnparsed);
    assert_eq!(error_of("#[versions(1)] struct S;"), DeriveError::MissingInterface);
    assert_eq!(error_of("#[versions(1)] #[interface] struct S;"), DeriveError::InterfaceUnparsed);
    assert_eq!(error_of("#[versions(1)] #[interface(\"I\")] struct S;"), DeriveError::InterfaceUnparsed);
    assert_eq!(error_of("#[versions(1)] #[interface = 5] struct S;"), DeriveError::InterfaceNotAString);
    assert_eq!(error_of("#[versions(1, 256)] #[interface = \"I\"] struct S;"), DeriveError::VersionOutOfRange);
    assert_eq!(error_of("#[versions(1)] #[a::interface = \"I\"] struct S;"), DeriveError::MissingInterface);
}

#[test]
fn derive_error_messages() {
    assert_eq!(DeriveError::NotAStruct.message(), "expected a struct");
    assert_eq!(DeriveError::MissingVersions.message(), "missing versions attribute");
    assert_eq!(DeriveError::VersionsNotAList.message(), "versions attribute should be a list");
    assert_eq!(DeriveError::VersionsUnparsed.message(), "parsing versions failed");
    assert_eq!(DeriveError::MissingInterface.message(), "missing interface attribute");
    assert_eq!(DeriveError::InterfaceUnparsed.message(), "parsing interface failed");
    assert_eq!(DeriveError::InterfaceNotAString.message(), "expected string literal for interface");
    assert_eq!(DeriveError::VersionOutOfRange.message(), "version number out of range");
}

#[test]
fn the_first_matching_attribute_counts() {
    let plan = derive_interface_impl(
        "#[versions(1)] #[versions(2)] #[interface = \"A\"] #[interface = \"B\"] struct S;",
    )
    .unwrap();
    assert_eq!(plan.interface, "A");
    assert_eq!(arms(&plan), vec![(0, 1, "A_001".to_string(), "V1".to_string())]);
}

#[test]
fn other_attributes_and_inner_items_do_not_matter() {
    let plan = derive_interface_impl(
        "/// Docs.\n#[derive(Default)] #[repr(C)] #[versions(9)] #[doc = \"x\"] \
         #[interface = \"IVRThing\"] pub struct Thing<T> { #[versions(1)] field: T }",
    )
    .unwrap();
    assert_eq!(plan.interface, "IVRThing");
    assert_eq!(arms(&plan), vec![(0, 9, "IVRThing_009".to_string(), "V9".to_string())]);
}

#[test]
fn plan_from_attributes_given_as_values() {
    let versions = StructAttribute {
        outer: true,
        ident: Some("versions".to_string()),
        kind: AttributeKind::List,
        literals: Some(vec![VersionLiteral { text: "7".to_string(), value: Some(7) }]),
        string_value: None,
    };
    let interface = StructAttribute {
        outer: true,
        ident: Some("interface".to_string()),
        kind: AttributeKind::NameValue,
        literals: None,
        string_value: Some("IVRThing".to_string()),
    };
    let mut inner = versions.clone();
    inner.outer = false;
    let plan = plan_interface_impl("HmdDevice", &vec![interface.clone(), versions.clone()]).unwrap();
    assert_eq!(plan.module_name, "hmddevice_gen");
    assert_eq!(arms(&plan), vec![(0, 7, "IVRThing_007".to_string(), "V7".to_string())]);
    assert_eq!(
        plan_interface_impl("S", &vec![inner, interface.clone()]).unwrap_err(),
        DeriveError::MissingVersions
    );
    let mut unreadable = versions.clone();
    unreadable.literals = Some(vec![
        VersionLiteral { text: "1".to_string(), value: Some(1) },
        VersionLiteral { text: "300".to_string(), value: None },
    ]);
    assert_eq!(
        plan_interface_impl("S", &vec![unreadable, interface]).unwrap_err(),
        DeriveError::VersionOutOfRange
    );
    assert_eq!(plan_interface_impl("S", &vec![]).unwrap_err(), DeriveError::MissingVersions);
}

#[test]
fn a_planned_type_is_served_by_the_registry_under_its_arm_names() {
    let plan = derive_interface_impl(PROVIDER).unwrap();
    let methods = vec![MethodSignature::new("RunFrame", vec![], SemanticType::Void)];
    let descriptor = plan.descriptor(&methods);
    assert_eq!(descriptor.name, "IServerTrackedDeviceProvider");
    let versions: Vec<u32> = descriptor.versions.iter().map(|v| v.version).collect();
    assert_eq!(versions, vec![4, 5]);
    assert_eq!(descriptor.versions[1].methods[0].name, "RunFrame");
    let mut registry = VersionRegistry::new(descriptor);
    let mut arena: RecordArena<u8> = RecordArena::new();
    let this = Arc::new(0u8);
    let mut seen = Vec::new();
    for arm in &plan.arms {
        let version = registry.resolve(&arm.interface_ident).unwrap();
        assert_eq!(version, arm.number as u32);
        let first = registry.get_or_init(version, &mut arena, &this).unwrap();
        for _ in 0..8 {
            assert_eq!(registry.get_or_init(version, &mut arena, &this), Some(first));
        }
        assert!(!first.is_null());
        assert!(!seen.contains(&first));
        seen.push(first);
    }
    assert_eq!(arena.len(), plan.arms.len());
}
