use openvr_driver::registry::{RecordArena, VersionRegistry};
use openvr_driver::schema::{InterfaceDescriptor, InterfaceVersion, MethodSignature, SemanticType};
use openvr_driver::vtables::provider::provider_descriptor;
use openvr_driver::vtables::OpaquePointer;
use std::sync::Arc;

fn descriptor(name: &str, versions: &[u32]) -> InterfaceDescriptor {
    let mut list = Vec::new();
    for v in versions {
        list.push(InterfaceVersion {
            version: *v,
            methods: vec![MethodSignature::new("RunFrame", vec![], SemanticType::Void)],
        });
    }
    InterfaceDescriptor { name: name.to_string(), versions: list }
}

#[test]
fn get_or_init_twice_returns_the_identical_pointer() {
    let mut registry = VersionRegistry::new(descriptor("IThing", &[1, 2, 3]));
    let mut arena: RecordArena<String> = RecordArena::new();
    let owner = Arc::new("owner".to_string());
    for v in [1u32, 2, 3] {
        let first = registry.get_or_init(v, &mut arena, &owner);
        let second = registry.get_or_init(v, &mut arena, &owner);
        assert!(first.is_some());
        assert_eq!(first, second);
    }
    assert_eq!(arena.len(), 3);
}

#[test]
fn get_or_init_returns_none_for_an_unsupported_version() {
    let mut registry = VersionRegistry::new(descriptor("IThing", &[1, 2]));
    let mut arena: RecordArena<u8> = RecordArena::new();
    let owner = Arc::new(0u8);
    assert_eq!(registry.get_or_init(3, &mut arena, &owner), None);
    assert_eq!(registry.get_or_init(0, &mut arena, &owner), None);
    assert_eq!(arena.len(), 0);
    assert_eq!(registry.peek(1), None);
    assert_eq!(registry.peek(2), None);
}

#[test]
fn many_requests_for_one_version_construct_one_record() {
    let mut registry = VersionRegistry::new(descriptor("IThing", &[7]));
    let mut arena: RecordArena<u8> = RecordArena::new();
    let owner = Arc::new(0u8);
    let mut results = Vec::new();
    for _ in 0..32 {
        results.push(registry.get_or_init(7, &mut arena, &owner));
    }
    assert_eq!(arena.len(), 1);
    for r in results {
        assert_eq!(r, Some(OpaquePointer { addr: 1 }));
    }
    assert_eq!(Arc::strong_count(&owner), 2);
}

#[test]
fn a_filled_slot_keeps_its_pointer_when_other_versions_are_requested() {
    let mut registry = VersionRegistry::new(descriptor("IThing", &[1, 2]));
    let mut arena: RecordArena<u8> = RecordArena::new();
    let owner = Arc::new(0u8);
    let one = registry.get_or_init(1, &mut arena, &owner);
    let two = registry.get_or_init(2, &mut arena, &owner);
    assert_ne!(one, two);
    assert_eq!(registry.peek(1), one);
    assert_eq!(registry.peek(2), two);
    assert_eq!(registry.get_or_init(9, &mut arena, &owner), None);
    assert_eq!(registry.peek(1), one);
    assert_eq!(registry.get_or_init(1, &mut arena, &owner), one);
}

#[test]
fn the_record_shares_the_owner_and_holds_the_table_of_the_version() {
    let mut registry = VersionRegistry::new(provider_descriptor());
    let mut arena: RecordArena<u8> = RecordArena::new();
    let owner = Arc::new(9u8);
    let p = registry.get_or_init(5, &mut arena, &owner).unwrap();
    let record = arena.unwrap(p).unwrap();
    assert!(Arc::ptr_eq(record.get_data(), &owner));
    assert_eq!(record.base.interface, "IServerTrackedDeviceProvider");
    assert_eq!(record.base.version, 5);
    assert_eq!(record.base.slots.len(), 7);
}

#[test]
fn resolve_maps_names_to_supported_versions() {
    let registry = VersionRegistry::new(descriptor("IThing", &[4, 5, 123]));
    assert_eq!(registry.resolve("IThing_004"), Some(4));
    assert_eq!(registry.resolve("IThing_005"), Some(5));
    assert_eq!(registry.resolve("IThing_123"), Some(123));
    assert_eq!(registry.resolve("IThing_006"), None);
    assert_eq!(registry.resolve("IThing_4"), None);
    assert_eq!(registry.resolve("IThing"), None);
    assert_eq!(registry.resolve("IOther_004"), None);
    assert_eq!(registry.supported_versions(), vec![4, 5, 123]);
    assert_eq!(registry.descriptor().name, "IThing");
}

#[test]
fn filled_slots_name_records_of_their_own_version() {
    let mut registry = VersionRegistry::new(descriptor("IThing", &[1, 2, 3]));
    let mut arena: RecordArena<u8> = RecordArena::new();
    let owner = Arc::new(0u8);
    for v in [3u32, 1, 2, 1, 3] {
        registry.get_or_init(v, &mut arena, &owner);
    }
    let mut seen = Vec::new();
    for v in [1u32, 2, 3] {
        let p = registry.peek(v).unwrap();
        assert!(arena.contains(p));
        assert_eq!(arena.unwrap(p).unwrap().base.version, v);
        assert!(!seen.contains(&p));
        seen.push(p);
    }
    assert_eq!(arena.len(), 3);
}
