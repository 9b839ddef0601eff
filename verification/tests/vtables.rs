use openvr_driver::schema::{InterfaceDescriptor, InterfaceVersion, MethodSignature, SemanticType};
use openvr_driver::trampoline::{BoundaryError, RawValue, Trampoline};
use openvr_driver::vtables::device::{create_device_vtable, device_descriptor};
use openvr_driver::vtables::display::{create_display_vtable, display_descriptor};
use openvr_driver::vtables::provider::{create_provider_vtable, provider_descriptor};
use openvr_driver::vtables::{
    build_vtable, dispatch, Dispatch, OpaquePointer, VtableInstance, VtableWrapper, WrapperArena,
};
use std::sync::Arc;

fn names(table: &VtableInstance) -> Vec<String> {
    table.slots.iter().map(|t| t.name.clone()).collect()
}

#[test]
fn provider_table_follows_the_schema_order() {
    let table = build_vtable(&provider_descriptor(), 5).unwrap();
    assert_eq!(table.interface, "IServerTrackedDeviceProvider");
    assert_eq!(table.version, 5);
    assert_eq!(
        names(&table),
        vec![
            "Init",
            "Cleanup",
            "GetInterfaceVersions",
            "RunFrame",
            "ShouldBlockStandbyMode",
            "EnterStandby",
            "LeaveStandby"
        ]
    );
}

#[test]
fn device_table_follows_the_schema_order() {
    let table = build_vtable(&device_descriptor(), 5).unwrap();
    assert_eq!(table.interface, "ITrackedDeviceServerDriver");
    assert_eq!(
        names(&table),
        vec!["Activate", "Deactivate", "EnterStandby", "GetComponent", "DebugRequest", "GetPose"]
    );
    assert_eq!(table.slots[4].params.len(), 4);
}

#[test]
fn display_table_follows_the_schema_order() {
    let table = build_vtable(&display_descriptor(), 3).unwrap();
    assert_eq!(table.interface, "IVRDisplayComponent");
    assert_eq!(
        names(&table),
        vec![
            "GetWindowBounds",
            "IsDisplayOnDesktop",
            "IsDisplayRealDisplay",
            "GetRecommendedRenderTargetSize",
            "GetEyeOutputViewport",
            "GetProjectionRaw",
            "ComputeDistortion",
            "ComputeInverseDistortion"
        ]
    );
    let counts: Vec<usize> = table.slots.iter().map(|t| t.params.len()).collect();
    assert_eq!(counts, vec![5, 1, 1, 3, 6, 6, 4, 6]);
}

#[test]
fn every_slot_is_the_trampoline_of_its_method() {
    for d in [provider_descriptor(), device_descriptor(), display_descriptor()] {
        for v in &d.versions {
            let table = build_vtable(&d, v.version).unwrap();
            assert_eq!(table.slots.len(), v.methods.len());
            for (i, m) in v.methods.iter().enumerate() {
                assert!(table.slots[i].same_as(&Trampoline::generate(m)));
            }
        }
    }
}

#[test]
fn no_table_for_a_version_the_interface_lacks() {
    assert!(build_vtable(&provider_descriptor(), 4).is_none());
    assert!(build_vtable(&device_descriptor(), 0).is_none());
    assert!(build_vtable(&display_descriptor(), 999).is_none());
    let d = provider_descriptor();
    assert_eq!(d.find_version(5), Some(0));
    assert_eq!(d.find_version(6), None);
    assert!(d.methods(5).is_some());
    assert!(d.methods(6).is_none());
}

#[test]
fn first_entry_wins_when_a_version_is_listed_twice() {
    let d = InterfaceDescriptor {
        name: "ITwice".to_string(),
        versions: vec![
            InterfaceVersion {
                version: 1,
                methods: vec![MethodSignature::new("First", vec![], SemanticType::Void)],
            },
            InterfaceVersion {
                version: 1,
                methods: vec![MethodSignature::new("Second", vec![], SemanticType::Void)],
            },
        ],
    };
    assert_eq!(d.find_version(1), Some(0));
    assert_eq!(names(&build_vtable(&d, 1).unwrap()), vec!["First"]);
}

#[test]
fn arena_wrap_unwrap_release() {
    let mut arena: WrapperArena<&'static str> = WrapperArena::new();
    assert_eq!(arena.len(), 0);
    assert!(arena.unwrap(OpaquePointer::null()).is_none());
    assert!(arena.unwrap(OpaquePointer { addr: 1 }).is_none());
    let (a, left_a) = arena.wrap("a");
    let (b, left_b) = arena.wrap("b");
    assert_eq!(a, OpaquePointer { addr: 1 });
    assert_eq!(b, OpaquePointer { addr: 2 });
    assert!(left_a.is_none() && left_b.is_none());
    assert!(!a.is_null());
    assert!(OpaquePointer::null().is_null());
    assert_eq!(arena.unwrap(a), Some(&"a"));
    assert_eq!(arena.unwrap(b), Some(&"b"));
    assert!(arena.contains(a) && arena.contains(b));
    assert!(!arena.contains(OpaquePointer { addr: 3 }));
    assert!(!arena.contains(OpaquePointer { addr: 0 }));
    assert_eq!(arena.release(a), Some("a"));
    assert_eq!(arena.release(a), None);
    assert!(arena.unwrap(a).is_none());
    assert_eq!(arena.unwrap(b), Some(&"b"));
    assert_eq!(arena.release(OpaquePointer { addr: 9 }), None);
    let (c, _) = arena.wrap("c");
    assert_eq!(c, OpaquePointer { addr: 3 });
    assert_eq!(arena.len(), 3);
}

#[test]
fn records_stay_alive_without_other_references_to_the_owner() {
    let mut arena = WrapperArena::new();
    let p = {
        let owner = Arc::new(String::from("device"));
        create_device_vtable(&mut arena, owner)
    };
    let record = arena.unwrap(p).unwrap();
    assert_eq!(record.get_data().as_str(), "device");
    assert_eq!(Arc::strong_count(record.get_data()), 1);
}

#[test]
fn create_vtable_functions_wrap_table_and_owner() {
    let mut arena = WrapperArena::new();
    let owner = Arc::new(5u8);
    let p = create_provider_vtable(&mut arena, owner.clone());
    let d = create_device_vtable(&mut arena, owner.clone());
    let c = create_display_vtable(&mut arena, owner.clone());
    assert_eq!((p.addr, d.addr, c.addr), (1, 2, 3));
    assert_eq!(arena.unwrap(p).unwrap().base.interface, "IServerTrackedDeviceProvider");
    assert_eq!(arena.unwrap(d).unwrap().base.interface, "ITrackedDeviceServerDriver");
    assert_eq!(arena.unwrap(c).unwrap().base.interface, "IVRDisplayComponent");
    assert_eq!(arena.unwrap(c).unwrap().base.version, 3);
    assert!(Arc::ptr_eq(&arena.unwrap(d).unwrap().this, &owner));
    let w = VtableWrapper::new(1u8, owner.clone());
    assert_eq!(w.base, 1);
    assert!(Arc::ptr_eq(w.get_data(), &owner));
}

fn decision_name<U>(d: &Dispatch<'_, U>) -> Option<BoundaryError> {
    match d {
        Dispatch::Forward(_) => None,
        Dispatch::Reject { reason, .. } => Some(*reason),
    }
}

#[test]
fn dispatch_recovers_the_owner_from_the_receiver() {
    let mut arena = WrapperArena::new();
    let owner = Arc::new(String::from("device"));
    let p = create_device_vtable(&mut arena, owner.clone());
    let table = build_vtable(&device_descriptor(), 5).unwrap();
    let activate = &table.slots[0];
    let args = vec![RawValue::Pointer(p.addr), RawValue::Word32(3)];
    match dispatch(&arena, "ITrackedDeviceServerDriver", 5, 0, activate, &args) {
        Dispatch::Forward(found) => assert!(Arc::ptr_eq(found, &owner)),
        Dispatch::Reject { .. } => panic!("a valid call was rejected"),
    }
}

#[test]
fn dispatch_answers_bad_calls_at_the_boundary() {
    let mut arena = WrapperArena::new();
    let owner = Arc::new(0u8);
    let dev = create_device_vtable(&mut arena, owner.clone());
    let prov = create_provider_vtable(&mut arena, owner.clone());
    let table = build_vtable(&device_descriptor(), 5).unwrap();
    let get_component = &table.slots[3];
    let name = RawValue::Pointer(0x2000);
    let iface = "ITrackedDeviceServerDriver";

    let null_this = dispatch(&arena, iface, 5, 3, get_component, &vec![RawValue::Pointer(0), name]);
    assert_eq!(decision_name(&null_this), Some(BoundaryError::NullArgument));
    let null_name = dispatch(
        &arena,
        iface,
        5,
        3,
        get_component,
        &vec![RawValue::Pointer(dev.addr), RawValue::Pointer(0)],
    );
    assert_eq!(decision_name(&null_name), Some(BoundaryError::NullArgument));
    match null_name {
        Dispatch::Reject { sentinel, .. } => assert_eq!(sentinel, RawValue::Pointer(0)),
        Dispatch::Forward(_) => panic!("forwarded"),
    }
    let dangling =
        dispatch(&arena, iface, 5, 3, get_component, &vec![RawValue::Pointer(77), name]);
    assert_eq!(decision_name(&dangling), Some(BoundaryError::VersionMismatch));
    let other_interface =
        dispatch(&arena, iface, 5, 3, get_component, &vec![RawValue::Pointer(prov.addr), name]);
    assert_eq!(decision_name(&other_interface), Some(BoundaryError::VersionMismatch));
    let other_version =
        dispatch(&arena, iface, 4, 3, get_component, &vec![RawValue::Pointer(dev.addr), name]);
    assert_eq!(decision_name(&other_version), Some(BoundaryError::VersionMismatch));
    let other_slot =
        dispatch(&arena, iface, 5, 4, get_component, &vec![RawValue::Pointer(dev.addr), name]);
    assert_eq!(decision_name(&other_slot), Some(BoundaryError::VersionMismatch));
    let beyond =
        dispatch(&arena, iface, 5, 6, get_component, &vec![RawValue::Pointer(dev.addr), name]);
    assert_eq!(decision_name(&beyond), Some(BoundaryError::VersionMismatch));
    let fine =
        dispatch(&arena, iface, 5, 3, get_component, &vec![RawValue::Pointer(dev.addr), name]);
    assert_eq!(decision_name(&fine), None);

    arena.release(dev);
    let released =
        dispatch(&arena, iface, 5, 3, get_component, &vec![RawValue::Pointer(dev.addr), name]);
    assert_eq!(decision_name(&released), Some(BoundaryError::VersionMismatch));
}
