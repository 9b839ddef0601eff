//! The tracked-device interface: its schema, its table, and the work its
//! trampolines do themselves.

use crate::error::{result_view, DriverResult, InitError};
use crate::registry::RecordArena;
use crate::schema::{
    InterfaceDescriptor, InterfaceDescriptorView, InterfaceVersion, InterfaceVersionView,
    MethodSignature, MethodSignatureView, ScalarKind, SemanticType, StructKind,
};
use crate::text::{c_string_bytes, contains_nul, nul_terminated, utf8_text};
use crate::vtables::provider::{init_code_of, init_result_code};
use crate::vtables::{build_vtable, next_pointer, vtable_of, OpaquePointer, VtableWrapper};
use std::sync::Arc;
use vstd::prelude::*;
use vstd::string::*;
use vstd::utf8::valid_utf8;

verus! {

/// The version of the device interface that this layer implements.
pub const DEVICE_VERSION: u32 = 5;

/// The methods of the device interface, in table order.
pub open spec fn device_methods() -> Seq<MethodSignatureView> {
    seq![
        MethodSignatureView {
            name: "Activate"@,
            params: seq![SemanticType::Scalar(ScalarKind::UInt32)],
            ret: SemanticType::ErrorCode,
        },
        MethodSignatureView { name: "Deactivate"@, params: seq![], ret: SemanticType::Void },
        MethodSignatureView { name: "EnterStandby"@, params: seq![], ret: SemanticType::Void },
        MethodSignatureView {
            name: "GetComponent"@,
            params: seq![SemanticType::CString],
            ret: SemanticType::OpaquePointer,
        },
        MethodSignatureView {
            name: "DebugRequest"@,
            params: seq![
                SemanticType::CString,
                SemanticType::OutBuffer,
                SemanticType::Scalar(ScalarKind::UInt32),
            ],
            ret: SemanticType::Void,
        },
        MethodSignatureView {
            name: "GetPose"@,
            params: seq![],
            ret: SemanticType::Struct(StructKind::Pose),
        },
    ]
}

/// The device interface as a mathematical value.
pub open spec fn device_descriptor_view() -> InterfaceDescriptorView {
    InterfaceDescriptorView {
        name: "ITrackedDeviceServerDriver"@,
        versions: seq![InterfaceVersionView { version: DEVICE_VERSION, methods: device_methods() }],
    }
}

/// The schema of the device interface.
pub fn device_descriptor() -> (d: InterfaceDescriptor)
    ensures
        d@ == device_descriptor_view(),
{
    let mut methods: Vec<MethodSignature> = Vec::new();
    let mut activate: Vec<SemanticType> = Vec::new();
    activate.push(SemanticType::Scalar(ScalarKind::UInt32));
    methods.push(MethodSignature::new("Activate", activate, SemanticType::ErrorCode));
    methods.push(MethodSignature::new("Deactivate", Vec::new(), SemanticType::Void));
    methods.push(MethodSignature::new("EnterStandby", Vec::new(), SemanticType::Void));
    let mut get_component: Vec<SemanticType> = Vec::new();
    get_component.push(SemanticType::CString);
    methods.push(MethodSignature::new("GetComponent", get_component, SemanticType::OpaquePointer));
    let mut debug_request: Vec<SemanticType> = Vec::new();
    debug_request.push(SemanticType::CString);
    debug_request.push(SemanticType::OutBuffer);
    debug_request.push(SemanticType::Scalar(ScalarKind::UInt32));
    methods.push(MethodSignature::new("DebugRequest", debug_request, SemanticType::Void));
    methods.push(
        MethodSignature::new("GetPose", Vec::new(), SemanticType::Struct(StructKind::Pose)),
    );
    let mut versions: Vec<InterfaceVersion> = Vec::new();
    versions.push(InterfaceVersion { version: DEVICE_VERSION, methods });
    let d = InterfaceDescriptor { name: String::from_str("ITrackedDeviceServerDriver"), versions };
    proof {
        let got = d@.versions[0].methods;
        let want = device_methods();
        assert(got[4].params =~= want[4].params);
        assert(got =~= want);
        assert(d@.versions =~= device_descriptor_view().versions);
    }
    d
}

/// Builds the device table for `device`, wraps both and returns the pointer
/// to hand to the host. The null pointer comes back, and nothing is stored,
/// when the arena can name no further record.
pub fn create_device_vtable<U>(arena: &mut RecordArena<U>, device: Arc<U>) -> (p: OpaquePointer)
    ensures
        p == next_pointer(old(arena)@),
        p.is_null() ==> final(arena)@ == old(arena)@,
        !p.is_null() ==> {
            &&& final(arena)@.len() == old(arena)@.len() + 1
            &&& final(arena)@.drop_last() == old(arena)@
            &&& final(arena)@.last() is Some
            &&& final(arena)@.last()->0.this == device
            &&& Some(final(arena)@.last()->0.base@) == vtable_of(
                device_descriptor_view(),
                DEVICE_VERSION,
            )
        },
{
    let descriptor = device_descriptor();
    match build_vtable(&descriptor, DEVICE_VERSION) {
        Some(table) => {
            let (p, _) = arena.wrap(VtableWrapper::new(table, device));
            p
        },
        None => OpaquePointer::null(),
    }
}

/// The device index that the host assigned in its latest `Activate` call
/// and that the driver has not yet picked up.
#[derive(Debug, Clone, Copy)]
pub struct PendingActivation {
    pub index: Option<u32>,
}

impl PendingActivation {
    /// No activation is pending.
    pub fn new() -> (state: Self)
        ensures
            state.index is None,
    {
        PendingActivation { index: None }
    }
}

/// The `Activate` trampoline, once the device has been asked to activate:
/// records the assigned device index for the driver to pick up, replacing
/// an index that was never picked up, and returns the code for the
/// device's outcome. Success gives the success code, an initialisation
/// error the code it carries, and every other error the generic
/// unknown-error code.
pub fn activate_thunk(
    state: &mut PendingActivation,
    device_index: u32,
    outcome: &DriverResult<()>,
) -> (code: InitError)
    ensures
        final(state).index == Some(device_index),
        code == init_code_of(result_view(*outcome)),
{
    state.index = Some(device_index);
    init_result_code(outcome)
}

/// Check if there's a pending activation and take it: the recorded index is
/// returned once, and nothing is pending afterwards.
pub fn take_pending_activation(state: &mut PendingActivation) -> (index: Option<u32>)
    ensures
        index == old(state).index,
        final(state).index is None,
{
    let index = state.index;
    state.index = None;
    index
}

/// The component name that `GetComponent` receives, as text: `None` for a
/// null pointer and for bytes that are not UTF-8, for which the trampoline
/// returns null without asking the device.
pub fn component_name<'a>(name: Option<&'a [u8]>) -> (text: Option<&'a str>)
    ensures
        text is Some <==> name is Some && valid_utf8(name->0@),
        text is Some ==> text->0.spec_bytes() == name->0@,
{
    match name {
        Some(bytes) => utf8_text(bytes),
        None => None,
    }
}

/// The pointer that `GetComponent` returns for the device's answer: the
/// component's pointer, or null when the device has no such component.
pub fn component_pointer(found: Option<OpaquePointer>) -> (p: OpaquePointer)
    ensures
        p == match found {
            Some(q) => q,
            None => OpaquePointer { addr: 0 },
        },
{
    match found {
        Some(q) => q,
        None => OpaquePointer::null(),
    }
}

/// The request that `DebugRequest` hands to the device, if it asks the
/// device at all. The device is not asked when the request or the buffer
/// is a null pointer, the buffer has no room, or the request is not UTF-8;
/// nothing is written then.
pub open spec fn debug_request_asked(
    request: Option<Seq<u8>>,
    has_buffer: bool,
    size: u32,
) -> Option<Seq<u8>> {
    match request {
        None => None,
        Some(r) => if !has_buffer || size == 0 || !valid_utf8(r) {
            None
        } else {
            Some(r)
        },
    }
}

/// The `DebugRequest` trampoline, before the device is asked: the request
/// as text to hand to the device, or `None` when the device is not asked.
pub fn debug_request_text<'a>(
    request: Option<&'a [u8]>,
    has_buffer: bool,
    buffer_size: u32,
) -> (text: Option<&'a str>)
    ensures
        match text {
            Some(t) => debug_request_asked(
                match request {
                    Some(r) => Some(r@),
                    None => None,
                },
                has_buffer,
                buffer_size,
            ) == Some(t.spec_bytes()),
            None => debug_request_asked(
                match request {
                    Some(r) => Some(r@),
                    None => None,
                },
                has_buffer,
                buffer_size,
            ) is None,
        },
{
    match request {
        None => None,
        Some(r) => {
            if !has_buffer || buffer_size == 0 {
                None
            } else {
                utf8_text(r)
            }
        },
    }
}

/// The bytes written to a response buffer of `size` bytes for the device's
/// reply: the reply and its terminating NUL, cut to the buffer's size, with
/// the last byte written always a NUL.
pub open spec fn debug_response_bytes(reply: Seq<u8>, size: nat) -> Seq<u8>
    recommends
        size > 0,
{
    let full = nul_terminated(reply);
    let n = if full.len() <= size {
        full.len()
    } else {
        size
    };
    full.subrange(0, n as int).update(n - 1, 0u8)
}

/// What `DebugRequest` writes to the response buffer for the device's
/// reply, if anything. Nothing is written when the buffer has no room or
/// the reply holds a NUL byte.
pub open spec fn debug_response_spec(reply: Seq<u8>, size: u32) -> Option<Seq<u8>> {
    if size == 0 || contains_nul(reply) {
        None
    } else {
        Some(debug_response_bytes(reply, size as nat))
    }
}

/// The `DebugRequest` trampoline, once the device has answered: computes
/// the bytes to write at the start of the response buffer, or `None` when
/// nothing is to be written.
pub fn debug_response(reply: &str, buffer_size: u32) -> (written: Option<Vec<u8>>)
    ensures
        match written {
            Some(bytes) => debug_response_spec(reply.spec_bytes(), buffer_size) == Some(bytes@),
            None => debug_response_spec(reply.spec_bytes(), buffer_size) is None,
        },
{
    if buffer_size == 0 {
        return None;
    }
    let full = match c_string_bytes(reply) {
        Some(full) => full,
        None => {
            return None;
        },
    };
    let size = buffer_size as usize;
    let n = if full.len() <= size {
        full.len()
    } else {
        size
    };
    let mut out: Vec<u8> = Vec::new();
    let mut k: usize = 0;
    while k < n
        invariant
            k <= n,
            n <= full.len(),
            out@ == full@.subrange(0, k as int),
        decreases n - k,
    {
        out.push(full[k]);
        k += 1;
    }
    out.set(n - 1, 0u8);
    assert(out@ =~= debug_response_bytes(reply.spec_bytes(), buffer_size as nat));
    Some(out)
}

} // verus!
