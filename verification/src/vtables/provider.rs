//! The device provider interface: its schema, its table, and what its
//! trampolines make of the answers of the implementing object.

use crate::error::{
    result_view, DriverError, DriverErrorView, DriverResult, InitError, INIT_ERROR_NONE,
    INIT_ERROR_UNKNOWN,
};
use crate::registry::RecordArena;
use crate::schema::{
    InterfaceDescriptor, InterfaceDescriptorView, InterfaceVersion, InterfaceVersionView,
    MethodSignature, MethodSignatureView, ScalarKind, SemanticType,
};
use crate::text::{c_string_bytes, contains_nul, nul_terminated};
use crate::vtables::{build_vtable, next_pointer, vtable_of, OpaquePointer, VtableWrapper};
use std::sync::Arc;
use vstd::prelude::*;
use vstd::string::*;

verus! {

/// The version of the provider interface that this layer implements.
pub const PROVIDER_VERSION: u32 = 5;

/// The methods of the provider interface, in table order.
pub open spec fn provider_methods() -> Seq<MethodSignatureView> {
    seq![
        MethodSignatureView {
            name: "Init"@,
            params: seq![SemanticType::OpaquePointer],
            ret: SemanticType::ErrorCode,
        },
        MethodSignatureView { name: "Cleanup"@, params: seq![], ret: SemanticType::Void },
        MethodSignatureView {
            name: "GetInterfaceVersions"@,
            params: seq![],
            ret: SemanticType::OpaquePointer,
        },
        MethodSignatureView { name: "RunFrame"@, params: seq![], ret: SemanticType::Void },
        MethodSignatureView {
            name: "ShouldBlockStandbyMode"@,
            params: seq![],
            ret: SemanticType::Scalar(ScalarKind::Bool),
        },
        MethodSignatureView { name: "EnterStandby"@, params: seq![], ret: SemanticType::Void },
        MethodSignatureView { name: "LeaveStandby"@, params: seq![], ret: SemanticType::Void },
    ]
}

/// The provider interface as a mathematical value.
pub open spec fn provider_descriptor_view() -> InterfaceDescriptorView {
    InterfaceDescriptorView {
        name: "IServerTrackedDeviceProvider"@,
        versions: seq![
            InterfaceVersionView { version: PROVIDER_VERSION, methods: provider_methods() },
        ],
    }
}

/// The schema of the provider interface.
pub fn provider_descriptor() -> (d: InterfaceDescriptor)
    ensures
        d@ == provider_descriptor_view(),
{
    let mut methods: Vec<MethodSignature> = Vec::new();
    let mut init_params: Vec<SemanticType> = Vec::new();
    init_params.push(SemanticType::OpaquePointer);
    methods.push(MethodSignature::new("Init", init_params, SemanticType::ErrorCode));
    methods.push(MethodSignature::new("Cleanup", Vec::new(), SemanticType::Void));
    methods.push(
        MethodSignature::new("GetInterfaceVersions", Vec::new(), SemanticType::OpaquePointer),
    );
    methods.push(MethodSignature::new("RunFrame", Vec::new(), SemanticType::Void));
    methods.push(
        MethodSignature::new(
            "ShouldBlockStandbyMode",
            Vec::new(),
            SemanticType::Scalar(ScalarKind::Bool),
        ),
    );
    methods.push(MethodSignature::new("EnterStandby", Vec::new(), SemanticType::Void));
    methods.push(MethodSignature::new("LeaveStandby", Vec::new(), SemanticType::Void));
    let mut versions: Vec<InterfaceVersion> = Vec::new();
    versions.push(InterfaceVersion { version: PROVIDER_VERSION, methods });
    let d = InterfaceDescriptor {
        name: String::from_str("IServerTrackedDeviceProvider"),
        versions,
    };
    proof {
        let got = d@.versions[0].methods;
        let want = provider_methods();
        assert(got =~= want);
        assert(d@.versions =~= provider_descriptor_view().versions);
    }
    d
}

/// Builds the provider table for `provider`, wraps both and returns the
/// pointer to hand to the host. The null pointer comes back, and nothing is
/// stored, when the arena can name no further record.
pub fn create_provider_vtable<U>(arena: &mut RecordArena<U>, provider: Arc<U>) -> (p:
    OpaquePointer)
    ensures
        p == next_pointer(old(arena)@),
        p.is_null() ==> final(arena)@ == old(arena)@,
        !p.is_null() ==> {
            &&& final(arena)@.len() == old(arena)@.len() + 1
            &&& final(arena)@.drop_last() == old(arena)@
            &&& final(arena)@.last() is Some
            &&& final(arena)@.last()->0.this == provider
            &&& Some(final(arena)@.last()->0.base@) == vtable_of(
                provider_descriptor_view(),
                PROVIDER_VERSION,
            )
        },
{
    let descriptor = provider_descriptor();
    match build_vtable(&descriptor, PROVIDER_VERSION) {
        Some(table) => {
            let (p, _) = arena.wrap(VtableWrapper::new(table, provider));
            p
        },
        None => OpaquePointer::null(),
    }
}

/// The code that the `Init` trampoline returns for the outcome of the
/// provider's initialisation: success for `Ok`, the carried code for an
/// initialisation error, and the generic unknown-error code for every other
/// error.
pub open spec fn init_code_of(result: Result<(), DriverErrorView>) -> InitError {
    match result {
        Ok(_) => InitError { code: INIT_ERROR_NONE },
        Err(DriverErrorView::InitError(code)) => code,
        Err(_) => InitError { code: INIT_ERROR_UNKNOWN },
    }
}

/// Converts the outcome of the provider's initialisation to the code that
/// the `Init` trampoline returns.
pub fn init_result_code(result: &DriverResult<()>) -> (code: InitError)
    ensures
        code == init_code_of(result_view(*result)),
{
    match result {
        Ok(_) => InitError::none(),
        Err(DriverError::InitError(code)) => *code,
        Err(_) => InitError::unknown(),
    }
}

/// The interface versions that a provider announces unless it says
/// otherwise.
pub fn default_interface_versions() -> (versions: Vec<String>)
    ensures
        versions@.len() == 2,
        versions@[0]@ == "IServerTrackedDeviceProvider_005"@,
        versions@[1]@ == "ITrackedDeviceServerDriver_005"@,
{
    let mut versions: Vec<String> = Vec::new();
    versions.push(String::from_str("IServerTrackedDeviceProvider_005"));
    versions.push(String::from_str("ITrackedDeviceServerDriver_005"));
    versions
}

/// The byte strings of the version table built from the first `n` names:
/// each name that holds no NUL byte, NUL-terminated, in the order given.
pub open spec fn version_table(names: Seq<Seq<u8>>, n: nat) -> Seq<Seq<u8>>
    decreases n,
{
    if n == 0 || n > names.len() {
        Seq::empty()
    } else {
        let before = version_table(names, (n - 1) as nat);
        let name = names[n - 1];
        if contains_nul(name) {
            before
        } else {
            before.push(nul_terminated(name))
        }
    }
}

/// The UTF-8 bytes of each of a list of strings.
pub open spec fn bytes_of(names: Seq<String>) -> Seq<Seq<u8>> {
    Seq::new(names.len(), |i: int| vstd::utf8::encode_utf8(names[i]@))
}

/// The views of a list of byte strings.
pub open spec fn byte_views(table: Seq<Vec<u8>>) -> Seq<Seq<u8>> {
    Seq::new(table.len(), |i: int| table[i]@)
}

/// Builds the table that `GetInterfaceVersions` returns: one NUL-terminated
/// byte string per announced version, in order. A name that holds a NUL byte
/// cannot be passed to the host and is left out.
pub fn interface_version_table(versions: &Vec<String>) -> (table: Vec<Vec<u8>>)
    ensures
        byte_views(table@) == version_table(bytes_of(versions@), versions@.len()),
{
    let mut table: Vec<Vec<u8>> = Vec::new();
    let mut i: usize = 0;
    while i < versions.len()
        invariant
            i <= versions.len(),
            byte_views(table@) == version_table(bytes_of(versions@), i as nat),
        decreases versions.len() - i,
    {
        let ghost before = byte_views(table@);
        match c_string_bytes(versions[i].as_str()) {
            Some(bytes) => {
                table.push(bytes);
                assert(byte_views(table@) =~= before.push(bytes@));
            },
            None => {},
        }
        i += 1;
    }
    table
}

} // verus!
