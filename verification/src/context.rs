//! The driver's view of the host: the interfaces the host offers at
//! initialisation and the registration of devices with it.
//!
//! The host is reached through pointers it hands out. This module decides
//! what the host's answers mean and what is to be sent to it; the calls
//! themselves are made by the caller.

use crate::error::{result_view, DriverError, DriverErrorView, DriverResult, InitError};
use crate::properties::Properties;
use crate::registry::RecordArena;
use crate::text::{c_string_bytes, contains_nul, nul_terminated};
use crate::vtables::device::{create_device_vtable, device_descriptor_view, DEVICE_VERSION};
use crate::vtables::{next_pointer, vtable_of, OpaquePointer};
use std::sync::Arc;
use vstd::prelude::*;
use vstd::string::*;
use vstd::utf8::encode_utf8;

verus! {

/// The name under which the host offers its device host interface.
pub fn server_driver_host_version() -> (name: &'static str)
    ensures
        name@ == "IVRServerDriverHost_006"@,
{
    "IVRServerDriverHost_006"
}

/// The name under which the host offers its property interface.
pub fn properties_version() -> (name: &'static str)
    ensures
        name@ == "IVRProperties_001"@,
{
    "IVRProperties_001"
}

/// The name under which the host offers its driver input interface.
pub fn driver_input_version() -> (name: &'static str)
    ensures
        name@ == "IVRDriverInput_003"@,
{
    "IVRDriverInput_003"
}

/// What the host answered to a request for one of its interfaces: the
/// pointer it returned and the code it wrote.
#[derive(Debug, Clone, Copy, PartialEq, Eq, Structural)]
pub struct LookupReply {
    pub pointer: usize,
    pub error: InitError,
}

/// What a lookup reply means: the host's error if it reported one,
/// interface-not-found under `label` if it returned null without an error,
/// and the pointer otherwise.
pub open spec fn lookup_result(label: Seq<char>, reply: LookupReply) -> Result<
    usize,
    DriverErrorView,
> {
    if !reply.error.is_none() {
        Err(DriverErrorView::InitError(reply.error))
    } else if reply.pointer == 0 {
        Err(DriverErrorView::InterfaceNotFound(label))
    } else {
        Ok(reply.pointer)
    }
}

/// The view of a lookup outcome.
pub open spec fn pointer_result_view(r: DriverResult<usize>) -> Result<usize, DriverErrorView> {
    match r {
        Ok(p) => Ok(p),
        Err(e) => Err(e@),
    }
}

/// Turns the host's answer to an interface request into a typed result.
/// `label` names the interface in the error for a missing interface.
pub fn generic_interface(label: &str, reply: LookupReply) -> (r: DriverResult<usize>)
    ensures
        pointer_result_view(r) == lookup_result(label@, reply),
{
    if !reply.error.is_none() {
        Err(DriverError::InitError(reply.error))
    } else if reply.pointer == 0 {
        Err(DriverError::interface_not_found(label))
    } else {
        Ok(reply.pointer)
    }
}

/// The class under which a device is registered.
#[derive(Debug, Clone, Copy, PartialEq, Eq, Structural)]
pub enum DeviceClass {
    Invalid,
    Hmd,
    Controller,
    GenericTracker,
    TrackingReference,
    DisplayRedirect,
}

/// A registration ready to be sent to the host: the host interface, the
/// NUL-terminated serial number, the device class and the pointer to the
/// device's record.
#[derive(Debug, Clone)]
pub struct DeviceRegistration {
    pub host: usize,
    pub serial: Vec<u8>,
    pub device_class: DeviceClass,
    pub device: OpaquePointer,
}

/// Whether `r` and the arena `after` are what preparing a registration
/// with the device host at `host` makes of the arena `before`.
///
/// A serial number that holds a NUL byte is refused as an invalid parameter
/// and the arena is unchanged. When the arena can name no further record the
/// registration fails and the arena is unchanged. Otherwise the arena has
/// one more record, which holds the device table and shares `device`, and
/// the registration names the host, the NUL-terminated serial number, the
/// class of head-mounted displays and that record.
pub open spec fn registration_made<U>(
    before: Seq<Option<crate::vtables::VtableWrapper<crate::vtables::VtableInstance, U>>>,
    after: Seq<Option<crate::vtables::VtableWrapper<crate::vtables::VtableInstance, U>>>,
    host: usize,
    serial: Seq<char>,
    device: Arc<U>,
    r: DriverResult<DeviceRegistration>,
) -> bool {
    if contains_nul(encode_utf8(serial)) {
        &&& after == before
        &&& r is Err
        &&& r->Err_0@ == DriverErrorView::InvalidParameter("Serial number contains null byte"@)
    } else if next_pointer(before).is_null() {
        &&& after == before
        &&& r is Err
        &&& r->Err_0@ == DriverErrorView::OperationFailed("Failed to register device"@)
    } else {
        &&& r is Ok
        &&& r->Ok_0.host == host
        &&& r->Ok_0.serial@ == nul_terminated(encode_utf8(serial))
        &&& r->Ok_0.device_class == DeviceClass::Hmd
        &&& r->Ok_0.device == next_pointer(before)
        &&& after.len() == before.len() + 1
        &&& after.drop_last() == before
        &&& after.last() is Some
        &&& after.last()->0.this == device
        &&& Some(after.last()->0.base@) == vtable_of(device_descriptor_view(), DEVICE_VERSION)
    }
}

/// Driver host interface for interacting with the host.
#[derive(Debug, Clone, Copy, PartialEq, Eq, Structural)]
pub struct DriverHost {
    host: usize,
}

impl DriverHost {
    /// Create a driver host from the pointer the host handed out.
    pub fn from_raw(host: usize) -> (h: Self)
        ensures
            h.spec_raw_host() == host,
    {
        DriverHost { host }
    }

    /// The pointer the host handed out.
    pub closed spec fn spec_raw_host(&self) -> usize {
        self.host
    }

    /// Get the raw host pointer.
    #[verifier::when_used_as_spec(spec_raw_host)]
    pub fn raw_host(&self) -> (host: usize)
        ensures
            host == self.spec_raw_host(),
    {
        self.host
    }

    /// Prepares the registration of a tracked device under `serial`.
    ///
    /// A serial number that holds a NUL byte is refused as an invalid
    /// parameter and nothing is created. Otherwise the device's table is
    /// built and wrapped with `device`; the registration names this host,
    /// the serial number, the class of head-mounted displays and the new
    /// record. When the arena can name no further record the registration
    /// fails.
    pub fn tracked_device_added<U>(
        &self,
        arena: &mut RecordArena<U>,
        serial: &str,
        device: Arc<U>,
    ) -> (r: DriverResult<DeviceRegistration>)
        ensures
            registration_made(old(arena)@, final(arena)@, self.raw_host(), serial@, device, r),
    {
        let serial_bytes = match c_string_bytes(serial) {
            Some(bytes) => bytes,
            None => {
                return Err(DriverError::invalid_parameter("Serial number contains null byte"));
            },
        };
        let pointer = create_device_vtable(arena, device);
        if pointer.is_null() {
            return Err(DriverError::operation_failed("Failed to register device"));
        }
        Ok(
            DeviceRegistration {
                host: self.host,
                serial: serial_bytes,
                device_class: DeviceClass::Hmd,
                device: pointer,
            },
        )
    }

    /// Turns the host's answer to a registration into a result: success
    /// when the host accepted the device, operation-failed when it did not.
    pub fn registration_result(added: bool) -> (r: DriverResult<()>)
        ensures
            result_view(r) == if added {
                Ok::<(), DriverErrorView>(())
            } else {
                Err(DriverErrorView::OperationFailed("Failed to register device"@))
            },
    {
        if added {
            Ok(())
        } else {
            Err(DriverError::operation_failed("Failed to register device"))
        }
    }
}

/// Driver context for accessing the host's interfaces.
#[derive(Debug, Clone, Copy)]
pub struct DriverContext {
    context: usize,
    host: Option<DriverHost>,
    properties: Option<usize>,
    driver_input: Option<usize>,
}

/// A [`DriverContext`] as a mathematical value.
pub struct DriverContextView {
    pub context: usize,
    pub host: Option<usize>,
    pub properties: Option<usize>,
    pub driver_input: Option<usize>,
}

impl View for DriverContext {
    type V = DriverContextView;

    closed spec fn view(&self) -> DriverContextView {
        DriverContextView {
            context: self.context,
            host: match self.host {
                Some(h) => Some(h.spec_raw_host()),
                None => None,
            },
            properties: self.properties,
            driver_input: self.driver_input,
        }
    }
}

/// The interface pointer that a context keeps for a lookup reply: the
/// pointer when the lookup succeeded, nothing when it failed.
pub open spec fn kept_interface(reply: LookupReply) -> Option<usize> {
    if reply.error.is_none() && reply.pointer != 0 {
        Some(reply.pointer)
    } else {
        None
    }
}

impl DriverContext {
    /// Create a driver context from the host's context pointer and the
    /// host's answers to the requests for its device host, property and
    /// driver input interfaces. An interface whose lookup failed is absent
    /// from the context.
    pub fn from_raw(
        context: usize,
        host: LookupReply,
        properties: LookupReply,
        driver_input: LookupReply,
    ) -> (c: Self)
        ensures
            c@ == (DriverContextView {
                context,
                host: kept_interface(host),
                properties: kept_interface(properties),
                driver_input: kept_interface(driver_input),
            }),
    {
        let host = match Self::get_server_driver_host(host) {
            Ok(h) => Some(h),
            Err(_) => None,
        };
        let properties = match Self::get_properties_interface(properties) {
            Ok(p) => Some(p),
            Err(_) => None,
        };
        let driver_input = match Self::get_driver_input_interface(driver_input) {
            Ok(p) => Some(p),
            Err(_) => None,
        };
        DriverContext { context, host, properties, driver_input }
    }

    /// The device host interface from the host's answer.
    pub fn get_server_driver_host(reply: LookupReply) -> (r: DriverResult<DriverHost>)
        ensures
            match r {
                Ok(h) => lookup_result("IVRServerDriverHost"@, reply) == Ok::<
                    usize,
                    DriverErrorView,
                >(h.raw_host()),
                Err(e) => lookup_result("IVRServerDriverHost"@, reply) == Err::<
                    usize,
                    DriverErrorView,
                >(e@),
            },
    {
        match generic_interface("IVRServerDriverHost", reply) {
            Ok(p) => Ok(DriverHost::from_raw(p)),
            Err(e) => Err(e),
        }
    }

    /// The property interface from the host's answer.
    pub fn get_properties_interface(reply: LookupReply) -> (r: DriverResult<usize>)
        ensures
            pointer_result_view(r) == lookup_result("IVRProperties"@, reply),
    {
        generic_interface("IVRProperties", reply)
    }

    /// The driver input interface from the host's answer.
    pub fn get_driver_input_interface(reply: LookupReply) -> (r: DriverResult<usize>)
        ensures
            pointer_result_view(r) == lookup_result("IVRDriverInput"@, reply),
    {
        generic_interface("IVRDriverInput", reply)
    }

    /// Prepares the registration of a device with the host. Without a
    /// device host interface this fails with interface-not-found and
    /// creates nothing; with one it is
    /// [`DriverHost::tracked_device_added`].
    pub fn register_device<U>(
        &mut self,
        arena: &mut RecordArena<U>,
        serial: &str,
        device: Arc<U>,
    ) -> (r: DriverResult<DeviceRegistration>)
        ensures
            final(self)@ == old(self)@,
            match old(self)@.host {
                None => final(arena)@ == old(arena)@ && r is Err && r->Err_0@
                    == DriverErrorView::InterfaceNotFound("IVRServerDriverHost"@),
                Some(host) => registration_made(
                    old(arena)@,
                    final(arena)@,
                    host,
                    serial@,
                    device,
                    r,
                ),
            },
    {
        match &self.host {
            Some(host) => host.tracked_device_added(arena, serial, device),
            None => Err(DriverError::interface_not_found("IVRServerDriverHost")),
        }
    }

    /// Get the driver host interface.
    pub fn host(&self) -> (h: Option<&DriverHost>)
        ensures
            match h {
                Some(host) => self@.host == Some(host.raw_host()),
                None => self@.host is None,
            },
    {
        self.host.as_ref()
    }

    /// Get a mutable reference to the driver host interface.
    pub fn host_mut(&mut self) -> (h: Option<&mut DriverHost>)
        ensures
            match h {
                Some(host) => old(self)@.host == Some(host.raw_host()) && final(self)@ == (
                DriverContextView {
                    context: old(self)@.context,
                    host: Some(final(host).raw_host()),
                    properties: old(self)@.properties,
                    driver_input: old(self)@.driver_input,
                }),
                None => old(self)@.host is None && final(self)@ == old(self)@,
            },
    {
        self.host.as_mut()
    }

    /// Get the raw context pointer.
    pub fn raw_context(&self) -> (p: usize)
        ensures
            p == self@.context,
    {
        self.context
    }

    /// Get the raw properties interface pointer.
    pub fn raw_properties(&self) -> (p: Option<usize>)
        ensures
            p == self@.properties,
    {
        self.properties
    }

    /// Get the raw driver input interface pointer.
    pub fn raw_driver_input(&self) -> (p: Option<usize>)
        ensures
            p == self@.driver_input,
    {
        self.driver_input
    }

    /// Access to the property interface that this context obtained.
    pub fn properties(&self) -> (p: Properties)
        ensures
            p.interface == self@.properties,
    {
        Properties { interface: self.properties }
    }
}

} // verus!
