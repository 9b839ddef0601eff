//! The bridge to a host-side shim: handle-based entry points that forward
//! to a provider or a device and report status as integers.
//!
//! A handle is `None` where the shim passed a null pointer. Status codes
//! are zero for success and minus one for failure; flags are one and zero.

use crate::context::DeviceClass;
use crate::error::InitError;
use crate::text::{c_string_bytes, contains_nul, nul_terminated, utf8_text};
use vstd::prelude::*;
use vstd::string::*;
use vstd::utf8::{decode_utf8, encode_utf8, valid_utf8};

verus! {

/// Status code for success.
pub const STATUS_OK: i32 = 0;

/// Status code for failure.
pub const STATUS_ERROR: i32 = -1;

/// The host services a provider may use while it initialises.
pub trait DriverContext {
    /// Asks the host for one of its interfaces by versioned name.
    fn get_generic_interface(&self, interface_version: &str) -> Option<usize>;

    /// The handle under which the host knows this driver.
    fn get_driver_handle(&self) -> u64;
}

/// What a driver implements to provide devices.
pub trait ServerTrackedDeviceProvider {
    /// Initialise the driver.
    fn init(&mut self, driver_context: &dyn DriverContext) -> Result<(), InitError>;

    /// Release what the driver holds.
    fn cleanup(&mut self);

    /// Called every frame.
    fn run_frame(&mut self);

    /// Whether the driver wants to keep the system out of standby.
    fn should_block_standby_mode(&self) -> bool;

    /// The system enters standby.
    fn enter_standby(&mut self);

    /// The system leaves standby.
    fn leave_standby(&mut self);
}

/// What a driver implements for each tracked device.
pub trait TrackedDeviceServerDriver {
    /// The host assigned `device_id` to this device.
    fn activate(&mut self, device_id: u32) -> Result<(), InitError>;

    /// The device is removed.
    fn deactivate(&mut self);

    /// Called every frame.
    fn run_frame(&mut self);

    /// The serial number that identifies the device.
    fn get_serial_number(&self) -> String;

    /// The system enters standby.
    fn enter_standby(&mut self);

    /// The class of the device.
    fn get_device_class(&self) -> DeviceClass;
}

/// The status code for an outcome: zero for success, minus one for failure.
pub fn status_code(ok: bool) -> (code: i32)
    ensures
        code == if ok {
            STATUS_OK
        } else {
            STATUS_ERROR
        },
{
    if ok {
        STATUS_OK
    } else {
        STATUS_ERROR
    }
}

/// The flag for a boolean: one for true, zero for false.
pub fn flag(value: bool) -> (code: i32)
    ensures
        code == if value {
            1i32
        } else {
            0i32
        },
{
    if value {
        1
    } else {
        0
    }
}

/// The host's context pointer, through which host interfaces are requested.
#[derive(Debug, Clone, Copy, PartialEq, Eq, Structural)]
pub struct BridgeDriverContext {
    pub raw_context: usize,
}

impl BridgeDriverContext {
    /// Wraps the host's context pointer.
    pub fn new(raw_context: usize) -> (c: Self)
        ensures
            c.raw_context == raw_context,
    {
        BridgeDriverContext { raw_context }
    }

    /// The NUL-terminated name to send to the host to request an interface,
    /// or `None` when no request can be made: the context pointer is null
    /// or the name holds a NUL byte.
    pub fn interface_request(&self, interface_version: &str) -> (name: Option<Vec<u8>>)
        ensures
            self.raw_context == 0 || contains_nul(encode_utf8(interface_version@)) ==> name
                is None,
            self.raw_context != 0 && !contains_nul(encode_utf8(interface_version@)) ==> name
                is Some && name->0@ == nul_terminated(encode_utf8(interface_version@)),
    {
        if self.raw_context == 0 {
            return None;
        }
        c_string_bytes(interface_version)
    }

    /// The interface that the host's answer gives: the pointer, when the
    /// host reported no error and the pointer is not null.
    pub fn interface_reply(error: i32, pointer: usize) -> (found: Option<usize>)
        ensures
            found == if error == 0 && pointer != 0 {
                Some(pointer)
            } else {
                None
            },
    {
        if error == 0 && pointer != 0 {
            Some(pointer)
        } else {
            None
        }
    }

    /// Whether the host can be asked for the driver handle; without a
    /// context pointer the handle is zero.
    pub fn can_ask_driver_handle(&self) -> (ask: bool)
        ensures
            ask == (self.raw_context != 0),
    {
        self.raw_context != 0
    }
}

/// Whether an initialisation or activation outcome counts as success.
pub fn succeeded(outcome: &Result<(), InitError>) -> (ok: bool)
    ensures
        ok == (outcome is Ok),
{
    match outcome {
        Ok(_) => true,
        Err(_) => false,
    }
}

/// A boxed provider is a provider: every method is one call of the same
/// method of the provider in the box.
impl<T: ServerTrackedDeviceProvider + ?Sized> ServerTrackedDeviceProvider for Box<T> {
    fn init(&mut self, driver_context: &dyn DriverContext) -> (outcome: Result<(), InitError>)
        ensures
            exists|r: &mut T|
                &*r == &**old(self) && &*final(r) == &**final(self) && #[trigger] call_ensures(
                    T::init,
                    (r, driver_context),
                    outcome,
                ),
    {
        let inner: &mut T = &mut **self;
        inner.init(driver_context)
    }

    fn cleanup(&mut self)
        ensures
            exists|r: &mut T|
                &*r == &**old(self) && &*final(r) == &**final(self) && #[trigger] call_ensures(
                    T::cleanup,
                    (r,),
                    (),
                ),
    {
        let inner: &mut T = &mut **self;
        inner.cleanup()
    }

    fn run_frame(&mut self)
        ensures
            exists|r: &mut T|
                &*r == &**old(self) && &*final(r) == &**final(self) && #[trigger] call_ensures(
                    T::run_frame,
                    (r,),
                    (),
                ),
    {
        let inner: &mut T = &mut **self;
        inner.run_frame()
    }

    fn should_block_standby_mode(&self) -> (block: bool)
        ensures
            call_ensures(T::should_block_standby_mode, (&**self,), block),
    {
        (**self).should_block_standby_mode()
    }

    fn enter_standby(&mut self)
        ensures
            exists|r: &mut T|
                &*r == &**old(self) && &*final(r) == &**final(self) && #[trigger] call_ensures(
                    T::enter_standby,
                    (r,),
                    (),
                ),
    {
        let inner: &mut T = &mut **self;
        inner.enter_standby()
    }

    fn leave_standby(&mut self)
        ensures
            exists|r: &mut T|
                &*r == &**old(self) && &*final(r) == &**final(self) && #[trigger] call_ensures(
                    T::leave_standby,
                    (r,),
                    (),
                ),
    {
        let inner: &mut T = &mut **self;
        inner.leave_standby()
    }
}

/// A boxed device is a device: every method is one call of the same method
/// of the device in the box.
impl<T: TrackedDeviceServerDriver + ?Sized> TrackedDeviceServerDriver for Box<T> {
    fn activate(&mut self, device_id: u32) -> (outcome: Result<(), InitError>)
        ensures
            exists|r: &mut T|
                &*r == &**old(self) && &*final(r) == &**final(self) && #[trigger] call_ensures(
                    T::activate,
                    (r, device_id),
                    outcome,
                ),
    {
        let inner: &mut T = &mut **self;
        inner.activate(device_id)
    }

    fn deactivate(&mut self)
        ensures
            exists|r: &mut T|
                &*r == &**old(self) && &*final(r) == &**final(self) && #[trigger] call_ensures(
                    T::deactivate,
                    (r,),
                    (),
                ),
    {
        let inner: &mut T = &mut **self;
        inner.deactivate()
    }

    fn run_frame(&mut self)
        ensures
            exists|r: &mut T|
                &*r == &**old(self) && &*final(r) == &**final(self) && #[trigger] call_ensures(
                    T::run_frame,
                    (r,),
                    (),
                ),
    {
        let inner: &mut T = &mut **self;
        inner.run_frame()
    }

    fn get_serial_number(&self) -> (serial: String)
        ensures
            call_ensures(T::get_serial_number, (&**self,), serial),
    {
        (**self).get_serial_number()
    }

    fn enter_standby(&mut self)
        ensures
            exists|r: &mut T|
                &*r == &**old(self) && &*final(r) == &**final(self) && #[trigger] call_ensures(
                    T::enter_standby,
                    (r,),
                    (),
                ),
    {
        let inner: &mut T = &mut **self;
        inner.enter_standby()
    }

    fn get_device_class(&self) -> (class: DeviceClass)
        ensures
            call_ensures(T::get_device_class, (&**self,), class),
    {
        (**self).get_device_class()
    }
}

/// A provider behind a handle.
pub struct BridgeProvider<P: ServerTrackedDeviceProvider> {
    pub inner: P,
}

impl<P: ServerTrackedDeviceProvider> BridgeProvider<P> {
    /// Puts a provider behind a handle.
    pub fn new(provider: P) -> (b: Self)
        ensures
            b.inner == provider,
    {
        BridgeProvider { inner: provider }
    }

    /// Initialises the provider; true when it reports success. What
    /// happens to the provider, and the outcome, are those of one call of
    /// the provider's own `init` with the same context.
    pub fn init(&mut self, driver_context: &dyn DriverContext) -> (ok: bool)
        ensures
            exists|r: &mut P, outcome: Result<(), InitError>|
                *r == old(self).inner && *final(r) == final(self).inner && #[trigger] call_ensures(
                    P::init,
                    (r, driver_context),
                    outcome,
                ) && ok == (outcome is Ok),
    {
        let outcome = self.inner.init(driver_context);
        succeeded(&outcome)
    }

    /// Lets the provider release what it holds.
    /// What happens to the provider is what one call of the provider's own
    /// `cleanup` does.
    pub fn cleanup(&mut self)
        ensures
            exists|r: &mut P|
                *r == old(self).inner && *final(r) == final(self).inner && #[trigger] call_ensures(
                    P::cleanup,
                    (r,),
                    (),
                ),
    {
        self.inner.cleanup();
    }

    /// Lets the provider run a frame. What happens to the provider is
    /// what one call of the provider's own `run_frame` does.
    pub fn run_frame(&mut self)
        ensures
            exists|r: &mut P|
                *r == old(self).inner && *final(r) == final(self).inner && #[trigger] call_ensures(
                    P::run_frame,
                    (r,),
                    (),
                ),
    {
        self.inner.run_frame();
    }

    /// Whether the provider wants to keep the system out of standby: the
    /// answer of the provider's own `should_block_standby_mode`.
    pub fn should_block_standby_mode(&self) -> (block: bool)
        ensures
            call_ensures(P::should_block_standby_mode, (&self.inner,), block),
    {
        self.inner.should_block_standby_mode()
    }

    /// Tells the provider that the system enters standby.
    /// What happens to the provider is what one call of the provider's own
    /// `enter_standby` does.
    pub fn enter_standby(&mut self)
        ensures
            exists|r: &mut P|
                *r == old(self).inner && *final(r) == final(self).inner && #[trigger] call_ensures(
                    P::enter_standby,
                    (r,),
                    (),
                ),
    {
        self.inner.enter_standby();
    }

    /// Tells the provider that the system leaves standby.
    /// What happens to the provider is what one call of the provider's own
    /// `leave_standby` does.
    pub fn leave_standby(&mut self)
        ensures
            exists|r: &mut P|
                *r == old(self).inner && *final(r) == final(self).inner && #[trigger] call_ensures(
                    P::leave_standby,
                    (r,),
                    (),
                ),
    {
        self.inner.leave_standby();
    }
}

/// A device behind a handle.
pub struct BridgeDevice<D: TrackedDeviceServerDriver> {
    pub inner: D,
}

impl<D: TrackedDeviceServerDriver> BridgeDevice<D> {
    /// Puts a device behind a handle.
    pub fn new(device: D) -> (b: Self)
        ensures
            b.inner == device,
    {
        BridgeDevice { inner: device }
    }

    /// Activates the device; true when it reports success. What happens
    /// to the device, and the outcome, are those of one call of the
    /// device's own `activate` with the same index.
    pub fn activate(&mut self, device_id: u32) -> (ok: bool)
        ensures
            exists|r: &mut D, outcome: Result<(), InitError>|
                *r == old(self).inner && *final(r) == final(self).inner && #[trigger] call_ensures(
                    D::activate,
                    (r, device_id),
                    outcome,
                ) && ok == (outcome is Ok),
    {
        let outcome = self.inner.activate(device_id);
        succeeded(&outcome)
    }

    /// Deactivates the device. What happens to the device is
    /// what one call of the device's own `deactivate` does.
    pub fn deactivate(&mut self)
        ensures
            exists|r: &mut D|
                *r == old(self).inner && *final(r) == final(self).inner && #[trigger] call_ensures(
                    D::deactivate,
                    (r,),
                    (),
                ),
    {
        self.inner.deactivate();
    }

    /// Lets the device run a frame. What happens to the device is
    /// what one call of the device's own `run_frame` does.
    pub fn run_frame(&mut self)
        ensures
            exists|r: &mut D|
                *r == old(self).inner && *final(r) == final(self).inner && #[trigger] call_ensures(
                    D::run_frame,
                    (r,),
                    (),
                ),
    {
        self.inner.run_frame();
    }

    /// Tells the device that the system enters standby.
    /// What happens to the device is what one call of the device's own
    /// `enter_standby` does.
    pub fn enter_standby(&mut self)
        ensures
            exists|r: &mut D|
                *r == old(self).inner && *final(r) == final(self).inner && #[trigger] call_ensures(
                    D::enter_standby,
                    (r,),
                    (),
                ),
    {
        self.inner.enter_standby();
    }

    /// The serial number of the device: the answer of the device's own
    /// `get_serial_number`.
    pub fn get_serial_number(&self) -> (serial: String)
        ensures
            call_ensures(D::get_serial_number, (&self.inner,), serial),
    {
        self.inner.get_serial_number()
    }

    /// The class of the device: the answer of the device's own
    /// `get_device_class`.
    pub fn get_device_class(&self) -> (class: DeviceClass)
        ensures
            call_ensures(D::get_device_class, (&self.inner,), class),
    {
        self.inner.get_device_class()
    }
}

/// A provider that does nothing but remember whether it is initialised.
#[derive(Debug, Clone, Copy, PartialEq, Eq, Structural)]
pub struct SimpleTestProvider {
    pub initialized: bool,
}

impl SimpleTestProvider {
    /// A provider that is not initialised.
    pub fn new() -> (p: Self)
        ensures
            !p.initialized,
    {
        SimpleTestProvider { initialized: false }
    }
}

impl ServerTrackedDeviceProvider for SimpleTestProvider {
    fn init(&mut self, driver_context: &dyn DriverContext) -> (r: Result<(), InitError>)
        ensures
            r is Ok,
            final(self).initialized,
    {
        self.initialized = true;
        Ok(())
    }

    fn cleanup(&mut self)
        ensures
            !final(self).initialized,
    {
        self.initialized = false;
    }

    fn run_frame(&mut self)
        ensures
            *final(self) == *old(self),
    {
    }

    fn should_block_standby_mode(&self) -> (block: bool)
        ensures
            !block,
    {
        false
    }

    fn enter_standby(&mut self)
        ensures
            *final(self) == *old(self),
    {
    }

    fn leave_standby(&mut self)
        ensures
            *final(self) == *old(self),
    {
    }
}

/// A head-mounted display that does nothing but remember its serial number
/// and the index it was activated with.
#[derive(Debug, Clone)]
pub struct SimpleTestDevice {
    pub serial: String,
    pub device_id: Option<u32>,
}

impl SimpleTestDevice {
    /// A device with this serial number that is not activated.
    pub fn new(serial: String) -> (d: Self)
        ensures
            d.serial == serial,
            d.device_id is None,
    {
        SimpleTestDevice { serial, device_id: None }
    }
}

impl TrackedDeviceServerDriver for SimpleTestDevice {
    fn activate(&mut self, device_id: u32) -> (r: Result<(), InitError>)
        ensures
            r is Ok,
            final(self).device_id == Some(device_id),
            final(self).serial == old(self).serial,
    {
        self.device_id = Some(device_id);
        Ok(())
    }

    fn deactivate(&mut self)
        ensures
            final(self).device_id is None,
            final(self).serial == old(self).serial,
    {
        self.device_id = None;
    }

    fn run_frame(&mut self)
        ensures
            *final(self) == *old(self),
    {
    }

    fn get_serial_number(&self) -> (serial: String)
        ensures
            serial@ == self.serial@,
    {
        self.serial.clone()
    }

    fn enter_standby(&mut self)
        ensures
            *final(self) == *old(self),
    {
    }

    fn get_device_class(&self) -> (class: DeviceClass)
        ensures
            class == DeviceClass::Hmd,
    {
        DeviceClass::Hmd
    }
}

/// Puts the provider that a registered factory made behind a handle. When
/// no factory is registered, [`rust_provider_create_default`] makes the
/// provider instead.
pub fn rust_provider_create<P: ServerTrackedDeviceProvider>(provider: P) -> (b: BridgeProvider<P>)
    ensures
        b.inner == provider,
{
    BridgeProvider::new(provider)
}

/// Creates the provider used when no factory is registered.
pub fn rust_provider_create_default() -> (b: BridgeProvider<SimpleTestProvider>)
    ensures
        !b.inner.initialized,
{
    BridgeProvider::new(SimpleTestProvider::new())
}

/// Initialises the provider behind `handle`. Returns zero when the provider
/// reports success, and minus one when it reports an error or the handle is
/// null.
pub fn rust_provider_init<P: ServerTrackedDeviceProvider>(
    handle: Option<&mut BridgeProvider<P>>,
    driver_context: &dyn DriverContext,
) -> (code: i32)
    ensures
        code == STATUS_OK || code == STATUS_ERROR,
        handle is None ==> code == STATUS_ERROR,
{
    match handle {
        None => STATUS_ERROR,
        Some(provider) => {
            let ok = provider.init(driver_context);
            status_code(ok)
        },
    }
}

/// Lets the provider behind `handle` release what it holds; nothing happens
/// for a null handle.
pub fn rust_provider_cleanup<P: ServerTrackedDeviceProvider>(
    handle: Option<&mut BridgeProvider<P>>,
) {
    match handle {
        None => {},
        Some(provider) => {
            provider.cleanup();
        },
    }
}

/// Lets the provider behind `handle` run a frame; nothing happens for a
/// null handle.
pub fn rust_provider_run_frame<P: ServerTrackedDeviceProvider>(
    handle: Option<&mut BridgeProvider<P>>,
) {
    match handle {
        None => {},
        Some(provider) => {
            provider.run_frame();
        },
    }
}

/// Whether the provider behind `handle` wants to keep the system out of
/// standby, as a flag: one when the provider's own
/// `should_block_standby_mode` answers true, zero when it answers false. A
/// null handle gives zero.
pub fn rust_provider_should_block_standby<P: ServerTrackedDeviceProvider>(
    handle: Option<&BridgeProvider<P>>,
) -> (code: i32)
    ensures
        code == 0 || code == 1,
        handle is None ==> code == 0,
        handle is Some ==> call_ensures(
            P::should_block_standby_mode,
            (&handle->0.inner,),
            code == 1,
        ),
{
    match handle {
        None => 0,
        Some(provider) => flag(provider.should_block_standby_mode()),
    }
}

/// Tells the provider behind `handle` that the system enters standby;
/// nothing happens for a null handle.
pub fn rust_provider_enter_standby<P: ServerTrackedDeviceProvider>(
    handle: Option<&mut BridgeProvider<P>>,
) {
    match handle {
        None => {},
        Some(provider) => {
            provider.enter_standby();
        },
    }
}

/// Tells the provider behind `handle` that the system leaves standby;
/// nothing happens for a null handle.
pub fn rust_provider_leave_standby<P: ServerTrackedDeviceProvider>(
    handle: Option<&mut BridgeProvider<P>>,
) {
    match handle {
        None => {},
        Some(provider) => {
            provider.leave_standby();
        },
    }
}

/// The serial number of a device created from the shim's serial string:
/// the text itself, `UNKNOWN_HMD` for a null pointer, and `INVALID_HMD` for
/// bytes that are not UTF-8.
pub open spec fn hmd_serial(serial_number: Option<Seq<u8>>) -> Seq<char> {
    match serial_number {
        None => "UNKNOWN_HMD"@,
        Some(bytes) => if valid_utf8(bytes) {
            decode_utf8(bytes)
        } else {
            "INVALID_HMD"@
        },
    }
}

/// The head-mounted display that is created for the shim's serial string.
/// See [`hmd_serial`] for its serial number; it is not activated.
pub fn hmd_device(serial_number: Option<&[u8]>) -> (device: SimpleTestDevice)
    ensures
        device.serial@ == hmd_serial(
            match serial_number {
                Some(bytes) => Some(bytes@),
                None => None,
            },
        ),
        device.device_id is None,
{
    broadcast use vstd::utf8::encode_utf8_decode_utf8;

    let serial = match serial_number {
        None => String::from_str("UNKNOWN_HMD"),
        Some(bytes) => match utf8_text(bytes) {
            Some(text) => {
                assert(text@ == decode_utf8(bytes@));
                String::from_str(text)
            },
            None => String::from_str("INVALID_HMD"),
        },
    };
    SimpleTestDevice::new(serial)
}

/// Creates a head-mounted display behind a handle: the device that
/// [`hmd_device`] makes for the serial string.
pub fn rust_device_create_hmd(serial_number: Option<&[u8]>) -> (b: BridgeDevice<SimpleTestDevice>)
    ensures
        b.inner.serial@ == hmd_serial(
            match serial_number {
                Some(bytes) => Some(bytes@),
                None => None,
            },
        ),
        b.inner.device_id is None,
{
    BridgeDevice::new(hmd_device(serial_number))
}

/// Activates the device behind `handle` with `device_id`. Returns zero when
/// the device reports success, and minus one when it reports an error or
/// the handle is null.
pub fn rust_device_activate<D: TrackedDeviceServerDriver>(
    handle: Option<&mut BridgeDevice<D>>,
    device_id: u32,
) -> (code: i32)
    ensures
        code == STATUS_OK || code == STATUS_ERROR,
        handle is None ==> code == STATUS_ERROR,
{
    match handle {
        None => STATUS_ERROR,
        Some(device) => {
            let ok = device.activate(device_id);
            status_code(ok)
        },
    }
}

/// Deactivates the device behind `handle`; nothing happens for a null
/// handle.
pub fn rust_device_deactivate<D: TrackedDeviceServerDriver>(
    handle: Option<&mut BridgeDevice<D>>,
) {
    match handle {
        None => {},
        Some(device) => {
            device.deactivate();
        },
    }
}

/// Lets the device behind `handle` run a frame; nothing happens for a null
/// handle.
pub fn rust_device_run_frame<D: TrackedDeviceServerDriver>(
    handle: Option<&mut BridgeDevice<D>>,
) {
    match handle {
        None => {},
        Some(device) => {
            device.run_frame();
        },
    }
}

/// Tells the device behind `handle` that the system enters standby;
/// nothing happens for a null handle.
pub fn rust_device_enter_standby<D: TrackedDeviceServerDriver>(
    handle: Option<&mut BridgeDevice<D>>,
) {
    match handle {
        None => {},
        Some(device) => {
            device.enter_standby();
        },
    }
}

/// A device registration as the shim sends it to the host.
#[derive(Debug, Clone)]
pub struct BridgeRegistration {
    pub host: usize,
    pub serial: Vec<u8>,
    pub device_class: i32,
    pub device: usize,
}

/// Whether a registration can be sent: the host pointer, the serial string
/// and the device pointer are all present, and the serial string holds no
/// NUL byte.
pub open spec fn registration_sendable(
    host: usize,
    serial_number: Option<Seq<u8>>,
    device_driver: usize,
) -> bool {
    host != 0 && device_driver != 0 && serial_number is Some && !contains_nul(serial_number->0)
}

/// Prepares the registration of a device with the host, or `None` when it
/// cannot be sent (see [`registration_sendable`]); the registration then
/// counts as refused and the host is not called.
pub fn server_driver_host_tracked_device_added(
    host: usize,
    serial_number: Option<&[u8]>,
    device_class: i32,
    device_driver: usize,
) -> (request: Option<BridgeRegistration>)
    ensures
        request is Some <==> registration_sendable(
            host,
            match serial_number {
                Some(bytes) => Some(bytes@),
                None => None,
            },
            device_driver,
        ),
        request is Some ==> {
            &&& request->0.host == host
            &&& request->0.serial@ == nul_terminated(serial_number->0@)
            &&& request->0.device_class == device_class
            &&& request->0.device == device_driver
        },
{
    let bytes = match serial_number {
        Some(bytes) => bytes,
        None => {
            return None;
        },
    };
    if host == 0 || device_driver == 0 || crate::text::has_interior_nul(bytes) {
        return None;
    }
    let mut serial: Vec<u8> = Vec::new();
    let mut i: usize = 0;
    while i < bytes.len()
        invariant
            i <= bytes.len(),
            serial@ == bytes@.subrange(0, i as int),
        decreases bytes.len() - i,
    {
        serial.push(bytes[i]);
        assert(serial@ =~= bytes@.subrange(0, i + 1));
        i += 1;
    }
    assert(bytes@.subrange(0, bytes.len() as int) =~= bytes@);
    serial.push(0u8);
    Some(BridgeRegistration { host, serial, device_class, device: device_driver })
}

/// Whether a device counts as registered: the registration was sent and
/// the host accepted it.
pub fn tracked_device_added_result(request: &Option<BridgeRegistration>, accepted: bool) -> (added:
    bool)
    ensures
        added == (request is Some && accepted),
{
    request.is_some() && accepted
}

} // verus!
