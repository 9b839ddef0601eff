//! Error types of the driver layer.
//!
//! [`InitError`] is the host's native initialisation code, [`DriverError`] the
//! typed error that driver code works with, and [`DriverResult`] the result
//! alias used throughout the crate.

use crate::text::{decimal_digits, decimal_text, signed_decimal_digits, signed_decimal_text};
use vstd::prelude::*;
use vstd::string::*;

verus! {

/// Code for "no error".
pub const INIT_ERROR_NONE: i32 = 0;

/// Code for an error the host has no better name for.
pub const INIT_ERROR_UNKNOWN: i32 = 1;

/// Code for an interface name that is not valid text.
pub const INIT_ERROR_INVALID_INTERFACE: i32 = 106;

/// Code for an interface name that this driver does not answer to.
pub const INIT_ERROR_INTERFACE_NOT_FOUND: i32 = 108;

/// An initialisation code as the host exchanges it: zero is success, every
/// other value an error.
#[derive(Debug, Clone, Copy, PartialEq, Eq, Structural)]
pub struct InitError {
    pub code: i32,
}

impl InitError {
    /// The success code.
    pub fn none() -> (e: InitError)
        ensures
            e.code == INIT_ERROR_NONE,
    {
        InitError { code: INIT_ERROR_NONE }
    }

    /// The generic "unknown error" code.
    pub fn unknown() -> (e: InitError)
        ensures
            e.code == INIT_ERROR_UNKNOWN,
    {
        InitError { code: INIT_ERROR_UNKNOWN }
    }

    /// The code for an interface name that is not valid text.
    pub fn invalid_interface() -> (e: InitError)
        ensures
            e.code == INIT_ERROR_INVALID_INTERFACE,
    {
        InitError { code: INIT_ERROR_INVALID_INTERFACE }
    }

    /// The code for an interface this driver does not provide.
    pub fn interface_not_found() -> (e: InitError)
        ensures
            e.code == INIT_ERROR_INTERFACE_NOT_FOUND,
    {
        InitError { code: INIT_ERROR_INTERFACE_NOT_FOUND }
    }

    /// Whether this code reports success.
    pub open spec fn spec_is_none(&self) -> bool {
        self.code == INIT_ERROR_NONE
    }

    /// Whether this code reports success.
    #[verifier::when_used_as_spec(spec_is_none)]
    pub fn is_none(&self) -> (b: bool)
        ensures
            b == self.spec_is_none(),
    {
        self.code == INIT_ERROR_NONE
    }
}

/// Error type for driver operations.
#[derive(Debug, Clone)]
pub enum DriverError {
    /// The host reported an initialisation error.
    InitError(InitError),
    /// A host or driver interface was not found.
    InterfaceNotFound(String),
    /// A device component was not found.
    ComponentNotFound(String),
    /// No device has this index.
    DeviceNotFound(u32),
    /// An argument could not be used.
    InvalidParameter(String),
    /// The host refused or failed an operation.
    OperationFailed(String),
    /// The hardware failed.
    HardwareError(String),
    /// The feature is not implemented.
    NotImplemented(String),
    /// The operation timed out.
    Timeout,
    /// Any other error, with its message.
    Other(String),
}

/// Result type for driver operations.
pub type DriverResult<T> = Result<T, DriverError>;

/// What a [`DriverError`] holds, with its texts as character sequences.
pub enum DriverErrorView {
    InitError(InitError),
    InterfaceNotFound(Seq<char>),
    ComponentNotFound(Seq<char>),
    DeviceNotFound(u32),
    InvalidParameter(Seq<char>),
    OperationFailed(Seq<char>),
    HardwareError(Seq<char>),
    NotImplemented(Seq<char>),
    Timeout,
    Other(Seq<char>),
}

impl View for DriverError {
    type V = DriverErrorView;

    open spec fn view(&self) -> DriverErrorView {
        match self {
            DriverError::InitError(e) => DriverErrorView::InitError(*e),
            DriverError::InterfaceNotFound(s) => DriverErrorView::InterfaceNotFound(s@),
            DriverError::ComponentNotFound(s) => DriverErrorView::ComponentNotFound(s@),
            DriverError::DeviceNotFound(i) => DriverErrorView::DeviceNotFound(*i),
            DriverError::InvalidParameter(s) => DriverErrorView::InvalidParameter(s@),
            DriverError::OperationFailed(s) => DriverErrorView::OperationFailed(s@),
            DriverError::HardwareError(s) => DriverErrorView::HardwareError(s@),
            DriverError::NotImplemented(s) => DriverErrorView::NotImplemented(s@),
            DriverError::Timeout => DriverErrorView::Timeout,
            DriverError::Other(s) => DriverErrorView::Other(s@),
        }
    }
}

/// The message that describes an error to a person.
pub open spec fn error_message(e: DriverErrorView) -> Seq<char> {
    match e {
        DriverErrorView::InitError(code) => "OpenVR initialization error: "@
            + signed_decimal_digits(code.code as int),
        DriverErrorView::InterfaceNotFound(name) => "Interface not found: "@ + name,
        DriverErrorView::ComponentNotFound(name) => "Component not found: "@ + name,
        DriverErrorView::DeviceNotFound(index) => "Device not found: "@ + decimal_digits(
            index as nat,
        ),
        DriverErrorView::InvalidParameter(msg) => "Invalid parameter: "@ + msg,
        DriverErrorView::OperationFailed(msg) => "Operation failed: "@ + msg,
        DriverErrorView::HardwareError(msg) => "Hardware error: "@ + msg,
        DriverErrorView::NotImplemented(feature) => "Not implemented: "@ + feature,
        DriverErrorView::Timeout => "Operation timed out"@,
        DriverErrorView::Other(msg) => msg,
    }
}

fn prefixed(prefix: &str, rest: &str) -> (s: String)
    ensures
        s@ == prefix@ + rest@,
{
    let mut s = String::from_str(prefix);
    s.append(rest);
    s
}

impl DriverError {
    /// Create a new init error.
    pub fn init(error: InitError) -> (e: DriverError)
        ensures
            e@ == DriverErrorView::InitError(error),
    {
        DriverError::InitError(error)
    }

    /// Create a new interface not found error.
    pub fn interface_not_found(name: &str) -> (e: DriverError)
        ensures
            e@ == DriverErrorView::InterfaceNotFound(name@),
    {
        DriverError::InterfaceNotFound(String::from_str(name))
    }

    /// Create a new component not found error.
    pub fn component_not_found(name: &str) -> (e: DriverError)
        ensures
            e@ == DriverErrorView::ComponentNotFound(name@),
    {
        DriverError::ComponentNotFound(String::from_str(name))
    }

    /// Create a new device not found error.
    pub fn device_not_found(index: u32) -> (e: DriverError)
        ensures
            e@ == DriverErrorView::DeviceNotFound(index),
    {
        DriverError::DeviceNotFound(index)
    }

    /// Create a new invalid parameter error.
    pub fn invalid_parameter(msg: &str) -> (e: DriverError)
        ensures
            e@ == DriverErrorView::InvalidParameter(msg@),
    {
        DriverError::InvalidParameter(String::from_str(msg))
    }

    /// Create a new operation failed error.
    pub fn operation_failed(msg: &str) -> (e: DriverError)
        ensures
            e@ == DriverErrorView::OperationFailed(msg@),
    {
        DriverError::OperationFailed(String::from_str(msg))
    }

    /// Create a new hardware error.
    pub fn hardware_error(msg: &str) -> (e: DriverError)
        ensures
            e@ == DriverErrorView::HardwareError(msg@),
    {
        DriverError::HardwareError(String::from_str(msg))
    }

    /// Create a new not implemented error.
    pub fn not_implemented(feature: &str) -> (e: DriverError)
        ensures
            e@ == DriverErrorView::NotImplemented(feature@),
    {
        DriverError::NotImplemented(String::from_str(feature))
    }

    /// Create a new timeout error.
    pub fn timeout() -> (e: DriverError)
        ensures
            e@ == DriverErrorView::Timeout,
    {
        DriverError::Timeout
    }

    /// Create a new generic error.
    pub fn other(msg: &str) -> (e: DriverError)
        ensures
            e@ == DriverErrorView::Other(msg@),
    {
        DriverError::Other(String::from_str(msg))
    }

    /// The message that describes this error to a person.
    pub fn to_string(&self) -> (s: String)
        ensures
            s@ == error_message(self@),
    {
        match self {
            DriverError::InitError(e) => {
                let digits = signed_decimal_text(e.code as i64);
                prefixed("OpenVR initialization error: ", digits.as_str())
            },
            DriverError::InterfaceNotFound(name) => prefixed(
                "Interface not found: ",
                name.as_str(),
            ),
            DriverError::ComponentNotFound(name) => prefixed(
                "Component not found: ",
                name.as_str(),
            ),
            DriverError::DeviceNotFound(index) => {
                let digits = decimal_text(*index as u64);
                prefixed("Device not found: ", digits.as_str())
            },
            DriverError::InvalidParameter(msg) => prefixed("Invalid parameter: ", msg.as_str()),
            DriverError::OperationFailed(msg) => prefixed("Operation failed: ", msg.as_str()),
            DriverError::HardwareError(msg) => prefixed("Hardware error: ", msg.as_str()),
            DriverError::NotImplemented(feature) => prefixed(
                "Not implemented: ",
                feature.as_str(),
            ),
            DriverError::Timeout => String::from_str("Operation timed out"),
            DriverError::Other(msg) => msg.clone(),
        }
    }
}

/// The view of a result that carries no value.
pub open spec fn result_view(result: DriverResult<()>) -> Result<(), DriverErrorView> {
    match result {
        Ok(_) => Ok(()),
        Err(e) => Err(e@),
    }
}

/// Convert a host initialisation code to a result: success for the zero code,
/// an [`DriverError::InitError`] that carries the code otherwise.
pub fn check_init_error(error: InitError) -> (r: DriverResult<()>)
    ensures
        result_view(r) == if error.is_none() {
            Ok::<(), DriverErrorView>(())
        } else {
            Err(DriverErrorView::InitError(error))
        },
{
    if error.is_none() {
        Ok(())
    } else {
        Err(DriverError::InitError(error))
    }
}

/// Conversion of host error codes to [`DriverError`].
pub trait IntoDriverError: Sized {
    /// The driver error this value stands for.
    spec fn driver_error_view(self) -> DriverErrorView;

    /// Convert to a [`DriverError`].
    fn into_driver_error(self) -> (e: DriverError)
        ensures
            e@ == self.driver_error_view(),
    ;
}

impl IntoDriverError for InitError {
    open spec fn driver_error_view(self) -> DriverErrorView {
        DriverErrorView::InitError(self)
    }

    fn into_driver_error(self) -> (e: DriverError) {
        DriverError::InitError(self)
    }
}

impl From<InitError> for DriverError {
    fn from(error: InitError) -> (e: DriverError) {
        DriverError::InitError(error)
    }
}

impl vstd::std_specs::convert::FromSpecImpl<InitError> for DriverError {
    open spec fn obeys_from_spec() -> bool {
        true
    }

    open spec fn from_spec(error: InitError) -> DriverError {
        DriverError::InitError(error)
    }
}

} // verus!
