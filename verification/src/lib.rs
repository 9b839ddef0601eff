//! The decision core of an OpenVR driver plugin layer.
//!
//! A driver is loaded by the host as a plugin and called through tables of
//! function pointers. This crate holds the decisions made at that boundary:
//! which interface versions exist and in what order their methods lie
//! ([`schema`]), what the trampolines look like and which calls they refuse
//! ([`trampoline`]), how tables and their records are built and kept alive
//! ([`vtables`]), how a version is resolved and its record created once
//! ([`registry`], [`entry`]), and what is sent to the host and what its
//! answers mean ([`context`], [`properties`]).

pub mod bridge;
pub mod context;
pub mod derive;
pub mod entry;
pub mod error;
pub mod interfaces;
pub mod naming;
pub mod properties;
pub mod registry;
pub mod schema;
pub mod settings;
pub mod text;
pub mod trampoline;
pub mod vtables;

pub use context::{DriverContext, DriverHost};
pub use entry::create_entry_point;
pub use error::{DriverError, DriverResult, InitError};
pub use interfaces::{
    ActivationState, ControllerConfiguration, ControllerRole, DeviceProperties, Eye,
    VirtualDisplayBounds,
};
pub use properties::{
    Properties, Property, PropertyContainer, PropertyError, PropertyId, PropertyValue,
    PropertyWrite,
};
pub use vtables::device::PendingActivation;
pub use vtables::{OpaquePointer, VtableWrapper, WrapperArena};

use vstd::prelude::*;

verus! {

/// Check if there's a pending device activation from the host and take it.
///
/// The host's `Activate` call records the device index it assigned; the
/// driver picks it up here, once.
pub fn take_pending_device_activation(state: &mut PendingActivation) -> (index: Option<u32>)
    ensures
        index == old(state).index,
        final(state).index is None,
{
    vtables::device::take_pending_activation(state)
}

} // verus!
