//! Plain data that drivers and the layer exchange: device descriptions,
//! controller layouts and the eye selector.

use vstd::prelude::*;
use vstd::string::*;

verus! {

/// Device activation state.
#[derive(Debug, Clone, Copy, PartialEq, Eq, Structural)]
pub enum ActivationState {
    /// Device is not activated.
    Inactive,
    /// Device is activating.
    Activating,
    /// Device is active.
    Active,
    /// Device is deactivating.
    Deactivating,
}

/// Common device properties that most drivers will need.
#[derive(Debug, Clone)]
pub struct DeviceProperties {
    pub model_number: String,
    pub serial_number: String,
    pub render_model_name: String,
    pub manufacturer_name: String,
    pub tracking_system_name: String,
    pub hardware_revision: String,
    pub firmware_version: String,
    pub tracking_firmware_version: String,
}

impl Default for DeviceProperties {
    /// The description of a generic device.
    fn default() -> (p: Self)
        ensures
            p.model_number@ == "Generic Model"@,
            p.serial_number@ == "GENERIC_001"@,
            p.render_model_name@ == "generic_hmd"@,
            p.manufacturer_name@ == "Generic Manufacturer"@,
            p.tracking_system_name@ == "lighthouse"@,
            p.hardware_revision@ == "1.0"@,
            p.firmware_version@ == "1.0.0"@,
            p.tracking_firmware_version@ == "1.0.0"@,
    {
        DeviceProperties {
            model_number: String::from_str("Generic Model"),
            serial_number: String::from_str("GENERIC_001"),
            render_model_name: String::from_str("generic_hmd"),
            manufacturer_name: String::from_str("Generic Manufacturer"),
            tracking_system_name: String::from_str("lighthouse"),
            hardware_revision: String::from_str("1.0"),
            firmware_version: String::from_str("1.0.0"),
            tracking_firmware_version: String::from_str("1.0.0"),
        }
    }
}

/// Controller role (left/right hand, etc.).
#[derive(Debug, Clone, Copy, PartialEq, Eq, Structural)]
pub enum ControllerRole {
    LeftHand,
    RightHand,
    Tracker,
    Other,
}

/// Controller configuration.
#[derive(Debug, Clone)]
pub struct ControllerConfiguration {
    pub role: ControllerRole,
    pub has_haptics: bool,
    pub has_trackpad: bool,
    pub has_joystick: bool,
    pub has_trigger: bool,
    pub has_grip: bool,
    pub button_count: u32,
}

/// Bounds for virtual display presentation.
#[derive(Debug, Clone, Copy)]
pub struct VirtualDisplayBounds {
    pub x: i32,
    pub y: i32,
    pub width: u32,
    pub height: u32,
}

/// Eye identifier for stereo rendering.
#[derive(Debug, Clone, Copy, PartialEq, Eq, Structural)]
pub enum Eye {
    Left,
    Right,
}

/// The eye that a raw eye value selects: one selects the right eye, every
/// other value the left.
pub open spec fn eye_of(value: i32) -> Eye {
    if value == 1 {
        Eye::Right
    } else {
        Eye::Left
    }
}

impl From<i32> for Eye {
    fn from(value: i32) -> (eye: Eye) {
        if value == 1 {
            Eye::Right
        } else {
            Eye::Left
        }
    }
}

impl vstd::std_specs::convert::FromSpecImpl<i32> for Eye {
    open spec fn obeys_from_spec() -> bool {
        true
    }

    open spec fn from_spec(value: i32) -> Eye {
        eye_of(value)
    }
}

impl Eye {
    /// The raw value that selects this eye.
    pub fn raw(&self) -> (value: i32)
        ensures
            eye_of(value) == *self,
            value == 0 || value == 1,
    {
        match self {
            Eye::Left => 0,
            Eye::Right => 1,
        }
    }
}

} // verus!
