//! Device properties: the values a driver sets, and how a batch of them is
//! laid out for the host's property interface.
//!
//! Nothing here talks to the host. A batch is planned, the caller submits
//! it, and the host's answer is turned into a result. Single-precision
//! numbers are carried as their bit patterns.

use crate::error::{result_view, DriverError, DriverErrorView, DriverResult};
use crate::text::{
    c_string_bytes, contains_nul, nul_terminated, signed_decimal_digits, signed_decimal_text,
};
use vstd::prelude::*;
use vstd::string::*;
use vstd::utf8::encode_utf8;

verus! {

/// Property container handle (usually obtained from a device index).
pub type PropertyContainer = u64;

/// Property identifier: the properties this layer names, and any other by
/// its raw number.
#[derive(Debug, Clone, Copy, PartialEq, Eq, Structural)]
pub enum PropertyId {
    TrackingSystemNameString,
    ModelNumberString,
    SerialNumberString,
    ManufacturerNameString,
    SecondsFromVsyncToPhotonsFloat,
    DisplayFrequencyFloat,
    UserIpdMetersFloat,
    CurrentUniverseIdUint64,
    IsOnDesktopBool,
    UserHeadToEyeDepthMetersFloat,
    DisplayDebugModeBool,
    Raw(i32),
}

/// Property error code: success, unknown property, or any other code by its
/// raw number.
#[derive(Debug, Clone, Copy, PartialEq, Eq, Structural)]
pub enum PropertyError {
    Success,
    UnknownProperty,
    Code(i32),
}

/// A property value that can be written to the host.
#[derive(Debug, Clone)]
pub enum PropertyValue {
    /// Boolean property.
    Bool(bool),
    /// 32-bit integer property.
    Int32(i32),
    /// 64-bit unsigned integer property.
    Uint64(u64),
    /// Single-precision property, as its bit pattern.
    Float(u32),
    /// String property.
    String(String),
    /// 3x4 matrix property, row by row, as bit patterns.
    Matrix34([u32; 12]),
    /// Vector property, as bit patterns.
    Vector3([u32; 3]),
    /// Quaternion property (w, x, y, z), as double-precision bit patterns.
    Quaternion([u64; 4]),
}

/// A [`PropertyValue`] as a mathematical value.
pub enum PropertyValueView {
    Bool(bool),
    Int32(i32),
    Uint64(u64),
    Float(u32),
    String(Seq<char>),
    Matrix34(Seq<u32>),
    Vector3(Seq<u32>),
    Quaternion(Seq<u64>),
}

impl View for PropertyValue {
    type V = PropertyValueView;

    open spec fn view(&self) -> PropertyValueView {
        match self {
            PropertyValue::Bool(b) => PropertyValueView::Bool(*b),
            PropertyValue::Int32(i) => PropertyValueView::Int32(*i),
            PropertyValue::Uint64(u) => PropertyValueView::Uint64(*u),
            PropertyValue::Float(f) => PropertyValueView::Float(*f),
            PropertyValue::String(s) => PropertyValueView::String(s@),
            PropertyValue::Matrix34(m) => PropertyValueView::Matrix34(m@),
            PropertyValue::Vector3(v) => PropertyValueView::Vector3(v@),
            PropertyValue::Quaternion(q) => PropertyValueView::Quaternion(q@),
        }
    }
}

/// A property definition with its ID and value.
#[derive(Debug, Clone)]
pub struct Property {
    /// The property ID.
    pub id: PropertyId,
    /// The property value.
    pub value: PropertyValue,
}

impl Property {
    /// Create a new property.
    pub fn new(id: PropertyId, value: PropertyValue) -> (p: Self)
        ensures
            p.id == id,
            p.value == value,
    {
        Property { id, value }
    }

    /// Create a boolean property.
    pub fn bool(id: PropertyId, value: bool) -> (p: Self)
        ensures
            p.id == id,
            p.value@ == PropertyValueView::Bool(value),
    {
        Property { id, value: PropertyValue::Bool(value) }
    }

    /// Create an int32 property.
    pub fn int32(id: PropertyId, value: i32) -> (p: Self)
        ensures
            p.id == id,
            p.value@ == PropertyValueView::Int32(value),
    {
        Property { id, value: PropertyValue::Int32(value) }
    }

    /// Create a uint64 property.
    pub fn uint64(id: PropertyId, value: u64) -> (p: Self)
        ensures
            p.id == id,
            p.value@ == PropertyValueView::Uint64(value),
    {
        Property { id, value: PropertyValue::Uint64(value) }
    }

    /// Create a single-precision property from its bit pattern.
    pub fn float(id: PropertyId, bits: u32) -> (p: Self)
        ensures
            p.id == id,
            p.value@ == PropertyValueView::Float(bits),
    {
        Property { id, value: PropertyValue::Float(bits) }
    }

    /// Create a string property.
    pub fn string(id: PropertyId, value: &str) -> (p: Self)
        ensures
            p.id == id,
            p.value@ == PropertyValueView::String(value@),
    {
        Property { id, value: PropertyValue::String(String::from_str(value)) }
    }
}

/// Structure for writing properties in batch.
#[derive(Debug)]
pub struct PropertyWrite {
    /// The property to write.
    pub property: Property,
    /// The outcome of the write, once it was attempted.
    pub error: Option<PropertyError>,
}

impl PropertyWrite {
    /// Create a new property write that was not attempted yet.
    pub fn new(property: Property) -> (w: Self)
        ensures
            w.property == property,
            w.error is None,
    {
        PropertyWrite { property, error: None }
    }

    /// Create from ID and value.
    pub fn from_id_value(id: PropertyId, value: PropertyValue) -> (w: Self)
        ensures
            w.property.id == id,
            w.property.value == value,
            w.error is None,
    {
        PropertyWrite { property: Property { id, value }, error: None }
    }

    /// Records the outcome of attempting this write: success when the
    /// attempt succeeded, unknown property when it failed for any reason.
    pub fn record(&mut self, outcome: &DriverResult<()>)
        ensures
            final(self).property == old(self).property,
            final(self).error == Some(
                if outcome is Ok {
                    PropertyError::Success
                } else {
                    PropertyError::UnknownProperty
                },
            ),
    {
        match outcome {
            Ok(_) => {
                self.error = Some(PropertyError::Success);
            },
            Err(_) => {
                self.error = Some(PropertyError::UnknownProperty);
            },
        }
    }
}

/// The type tag that tells the host how to read a write's buffer.
#[derive(Debug, Clone, Copy, PartialEq, Eq, Structural)]
pub enum PropertyTag {
    Float,
    Int32,
    Uint64,
    Bool,
    String,
}

/// The contents of a write's buffer.
#[derive(Debug, Clone)]
pub enum EncodedValue {
    Bool(bool),
    Int32(i32),
    Uint64(u64),
    Float(u32),
    /// NUL-terminated text.
    Text(Vec<u8>),
}

/// An [`EncodedValue`] as a mathematical value.
pub enum EncodedValueView {
    Bool(bool),
    Int32(i32),
    Uint64(u64),
    Float(u32),
    Text(Seq<u8>),
}

impl View for EncodedValue {
    type V = EncodedValueView;

    open spec fn view(&self) -> EncodedValueView {
        match self {
            EncodedValue::Bool(b) => EncodedValueView::Bool(*b),
            EncodedValue::Int32(i) => EncodedValueView::Int32(*i),
            EncodedValue::Uint64(u) => EncodedValueView::Uint64(*u),
            EncodedValue::Float(f) => EncodedValueView::Float(*f),
            EncodedValue::Text(t) => EncodedValueView::Text(t@),
        }
    }
}

/// One entry of a batch as the host reads it: the property, the type tag,
/// the buffer's contents and the buffer's size in bytes.
#[derive(Debug, Clone)]
pub struct EncodedWrite {
    pub prop: PropertyId,
    pub tag: PropertyTag,
    pub value: EncodedValue,
    pub size: u32,
}

/// An [`EncodedWrite`] as a mathematical value.
pub struct EncodedWriteView {
    pub prop: PropertyId,
    pub tag: PropertyTag,
    pub value: EncodedValueView,
    pub size: u32,
}

impl View for EncodedWrite {
    type V = EncodedWriteView;

    open spec fn view(&self) -> EncodedWriteView {
        EncodedWriteView { prop: self.prop, tag: self.tag, value: self.value@, size: self.size }
    }
}

/// A batch ready to be submitted: the host's property interface, the
/// container, and the writes in order.
#[derive(Debug, Clone)]
pub struct PropertyBatch {
    pub interface: usize,
    pub container: PropertyContainer,
    pub writes: Vec<EncodedWrite>,
}

/// The views of a list of encoded writes, in the same order.
pub open spec fn write_views(writes: Seq<EncodedWrite>) -> Seq<EncodedWriteView> {
    Seq::new(writes.len(), |i: int| writes[i]@)
}

/// The views of a list of properties given as pairs, in the same order.
pub open spec fn entry_views(entries: Seq<(PropertyId, PropertyValue)>) -> Seq<
    (PropertyId, PropertyValueView),
> {
    Seq::new(entries.len(), |i: int| (entries[i].0, entries[i].1@))
}

/// Whether a value is text that holds a NUL byte, which no buffer can carry.
pub open spec fn is_unwritable_text(v: PropertyValueView) -> bool {
    match v {
        PropertyValueView::String(s) => contains_nul(encode_utf8(s)),
        _ => false,
    }
}

/// The batch entry for one property, or `None` for a value of a kind that
/// batches do not carry (matrix, vector, quaternion).
///
/// A boolean takes one byte, 32-bit values four, a 64-bit value eight, and
/// text its bytes and the terminating NUL; a size is kept to 32 bits.
pub open spec fn encode_entry(id: PropertyId, v: PropertyValueView) -> Option<EncodedWriteView> {
    match v {
        PropertyValueView::Bool(b) => Some(
            EncodedWriteView {
                prop: id,
                tag: PropertyTag::Bool,
                value: EncodedValueView::Bool(b),
                size: 1,
            },
        ),
        PropertyValueView::Float(f) => Some(
            EncodedWriteView {
                prop: id,
                tag: PropertyTag::Float,
                value: EncodedValueView::Float(f),
                size: 4,
            },
        ),
        PropertyValueView::Int32(i) => Some(
            EncodedWriteView {
                prop: id,
                tag: PropertyTag::Int32,
                value: EncodedValueView::Int32(i),
                size: 4,
            },
        ),
        PropertyValueView::Uint64(u) => Some(
            EncodedWriteView {
                prop: id,
                tag: PropertyTag::Uint64,
                value: EncodedValueView::Uint64(u),
                size: 8,
            },
        ),
        PropertyValueView::String(s) => Some(
            EncodedWriteView {
                prop: id,
                tag: PropertyTag::String,
                value: EncodedValueView::Text(nul_terminated(encode_utf8(s))),
                size: ((encode_utf8(s).len() + 1) % 0x1_0000_0000) as u32,
            },
        ),
        _ => None,
    }
}

/// The batch entries for the first `n` properties: one per property of a
/// kind that batches carry, in the order given.
pub open spec fn encoded_writes(entries: Seq<(PropertyId, PropertyValueView)>, n: nat) -> Seq<
    EncodedWriteView,
>
    decreases n,
{
    if n == 0 || n > entries.len() {
        Seq::empty()
    } else {
        let before = encoded_writes(entries, (n - 1) as nat);
        match encode_entry(entries[n - 1].0, entries[n - 1].1) {
            Some(w) => before.push(w),
            None => before,
        }
    }
}

/// Whether some property in the list is text that holds a NUL byte.
pub open spec fn has_unwritable_text(entries: Seq<(PropertyId, PropertyValueView)>) -> bool {
    exists|i: int| 0 <= i < entries.len() && is_unwritable_text(#[trigger] entries[i].1)
}

/// What planning a batch gives, as a mathematical value: an error, nothing
/// to submit, or the batch.
pub enum BatchPlanView {
    Failed(DriverErrorView),
    Nothing,
    Submit { interface: usize, container: PropertyContainer, writes: Seq<EncodedWriteView> },
}

/// The plan for writing `entries` to `container` through `interface`.
///
/// Without a property interface, or with a null one, the plan fails with
/// interface-not-found. Text that holds a NUL byte fails it with
/// invalid-parameter. When no property is of a kind that batches carry
/// there is nothing to submit. Otherwise the batch holds the encoded
/// entries in order.
pub open spec fn batch_plan(
    interface: Option<usize>,
    container: PropertyContainer,
    entries: Seq<(PropertyId, PropertyValueView)>,
) -> BatchPlanView {
    match interface {
        None => BatchPlanView::Failed(
            DriverErrorView::InterfaceNotFound("IVRProperties not initialized"@),
        ),
        Some(p) => if p == 0 {
            BatchPlanView::Failed(DriverErrorView::InterfaceNotFound("IVRProperties is null"@))
        } else if has_unwritable_text(entries) {
            BatchPlanView::Failed(DriverErrorView::InvalidParameter("String contains null byte"@))
        } else if encoded_writes(entries, entries.len()).len() == 0 {
            BatchPlanView::Nothing
        } else {
            BatchPlanView::Submit {
                interface: p,
                container,
                writes: encoded_writes(entries, entries.len()),
            }
        },
    }
}

/// The view of a planning result.
pub open spec fn plan_view(plan: DriverResult<Option<PropertyBatch>>) -> BatchPlanView {
    match plan {
        Err(e) => BatchPlanView::Failed(e@),
        Ok(None) => BatchPlanView::Nothing,
        Ok(Some(b)) => BatchPlanView::Submit {
            interface: b.interface,
            container: b.container,
            writes: write_views(b.writes@),
        },
    }
}

/// The name of a property error in messages.
pub open spec fn property_error_name(e: PropertyError) -> Seq<char> {
    match e {
        PropertyError::Success => "TrackedProp_Success"@,
        PropertyError::UnknownProperty => "TrackedProp_UnknownProperty"@,
        PropertyError::Code(c) => signed_decimal_digits(c as int),
    }
}

/// The result of a submitted batch, from the host's answer: success for the
/// success code, and operation-failed with the error's name otherwise.
pub open spec fn batch_result_view(answer: PropertyError) -> Result<(), DriverErrorView> {
    if answer == PropertyError::Success {
        Ok(())
    } else {
        Err(
            DriverErrorView::OperationFailed(
                "WritePropertyBatch failed: "@ + property_error_name(answer),
            ),
        )
    }
}

/// What to do to learn the property container of a device.
#[derive(Debug, Clone, Copy, PartialEq, Eq, Structural)]
pub enum ContainerLookup {
    /// Ask the host's property interface at this address.
    AskHost { interface: usize, device_index: u32 },
    /// No interface to ask: use this container.
    Fallback(PropertyContainer),
}

/// Controller hand designation.
#[derive(Debug, Clone, Copy, PartialEq, Eq, Structural)]
pub enum ControllerHand {
    Left,
    Right,
}

/// Access to the host's property interface, once the driver context has
/// obtained it.
#[derive(Debug, Clone, Copy)]
pub struct Properties {
    pub interface: Option<usize>,
}

fn encode_one(id: PropertyId, value: &PropertyValue) -> (r: Result<Option<EncodedWrite>, ()>)
    ensures
        r is Err <==> is_unwritable_text(value@),
        r is Ok ==> match r->Ok_0 {
            Some(w) => encode_entry(id, value@) == Some(w@),
            None => encode_entry(id, value@) is None,
        },
{
    match value {
        PropertyValue::Bool(b) => Ok(
            Some(
                EncodedWrite {
                    prop: id,
                    tag: PropertyTag::Bool,
                    value: EncodedValue::Bool(*b),
                    size: 1,
                },
            ),
        ),
        PropertyValue::Float(f) => Ok(
            Some(
                EncodedWrite {
                    prop: id,
                    tag: PropertyTag::Float,
                    value: EncodedValue::Float(*f),
                    size: 4,
                },
            ),
        ),
        PropertyValue::Int32(i) => Ok(
            Some(
                EncodedWrite {
                    prop: id,
                    tag: PropertyTag::Int32,
                    value: EncodedValue::Int32(*i),
                    size: 4,
                },
            ),
        ),
        PropertyValue::Uint64(u) => Ok(
            Some(
                EncodedWrite {
                    prop: id,
                    tag: PropertyTag::Uint64,
                    value: EncodedValue::Uint64(*u),
                    size: 8,
                },
            ),
        ),
        PropertyValue::String(s) => {
            match c_string_bytes(s.as_str()) {
                Some(bytes) => {
                    let len: u64 = bytes.len() as u64;
                    let size: u32 = (len % 0x1_0000_0000u64) as u32;
                    Ok(
                        Some(
                            EncodedWrite {
                                prop: id,
                                tag: PropertyTag::String,
                                value: EncodedValue::Text(bytes),
                                size,
                            },
                        ),
                    )
                },
                None => Err(()),
            }
        },
        _ => Ok(None),
    }
}

impl Properties {
    /// No property interface was obtained yet.
    pub fn new() -> (p: Self)
        ensures
            p.interface is None,
    {
        Properties { interface: None }
    }

    /// Sets the host's property interface, as obtained at initialisation.
    pub fn set_properties_interface(&mut self, properties: usize)
        ensures
            final(self).interface == Some(properties),
    {
        self.interface = Some(properties);
    }

    /// How to get the property container of a device: by asking the host
    /// when there is a property interface, and else by using the device
    /// index itself as the container.
    pub fn get_property_container(&self, device_index: u32) -> (lookup: ContainerLookup)
        ensures
            lookup == match self.interface {
                Some(p) => if p != 0 {
                    ContainerLookup::AskHost { interface: p, device_index }
                } else {
                    ContainerLookup::Fallback(device_index as u64)
                },
                None => ContainerLookup::Fallback(device_index as u64),
            },
    {
        match self.interface {
            Some(p) => if p != 0 {
                ContainerLookup::AskHost { interface: p, device_index }
            } else {
                ContainerLookup::Fallback(device_index as u64)
            },
            None => ContainerLookup::Fallback(device_index as u64),
        }
    }

    /// Plans the write of several properties in one batch. See
    /// [`batch_plan`] for what the plan is.
    pub fn write_property_batch(
        &self,
        container: PropertyContainer,
        properties: &[(PropertyId, PropertyValue)],
    ) -> (plan: DriverResult<Option<PropertyBatch>>)
        ensures
            plan_view(plan) == batch_plan(self.interface, container, entry_views(properties@)),
    {
        let interface = match self.interface {
            Some(p) => p,
            None => {
                return Err(DriverError::interface_not_found("IVRProperties not initialized"));
            },
        };
        if interface == 0 {
            return Err(DriverError::interface_not_found("IVRProperties is null"));
        }
        let ghost entries = entry_views(properties@);
        let mut writes: Vec<EncodedWrite> = Vec::new();
        let mut i: usize = 0;
        while i < properties.len()
            invariant
                i <= properties.len(),
                self.interface == Some(interface),
                interface != 0,
                entries == entry_views(properties@),
                write_views(writes@) == encoded_writes(entries, i as nat),
                forall|j: int| 0 <= j < i ==> !is_unwritable_text(#[trigger] entries[j].1),
            decreases properties.len() - i,
        {
            match encode_one(properties[i].0, &properties[i].1) {
                Ok(Some(w)) => {
                    writes.push(w);
                },
                Ok(None) => {},
                Err(_) => {
                    assert(is_unwritable_text(entries[i as int].1));
                    return Err(DriverError::invalid_parameter("String contains null byte"));
                },
            }
            i += 1;
        }
        if writes.len() == 0 {
            return Ok(None);
        }
        Ok(Some(PropertyBatch { interface, container, writes }))
    }

    /// Turns the host's answer to a submitted batch into a result.
    pub fn batch_result(answer: PropertyError) -> (r: DriverResult<()>)
        ensures
            result_view(r) == batch_result_view(answer),
    {
        match answer {
            PropertyError::Success => Ok(()),
            PropertyError::UnknownProperty => {
                let mut msg = String::from_str("WritePropertyBatch failed: ");
                msg.append("TrackedProp_UnknownProperty");
                Err(DriverError::OperationFailed(msg))
            },
            PropertyError::Code(c) => {
                let mut msg = String::from_str("WritePropertyBatch failed: ");
                let digits = signed_decimal_text(c as i64);
                msg.append(digits.as_str());
                Err(DriverError::OperationFailed(msg))
            },
        }
    }

    /// Plans the write of a boolean property.
    pub fn set_bool(&self, container: PropertyContainer, prop: PropertyId, value: bool) -> (plan:
        DriverResult<Option<PropertyBatch>>)
        ensures
            plan_view(plan) == batch_plan(
                self.interface,
                container,
                seq![(prop, PropertyValueView::Bool(value))],
            ),
    {
        let entries = [(prop, PropertyValue::Bool(value))];
        assert(entry_views(entries@) =~= seq![(prop, PropertyValueView::Bool(value))]);
        self.write_property_batch(container, entries.as_slice())
    }

    /// Plans the write of an int32 property.
    pub fn set_int32(&self, container: PropertyContainer, prop: PropertyId, value: i32) -> (plan:
        DriverResult<Option<PropertyBatch>>)
        ensures
            plan_view(plan) == batch_plan(
                self.interface,
                container,
                seq![(prop, PropertyValueView::Int32(value))],
            ),
    {
        let entries = [(prop, PropertyValue::Int32(value))];
        assert(entry_views(entries@) =~= seq![(prop, PropertyValueView::Int32(value))]);
        self.write_property_batch(container, entries.as_slice())
    }

    /// Plans the write of a uint64 property.
    pub fn set_uint64(&self, container: PropertyContainer, prop: PropertyId, value: u64) -> (plan:
        DriverResult<Option<PropertyBatch>>)
        ensures
            plan_view(plan) == batch_plan(
                self.interface,
                container,
                seq![(prop, PropertyValueView::Uint64(value))],
            ),
    {
        let entries = [(prop, PropertyValue::Uint64(value))];
        assert(entry_views(entries@) =~= seq![(prop, PropertyValueView::Uint64(value))]);
        self.write_property_batch(container, entries.as_slice())
    }

    /// Plans the write of a single-precision property, given as its bit
    /// pattern.
    pub fn set_float(&self, container: PropertyContainer, prop: PropertyId, bits: u32) -> (plan:
        DriverResult<Option<PropertyBatch>>)
        ensures
            plan_view(plan) == batch_plan(
                self.interface,
                container,
                seq![(prop, PropertyValueView::Float(bits))],
            ),
    {
        let entries = [(prop, PropertyValue::Float(bits))];
        assert(entry_views(entries@) =~= seq![(prop, PropertyValueView::Float(bits))]);
        self.write_property_batch(container, entries.as_slice())
    }

    /// Plans the write of a string property.
    pub fn set_string(&self, container: PropertyContainer, prop: PropertyId, value: &str) -> (plan:
        DriverResult<Option<PropertyBatch>>)
        ensures
            plan_view(plan) == batch_plan(
                self.interface,
                container,
                seq![(prop, PropertyValueView::String(value@))],
            ),
    {
        let entries = [(prop, PropertyValue::String(String::from_str(value)))];
        assert(entry_views(entries@) =~= seq![(prop, PropertyValueView::String(value@))]);
        self.write_property_batch(container, entries.as_slice())
    }
}

/// The plan for writing one property of any kind: a value of a kind that
/// batches do not carry fails with not-implemented, every other value is
/// planned as a batch of one.
pub open spec fn single_plan(
    interface: Option<usize>,
    container: PropertyContainer,
    prop: PropertyId,
    v: PropertyValueView,
) -> BatchPlanView {
    if encode_entry(prop, v) is None {
        BatchPlanView::Failed(
            DriverErrorView::NotImplemented("Matrix34/Vector3/Quaternion properties"@),
        )
    } else {
        batch_plan(interface, container, seq![(prop, v)])
    }
}

/// Bit pattern of the single-precision number zero.
pub const ZERO_BITS: u32 = 0;

/// Bit pattern of the single-precision number nearest to 0.11, the time in
/// seconds from vsync to photons that a head-mounted display announces.
pub const VSYNC_TO_PHOTONS_BITS: u32 = 0x3DE1_47AE;

/// The universe that a head-mounted display announces.
pub const DEFAULT_UNIVERSE_ID: u64 = 2;

/// The properties that describe a head-mounted display to the host, in the
/// order they are written. The display frequency and the interpupillary
/// distance are the configured values.
pub open spec fn hmd_property_views(
    model_number: Seq<char>,
    serial_number: Seq<char>,
    display_frequency: u32,
    ipd: u32,
) -> Seq<(PropertyId, PropertyValueView)> {
    seq![
        (PropertyId::ModelNumberString, PropertyValueView::String(model_number)),
        (PropertyId::SerialNumberString, PropertyValueView::String(serial_number)),
        (PropertyId::DisplayFrequencyFloat, PropertyValueView::Float(display_frequency)),
        (PropertyId::UserIpdMetersFloat, PropertyValueView::Float(ipd)),
        (PropertyId::UserHeadToEyeDepthMetersFloat, PropertyValueView::Float(ZERO_BITS)),
        (
            PropertyId::SecondsFromVsyncToPhotonsFloat,
            PropertyValueView::Float(VSYNC_TO_PHOTONS_BITS),
        ),
        (PropertyId::IsOnDesktopBool, PropertyValueView::Bool(false)),
        (PropertyId::DisplayDebugModeBool, PropertyValueView::Bool(true)),
        (PropertyId::CurrentUniverseIdUint64, PropertyValueView::Uint64(DEFAULT_UNIVERSE_ID)),
        (PropertyId::ManufacturerNameString, PropertyValueView::String("Simple VR"@)),
        (PropertyId::TrackingSystemNameString, PropertyValueView::String("simplehmd"@)),
    ]
}

/// Builds the properties that describe a head-mounted display.
pub fn hmd_properties(
    model_number: &str,
    serial_number: &str,
    display_frequency: u32,
    ipd: u32,
) -> (list: Vec<(PropertyId, PropertyValue)>)
    ensures
        entry_views(list@) == hmd_property_views(
            model_number@,
            serial_number@,
            display_frequency,
            ipd,
        ),
{
    let mut list: Vec<(PropertyId, PropertyValue)> = Vec::new();
    list.push((PropertyId::ModelNumberString, PropertyValue::String(String::from_str(model_number))));
    list.push(
        (PropertyId::SerialNumberString, PropertyValue::String(String::from_str(serial_number))),
    );
    list.push((PropertyId::DisplayFrequencyFloat, PropertyValue::Float(display_frequency)));
    list.push((PropertyId::UserIpdMetersFloat, PropertyValue::Float(ipd)));
    list.push((PropertyId::UserHeadToEyeDepthMetersFloat, PropertyValue::Float(ZERO_BITS)));
    list.push(
        (PropertyId::SecondsFromVsyncToPhotonsFloat, PropertyValue::Float(VSYNC_TO_PHOTONS_BITS)),
    );
    list.push((PropertyId::IsOnDesktopBool, PropertyValue::Bool(false)));
    list.push((PropertyId::DisplayDebugModeBool, PropertyValue::Bool(true)));
    list.push((PropertyId::CurrentUniverseIdUint64, PropertyValue::Uint64(DEFAULT_UNIVERSE_ID)));
    list.push(
        (PropertyId::ManufacturerNameString, PropertyValue::String(String::from_str("Simple VR"))),
    );
    list.push(
        (
            PropertyId::TrackingSystemNameString,
            PropertyValue::String(String::from_str("simplehmd")),
        ),
    );
    assert(entry_views(list@) =~= hmd_property_views(
        model_number@,
        serial_number@,
        display_frequency,
        ipd,
    ));
    list
}

/// The plan for describing a head-mounted display: it fails with
/// operation-failed for the invalid container zero, and is the batch of the
/// display's properties otherwise.
pub open spec fn hmd_plan(
    interface: Option<usize>,
    container: PropertyContainer,
    model_number: Seq<char>,
    serial_number: Seq<char>,
    display_frequency: u32,
    ipd: u32,
) -> BatchPlanView {
    if container == 0 {
        BatchPlanView::Failed(DriverErrorView::OperationFailed("Invalid property container"@))
    } else {
        batch_plan(
            interface,
            container,
            hmd_property_views(model_number, serial_number, display_frequency, ipd),
        )
    }
}

impl Properties {
    /// Plans the write of one property of any kind. See [`single_plan`].
    pub fn set_property(
        &self,
        container: PropertyContainer,
        prop: PropertyId,
        value: &PropertyValue,
    ) -> (plan: DriverResult<Option<PropertyBatch>>)
        ensures
            plan_view(plan) == single_plan(self.interface, container, prop, value@),
    {
        match value {
            PropertyValue::Bool(v) => self.set_bool(container, prop, *v),
            PropertyValue::Int32(v) => self.set_int32(container, prop, *v),
            PropertyValue::Uint64(v) => self.set_uint64(container, prop, *v),
            PropertyValue::Float(v) => self.set_float(container, prop, *v),
            PropertyValue::String(v) => self.set_string(container, prop, v.as_str()),
            _ => Err(DriverError::not_implemented("Matrix34/Vector3/Quaternion properties")),
        }
    }

    /// Plans the writes that describe a head-mounted display to the host.
    /// `container` is the device's property container; `display_frequency`
    /// and `ipd` are bit patterns of single-precision numbers. See
    /// [`hmd_plan`].
    pub fn set_hmd_properties(
        &self,
        container: PropertyContainer,
        model_number: &str,
        serial_number: &str,
        display_frequency: u32,
        ipd: u32,
    ) -> (plan: DriverResult<Option<PropertyBatch>>)
        ensures
            plan_view(plan) == hmd_plan(
                self.interface,
                container,
                model_number@,
                serial_number@,
                display_frequency,
                ipd,
            ),
    {
        if container == 0 {
            return Err(DriverError::operation_failed("Invalid property container"));
        }
        let list = hmd_properties(model_number, serial_number, display_frequency, ipd);
        self.write_property_batch(container, list.as_slice())
    }
}

/// Describes a controller to the host. No property is written for a
/// controller, so this always succeeds.
pub fn set_controller_properties(
    device_index: u32,
    model_number: &str,
    serial_number: &str,
    hand: ControllerHand,
) -> (r: DriverResult<()>)
    ensures
        r is Ok,
{
    Ok(())
}

} // verus!
