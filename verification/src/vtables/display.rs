//! The display component interface: its schema, its table, and the values
//! its trampolines compute from the component's answers.

use crate::interfaces::{eye_of, Eye};
use crate::registry::RecordArena;
use crate::schema::{
    InterfaceDescriptor, InterfaceDescriptorView, InterfaceVersion, InterfaceVersionView,
    MethodSignature, MethodSignatureView, ScalarKind, SemanticType, StructKind,
};
use crate::vtables::{build_vtable, next_pointer, vtable_of, OpaquePointer, VtableWrapper};
use std::sync::Arc;
use vstd::prelude::*;
use vstd::string::*;

verus! {

/// The version of the display component interface that this layer
/// implements.
pub const DISPLAY_VERSION: u32 = 3;

/// The name under which a device is asked for its display component.
pub fn display_component_name() -> (name: &'static str)
    ensures
        name@ == "IVRDisplayComponent"@,
{
    "IVRDisplayComponent"
}

/// The methods of the display component interface, in table order.
pub open spec fn display_methods() -> Seq<MethodSignatureView> {
    seq![
        MethodSignatureView {
            name: "GetWindowBounds"@,
            params: seq![
                SemanticType::OutScalar(ScalarKind::Int32),
                SemanticType::OutScalar(ScalarKind::Int32),
                SemanticType::OutScalar(ScalarKind::UInt32),
                SemanticType::OutScalar(ScalarKind::UInt32),
            ],
            ret: SemanticType::Void,
        },
        MethodSignatureView {
            name: "IsDisplayOnDesktop"@,
            params: seq![],
            ret: SemanticType::Scalar(ScalarKind::Bool),
        },
        MethodSignatureView {
            name: "IsDisplayRealDisplay"@,
            params: seq![],
            ret: SemanticType::Scalar(ScalarKind::Bool),
        },
        MethodSignatureView {
            name: "GetRecommendedRenderTargetSize"@,
            params: seq![
                SemanticType::OutScalar(ScalarKind::UInt32),
                SemanticType::OutScalar(ScalarKind::UInt32),
            ],
            ret: SemanticType::Void,
        },
        MethodSignatureView {
            name: "GetEyeOutputViewport"@,
            params: seq![
                SemanticType::Scalar(ScalarKind::Int32),
                SemanticType::OutScalar(ScalarKind::UInt32),
                SemanticType::OutScalar(ScalarKind::UInt32),
                SemanticType::OutScalar(ScalarKind::UInt32),
                SemanticType::OutScalar(ScalarKind::UInt32),
            ],
            ret: SemanticType::Void,
        },
        MethodSignatureView {
            name: "GetProjectionRaw"@,
            params: seq![
                SemanticType::Scalar(ScalarKind::Int32),
                SemanticType::OutScalar(ScalarKind::Float32),
                SemanticType::OutScalar(ScalarKind::Float32),
                SemanticType::OutScalar(ScalarKind::Float32),
                SemanticType::OutScalar(ScalarKind::Float32),
            ],
            ret: SemanticType::Void,
        },
        MethodSignatureView {
            name: "ComputeDistortion"@,
            params: seq![
                SemanticType::Scalar(ScalarKind::Int32),
                SemanticType::Scalar(ScalarKind::Float32),
                SemanticType::Scalar(ScalarKind::Float32),
            ],
            ret: SemanticType::Struct(StructKind::DistortionCoordinates),
        },
        MethodSignatureView {
            name: "ComputeInverseDistortion"@,
            params: seq![
                SemanticType::OutStruct(StructKind::Vector2),
                SemanticType::Scalar(ScalarKind::Int32),
                SemanticType::Scalar(ScalarKind::UInt32),
                SemanticType::Scalar(ScalarKind::Float32),
                SemanticType::Scalar(ScalarKind::Float32),
            ],
            ret: SemanticType::Scalar(ScalarKind::Bool),
        },
    ]
}

/// The display component interface as a mathematical value.
pub open spec fn display_descriptor_view() -> InterfaceDescriptorView {
    InterfaceDescriptorView {
        name: "IVRDisplayComponent"@,
        versions: seq![
            InterfaceVersionView { version: DISPLAY_VERSION, methods: display_methods() },
        ],
    }
}

fn repeated(t: SemanticType, count: usize) -> (list: Vec<SemanticType>)
    ensures
        list@ == Seq::new(count as nat, |i: int| t),
{
    let mut list: Vec<SemanticType> = Vec::new();
    let mut i: usize = 0;
    while i < count
        invariant
            i <= count,
            list@ == Seq::new(i as nat, |j: int| t),
        decreases count - i,
    {
        list.push(t);
        i += 1;
    }
    list
}

fn eye_then(t: SemanticType, count: usize) -> (list: Vec<SemanticType>)
    ensures
        list@ == seq![SemanticType::Scalar(ScalarKind::Int32)] + Seq::new(
            count as nat,
            |i: int| t,
        ),
{
    let mut list: Vec<SemanticType> = Vec::new();
    list.push(SemanticType::Scalar(ScalarKind::Int32));
    let mut i: usize = 0;
    while i < count
        invariant
            i <= count,
            list@ == seq![SemanticType::Scalar(ScalarKind::Int32)] + Seq::new(
                i as nat,
                |j: int| t,
            ),
        decreases count - i,
    {
        list.push(t);
        assert(list@ =~= seq![SemanticType::Scalar(ScalarKind::Int32)] + Seq::new(
            (i + 1) as nat,
            |j: int| t,
        ));
        i += 1;
    }
    list
}

/// The schema of the display component interface.
pub fn display_descriptor() -> (d: InterfaceDescriptor)
    ensures
        d@ == display_descriptor_view(),
{
    let out_u32 = SemanticType::OutScalar(ScalarKind::UInt32);
    let out_f32 = SemanticType::OutScalar(ScalarKind::Float32);
    let float = SemanticType::Scalar(ScalarKind::Float32);
    let boolean = SemanticType::Scalar(ScalarKind::Bool);
    let mut methods: Vec<MethodSignature> = Vec::new();
    let mut bounds: Vec<SemanticType> = Vec::new();
    bounds.push(SemanticType::OutScalar(ScalarKind::Int32));
    bounds.push(SemanticType::OutScalar(ScalarKind::Int32));
    bounds.push(out_u32);
    bounds.push(out_u32);
    methods.push(MethodSignature::new("GetWindowBounds", bounds, SemanticType::Void));
    methods.push(MethodSignature::new("IsDisplayOnDesktop", Vec::new(), boolean));
    methods.push(MethodSignature::new("IsDisplayRealDisplay", Vec::new(), boolean));
    methods.push(
        MethodSignature::new(
            "GetRecommendedRenderTargetSize",
            repeated(out_u32, 2),
            SemanticType::Void,
        ),
    );
    methods.push(
        MethodSignature::new("GetEyeOutputViewport", eye_then(out_u32, 4), SemanticType::Void),
    );
    methods.push(
        MethodSignature::new("GetProjectionRaw", eye_then(out_f32, 4), SemanticType::Void),
    );
    methods.push(
        MethodSignature::new(
            "ComputeDistortion",
            eye_then(float, 2),
            SemanticType::Struct(StructKind::DistortionCoordinates),
        ),
    );
    let mut inverse: Vec<SemanticType> = Vec::new();
    inverse.push(SemanticType::OutStruct(StructKind::Vector2));
    inverse.push(SemanticType::Scalar(ScalarKind::Int32));
    inverse.push(SemanticType::Scalar(ScalarKind::UInt32));
    inverse.push(float);
    inverse.push(float);
    methods.push(MethodSignature::new("ComputeInverseDistortion", inverse, boolean));
    let mut versions: Vec<InterfaceVersion> = Vec::new();
    versions.push(InterfaceVersion { version: DISPLAY_VERSION, methods });
    let d = InterfaceDescriptor { name: String::from_str("IVRDisplayComponent"), versions };
    proof {
        let got = d@.versions[0].methods;
        let want = display_methods();
        assert(got[0].params =~= want[0].params);
        assert(got[3].params =~= want[3].params);
        assert(got[4].params =~= want[4].params);
        assert(got[5].params =~= want[5].params);
        assert(got[6].params =~= want[6].params);
        assert(got[7].params =~= want[7].params);
        assert(got =~= want);
        assert(d@.versions =~= display_descriptor_view().versions);
    }
    d
}

/// Builds the display table for `component`, wraps both and returns the
/// pointer to hand to the host. The null pointer comes back, and nothing is
/// stored, when the arena can name no further record.
pub fn create_display_vtable<U>(arena: &mut RecordArena<U>, component: Arc<U>) -> (p:
    OpaquePointer)
    ensures
        p == next_pointer(old(arena)@),
        p.is_null() ==> final(arena)@ == old(arena)@,
        !p.is_null() ==> {
            &&& final(arena)@.len() == old(arena)@.len() + 1
            &&& final(arena)@.drop_last() == old(arena)@
            &&& final(arena)@.last() is Some
            &&& final(arena)@.last()->0.this == component
            &&& Some(final(arena)@.last()->0.base@) == vtable_of(
                display_descriptor_view(),
                DISPLAY_VERSION,
            )
        },
{
    let descriptor = display_descriptor();
    match build_vtable(&descriptor, DISPLAY_VERSION) {
        Some(table) => {
            let (p, _) = arena.wrap(VtableWrapper::new(table, component));
            p
        },
        None => OpaquePointer::null(),
    }
}

/// A signed 32-bit value reinterpreted as unsigned: itself when it is not
/// negative, and 2^32 more when it is.
pub open spec fn reinterpret_unsigned(v: i32) -> int {
    if v >= 0 {
        v as int
    } else {
        v + 0x1_0000_0000
    }
}

/// Reinterprets a signed 32-bit value as unsigned, bit for bit.
pub fn to_unsigned(v: i32) -> (u: u32)
    ensures
        u == reinterpret_unsigned(v),
{
    if v >= 0 {
        v as u32
    } else {
        let above_min: u32 = (v - i32::MIN) as u32;
        above_min + 0x8000_0000u32
    }
}

/// What `GetWindowBounds` writes through its four pointers.
#[derive(Debug, Clone, Copy, PartialEq, Eq, Structural)]
pub struct WindowBounds {
    pub x: i32,
    pub y: i32,
    pub width: u32,
    pub height: u32,
}

/// A rectangle in display pixels, as `GetEyeOutputViewport` writes it.
#[derive(Debug, Clone, Copy, PartialEq, Eq, Structural)]
pub struct Viewport {
    pub x: u32,
    pub y: u32,
    pub width: u32,
    pub height: u32,
}

/// The values that `GetWindowBounds` writes for the component's window:
/// the position as it is, width and height reinterpreted as unsigned.
pub fn window_bounds_reply(bounds: (i32, i32, i32, i32)) -> (reply: WindowBounds)
    ensures
        reply.x == bounds.0,
        reply.y == bounds.1,
        reply.width == reinterpret_unsigned(bounds.2),
        reply.height == reinterpret_unsigned(bounds.3),
{
    WindowBounds {
        x: bounds.0,
        y: bounds.1,
        width: to_unsigned(bounds.2),
        height: to_unsigned(bounds.3),
    }
}

/// The viewport that `GetEyeOutputViewport` reports for either eye: at the
/// origin, half the window's width and all of its height.
pub fn eye_output_viewport(bounds: (i32, i32, i32, i32)) -> (viewport: Viewport)
    ensures
        viewport.x == 0,
        viewport.y == 0,
        viewport.width == reinterpret_unsigned(bounds.2) / 2,
        viewport.height == reinterpret_unsigned(bounds.3),
{
    Viewport { x: 0, y: 0, width: to_unsigned(bounds.2) / 2, height: to_unsigned(bounds.3) }
}

/// The eye that the host's raw eye value selects. A value that names no eye
/// selects the left eye.
pub fn eye_from_raw(eye: i32) -> (selected: Eye)
    ensures
        selected == eye_of(eye),
{
    if eye == 1 {
        Eye::Right
    } else {
        Eye::Left
    }
}

/// The frustum extents that `GetProjectionRaw` writes, each as the bit
/// pattern of a single-precision number.
#[derive(Debug, Clone, Copy, PartialEq, Eq, Structural)]
pub struct ProjectionRaw {
    pub left: u32,
    pub right: u32,
    pub top: u32,
    pub bottom: u32,
}

/// Bit pattern of the single-precision number nearest to one tenth, the
/// near-plane distance of the raw projection.
pub const NEAR_PLANE_BITS: u32 = 0x3DCC_CCCD;

/// Bit pattern of the negated near-plane distance.
pub const NEGATIVE_NEAR_PLANE_BITS: u32 = 0xBDCC_CCCD;

/// The frustum that `GetProjectionRaw` writes for either eye: symmetric,
/// reaching one near-plane distance to each side.
pub fn projection_raw() -> (raw: ProjectionRaw)
    ensures
        raw.left == NEGATIVE_NEAR_PLANE_BITS,
        raw.right == NEAR_PLANE_BITS,
        raw.top == NEAR_PLANE_BITS,
        raw.bottom == NEGATIVE_NEAR_PLANE_BITS,
{
    ProjectionRaw {
        left: NEGATIVE_NEAR_PLANE_BITS,
        right: NEAR_PLANE_BITS,
        top: NEAR_PLANE_BITS,
        bottom: NEGATIVE_NEAR_PLANE_BITS,
    }
}

} // verus!
