//! Interface schema: for each host interface and version, the methods in
//! virtual-table order with their parameter and return types.
//!
//! The schema is read-only data. Everything that lays out a table or forwards
//! a call is derived from it, so the order written here is the order the host
//! sees.

use vstd::prelude::*;
use vstd::string::*;

verus! {

/// A value passed in a register-sized slot.
#[derive(Debug, Clone, Copy, PartialEq, Eq, Structural)]
pub enum ScalarKind {
    Bool,
    Int32,
    UInt32,
    UInt64,
    Float32,
    Float64,
}

/// A fixed-size record passed by value or written through an output pointer.
#[derive(Debug, Clone, Copy, PartialEq, Eq, Structural)]
pub enum StructKind {
    Pose,
    Matrix34,
    Quaternion,
    Vector2,
    DistortionCoordinates,
}

/// The meaning of one parameter or return value of an interface method.
#[derive(Debug, Clone, Copy, PartialEq, Eq, Structural)]
pub enum SemanticType {
    /// No value.
    Void,
    /// A scalar passed by value.
    Scalar(ScalarKind),
    /// The interface's native error-code enum.
    ErrorCode,
    /// A pointer whose pointee the receiver does not know; may be null.
    OpaquePointer,
    /// A pointer to NUL-terminated text; must not be null.
    CString,
    /// A record passed by value.
    Struct(StructKind),
    /// A pointer through which a scalar is returned; must not be null.
    OutScalar(ScalarKind),
    /// A pointer through which a record is returned; must not be null.
    OutStruct(StructKind),
    /// A pointer to a caller-owned byte buffer that receives text; must not be null.
    OutBuffer,
}

/// How a value travels across the C calling convention.
#[derive(Debug, Clone, Copy, PartialEq, Eq, Structural)]
pub enum RawType {
    Void,
    Byte,
    Word32,
    Word64,
    Float32,
    Float64,
    Pointer,
    Aggregate(StructKind),
}

/// The raw form in which a semantic type crosses the boundary.
pub open spec fn raw_type_of(t: SemanticType) -> RawType {
    match t {
        SemanticType::Void => RawType::Void,
        SemanticType::Scalar(ScalarKind::Bool) => RawType::Byte,
        SemanticType::Scalar(ScalarKind::Int32) => RawType::Word32,
        SemanticType::Scalar(ScalarKind::UInt32) => RawType::Word32,
        SemanticType::Scalar(ScalarKind::UInt64) => RawType::Word64,
        SemanticType::Scalar(ScalarKind::Float32) => RawType::Float32,
        SemanticType::Scalar(ScalarKind::Float64) => RawType::Float64,
        SemanticType::ErrorCode => RawType::Word32,
        SemanticType::OpaquePointer => RawType::Pointer,
        SemanticType::CString => RawType::Pointer,
        SemanticType::Struct(k) => RawType::Aggregate(k),
        SemanticType::OutScalar(_) => RawType::Pointer,
        SemanticType::OutStruct(_) => RawType::Pointer,
        SemanticType::OutBuffer => RawType::Pointer,
    }
}

/// Whether a null pointer in a parameter of this type makes the call invalid.
pub open spec fn requires_non_null(t: SemanticType) -> bool {
    match t {
        SemanticType::CString => true,
        SemanticType::OutScalar(_) => true,
        SemanticType::OutStruct(_) => true,
        SemanticType::OutBuffer => true,
        _ => false,
    }
}

impl SemanticType {
    /// The raw form in which this type crosses the boundary.
    pub fn raw_type(&self) -> (raw: RawType)
        ensures
            raw == raw_type_of(*self),
    {
        match self {
            SemanticType::Void => RawType::Void,
            SemanticType::Scalar(ScalarKind::Bool) => RawType::Byte,
            SemanticType::Scalar(ScalarKind::Int32) => RawType::Word32,
            SemanticType::Scalar(ScalarKind::UInt32) => RawType::Word32,
            SemanticType::Scalar(ScalarKind::UInt64) => RawType::Word64,
            SemanticType::Scalar(ScalarKind::Float32) => RawType::Float32,
            SemanticType::Scalar(ScalarKind::Float64) => RawType::Float64,
            SemanticType::ErrorCode => RawType::Word32,
            SemanticType::OpaquePointer => RawType::Pointer,
            SemanticType::CString => RawType::Pointer,
            SemanticType::Struct(k) => RawType::Aggregate(*k),
            SemanticType::OutScalar(_) => RawType::Pointer,
            SemanticType::OutStruct(_) => RawType::Pointer,
            SemanticType::OutBuffer => RawType::Pointer,
        }
    }

    /// Whether a null pointer in a parameter of this type makes the call invalid.
    pub fn is_required_pointer(&self) -> (b: bool)
        ensures
            b == requires_non_null(*self),
    {
        match self {
            SemanticType::CString => true,
            SemanticType::OutScalar(_) => true,
            SemanticType::OutStruct(_) => true,
            SemanticType::OutBuffer => true,
            _ => false,
        }
    }
}

/// One method of an interface: its name, its parameters in order (the
/// receiver not counted), and what it returns.
#[derive(Debug, Clone)]
pub struct MethodSignature {
    pub name: String,
    pub params: Vec<SemanticType>,
    pub ret: SemanticType,
}

/// A [`MethodSignature`] as a mathematical value.
pub struct MethodSignatureView {
    pub name: Seq<char>,
    pub params: Seq<SemanticType>,
    pub ret: SemanticType,
}

impl View for MethodSignature {
    type V = MethodSignatureView;

    open spec fn view(&self) -> MethodSignatureView {
        MethodSignatureView { name: self.name@, params: self.params@, ret: self.ret }
    }
}

impl MethodSignature {
    /// A method with the given name, parameters and return type.
    pub fn new(name: &str, params: Vec<SemanticType>, ret: SemanticType) -> (m: MethodSignature)
        ensures
            m@ == (MethodSignatureView { name: name@, params: params@, ret }),
    {
        MethodSignature { name: String::from_str(name), params, ret }
    }
}

/// The method list of one version of an interface.
#[derive(Debug, Clone)]
pub struct InterfaceVersion {
    pub version: u32,
    pub methods: Vec<MethodSignature>,
}

/// An [`InterfaceVersion`] as a mathematical value.
pub struct InterfaceVersionView {
    pub version: u32,
    pub methods: Seq<MethodSignatureView>,
}

/// The views of a list of method signatures, in the same order.
pub open spec fn method_views(methods: Seq<MethodSignature>) -> Seq<MethodSignatureView> {
    Seq::new(methods.len(), |i: int| methods[i]@)
}

impl View for InterfaceVersion {
    type V = InterfaceVersionView;

    open spec fn view(&self) -> InterfaceVersionView {
        InterfaceVersionView { version: self.version, methods: method_views(self.methods@) }
    }
}

/// An interface: its name and the versions of it that are known.
#[derive(Debug, Clone)]
pub struct InterfaceDescriptor {
    pub name: String,
    pub versions: Vec<InterfaceVersion>,
}

/// An [`InterfaceDescriptor`] as a mathematical value.
pub struct InterfaceDescriptorView {
    pub name: Seq<char>,
    pub versions: Seq<InterfaceVersionView>,
}

/// The views of a list of interface versions, in the same order.
pub open spec fn version_views(versions: Seq<InterfaceVersion>) -> Seq<InterfaceVersionView> {
    Seq::new(versions.len(), |i: int| versions[i]@)
}

impl View for InterfaceDescriptor {
    type V = InterfaceDescriptorView;

    open spec fn view(&self) -> InterfaceDescriptorView {
        InterfaceDescriptorView { name: self.name@, versions: version_views(self.versions@) }
    }
}

/// The position of the first element of `s` that satisfies `f`.
pub open spec fn first_position<A>(s: Seq<A>, f: spec_fn(A) -> bool) -> Option<int>
    decreases s.len(),
{
    if s.len() == 0 {
        None
    } else if f(s[0]) {
        Some(0)
    } else {
        match first_position(s.drop_first(), f) {
            Some(i) => Some(i + 1),
            None => None,
        }
    }
}

/// `first_position` finds an element exactly when one satisfies `f`, and the
/// element it finds is the first that does.
pub proof fn lemma_first_position<A>(s: Seq<A>, f: spec_fn(A) -> bool)
    ensures
        match first_position(s, f) {
            Some(i) => 0 <= i < s.len() && f(s[i]) && forall|j: int| 0 <= j < i ==> !f(s[j]),
            None => forall|j: int| 0 <= j < s.len() ==> !f(s[j]),
        },
    decreases s.len(),
{
    if s.len() == 0 {
    } else if f(s[0]) {
    } else {
        let rest = s.drop_first();
        lemma_first_position(rest, f);
        match first_position(rest, f) {
            Some(i) => {
                assert forall|j: int| 0 <= j < i + 1 implies !f(s[j]) by {
                    if j > 0 {
                        assert(s[j] == rest[j - 1]);
                    }
                }
            },
            None => {
                assert forall|j: int| 0 <= j < s.len() implies !f(s[j]) by {
                    if j > 0 {
                        assert(s[j] == rest[j - 1]);
                    }
                }
            },
        }
    }
}

/// The position of the first entry for `version`, if the interface has one.
pub open spec fn version_position(versions: Seq<InterfaceVersionView>, version: u32) -> Option<
    int,
> {
    first_position(versions, |e: InterfaceVersionView| e.version == version)
}

/// `version_position` finds an entry exactly when one exists, and the entry
/// it finds is the first.
pub proof fn lemma_version_position(versions: Seq<InterfaceVersionView>, version: u32)
    ensures
        match version_position(versions, version) {
            Some(i) => 0 <= i < versions.len() && versions[i].version == version && forall|j: int|
                0 <= j < i ==> versions[j].version != version,
            None => forall|j: int| 0 <= j < versions.len() ==> versions[j].version != version,
        },
{
    lemma_first_position(versions, |e: InterfaceVersionView| e.version == version);
}

/// The methods of `version` in table order, if the interface has that version.
pub open spec fn methods_of(d: InterfaceDescriptorView, version: u32) -> Option<
    Seq<MethodSignatureView>,
> {
    match version_position(d.versions, version) {
        Some(i) => Some(d.versions[i].methods),
        None => None,
    }
}

impl InterfaceDescriptor {
    /// Whether the interface has this version.
    pub open spec fn supports(&self, version: u32) -> bool {
        version_position(self@.versions, version) is Some
    }

    /// The position of `version` among the known versions.
    pub fn find_version(&self, version: u32) -> (found: Option<usize>)
        ensures
            match found {
                Some(i) => version_position(self@.versions, version) == Some(i as int) && i
                    < self.versions.len(),
                None => version_position(self@.versions, version) is None,
            },
    {
        let mut i: usize = 0;
        while i < self.versions.len()
            invariant
                i <= self.versions.len(),
                forall|j: int| 0 <= j < i ==> self@.versions[j].version != version,
            decreases self.versions.len() - i,
        {
            assert(self@.versions[i as int] == self.versions@[i as int]@);
            if self.versions[i].version == version {
                proof {
                    lemma_version_position(self@.versions, version);
                }
                return Some(i);
            }
            i += 1;
        }
        proof {
            lemma_version_position(self@.versions, version);
        }
        None
    }

    /// The methods of `version` in table order, or `None` for a version the
    /// interface does not have.
    pub fn methods(&self, version: u32) -> (found: Option<&Vec<MethodSignature>>)
        ensures
            match found {
                Some(m) => methods_of(self@, version) == Some(method_views(m@)),
                None => methods_of(self@, version) is None,
            },
    {
        match self.find_version(version) {
            Some(i) => {
                Some(&self.versions[i].methods)
            },
            None => None,
        }
    }
}

} // verus!
