//! Trampolines: the C-callable shape of each interface method and the checks
//! made on a call before anything behind a pointer is touched.
//!
//! A trampoline takes the receiver pointer first and then the parameters of
//! the method in schema order. A call with a null receiver or a null required
//! pointer is answered with the failure sentinel of the method's return type.

use crate::error::INIT_ERROR_UNKNOWN;
use crate::schema::{
    raw_type_of, requires_non_null, MethodSignature, MethodSignatureView, RawType, ScalarKind,
    SemanticType, StructKind,
};
use crate::text::utf8_text;
use vstd::prelude::*;
use vstd::string::*;
use vstd::utf8::valid_utf8;

verus! {

/// One parameter (or the return value) of a trampoline: what it means and
/// how it is passed.
#[derive(Debug, Clone, Copy, PartialEq, Eq, Structural)]
pub struct TrampolineParam {
    pub semantic: SemanticType,
    pub raw: RawType,
}

/// The receiver: an opaque pointer in first position.
pub open spec fn receiver_param() -> TrampolineParam {
    TrampolineParam { semantic: SemanticType::OpaquePointer, raw: RawType::Pointer }
}

/// The trampoline parameter for a value of semantic type `t`.
pub open spec fn param_of(t: SemanticType) -> TrampolineParam {
    TrampolineParam { semantic: t, raw: raw_type_of(t) }
}

/// The C-callable signature generated for one interface method.
#[derive(Debug, Clone)]
pub struct Trampoline {
    pub name: String,
    pub params: Vec<TrampolineParam>,
    pub ret: TrampolineParam,
}

/// A [`Trampoline`] as a mathematical value.
pub struct TrampolineView {
    pub name: Seq<char>,
    pub params: Seq<TrampolineParam>,
    pub ret: TrampolineParam,
}

impl View for Trampoline {
    type V = TrampolineView;

    open spec fn view(&self) -> TrampolineView {
        TrampolineView { name: self.name@, params: self.params@, ret: self.ret }
    }
}

/// The trampoline of a method: the receiver, then one parameter per method
/// parameter in the same order, and the method's return type.
pub open spec fn trampoline_of(m: MethodSignatureView) -> TrampolineView {
    TrampolineView {
        name: m.name,
        params: seq![receiver_param()] + Seq::new(m.params.len(), |i: int| param_of(m.params[i])),
        ret: param_of(m.ret),
    }
}

/// The method that a trampoline forwards to, read back from its signature:
/// the receiver is dropped and each parameter gives its semantic type.
pub open spec fn schema_of(t: TrampolineView) -> MethodSignatureView {
    MethodSignatureView {
        name: t.name,
        params: if t.params.len() == 0 {
            Seq::empty()
        } else {
            Seq::new((t.params.len() - 1) as nat, |i: int| t.params[i + 1].semantic)
        },
        ret: t.ret.semantic,
    }
}

/// A generated trampoline has one more parameter than its method, the
/// receiver comes first, every further parameter is the method's parameter
/// at the position before it, and reading the method back from the trampoline
/// gives the method it was generated from.
pub proof fn lemma_trampoline_matches_schema(m: MethodSignatureView)
    ensures
        trampoline_of(m).params.len() == m.params.len() + 1,
        trampoline_of(m).params[0] == receiver_param(),
        forall|i: int|
            0 <= i < m.params.len() ==> #[trigger] trampoline_of(m).params[i + 1] == param_of(
                m.params[i],
            ),
        trampoline_of(m).ret == param_of(m.ret),
        trampoline_of(m).name == m.name,
        schema_of(trampoline_of(m)) == m,
{
    let t = trampoline_of(m);
    assert(schema_of(t).params =~= m.params);
}

/// A value as it crosses the boundary. Floating-point values are carried as
/// their bit patterns, records by their kind only.
#[derive(Debug, Clone, Copy, PartialEq, Eq, Structural)]
pub enum RawValue {
    Void,
    Byte(u8),
    Word32(u32),
    Word64(u64),
    Float32(u32),
    Float64(u64),
    Pointer(usize),
    Aggregate(StructKind),
}

/// The raw type of a raw value.
pub open spec fn raw_value_type(v: RawValue) -> RawType {
    match v {
        RawValue::Void => RawType::Void,
        RawValue::Byte(_) => RawType::Byte,
        RawValue::Word32(_) => RawType::Word32,
        RawValue::Word64(_) => RawType::Word64,
        RawValue::Float32(_) => RawType::Float32,
        RawValue::Float64(_) => RawType::Float64,
        RawValue::Pointer(_) => RawType::Pointer,
        RawValue::Aggregate(k) => RawType::Aggregate(k),
    }
}

/// Whether a raw value is the null pointer.
pub open spec fn is_null_pointer(v: RawValue) -> bool {
    v == RawValue::Pointer(0)
}

/// Why a call was answered at the boundary instead of being forwarded.
#[derive(Debug, Clone, Copy, PartialEq, Eq, Structural)]
pub enum BoundaryError {
    /// The arguments do not have the shape of this version of the method.
    VersionMismatch,
    /// The receiver or a required pointer argument is null.
    NullArgument,
    /// A text argument is not valid UTF-8.
    InvalidUtf8,
    /// The lock that guards the implementing object is poisoned.
    LockPoisoned,
}

/// The value returned in place of a result when a call cannot be forwarded:
/// false, zero, null, the generic "unknown error" code, or a zeroed record.
pub open spec fn failure_sentinel(ret: SemanticType) -> RawValue {
    match ret {
        SemanticType::Void => RawValue::Void,
        SemanticType::Scalar(ScalarKind::Bool) => RawValue::Byte(0),
        SemanticType::Scalar(ScalarKind::Int32) => RawValue::Word32(0),
        SemanticType::Scalar(ScalarKind::UInt32) => RawValue::Word32(0),
        SemanticType::Scalar(ScalarKind::UInt64) => RawValue::Word64(0),
        SemanticType::Scalar(ScalarKind::Float32) => RawValue::Float32(0),
        SemanticType::Scalar(ScalarKind::Float64) => RawValue::Float64(0),
        SemanticType::ErrorCode => RawValue::Word32(INIT_ERROR_UNKNOWN as u32),
        SemanticType::OpaquePointer => RawValue::Pointer(0),
        SemanticType::CString => RawValue::Pointer(0),
        SemanticType::Struct(k) => RawValue::Aggregate(k),
        SemanticType::OutScalar(_) => RawValue::Pointer(0),
        SemanticType::OutStruct(_) => RawValue::Pointer(0),
        SemanticType::OutBuffer => RawValue::Pointer(0),
    }
}

/// The outcome of checking a call at the boundary.
#[derive(Debug, Clone, Copy, PartialEq, Eq, Structural)]
pub enum CallCheck {
    /// Every pointer that will be followed is non-null: forward the call.
    Forward,
    /// Answer with `sentinel` and follow no pointer.
    Reject { reason: BoundaryError, sentinel: RawValue },
}

/// Whether the arguments have the count and the raw types of the parameters.
pub open spec fn arguments_conform(params: Seq<TrampolineParam>, args: Seq<RawValue>) -> bool {
    &&& args.len() == params.len()
    &&& forall|i: int| 0 <= i < params.len() ==> raw_value_type(#[trigger] args[i]) == params[i].raw
}

/// Whether the argument at position `i` is a null pointer where the call
/// needs a pointer it can follow: the receiver, or a required pointer.
pub open spec fn null_where_required(
    params: Seq<TrampolineParam>,
    args: Seq<RawValue>,
    i: int,
) -> bool {
    &&& 0 <= i < params.len()
    &&& 0 <= i < args.len()
    &&& is_null_pointer(args[i])
    &&& (i == 0 || requires_non_null(params[i].semantic))
}

/// Whether some argument is a null pointer where the call needs a pointer.
pub open spec fn has_null_where_required(
    params: Seq<TrampolineParam>,
    args: Seq<RawValue>,
) -> bool {
    exists|i: int| null_where_required(params, args, i)
}

/// What the boundary check decides for a call of trampoline `t` with
/// arguments `args`, the receiver first.
pub open spec fn check_call_spec(t: TrampolineView, args: Seq<RawValue>) -> CallCheck {
    if !arguments_conform(t.params, args) {
        CallCheck::Reject {
            reason: BoundaryError::VersionMismatch,
            sentinel: failure_sentinel(t.ret.semantic),
        }
    } else if has_null_where_required(t.params, args) {
        CallCheck::Reject {
            reason: BoundaryError::NullArgument,
            sentinel: failure_sentinel(t.ret.semantic),
        }
    } else {
        CallCheck::Forward
    }
}

/// A call with a null receiver or a null required pointer is never
/// forwarded: it is answered with the failure sentinel of the method's
/// return type. A call that is forwarded has a non-null receiver and a
/// non-null pointer in every required position.
pub proof fn lemma_null_arguments_rejected(m: MethodSignatureView, args: Seq<RawValue>)
    requires
        arguments_conform(trampoline_of(m).params, args),
    ensures
        is_null_pointer(args[0]) ==> check_call_spec(trampoline_of(m), args) == (
        CallCheck::Reject {
            reason: BoundaryError::NullArgument,
            sentinel: failure_sentinel(m.ret),
        }),
        forall|i: int|
            0 <= i < m.params.len() && requires_non_null(m.params[i]) && is_null_pointer(
                #[trigger] args[i + 1],
            ) ==> check_call_spec(trampoline_of(m), args) == (CallCheck::Reject {
                reason: BoundaryError::NullArgument,
                sentinel: failure_sentinel(m.ret),
            }),
        check_call_spec(trampoline_of(m), args) == CallCheck::Forward ==> !is_null_pointer(args[0])
            && forall|i: int|
            0 <= i < m.params.len() && requires_non_null(m.params[i]) ==> !is_null_pointer(
                #[trigger] args[i + 1],
            ),
{
    let t = trampoline_of(m);
    lemma_trampoline_matches_schema(m);
    assert forall|i: int|
        0 <= i < m.params.len() && requires_non_null(m.params[i]) && is_null_pointer(
            #[trigger] args[i + 1],
        ) implies has_null_where_required(t.params, args) by {
        assert(null_where_required(t.params, args, i + 1));
    }
    if check_call_spec(t, args) == CallCheck::Forward {
        assert(!null_where_required(t.params, args, 0));
        assert forall|i: int|
            0 <= i < m.params.len() && requires_non_null(m.params[i]) implies !is_null_pointer(
            #[trigger] args[i + 1],
        ) by {
        }
    }
}

impl RawValue {
    /// The raw type of this value.
    pub fn raw_type(&self) -> (t: RawType)
        ensures
            t == raw_value_type(*self),
    {
        match self {
            RawValue::Void => RawType::Void,
            RawValue::Byte(_) => RawType::Byte,
            RawValue::Word32(_) => RawType::Word32,
            RawValue::Word64(_) => RawType::Word64,
            RawValue::Float32(_) => RawType::Float32,
            RawValue::Float64(_) => RawType::Float64,
            RawValue::Pointer(_) => RawType::Pointer,
            RawValue::Aggregate(k) => RawType::Aggregate(*k),
        }
    }

    /// Whether this value is the null pointer.
    pub fn is_null(&self) -> (b: bool)
        ensures
            b == is_null_pointer(*self),
    {
        match self {
            RawValue::Pointer(p) => *p == 0,
            _ => false,
        }
    }
}

/// The failure sentinel for a return type.
pub fn sentinel_for(ret: SemanticType) -> (v: RawValue)
    ensures
        v == failure_sentinel(ret),
{
    match ret {
        SemanticType::Void => RawValue::Void,
        SemanticType::Scalar(ScalarKind::Bool) => RawValue::Byte(0),
        SemanticType::Scalar(ScalarKind::Int32) => RawValue::Word32(0),
        SemanticType::Scalar(ScalarKind::UInt32) => RawValue::Word32(0),
        SemanticType::Scalar(ScalarKind::UInt64) => RawValue::Word64(0),
        SemanticType::Scalar(ScalarKind::Float32) => RawValue::Float32(0),
        SemanticType::Scalar(ScalarKind::Float64) => RawValue::Float64(0),
        SemanticType::ErrorCode => RawValue::Word32(INIT_ERROR_UNKNOWN as u32),
        SemanticType::OpaquePointer => RawValue::Pointer(0),
        SemanticType::CString => RawValue::Pointer(0),
        SemanticType::Struct(k) => RawValue::Aggregate(k),
        SemanticType::OutScalar(_) => RawValue::Pointer(0),
        SemanticType::OutStruct(_) => RawValue::Pointer(0),
        SemanticType::OutBuffer => RawValue::Pointer(0),
    }
}

impl Trampoline {
    /// Generates the trampoline signature of a method.
    pub fn generate(method: &MethodSignature) -> (t: Trampoline)
        ensures
            t@ == trampoline_of(method@),
    {
        let mut params: Vec<TrampolineParam> = Vec::new();
        params.push(
            TrampolineParam { semantic: SemanticType::OpaquePointer, raw: RawType::Pointer },
        );
        let mut i: usize = 0;
        while i < method.params.len()
            invariant
                i <= method.params.len(),
                params@.len() == i + 1,
                params@[0] == receiver_param(),
                forall|j: int| 0 <= j < i ==> #[trigger] params@[j + 1] == param_of(method.params@[j]),
            decreases method.params.len() - i,
        {
            let semantic = method.params[i];
            params.push(TrampolineParam { semantic, raw: semantic.raw_type() });
            i += 1;
        }
        let ret = TrampolineParam { semantic: method.ret, raw: method.ret.raw_type() };
        let t = Trampoline { name: method.name.clone(), params, ret };
        proof {
            lemma_trampoline_matches_schema(method@);
            assert(t@.params =~= trampoline_of(method@).params);
        }
        t
    }

    /// Reads back the method that this trampoline forwards to.
    pub fn schema(&self) -> (m: MethodSignature)
        ensures
            m@ == schema_of(self@),
    {
        let mut params: Vec<SemanticType> = Vec::new();
        let mut i: usize = 1;
        while i < self.params.len()
            invariant
                1 <= i,
                self.params.len() >= 1 ==> i <= self.params.len(),
                self.params.len() >= 1 ==> params@.len() == i - 1,
                self.params.len() == 0 ==> params@.len() == 0,
                forall|j: int| 0 <= j < params@.len() ==> params@[j] == self.params@[j + 1].semantic,
            decreases self.params.len() - i,
        {
            params.push(self.params[i].semantic);
            i += 1;
        }
        let m = MethodSignature { name: self.name.clone(), params, ret: self.ret.semantic };
        assert(m@.params =~= schema_of(self@).params);
        m
    }

    /// The number of parameters, the receiver included.
    pub fn parameter_count(&self) -> (n: usize)
        ensures
            n == self@.params.len(),
    {
        self.params.len()
    }

    /// Checks a call before it is forwarded. The arguments start with the
    /// receiver. No pointer is followed here.
    pub fn check_call(&self, args: &Vec<RawValue>) -> (check: CallCheck)
        ensures
            check == check_call_spec(self@, args@),
    {
        let sentinel = sentinel_for(self.ret.semantic);
        if args.len() != self.params.len() {
            return CallCheck::Reject { reason: BoundaryError::VersionMismatch, sentinel };
        }
        let mut i: usize = 0;
        while i < args.len()
            invariant
                i <= args.len(),
                args.len() == self.params.len(),
                sentinel == failure_sentinel(self@.ret.semantic),
                forall|j: int| 0 <= j < i ==> raw_value_type(#[trigger] args@[j]) == self.params@[j].raw,
            decreases args.len() - i,
        {
            if args[i].raw_type() != self.params[i].raw {
                return CallCheck::Reject { reason: BoundaryError::VersionMismatch, sentinel };
            }
            i += 1;
        }
        let mut k: usize = 0;
        while k < args.len()
            invariant
                k <= args.len(),
                args.len() == self.params.len(),
                arguments_conform(self@.params, args@),
                sentinel == failure_sentinel(self@.ret.semantic),
                forall|j: int| 0 <= j < k ==> !null_where_required(self@.params, args@, j),
            decreases args.len() - k,
        {
            if args[k].is_null() && (k == 0 || self.params[k].semantic.is_required_pointer()) {
                assert(null_where_required(self@.params, args@, k as int));
                return CallCheck::Reject { reason: BoundaryError::NullArgument, sentinel };
            }
            k += 1;
        }
        CallCheck::Forward
    }

    /// Whether two trampolines have the same name, parameters and return
    /// type.
    pub fn same_as(&self, other: &Trampoline) -> (same: bool)
        ensures
            same == (self@ == other@),
    {
        if self.params.len() != other.params.len() {
            return false;
        }
        let mut i: usize = 0;
        while i < self.params.len()
            invariant
                i <= self.params.len(),
                self.params.len() == other.params.len(),
                forall|j: int| 0 <= j < i ==> self.params@[j] == other.params@[j],
            decreases self.params.len() - i,
        {
            if self.params[i] != other.params[i] {
                return false;
            }
            i += 1;
        }
        assert(self.params@ =~= other.params@);
        self.name == other.name && self.ret == other.ret
    }

    /// The failure sentinel of this trampoline's return type.
    pub fn reject(&self) -> (v: RawValue)
        ensures
            v == failure_sentinel(self@.ret.semantic),
    {
        sentinel_for(self.ret.semantic)
    }

    /// Reads a text argument of a forwarded call. Bytes that are valid
    /// UTF-8 are handed on as text; for any other bytes the call is answered
    /// with the failure sentinel.
    pub fn text_argument<'a>(&self, bytes: &'a [u8]) -> (text: Result<&'a str, CallCheck>)
        ensures
            valid_utf8(bytes@) ==> text is Ok && text->Ok_0.spec_bytes() == bytes@,
            !valid_utf8(bytes@) ==> text == Err::<&str, CallCheck>(
                CallCheck::Reject {
                    reason: BoundaryError::InvalidUtf8,
                    sentinel: failure_sentinel(self@.ret.semantic),
                },
            ),
    {
        match utf8_text(bytes) {
            Some(text) => Ok(text),
            None => Err(
                CallCheck::Reject {
                    reason: BoundaryError::InvalidUtf8,
                    sentinel: sentinel_for(self.ret.semantic),
                },
            ),
        }
    }

    /// The answer to a forwarded call whose implementing object cannot be
    /// locked because its lock is poisoned: the failure sentinel.
    pub fn poisoned(&self) -> (check: CallCheck)
        ensures
            check == (CallCheck::Reject {
                reason: BoundaryError::LockPoisoned,
                sentinel: failure_sentinel(self@.ret.semantic),
            }),
    {
        CallCheck::Reject {
            reason: BoundaryError::LockPoisoned,
            sentinel: sentinel_for(self.ret.semantic),
        }
    }
}

} // verus!
