//! Virtual tables and the records that carry them across the boundary.
//!
//! A [`VtableInstance`] holds one trampoline per interface method, in schema
//! order. A [`VtableWrapper`] pairs a table with shared ownership of the
//! object that implements the interface. The [`WrapperArena`] keeps every
//! wrapper alive until it is released by name, and hands out the
//! [`OpaquePointer`] under which the host knows it.

pub mod device;
pub mod display;
pub mod provider;

use crate::schema::{
    method_views, methods_of, InterfaceDescriptor, InterfaceDescriptorView, MethodSignature,
};
use crate::trampoline::{
    check_call_spec, failure_sentinel, trampoline_of, BoundaryError, CallCheck, RawValue,
    Trampoline, TrampolineView,
};
use std::sync::Arc;
use vstd::prelude::*;
use vstd::string::*;

verus! {

/// The table of trampolines for one version of one interface.
#[derive(Debug, Clone)]
pub struct VtableInstance {
    pub interface: String,
    pub version: u32,
    pub slots: Vec<Trampoline>,
}

/// A [`VtableInstance`] as a mathematical value.
pub struct VtableInstanceView {
    pub interface: Seq<char>,
    pub version: u32,
    pub slots: Seq<TrampolineView>,
}

/// The views of a list of trampolines, in the same order.
pub open spec fn trampoline_views(slots: Seq<Trampoline>) -> Seq<TrampolineView> {
    Seq::new(slots.len(), |i: int| slots[i]@)
}

impl View for VtableInstance {
    type V = VtableInstanceView;

    open spec fn view(&self) -> VtableInstanceView {
        VtableInstanceView {
            interface: self.interface@,
            version: self.version,
            slots: trampoline_views(self.slots@),
        }
    }
}

/// The trampolines of a method list: slot `i` forwards to method `i`.
pub open spec fn slots_of(methods: Seq<crate::schema::MethodSignatureView>) -> Seq<
    TrampolineView,
> {
    Seq::new(methods.len(), |i: int| trampoline_of(methods[i]))
}

/// The table for `version` of an interface: one slot per method, in the
/// order of the schema. There is none for a version the interface lacks.
pub open spec fn vtable_of(d: InterfaceDescriptorView, version: u32) -> Option<
    VtableInstanceView,
> {
    match methods_of(d, version) {
        Some(methods) => Some(
            VtableInstanceView { interface: d.name, version, slots: slots_of(methods) },
        ),
        None => None,
    }
}

/// A table has one slot per method of its version, slot `i` is the
/// trampoline of method `i`, and reading the method back from slot `i`
/// gives method `i`.
pub proof fn lemma_table_matches_schema(d: InterfaceDescriptorView, version: u32)
    requires
        methods_of(d, version) is Some,
    ensures
        vtable_of(d, version) is Some,
        vtable_of(d, version)->0.interface == d.name,
        vtable_of(d, version)->0.version == version,
        vtable_of(d, version)->0.slots.len() == methods_of(d, version)->0.len(),
        forall|i: int|
            0 <= i < methods_of(d, version)->0.len() ==> (#[trigger] vtable_of(
                d,
                version,
            )->0.slots[i]) == trampoline_of(methods_of(d, version)->0[i]),
        forall|i: int|
            0 <= i < methods_of(d, version)->0.len() ==> crate::trampoline::schema_of(
                #[trigger] vtable_of(d, version)->0.slots[i],
            ) == methods_of(d, version)->0[i],
{
    let methods = methods_of(d, version)->0;
    assert forall|i: int| 0 <= i < methods.len() implies crate::trampoline::schema_of(
        #[trigger] vtable_of(d, version)->0.slots[i],
    ) == methods[i] by {
        crate::trampoline::lemma_trampoline_matches_schema(methods[i]);
    }
}

fn build_slots(methods: &Vec<MethodSignature>) -> (slots: Vec<Trampoline>)
    ensures
        trampoline_views(slots@) == slots_of(method_views(methods@)),
{
    let mut slots: Vec<Trampoline> = Vec::new();
    let mut i: usize = 0;
    while i < methods.len()
        invariant
            i <= methods.len(),
            slots@.len() == i,
            forall|j: int| 0 <= j < i ==> (#[trigger] slots@[j])@ == trampoline_of(methods@[j]@),
        decreases methods.len() - i,
    {
        slots.push(Trampoline::generate(&methods[i]));
        i += 1;
    }
    slots
}

/// Builds the table for one version of an interface. Every method gets a
/// slot, none is reordered or left out. Returns `None` for a version the
/// interface does not have.
pub fn build_vtable(descriptor: &InterfaceDescriptor, version: u32) -> (table: Option<
    VtableInstance,
>)
    ensures
        match table {
            Some(t) => vtable_of(descriptor@, version) == Some(t@),
            None => vtable_of(descriptor@, version) is None,
        },
{
    match descriptor.methods(version) {
        Some(methods) => {
            let slots = build_slots(methods);
            Some(VtableInstance { interface: descriptor.name.clone(), version, slots })
        },
        None => None,
    }
}

/// The record handed across the boundary: the table first, then shared
/// ownership of the implementing object.
pub struct VtableWrapper<T, U> {
    pub base: T,
    pub this: Arc<U>,
}

impl<T, U> VtableWrapper<T, U> {
    /// Pairs a table with the object that implements it.
    pub fn new(base: T, this: Arc<U>) -> (w: Self)
        ensures
            w.base == base,
            w.this == this,
    {
        VtableWrapper { base, this }
    }

    /// The implementing object, still owned by the record.
    pub fn get_data(&self) -> (data: &Arc<U>)
        ensures
            *data == self.this,
    {
        &self.this
    }
}

/// The name under which the host knows a record. Zero is the null pointer.
#[derive(Debug, Clone, Copy, PartialEq, Eq, Structural)]
pub struct OpaquePointer {
    pub addr: usize,
}

impl OpaquePointer {
    /// The null pointer.
    pub fn null() -> (p: OpaquePointer)
        ensures
            p.addr == 0,
    {
        OpaquePointer { addr: 0 }
    }

    /// Whether this is the null pointer.
    pub open spec fn spec_is_null(&self) -> bool {
        self.addr == 0
    }

    /// Whether this is the null pointer.
    #[verifier::when_used_as_spec(spec_is_null)]
    pub fn is_null(&self) -> (b: bool)
        ensures
            b == self.spec_is_null(),
    {
        self.addr == 0
    }
}

/// Keeps the records that the host holds pointers to. A record stays where
/// it is until it is released by name; nothing else ends its life.
pub struct WrapperArena<R> {
    records: Vec<Option<R>>,
}

impl<R> View for WrapperArena<R> {
    type V = Seq<Option<R>>;

    closed spec fn view(&self) -> Seq<Option<R>> {
        self.records@
    }
}

/// Whether `p` names a record that is alive in an arena with these entries.
pub open spec fn is_live<R>(entries: Seq<Option<R>>, p: OpaquePointer) -> bool {
    1 <= p.addr <= entries.len() && entries[p.addr - 1] is Some
}

/// The pointer that an arena with `len` entries gives to its next record,
/// or null when it can name no further record.
pub open spec fn pointer_after(len: nat) -> OpaquePointer {
    if len < usize::MAX {
        OpaquePointer { addr: (len + 1) as usize }
    } else {
        OpaquePointer { addr: 0 }
    }
}

/// The pointer that the next wrapped record will get, or null when the
/// arena can name no further record.
pub open spec fn next_pointer<R>(entries: Seq<Option<R>>) -> OpaquePointer {
    pointer_after(entries.len())
}

/// Wrapping a record makes it the record that the returned pointer names,
/// and every record that was alive before stays alive under its pointer.
pub proof fn lemma_wrap_keeps_records<R>(entries: Seq<Option<R>>, record: R, q: OpaquePointer)
    requires
        !next_pointer(entries).is_null(),
    ensures
        is_live(entries.push(Some(record)), next_pointer(entries)),
        entries.push(Some(record))[next_pointer(entries).addr - 1] == Some(record),
        !is_live(entries, next_pointer(entries)),
        is_live(entries, q) ==> is_live(entries.push(Some(record)), q) && entries.push(
            Some(record),
        )[q.addr - 1] == entries[q.addr - 1],
{
}

/// Releasing a record ends its life and no other: every other record that
/// was alive stays alive under its pointer, and the released pointer names
/// nothing from then on.
pub proof fn lemma_release_ends_one_life<R>(
    entries: Seq<Option<R>>,
    p: OpaquePointer,
    q: OpaquePointer,
)
    requires
        is_live(entries, p),
    ensures
        !is_live(entries.update(p.addr - 1, None), p),
        q != p ==> is_live(entries.update(p.addr - 1, None), q) == is_live(entries, q),
        q != p && is_live(entries, q) ==> entries.update(p.addr - 1, None)[q.addr - 1]
            == entries[q.addr - 1],
{
}

impl<R> WrapperArena<R> {
    /// An arena without records.
    pub fn new() -> (arena: Self)
        ensures
            arena@ == Seq::<Option<R>>::empty(),
    {
        WrapperArena { records: Vec::new() }
    }

    /// How many records were ever wrapped.
    pub fn len(&self) -> (n: usize)
        ensures
            n == self@.len(),
    {
        self.records.len()
    }

    /// Whether `p` names a record that is alive.
    pub fn contains(&self, p: OpaquePointer) -> (live: bool)
        ensures
            live == is_live(self@, p),
    {
        p.addr >= 1 && p.addr <= self.records.len() && self.records[p.addr - 1].is_some()
    }

    /// Stores a record and returns the pointer that names it from now on.
    /// Records wrapped before keep their pointers. When the arena can name
    /// no further record, nothing is stored and the null pointer comes back
    /// together with the record.
    pub fn wrap(&mut self, record: R) -> (out: (OpaquePointer, Option<R>))
        ensures
            out.0 == next_pointer(old(self)@),
            !out.0.is_null() ==> final(self)@ == old(self)@.push(Some(record)) && out.1 is None
                && is_live(final(self)@, out.0),
            out.0.is_null() ==> final(self)@ == old(self)@ && out.1 == Some(record),
    {
        if self.records.len() == usize::MAX {
            return (OpaquePointer { addr: 0 }, Some(record));
        }
        self.records.push(Some(record));
        (OpaquePointer { addr: self.records.len() }, None)
    }

    /// The record that `p` names, or `None` when `p` is null, was never
    /// handed out, or names a record that was released.
    pub fn unwrap(&self, p: OpaquePointer) -> (record: Option<&R>)
        ensures
            is_live(self@, p) ==> record == Some(&self@[p.addr - 1]->0),
            !is_live(self@, p) ==> record is None,
    {
        if p.addr >= 1 && p.addr <= self.records.len() {
            self.records[p.addr - 1].as_ref()
        } else {
            None
        }
    }

    /// Ends the life of the record that `p` names and returns it. Every
    /// other record stays alive under its pointer.
    pub fn release(&mut self, p: OpaquePointer) -> (record: Option<R>)
        ensures
            is_live(old(self)@, p) ==> record == old(self)@[p.addr - 1] && final(self)@ == old(
                self,
            )@.update(p.addr - 1, None),
            !is_live(old(self)@, p) ==> record is None && final(self)@ == old(self)@,
    {
        if p.addr >= 1 && p.addr <= self.records.len() {
            let index = p.addr - 1;
            let taken = self.records[index].take();
            taken
        } else {
            None
        }
    }
}

/// What a trampoline does with a call, as a mathematical value: forward it
/// to the implementing object, or answer it at the boundary.
pub enum DispatchView<U> {
    Forward(Arc<U>),
    Reject { reason: BoundaryError, sentinel: RawValue },
}

/// What a trampoline does with a call: forward it to the implementing
/// object, or answer it at the boundary.
pub enum Dispatch<'a, U> {
    /// Call the method on this object.
    Forward(&'a Arc<U>),
    /// Return `sentinel`; the implementing object is not touched.
    Reject { reason: BoundaryError, sentinel: RawValue },
}

impl<'a, U> View for Dispatch<'a, U> {
    type V = DispatchView<U>;

    open spec fn view(&self) -> DispatchView<U> {
        match self {
            Dispatch::Forward(owner) => DispatchView::Forward(**owner),
            Dispatch::Reject { reason, sentinel } => DispatchView::Reject {
                reason: *reason,
                sentinel: *sentinel,
            },
        }
    }
}

/// Whether the record is one for `interface` at `version` whose slot `slot`
/// holds the trampoline `expected`.
pub open spec fn record_matches<U>(
    record: VtableWrapper<VtableInstance, U>,
    interface: Seq<char>,
    version: u32,
    slot: int,
    expected: TrampolineView,
) -> bool {
    &&& record.base@.interface == interface
    &&& record.base@.version == version
    &&& 0 <= slot < record.base@.slots.len()
    &&& record.base@.slots[slot] == expected
}

/// What the trampoline `expected`, which lies in slot `slot` of the table
/// of `interface` at `version`, does with a call whose arguments are `args`,
/// the receiver first.
///
/// A call that fails the boundary check is answered as the check says. A
/// receiver that names no live record, or a record of another interface,
/// version or layout, is answered as a version mismatch with the failure
/// sentinel. Every other call is forwarded to the object that the
/// receiver's record shares.
pub open spec fn dispatch_spec<U>(
    entries: Seq<Option<VtableWrapper<VtableInstance, U>>>,
    interface: Seq<char>,
    version: u32,
    slot: int,
    expected: TrampolineView,
    args: Seq<RawValue>,
) -> DispatchView<U> {
    match check_call_spec(expected, args) {
        CallCheck::Reject { reason, sentinel } => DispatchView::Reject { reason, sentinel },
        CallCheck::Forward => {
            let this = OpaquePointer { addr: args[0]->Pointer_0 };
            if args.len() > 0 && args[0] is Pointer && is_live(entries, this) && record_matches(
                entries[this.addr - 1]->0,
                interface,
                version,
                slot,
                expected,
            ) {
                DispatchView::Forward(entries[this.addr - 1]->0.this)
            } else {
                DispatchView::Reject {
                    reason: BoundaryError::VersionMismatch,
                    sentinel: failure_sentinel(expected.ret.semantic),
                }
            }
        },
    }
}

/// A call with a null receiver, or with a null pointer where the method
/// needs one, is answered with the failure sentinel whatever the arena
/// holds: no record is looked at.
pub proof fn lemma_dispatch_rejects_null<U>(
    before: Seq<Option<VtableWrapper<VtableInstance, U>>>,
    other: Seq<Option<VtableWrapper<VtableInstance, U>>>,
    interface: Seq<char>,
    version: u32,
    slot: int,
    expected: TrampolineView,
    args: Seq<RawValue>,
)
    requires
        crate::trampoline::arguments_conform(expected.params, args),
        crate::trampoline::has_null_where_required(expected.params, args),
    ensures
        dispatch_spec(before, interface, version, slot, expected, args) == (
        DispatchView::<U>::Reject {
            reason: BoundaryError::NullArgument,
            sentinel: failure_sentinel(expected.ret.semantic),
        }),
        dispatch_spec(other, interface, version, slot, expected, args) == dispatch_spec(
            before,
            interface,
            version,
            slot,
            expected,
            args,
        ),
{
}

/// Recovers the implementing object for a call that arrives through slot
/// `slot` of the table of `interface` at `version`, or decides that the
/// call is answered at the boundary. See [`dispatch_spec`].
pub fn dispatch<'a, U>(
    arena: &'a WrapperArena<VtableWrapper<VtableInstance, U>>,
    interface: &str,
    version: u32,
    slot: usize,
    expected: &Trampoline,
    args: &Vec<RawValue>,
) -> (decision: Dispatch<'a, U>)
    ensures
        decision@ == dispatch_spec(arena@, interface@, version, slot as int, expected@, args@),
{
    match expected.check_call(args) {
        CallCheck::Reject { reason, sentinel } => Dispatch::Reject { reason, sentinel },
        CallCheck::Forward => {
            let mismatch = Dispatch::Reject {
                reason: BoundaryError::VersionMismatch,
                sentinel: expected.reject(),
            };
            if args.len() == 0 {
                return mismatch;
            }
            let this = match args[0] {
                RawValue::Pointer(addr) => OpaquePointer { addr },
                _ => {
                    return mismatch;
                },
            };
            match arena.unwrap(this) {
                None => mismatch,
                Some(record) => {
                    let wanted = String::from_str(interface);
                    if record.base.interface == wanted && record.base.version == version && slot
                        < record.base.slots.len() {
                        if record.base.slots[slot].same_as(expected) {
                            Dispatch::Forward(record.get_data())
                        } else {
                            mismatch
                        }
                    } else {
                        mismatch
                    }
                },
            }
        },
    }
}

} // verus!
