//! The multi-version registry: for one implementing object, one lazily
//! filled slot per supported version of an interface.
//!
//! A slot starts empty. The first request for its version builds the table,
//! wraps it together with the implementing object and stores the pointer;
//! from then on the slot never changes and every request gets that pointer.

use crate::naming::{interface_version_name, lemma_version_name_injective, version_name};
use crate::schema::{
    first_position, lemma_first_position, lemma_version_position, version_position,
    InterfaceDescriptor, InterfaceDescriptorView, InterfaceVersionView,
};
use crate::vtables::{
    build_vtable, is_live, next_pointer, pointer_after, vtable_of, OpaquePointer, VtableInstance, VtableWrapper,
    WrapperArena,
};
use std::sync::Arc;
use vstd::prelude::*;
use vstd::string::*;

verus! {

/// The arena that holds the records of one kind of implementing object.
pub type RecordArena<U> = WrapperArena<VtableWrapper<VtableInstance, U>>;

/// The slots of one implementing object for the versions of one interface.
pub struct VersionRegistry {
    descriptor: InterfaceDescriptor,
    slots: Vec<Option<OpaquePointer>>,
}

/// A [`VersionRegistry`] as a mathematical value: the interface and, for the
/// version at each position, the pointer in its slot if it was filled.
pub struct RegistryView {
    pub descriptor: InterfaceDescriptorView,
    pub slots: Seq<Option<OpaquePointer>>,
}

impl View for VersionRegistry {
    type V = RegistryView;

    closed spec fn view(&self) -> RegistryView {
        RegistryView { descriptor: self.descriptor@, slots: self.slots@ }
    }
}

/// Whether a registry is well formed: it has one slot per version, and no
/// filled slot holds the null pointer. Every registry is.
pub open spec fn registry_wf(r: RegistryView) -> bool {
    &&& r.slots.len() == r.descriptor.versions.len()
    &&& forall|i: int| 0 <= i < r.slots.len() && (#[trigger] r.slots[i]) is Some ==> !r.slots[i]->0.is_null()
}

/// A request keeps a well-formed registry well formed, and the pointer it
/// returns is never null.
pub proof fn lemma_step_keeps_wf(r: RegistryView, next: OpaquePointer, version: u32)
    requires
        registry_wf(r),
    ensures
        registry_wf(
            RegistryView {
                descriptor: r.descriptor,
                slots: registry_step(r.descriptor, r.slots, next, version).slots,
            },
        ),
        registry_step(r.descriptor, r.slots, next, version).result is Some ==> !registry_step(
            r.descriptor,
            r.slots,
            next,
            version,
        ).result->0.is_null(),
{
    lemma_version_position(r.descriptor.versions, version);
}

/// Whether the registry's records are in the arena: every filled slot names
/// a record that is alive there and that holds the table of the slot's
/// version.
pub open spec fn slots_in_arena<U>(
    r: RegistryView,
    entries: Seq<Option<VtableWrapper<VtableInstance, U>>>,
) -> bool {
    forall|i: int|
        0 <= i < r.slots.len() && (#[trigger] r.slots[i]) is Some ==> {
            &&& is_live(entries, r.slots[i]->0)
            &&& Some(entries[r.slots[i]->0.addr - 1]->0.base@) == vtable_of(
                r.descriptor,
                r.descriptor.versions[i].version,
            )
        }
}

/// While the registry's records are in the arena, the slots of two
/// different versions never hold the same pointer.
pub proof fn lemma_versions_have_own_records<U>(
    r: RegistryView,
    entries: Seq<Option<VtableWrapper<VtableInstance, U>>>,
    i: int,
    j: int,
)
    requires
        registry_wf(r),
        slots_in_arena(r, entries),
        0 <= i < r.slots.len(),
        0 <= j < r.slots.len(),
        r.slots[i] is Some,
        r.slots[j] is Some,
        r.descriptor.versions[i].version != r.descriptor.versions[j].version,
    ensures
        r.slots[i] != r.slots[j],
{
    if r.slots[i] == r.slots[j] {
        let base = entries[r.slots[i]->0.addr - 1]->0.base@;
        assert(Some(base) == vtable_of(r.descriptor, r.descriptor.versions[i].version));
        assert(Some(base) == vtable_of(r.descriptor, r.descriptor.versions[j].version));
        assert(base.version == r.descriptor.versions[i].version);
        assert(base.version == r.descriptor.versions[j].version);
    }
}

/// What one request does to the slots: the slots after it, whether a record
/// was constructed, and the pointer returned.
pub struct RegistryStep {
    pub slots: Seq<Option<OpaquePointer>>,
    pub constructed: bool,
    pub result: Option<OpaquePointer>,
}

/// The effect of requesting `version` when the slots are `slots` and the
/// arena would name its next record `next` (null when it can name no more).
///
/// An unsupported version changes nothing and returns nothing. A filled slot
/// returns its pointer. An empty slot is filled with `next` and returns it,
/// unless `next` is null.
pub open spec fn registry_step(
    d: InterfaceDescriptorView,
    slots: Seq<Option<OpaquePointer>>,
    next: OpaquePointer,
    version: u32,
) -> RegistryStep {
    match version_position(d.versions, version) {
        None => RegistryStep { slots, constructed: false, result: None },
        Some(i) => match slots[i] {
            Some(p) => RegistryStep { slots, constructed: false, result: Some(p) },
            None => if next.is_null() {
                RegistryStep { slots, constructed: false, result: None }
            } else {
                RegistryStep {
                    slots: slots.update(i, Some(next)),
                    constructed: true,
                    result: Some(next),
                }
            },
        },
    }
}

/// A request for a supported version succeeds whenever the arena can name
/// one more record, and a second request for the same version returns the
/// identical pointer without constructing anything, whatever happened to
/// the arena in between.
pub proof fn lemma_get_or_init_idempotent(
    d: InterfaceDescriptorView,
    slots: Seq<Option<OpaquePointer>>,
    next: OpaquePointer,
    later: OpaquePointer,
    version: u32,
)
    requires
        slots.len() == d.versions.len(),
    ensures
        version_position(d.versions, version) is Some && !next.is_null() ==> registry_step(
            d,
            slots,
            next,
            version,
        ).result is Some,
        registry_step(d, slots, next, version).result is Some ==> registry_step(
            d,
            registry_step(d, slots, next, version).slots,
            later,
            version,
        ) == (RegistryStep {
            slots: registry_step(d, slots, next, version).slots,
            constructed: false,
            result: registry_step(d, slots, next, version).result,
        }),
{
    lemma_version_position(d.versions, version);
}

/// A filled slot is terminal: no request, for any version, empties it or
/// changes the pointer in it.
pub proof fn lemma_filled_slot_is_terminal(
    d: InterfaceDescriptorView,
    slots: Seq<Option<OpaquePointer>>,
    next: OpaquePointer,
    version: u32,
    i: int,
)
    requires
        slots.len() == d.versions.len(),
        0 <= i < slots.len(),
        slots[i] is Some,
    ensures
        registry_step(d, slots, next, version).slots.len() == slots.len(),
        registry_step(d, slots, next, version).slots[i] == slots[i],
{
    lemma_version_position(d.versions, version);
}

/// What `count` requests for one version, made one after another, return
/// and how many records they construct.
pub struct RepeatedRequests {
    pub results: Seq<Option<OpaquePointer>>,
    pub constructions: nat,
}

/// The outcome of `count` successive requests for `version`, starting from
/// `slots` with an arena of `arena_len` entries.
pub open spec fn repeated_requests(
    d: InterfaceDescriptorView,
    slots: Seq<Option<OpaquePointer>>,
    arena_len: nat,
    version: u32,
    count: nat,
) -> RepeatedRequests
    decreases count,
{
    if count == 0 {
        RepeatedRequests { results: Seq::empty(), constructions: 0 }
    } else {
        let step = registry_step(d, slots, pointer_after(arena_len), version);
        let built: nat = if step.constructed {
            1
        } else {
            0
        };
        let rest = repeated_requests(
            d,
            step.slots,
            arena_len + built,
            version,
            (count - 1) as nat,
        );
        RepeatedRequests {
            results: seq![step.result] + rest.results,
            constructions: built + rest.constructions,
        }
    }
}

/// Requests for a version whose slot is already filled construct nothing
/// and all return the pointer in the slot.
pub proof fn lemma_requests_after_fill(
    d: InterfaceDescriptorView,
    slots: Seq<Option<OpaquePointer>>,
    arena_len: nat,
    version: u32,
    count: nat,
)
    requires
        slots.len() == d.versions.len(),
        version_position(d.versions, version) is Some,
        slots[version_position(d.versions, version)->0] is Some,
    ensures
        repeated_requests(d, slots, arena_len, version, count).constructions == 0,
        repeated_requests(d, slots, arena_len, version, count).results.len() == count,
        forall|j: int|
            0 <= j < count ==> #[trigger] repeated_requests(
                d,
                slots,
                arena_len,
                version,
                count,
            ).results[j] == slots[version_position(d.versions, version)->0],
    decreases count,
{
    lemma_version_position(d.versions, version);
    if count > 0 {
        lemma_requests_after_fill(d, slots, arena_len, version, (count - 1) as nat);
    }
}

/// However many requests are made for one supported version whose slot is
/// empty, exactly one record is constructed and every request returns the
/// same pointer, the one that names that record.
pub proof fn lemma_single_construction(
    d: InterfaceDescriptorView,
    slots: Seq<Option<OpaquePointer>>,
    arena_len: nat,
    version: u32,
    count: nat,
)
    requires
        slots.len() == d.versions.len(),
        version_position(d.versions, version) is Some,
        slots[version_position(d.versions, version)->0] is None,
        arena_len < usize::MAX,
        count >= 1,
    ensures
        repeated_requests(d, slots, arena_len, version, count).constructions == 1,
        repeated_requests(d, slots, arena_len, version, count).results.len() == count,
        forall|j: int|
            0 <= j < count ==> #[trigger] repeated_requests(
                d,
                slots,
                arena_len,
                version,
                count,
            ).results[j] == Some(pointer_after(arena_len)),
{
    lemma_version_position(d.versions, version);
    let step = registry_step(d, slots, pointer_after(arena_len), version);
    lemma_requests_after_fill(d, step.slots, arena_len + 1, version, (count - 1) as nat);
}

fn with_slot(slots: &Vec<Option<OpaquePointer>>, i: usize, p: OpaquePointer) -> (filled: Vec<
    Option<OpaquePointer>,
>)
    requires
        i < slots.len(),
    ensures
        filled@ == slots@.update(i as int, Some(p)),
{
    let mut filled: Vec<Option<OpaquePointer>> = Vec::new();
    let mut k: usize = 0;
    while k < slots.len()
        invariant
            k <= slots.len(),
            i < slots.len(),
            filled@.len() == k,
            forall|j: int|
                0 <= j < k ==> filled@[j] == if j == i {
                    Some(p)
                } else {
                    slots@[j]
                },
        decreases slots.len() - k,
    {
        if k == i {
            filled.push(Some(p));
        } else {
            filled.push(slots[k]);
        }
        k += 1;
    }
    filled
}

/// Gives a second handle to a shared object.
///
/// Calls `Arc::clone`, which returns another pointer to the same allocation:
/// the new handle holds the very object that `this` holds.
#[verifier::external_body]
fn share<U>(this: &Arc<U>) -> (shared: Arc<U>)
    ensures
        shared == *this,
{
    Arc::clone(this)
}

/// The supported version that is requested under `name`: the first version
/// in declaration order whose name is exactly `name`.
pub open spec fn resolved_version(d: InterfaceDescriptorView, name: Seq<char>) -> Option<u32> {
    match first_position(
        d.versions,
        |e: InterfaceVersionView| name == version_name(d.name, e.version as nat),
    ) {
        Some(i) => Some(d.versions[i].version),
        None => None,
    }
}

/// A name resolves to a version exactly when it is the name of a supported
/// version, and then to that version and no other.
pub proof fn lemma_resolved_version(d: InterfaceDescriptorView, name: Seq<char>)
    ensures
        match resolved_version(d, name) {
            Some(v) => version_position(d.versions, v) is Some && name == version_name(
                d.name,
                v as nat,
            ),
            None => forall|i: int|
                0 <= i < d.versions.len() ==> name != version_name(
                    d.name,
                    #[trigger] d.versions[i].version as nat,
                ),
        },
        forall|v: u32|
            version_position(d.versions, v) is Some && name == version_name(d.name, v as nat)
                ==> resolved_version(d, name) == Some(v),
{
    let f = |e: InterfaceVersionView| name == version_name(d.name, e.version as nat);
    lemma_first_position(d.versions, f);
    match resolved_version(d, name) {
        Some(v) => {
            lemma_version_position(d.versions, v);
        },
        None => {},
    }
    assert forall|v: u32|
        version_position(d.versions, v) is Some && name == version_name(
            d.name,
            v as nat,
        ) implies resolved_version(d, name) == Some(v) by {
        lemma_version_position(d.versions, v);
        let i = version_position(d.versions, v)->0;
        let w = resolved_version(d, name)->0;
        lemma_version_name_injective(d.name, v as nat, w as nat);
    }
}

/// The version numbers of an interface, in declaration order.
pub open spec fn version_numbers(d: InterfaceDescriptorView) -> Seq<u32> {
    Seq::new(d.versions.len(), |i: int| d.versions[i].version)
}

impl VersionRegistry {
    /// A registry for the versions of `descriptor`, with every slot empty.
    pub fn new(descriptor: InterfaceDescriptor) -> (registry: Self)
        ensures
            registry@.descriptor == descriptor@,
            registry@.slots == Seq::new(descriptor@.versions.len(), |i: int| None::<OpaquePointer>),
            registry_wf(registry@),
    {
        let mut slots: Vec<Option<OpaquePointer>> = Vec::new();
        let mut i: usize = 0;
        while i < descriptor.versions.len()
            invariant
                i <= descriptor.versions.len(),
                slots@.len() == i,
                forall|j: int| 0 <= j < i ==> slots@[j] is None,
            decreases descriptor.versions.len() - i,
        {
            slots.push(None);
            i += 1;
        }
        VersionRegistry { descriptor, slots }
    }

    #[verifier::type_invariant]
    spec fn well_formed(&self) -> bool {
        &&& self.slots.len() == self.descriptor.versions.len()
        &&& forall|i: int|
            0 <= i < self.slots.len() && (#[trigger] self.slots[i]) is Some
                ==> self.slots[i]->0.addr != 0
    }

    /// The interface whose versions this registry serves.
    pub fn descriptor(&self) -> (d: &InterfaceDescriptor)
        ensures
            d@ == self@.descriptor,
            registry_wf(self@),
    {
        proof {
            use_type_invariant(self);
        }
        &self.descriptor
    }

    /// The supported version numbers, in declaration order.
    pub fn supported_versions(&self) -> (versions: Vec<u32>)
        ensures
            versions@ == version_numbers(self@.descriptor),
    {
        let mut versions: Vec<u32> = Vec::new();
        let mut i: usize = 0;
        while i < self.descriptor.versions.len()
            invariant
                i <= self.descriptor.versions.len(),
                versions@.len() == i,
                forall|j: int| 0 <= j < i ==> versions@[j] == self.descriptor@.versions[j].version,
            decreases self.descriptor.versions.len() - i,
        {
            versions.push(self.descriptor.versions[i].version);
            i += 1;
        }
        versions
    }

    /// The pointer in the slot of `version`, without filling it: `None` for
    /// an unsupported version and for an empty slot.
    pub fn peek(&self, version: u32) -> (p: Option<OpaquePointer>)
        ensures
            p == match version_position(self@.descriptor.versions, version) {
                Some(i) => self@.slots[i],
                None => None,
            },
    {
        proof {
            use_type_invariant(self);
        }
        match self.descriptor.find_version(version) {
            Some(i) => self.slots[i],
            None => None,
        }
    }

    /// The supported version that is requested under `name`: the version
    /// whose name is exactly `name`, or `None` when no supported version has
    /// that name.
    pub fn resolve(&self, name: &str) -> (version: Option<u32>)
        ensures
            version == resolved_version(self@.descriptor, name@),
    {
        let wanted = String::from_str(name);
        let ghost f = |e: InterfaceVersionView|
            name@ == version_name(self@.descriptor.name, e.version as nat);
        let mut i: usize = 0;
        while i < self.descriptor.versions.len()
            invariant
                i <= self.descriptor.versions.len(),
                wanted@ == name@,
                f == |e: InterfaceVersionView|
                    name@ == version_name(self@.descriptor.name, e.version as nat),
                forall|j: int| 0 <= j < i ==> !f(self.descriptor@.versions[j]),
            decreases self.descriptor.versions.len() - i,
        {
            assert(self.descriptor@.versions[i as int] == self.descriptor.versions@[i as int]@);
            let v = self.descriptor.versions[i].version;
            let candidate = interface_version_name(self.descriptor.name.as_str(), v);
            if candidate == wanted {
                proof {
                    lemma_first_position(self.descriptor@.versions, f);
                }
                return Some(v);
            }
            i += 1;
        }
        proof {
            lemma_first_position(self.descriptor@.versions, f);
        }
        None
    }

    /// Returns the pointer for `version`, constructing the table and its
    /// wrapper on the first request.
    ///
    /// `None` comes back for a version that is not supported, and for an
    /// empty slot when the arena can name no further record. Otherwise the
    /// pointer in the slot is returned; an empty slot is first filled with a
    /// new record that holds the table of `version` and shares `this`.
    pub fn get_or_init<U>(
        &mut self,
        version: u32,
        arena: &mut RecordArena<U>,
        this: &Arc<U>,
    ) -> (result: Option<OpaquePointer>)
        ensures
            final(self)@.descriptor == old(self)@.descriptor,
            registry_wf(old(self)@),
            registry_wf(final(self)@),
            slots_in_arena(old(self)@, old(arena)@) ==> slots_in_arena(final(self)@, final(arena)@),
            ({
                let step = registry_step(
                    old(self)@.descriptor,
                    old(self)@.slots,
                    next_pointer(old(arena)@),
                    version,
                );
                &&& result == step.result
                &&& final(self)@.slots == step.slots
                &&& !step.constructed ==> final(arena)@ == old(arena)@
                &&& step.constructed ==> {
                    &&& final(arena)@.len() == old(arena)@.len() + 1
                    &&& final(arena)@.drop_last() == old(arena)@
                    &&& final(arena)@.last() is Some
                    &&& Some(final(arena)@.last()->0.base@) == vtable_of(
                        old(self)@.descriptor,
                        version,
                    )
                    &&& final(arena)@.last()->0.this == *this
                }
            }),
    {
        proof {
            use_type_invariant(&*self);
        }
        match self.descriptor.find_version(version) {
            None => None,
            Some(i) => {
                match self.slots[i] {
                    Some(p) => Some(p),
                    None => {
                        if arena.len() == usize::MAX {
                            return None;
                        }
                        match build_vtable(&self.descriptor, version) {
                            None => None,
                            Some(table) => {
                                let record = VtableWrapper::new(table, share(this));
                                let (p, _) = arena.wrap(record);
                                self.slots = with_slot(&self.slots, i, p);
                                proof {
                                    lemma_version_position(old(self)@.descriptor.versions, version);
                                    if slots_in_arena(old(self)@, old(arena)@) {
                                        assert forall|k: int|
                                            0 <= k < self@.slots.len() && (
                                            #[trigger] self@.slots[k]) is Some implies is_live(
                                            arena@,
                                            self@.slots[k]->0,
                                        ) && Some(arena@[self@.slots[k]->0.addr - 1]->0.base@)
                                            == vtable_of(
                                            self@.descriptor,
                                            self@.descriptor.versions[k].version,
                                        ) by {
                                            if k != i {
                                                assert(old(self)@.slots[k] is Some);
                                            }
                                        }
                                    }
                                }
                                Some(p)
                            },
                        }
                    },
                }
            },
        }
    }
}

} // verus!
