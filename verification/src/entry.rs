//! The driver factory: the one function the host calls by name when it loads
//! the driver, to ask for an interface by its versioned name.

use crate::error::{
    InitError, INIT_ERROR_INTERFACE_NOT_FOUND, INIT_ERROR_INVALID_INTERFACE, INIT_ERROR_NONE,
};
use crate::registry::{
    lemma_get_or_init_idempotent, lemma_resolved_version, lemma_step_keeps_wf, registry_step, registry_wf,
    resolved_version, slots_in_arena, RecordArena, RegistryView, VersionRegistry,
};
use crate::text::utf8_text;
use crate::schema::{lemma_version_position, version_position};
use crate::vtables::{next_pointer, pointer_after, vtable_of, OpaquePointer};
use std::sync::Arc;
use vstd::prelude::*;
use vstd::string::*;
use vstd::utf8::{decode_utf8, valid_utf8};

verus! {

/// What the factory hands back: the pointer it returns and the code it
/// writes through the host's error slot. `code` is `None` when nothing is
/// written.
#[derive(Debug, Clone, Copy, PartialEq, Eq, Structural)]
pub struct EntryOutcome {
    pub pointer: OpaquePointer,
    pub code: Option<InitError>,
}

/// The outcome for a request that comes without a place for the error
/// code: null, and nothing is written.
pub open spec fn entry_ignored() -> EntryOutcome {
    EntryOutcome { pointer: OpaquePointer { addr: 0 }, code: None }
}

/// The outcome for a request that is refused with `code`.
pub open spec fn entry_refused(code: i32) -> EntryOutcome {
    EntryOutcome { pointer: OpaquePointer { addr: 0 }, code: Some(InitError { code }) }
}

/// The outcome of a factory call.
///
/// `name` is the requested interface name (`None` for a null pointer) and
/// `has_return_slot` says whether the host gave a place for the error code.
/// Without that place, null is returned and nothing is written. With it,
/// every answer writes a code: a null name is refused as not found, a name
/// that is not UTF-8 is refused as an invalid interface, and a name that no
/// supported version carries is refused as not found. Otherwise the
/// registry answers: its pointer comes back with the success code, and if
/// it has none to give the request is refused as not found.
pub open spec fn entry_outcome(
    registry: RegistryView,
    next: OpaquePointer,
    name: Option<Seq<u8>>,
    has_return_slot: bool,
) -> EntryOutcome {
    if !has_return_slot {
        entry_ignored()
    } else {
        match name {
            None => entry_refused(INIT_ERROR_INTERFACE_NOT_FOUND),
            Some(bytes) => if !valid_utf8(bytes) {
                entry_refused(INIT_ERROR_INVALID_INTERFACE)
            } else {
                match resolved_version(registry.descriptor, decode_utf8(bytes)) {
                    None => entry_refused(INIT_ERROR_INTERFACE_NOT_FOUND),
                    Some(v) => match registry_step(
                        registry.descriptor,
                        registry.slots,
                        next,
                        v,
                    ).result {
                        Some(p) => EntryOutcome {
                            pointer: p,
                            code: Some(InitError { code: INIT_ERROR_NONE }),
                        },
                        None => entry_refused(INIT_ERROR_INTERFACE_NOT_FOUND),
                    },
                }
            },
        }
    }
}

/// The slots of the registry after a factory call: those after the
/// registry's own step when the name resolves to a version, unchanged
/// otherwise.
pub open spec fn entry_slots(
    registry: RegistryView,
    next: OpaquePointer,
    name: Option<Seq<u8>>,
    has_return_slot: bool,
) -> Seq<Option<OpaquePointer>> {
    match entry_version(registry, name, has_return_slot) {
        Some(v) => registry_step(registry.descriptor, registry.slots, next, v).slots,
        None => registry.slots,
    }
}

/// Whether a factory call constructs a record: it does when the name
/// resolves to a version whose slot is empty and the arena can name one more
/// record.
pub open spec fn entry_constructs(
    registry: RegistryView,
    next: OpaquePointer,
    name: Option<Seq<u8>>,
    has_return_slot: bool,
) -> bool {
    match entry_version(registry, name, has_return_slot) {
        Some(v) => registry_step(registry.descriptor, registry.slots, next, v).constructed,
        None => false,
    }
}

/// The version that a factory call asks the registry for, if it gets that
/// far.
pub open spec fn entry_version(
    registry: RegistryView,
    name: Option<Seq<u8>>,
    has_return_slot: bool,
) -> Option<u32> {
    match name {
        None => None,
        Some(bytes) => if has_return_slot && valid_utf8(bytes) {
            resolved_version(registry.descriptor, decode_utf8(bytes))
        } else {
            None
        },
    }
}

/// A request whose name is not that of a supported version gets the null
/// pointer and a nonzero error code, and changes no slot.
pub proof fn lemma_unsupported_name_refused(
    registry: RegistryView,
    next: OpaquePointer,
    bytes: Seq<u8>,
)
    requires
        !valid_utf8(bytes) || resolved_version(registry.descriptor, decode_utf8(bytes)) is None,
    ensures
        entry_outcome(registry, next, Some(bytes), true).pointer.is_null(),
        entry_outcome(registry, next, Some(bytes), true).code is Some,
        entry_outcome(registry, next, Some(bytes), true).code->0.code != 0,
        entry_slots(registry, next, Some(bytes), true) == registry.slots,
        !entry_constructs(registry, next, Some(bytes), true),
{
}

/// Whenever the host gives a place for the error code, the factory writes
/// one: zero together with a pointer that is not null, or a nonzero code
/// together with the null pointer. A null name is among the requests that
/// are refused. Without that place the factory returns null.
pub proof fn lemma_every_answer_has_a_code(
    registry: RegistryView,
    next: OpaquePointer,
    name: Option<Seq<u8>>,
)
    requires
        registry_wf(registry),
    ensures
        entry_outcome(registry, next, name, true).code is Some,
        entry_outcome(registry, next, name, true).pointer.is_null() <==> entry_outcome(
            registry,
            next,
            name,
            true,
        ).code->0.code != 0,
        entry_outcome(registry, next, None, true) == entry_refused(INIT_ERROR_INTERFACE_NOT_FOUND),
        entry_outcome(registry, next, name, false) == entry_ignored(),
        entry_slots(registry, next, None, true) == registry.slots,
        entry_slots(registry, next, name, false) == registry.slots,
{
    match entry_version(registry, name, true) {
        Some(v) => {
            lemma_step_keeps_wf(registry, next, v);
        },
        None => {},
    }
}

/// The factory answers with a pointer that is not null exactly when it
/// writes the success code; a null pointer comes with a nonzero code or
/// with no code at all.
pub proof fn lemma_success_means_pointer(
    registry: RegistryView,
    next: OpaquePointer,
    name: Option<Seq<u8>>,
    has_return_slot: bool,
)
    requires
        registry_wf(registry),
    ensures
        !entry_outcome(registry, next, name, has_return_slot).pointer.is_null() <==> entry_outcome(
            registry,
            next,
            name,
            has_return_slot,
        ).code == Some(InitError { code: INIT_ERROR_NONE }),
        registry_wf(
            RegistryView {
                descriptor: registry.descriptor,
                slots: entry_slots(registry, next, name, has_return_slot),
            },
        ),
{
    match entry_version(registry, name, has_return_slot) {
        Some(v) => {
            lemma_step_keeps_wf(registry, next, v);
        },
        None => {},
    }
}

/// A request that succeeded succeeds again with the identical pointer,
/// whatever the arena has become in between, and changes no slot.
pub proof fn lemma_entry_point_repeatable(
    registry: RegistryView,
    next: OpaquePointer,
    later: OpaquePointer,
    bytes: Seq<u8>,
)
    requires
        registry_wf(registry),
        !entry_outcome(registry, next, Some(bytes), true).pointer.is_null(),
    ensures
        entry_outcome(registry, next, Some(bytes), true).code == Some(
            InitError { code: INIT_ERROR_NONE },
        ),
        entry_outcome(
            RegistryView {
                descriptor: registry.descriptor,
                slots: entry_slots(registry, next, Some(bytes), true),
            },
            later,
            Some(bytes),
            true,
        ) == entry_outcome(registry, next, Some(bytes), true),
        entry_slots(
            RegistryView {
                descriptor: registry.descriptor,
                slots: entry_slots(registry, next, Some(bytes), true),
            },
            later,
            Some(bytes),
            true,
        ) == entry_slots(registry, next, Some(bytes), true),
{
    let v = resolved_version(registry.descriptor, decode_utf8(bytes))->0;
    lemma_get_or_init_idempotent(registry.descriptor, registry.slots, next, later, v);
}

/// What `count` factory calls for one name, made one after another with a
/// place for the error code, return and how many records they construct.
pub struct RepeatedCalls {
    pub outcomes: Seq<EntryOutcome>,
    pub constructions: nat,
}

/// The outcome of `count` successive factory calls for `name`, starting
/// from `registry` with an arena of `arena_len` entries.
pub open spec fn repeated_calls(
    registry: RegistryView,
    arena_len: nat,
    name: Option<Seq<u8>>,
    count: nat,
) -> RepeatedCalls
    decreases count,
{
    if count == 0 {
        RepeatedCalls { outcomes: Seq::empty(), constructions: 0 }
    } else {
        let next = pointer_after(arena_len);
        let built: nat = if entry_constructs(registry, next, name, true) {
            1
        } else {
            0
        };
        let rest = repeated_calls(
            RegistryView {
                descriptor: registry.descriptor,
                slots: entry_slots(registry, next, name, true),
            },
            arena_len + built,
            name,
            (count - 1) as nat,
        );
        RepeatedCalls {
            outcomes: seq![entry_outcome(registry, next, name, true)] + rest.outcomes,
            constructions: built + rest.constructions,
        }
    }
}

/// Factory calls for a name whose version already has its record construct
/// nothing and all return the pointer of that record with the success code.
pub proof fn lemma_calls_after_construction(
    registry: RegistryView,
    arena_len: nat,
    bytes: Seq<u8>,
    count: nat,
)
    requires
        registry_wf(registry),
        entry_version(registry, Some(bytes), true) is Some,
        registry.slots[version_position(
            registry.descriptor.versions,
            entry_version(registry, Some(bytes), true)->0,
        )->0] is Some,
    ensures
        repeated_calls(registry, arena_len, Some(bytes), count).constructions == 0,
        repeated_calls(registry, arena_len, Some(bytes), count).outcomes.len() == count,
        forall|j: int|
            0 <= j < count ==> #[trigger] repeated_calls(
                registry,
                arena_len,
                Some(bytes),
                count,
            ).outcomes[j] == (EntryOutcome {
                pointer: registry.slots[version_position(
                    registry.descriptor.versions,
                    entry_version(registry, Some(bytes), true)->0,
                )->0]->0,
                code: Some(InitError { code: INIT_ERROR_NONE }),
            }),
    decreases count,
{
    let v = entry_version(registry, Some(bytes), true)->0;
    lemma_resolved_version(registry.descriptor, decode_utf8(bytes));
    lemma_version_position(registry.descriptor.versions, v);
    if count > 0 {
        let next = pointer_after(arena_len);
        assert(entry_slots(registry, next, Some(bytes), true) == registry.slots);
        assert(RegistryView {
            descriptor: registry.descriptor,
            slots: entry_slots(registry, next, Some(bytes), true),
        } == registry);
        lemma_calls_after_construction(registry, arena_len, bytes, (count - 1) as nat);
    }
}

/// However many factory calls are made for one supported name whose
/// version has no record yet, exactly one record is constructed and every
/// call returns the same pointer, the one that names that record, with the
/// success code.
pub proof fn lemma_factory_constructs_once(
    registry: RegistryView,
    arena_len: nat,
    bytes: Seq<u8>,
    count: nat,
)
    requires
        registry_wf(registry),
        entry_version(registry, Some(bytes), true) is Some,
        registry.slots[version_position(
            registry.descriptor.versions,
            entry_version(registry, Some(bytes), true)->0,
        )->0] is None,
        arena_len < usize::MAX,
        count >= 1,
    ensures
        repeated_calls(registry, arena_len, Some(bytes), count).constructions == 1,
        repeated_calls(registry, arena_len, Some(bytes), count).outcomes.len() == count,
        forall|j: int|
            0 <= j < count ==> #[trigger] repeated_calls(
                registry,
                arena_len,
                Some(bytes),
                count,
            ).outcomes[j] == (EntryOutcome {
                pointer: pointer_after(arena_len),
                code: Some(InitError { code: INIT_ERROR_NONE }),
            }),
{
    let v = entry_version(registry, Some(bytes), true)->0;
    let next = pointer_after(arena_len);
    lemma_resolved_version(registry.descriptor, decode_utf8(bytes));
    lemma_version_position(registry.descriptor.versions, v);
    lemma_step_keeps_wf(registry, next, v);
    let after = RegistryView {
        descriptor: registry.descriptor,
        slots: entry_slots(registry, next, Some(bytes), true),
    };
    let i = version_position(registry.descriptor.versions, v)->0;
    let step = registry_step(registry.descriptor, registry.slots, next, v);
    assert(!next.is_null());
    assert(step.constructed && step.result == Some(next));
    assert(after.slots == step.slots);
    assert(after.slots[i] == Some(next));
    assert(entry_version(after, Some(bytes), true) == Some(v));
    assert(entry_constructs(registry, next, Some(bytes), true));
    lemma_calls_after_construction(after, arena_len + 1, bytes, (count - 1) as nat);
    let rest = repeated_calls(after, arena_len + 1, Some(bytes), (count - 1) as nat);
    let all = repeated_calls(registry, arena_len, Some(bytes), count);
    assert(all.outcomes == seq![entry_outcome(registry, next, Some(bytes), true)] + rest.outcomes);
    assert forall|j: int| 0 <= j < count implies #[trigger] all.outcomes[j] == (EntryOutcome {
        pointer: pointer_after(arena_len),
        code: Some(InitError { code: INIT_ERROR_NONE }),
    }) by {
        if j > 0 {
            assert(all.outcomes[j] == rest.outcomes[j - 1]);
        }
    }
}

/// The version that a factory call will ask the registry for, or `None`
/// when the call is answered without the registry. Nothing is created or
/// changed.
pub fn requested_version(
    registry: &VersionRegistry,
    interface_name: Option<&[u8]>,
    has_return_slot: bool,
) -> (version: Option<u32>)
    ensures
        version == entry_version(
            registry@,
            match interface_name {
                Some(bytes) => Some(bytes@),
                None => None,
            },
            has_return_slot,
        ),
{
    broadcast use vstd::utf8::encode_utf8_decode_utf8;

    match interface_name {
        None => None,
        Some(bytes) => {
            if !has_return_slot {
                return None;
            }
            match utf8_text(bytes) {
                None => None,
                Some(name) => {
                    assert(name@ == decode_utf8(bytes@));
                    registry.resolve(name)
                },
            }
        },
    }
}

/// Answers the host's request for an interface.
///
/// The registry holds the versions this driver supports; `provider` is the
/// object that implements them and `arena` keeps the records handed out.
/// See [`entry_outcome`] for what is returned. The call never fails in any
/// other way, and may be repeated for the same or for other names.
pub fn create_entry_point<U>(
    registry: &mut VersionRegistry,
    arena: &mut RecordArena<U>,
    provider: &Arc<U>,
    interface_name: Option<&[u8]>,
    has_return_slot: bool,
) -> (outcome: EntryOutcome)
    ensures
        final(registry)@.descriptor == old(registry)@.descriptor,
        registry_wf(old(registry)@),
        registry_wf(final(registry)@),
        slots_in_arena(old(registry)@, old(arena)@) ==> slots_in_arena(
            final(registry)@,
            final(arena)@,
        ),
        ({
            let name = match interface_name {
                Some(bytes) => Some(bytes@),
                None => None,
            };
            let next = next_pointer(old(arena)@);
            &&& outcome == entry_outcome(old(registry)@, next, name, has_return_slot)
            &&& final(registry)@.slots == entry_slots(old(registry)@, next, name, has_return_slot)
            &&& !entry_constructs(old(registry)@, next, name, has_return_slot) ==> final(arena)@
                == old(arena)@
            &&& entry_constructs(old(registry)@, next, name, has_return_slot) ==> {
                &&& final(arena)@.len() == old(arena)@.len() + 1
                &&& final(arena)@.drop_last() == old(arena)@
                &&& final(arena)@.last() is Some
                &&& final(arena)@.last()->0.this == *provider
                &&& outcome.pointer == next
                &&& Some(final(arena)@.last()->0.base@) == vtable_of(
                    old(registry)@.descriptor,
                    entry_version(old(registry)@, name, has_return_slot)->0,
                )
            }
        }),
{
    broadcast use vstd::utf8::encode_utf8_decode_utf8;

    let _ = registry.descriptor();
    if !has_return_slot {
        return EntryOutcome { pointer: OpaquePointer::null(), code: None };
    }
    let bytes = match interface_name {
        Some(bytes) => bytes,
        None => {
            return EntryOutcome {
                pointer: OpaquePointer::null(),
                code: Some(InitError::interface_not_found()),
            };
        },
    };
    let name = match utf8_text(bytes) {
        Some(name) => name,
        None => {
            return EntryOutcome {
                pointer: OpaquePointer::null(),
                code: Some(InitError::invalid_interface()),
            };
        },
    };
    assert(name@ == decode_utf8(bytes@));
    match registry.resolve(name) {
        None => EntryOutcome {
            pointer: OpaquePointer::null(),
            code: Some(InitError::interface_not_found()),
        },
        Some(version) => match registry.get_or_init(version, arena, provider) {
            Some(pointer) => EntryOutcome { pointer, code: Some(InitError::none()) },
            None => EntryOutcome {
                pointer: OpaquePointer::null(),
                code: Some(InitError::interface_not_found()),
            },
        },
    }
}

} // verus!
