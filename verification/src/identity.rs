//! The identity bridge between game entities and the physics engine.
//!
//! The physics engine addresses its events by opaque collider handles, each
//! carrying a 64-bit user-data slot. When a game object is created, `attach`
//! embeds the entity's bit pattern into the user-data slot of the body and
//! collider descriptors handed to the engine; when an event comes back,
//! `resolve` decodes the slot and checks the entity is still live. A slot of
//! zero means "no associated entity" (static world geometry); entity bit
//! patterns are therefore always non-zero.

use vstd::prelude::*;

use crate::physics_layers::InteractionGroups;
use crate::registry::{Components, Registry};
use vstd::arithmetic::div_mod::{lemma_fundamental_div_mod, lemma_fundamental_div_mod_converse};

verus! {

/// One unit past the largest entity index: entity bit patterns put the
/// generation in the high half of a `u64` and the index in the low half.
pub const INDEX_SPAN: u64 = 0x1_0000_0000;

/// A stable identifier for a game object. The index names a registry slot
/// and the generation distinguishes successive uses of the same slot.
#[derive(Debug, Clone, Copy, PartialEq, Eq, Structural)]
pub struct Entity {
    pub index: u32,
    pub generation: u32,
}

impl Entity {
    /// The bit pattern embedded in the physics engine's user-data slot:
    /// generation in the high 32 bits, index in the low 32 bits.
    pub open spec fn bits(self) -> u64 {
        (self.generation as u64 * INDEX_SPAN + self.index) as u64
    }

    /// The entity whose bit pattern is `bits`.
    pub open spec fn from_bits_spec(bits: u64) -> Entity {
        Entity { index: (bits % INDEX_SPAN) as u32, generation: (bits / INDEX_SPAN) as u32 }
    }

    /// Encode this entity as the bit pattern stored in user-data slots.
    pub fn to_bits(&self) -> (r: u64)
        ensures
            r == self.bits(),
    {
        proof {
            assert(self.generation as u64 * INDEX_SPAN + self.index as u64 <= u64::MAX) by (nonlinear_arith);
        }
        self.generation as u64 * INDEX_SPAN + self.index as u64
    }

    /// Decode an entity from a user-data bit pattern.
    pub fn from_bits(bits: u64) -> (e: Entity)
        ensures
            e == Entity::from_bits_spec(bits),
            e.bits() == bits,
    {
        proof {
            lemma_entity_bits_roundtrip(bits);
        }
        Entity { index: (bits % INDEX_SPAN) as u32, generation: (bits / INDEX_SPAN) as u32 }
    }
}

/// Decoding a bit pattern and re-encoding it gives the pattern back.
pub proof fn lemma_entity_bits_roundtrip(bits: u64)
    ensures
        Entity::from_bits_spec(bits).bits() == bits,
{
    lemma_fundamental_div_mod(bits as int, INDEX_SPAN as int);
    assert(bits / INDEX_SPAN < INDEX_SPAN) by (nonlinear_arith);
    assert((bits / INDEX_SPAN) * (INDEX_SPAN as int) == (INDEX_SPAN as int) * (bits / INDEX_SPAN));
}

/// Encoding an entity and decoding the pattern gives the entity back, for
/// any entity identity value.
pub proof fn lemma_entity_roundtrip(e: Entity)
    ensures
        Entity::from_bits_spec(e.bits()) == e,
{
    assert(e.generation as u64 * INDEX_SPAN + e.index as u64 <= u64::MAX) by (nonlinear_arith);
    lemma_fundamental_div_mod_converse(
        e.bits() as int,
        INDEX_SPAN as int,
        e.generation as int,
        e.index as int,
    );
}

/// What the game hands the physics engine to create a rigid body: whether
/// it moves, and the user-data slot carrying the owning entity's identity.
#[derive(Debug, Clone, Copy, PartialEq, Eq, Structural)]
pub struct BodyDescriptor {
    pub is_static: bool,
    pub user_data: u64,
}

/// What the game hands the physics engine to create a collider: its group
/// masks, whether it is a sensor that reports overlap without physical
/// response, which event kinds it reports, and the user-data slot.
#[derive(Debug, Clone, Copy, PartialEq, Eq, Structural)]
pub struct ColliderDescriptor {
    pub groups: InteractionGroups,
    pub sensor: bool,
    pub contact_events: bool,
    pub intersection_events: bool,
    pub user_data: u64,
}

/// The descriptors as `attach` returns them: the same descriptors with the
/// entity's bit pattern in both user-data slots.
pub open spec fn attach_spec(
    entity: Entity,
    body: BodyDescriptor,
    collider: ColliderDescriptor,
) -> (BodyDescriptor, ColliderDescriptor) {
    (
        BodyDescriptor { user_data: entity.bits(), ..body },
        ColliderDescriptor { user_data: entity.bits(), ..collider },
    )
}

/// Embed an entity's identity into the user-data slots of the body and
/// collider descriptors about to be handed to the physics engine, so the
/// events the engine later reports can be traced back to the entity.
pub fn attach(entity: Entity, body: BodyDescriptor, collider: ColliderDescriptor) -> (r: (
    BodyDescriptor,
    ColliderDescriptor,
))
    requires
        entity.bits() != 0,
    ensures
        r == attach_spec(entity, body, collider),
{
    let bits = entity.to_bits();
    (
        BodyDescriptor { user_data: bits, ..body },
        ColliderDescriptor { user_data: bits, ..collider },
    )
}

/// What `resolve` returns for a user-data slot: nothing for zero (static
/// world geometry) or for an entity no longer live — an object despawned
/// earlier in the same tick must read as "no entity", never as an error —
/// and the decoded entity while it is live.
pub open spec fn resolve_spec(m: Map<u64, Components>, user_data: u64) -> Option<Entity> {
    if user_data == 0 {
        None
    } else if m.contains_key(user_data) {
        Some(Entity::from_bits_spec(user_data))
    } else {
        None
    }
}

/// Translate a user-data slot read from a physics event back to the live
/// game entity it was attached to, if any.
pub fn resolve(registry: &Registry, user_data: u64) -> (r: Option<Entity>)
    ensures
        r == resolve_spec(registry@, user_data),
{
    if user_data == 0 {
        None
    } else if registry.contains_bits(user_data) {
        Some(Entity::from_bits(user_data))
    } else {
        None
    }
}

/// While an entity is live, resolving its embedded identity always returns
/// that entity; its bit pattern is non-zero for every registry that is
/// well-formed.
pub proof fn lemma_resolve_live(registry: Registry, e: Entity)
    requires
        registry.wf(),
        registry@.contains_key(e.bits()),
    ensures
        e.bits() != 0,
        resolve_spec(registry@, e.bits()) == Some(e),
{
    lemma_entity_roundtrip(e);
}

/// Immediately after an entity is despawned, its former identity no longer
/// resolves: a stale handle reads as "no entity".
pub proof fn lemma_resolve_after_despawn(registry: Registry, e: Entity)
    ensures
        resolve_spec(registry@.remove(e.bits()), e.bits()) is None,
{
}

/// Creating new entities never revives a stale identity: a bit pattern
/// allocated before the registry's current watermark and not live now stays
/// unresolvable after any further spawn, because slots are handed out in
/// strictly increasing order and never reused.
pub proof fn lemma_stale_stays_unresolved(registry: Registry, e: Entity, c: Components)
    requires
        registry.wf(),
        !registry@.contains_key(e.bits()),
        e.bits() < registry.next_key(),
    ensures
        resolve_spec(registry@.insert(registry.next_key(), c), e.bits()) is None,
{
}

/// Attaching an entity and immediately resolving the collider descriptor's
/// user-data slot yields the original entity, for any live entity.
pub proof fn lemma_attach_resolve_roundtrip(
    registry: Registry,
    e: Entity,
    body: BodyDescriptor,
    collider: ColliderDescriptor,
)
    requires
        registry.wf(),
        registry@.contains_key(e.bits()),
    ensures
        resolve_spec(registry@, attach_spec(e, body, collider).1.user_data) == Some(e),
{
    lemma_resolve_live(registry, e);
}

} // verus!
