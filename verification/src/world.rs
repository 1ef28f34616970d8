//! World setup: the boundary walls, the trap zones above and below the
//! field, and the three cuboid spawners along the top. Each setup function
//! registers its entities and returns the descriptors the physics engine
//! needs to create the matching bodies and colliders, with each entity's
//! identity already attached.

use vstd::prelude::*;

use crate::cuboids::{Span, Spawner};
use crate::identity::{attach, BodyDescriptor, ColliderDescriptor, Entity};
use crate::physics_layers;
use crate::registry::{Components, Registry};
use crate::timer::Cooldown;

verus! {

/// Marker for a static boundary wall.
#[derive(Debug, Clone, Copy, PartialEq, Eq, Structural)]
pub struct Wall;

/// The collider descriptor of a boundary wall owned by the entity with the
/// given identity: a plain solid collider in the wall group.
pub open spec fn wall_collider_spec(bits: u64) -> ColliderDescriptor {
    ColliderDescriptor {
        groups: physics_layers::walls_spec(),
        sensor: false,
        contact_events: false,
        intersection_events: false,
        user_data: bits,
    }
}

/// The collider descriptor of a trap region owned by the entity with the
/// given identity: a sensor in the trap group that reports intersection
/// events but applies no physical response.
pub open spec fn trap_collider_spec(bits: u64) -> ColliderDescriptor {
    ColliderDescriptor {
        groups: physics_layers::traps_spec(),
        sensor: true,
        contact_events: false,
        intersection_events: true,
        user_data: bits,
    }
}

/// A static body owned by the entity with the given identity.
pub open spec fn static_body_spec(bits: u64) -> BodyDescriptor {
    BodyDescriptor { is_static: true, user_data: bits }
}

/// Register one wall entity and produce its physics descriptors.
fn spawn_wall(registry: &mut Registry) -> (r: (Entity, BodyDescriptor, ColliderDescriptor))
    requires
        old(registry).wf(),
        old(registry).can_spawn(1),
    ensures
        final(registry).wf(),
        r.0.bits() == old(registry).next_key(),
        final(registry)@ == old(registry)@.insert(r.0.bits(), Components::of_wall_spec()),
        final(registry).next_key() == old(registry).next_key() + 1,
        r.1 == static_body_spec(r.0.bits()),
        r.2 == wall_collider_spec(r.0.bits()),
{
    let entity = registry.spawn(Components::of_wall());
    let body = BodyDescriptor { is_static: true, user_data: 0 };
    let collider = ColliderDescriptor {
        groups: physics_layers::walls(),
        sensor: false,
        contact_events: false,
        intersection_events: false,
        user_data: 0,
    };
    let (body, collider) = attach(entity, body, collider);
    (entity, body, collider)
}

/// Register one trap entity and produce its physics descriptors.
fn spawn_trap(registry: &mut Registry) -> (r: (Entity, BodyDescriptor, ColliderDescriptor))
    requires
        old(registry).wf(),
        old(registry).can_spawn(1),
    ensures
        final(registry).wf(),
        r.0.bits() == old(registry).next_key(),
        final(registry)@ == old(registry)@.insert(r.0.bits(), Components::of_trap_spec()),
        final(registry).next_key() == old(registry).next_key() + 1,
        r.1 == static_body_spec(r.0.bits()),
        r.2 == trap_collider_spec(r.0.bits()),
{
    let entity = registry.spawn(Components::of_trap());
    let body = BodyDescriptor { is_static: true, user_data: 0 };
    let collider = ColliderDescriptor {
        groups: physics_layers::traps(),
        sensor: true,
        contact_events: false,
        intersection_events: true,
        user_data: 0,
    };
    let (body, collider) = attach(entity, body, collider);
    (entity, body, collider)
}

/// Register the two boundary walls, one on each side of the field, and
/// produce their physics descriptors. The engine side places one at each
/// horizontal extreme.
pub fn setup_walls(registry: &mut Registry) -> (r: Vec<(Entity, BodyDescriptor, ColliderDescriptor)>)
    requires
        old(registry).wf(),
        old(registry).can_spawn(2),
    ensures
        final(registry).wf(),
        r@.len() == 2,
        r@[0].0.bits() == old(registry).next_key(),
        r@[1].0.bits() == old(registry).next_key() + 1,
        final(registry)@ == old(registry)@.insert(r@[0].0.bits(), Components::of_wall_spec())
            .insert(r@[1].0.bits(), Components::of_wall_spec()),
        final(registry).next_key() == old(registry).next_key() + 2,
        forall|i: int| 0 <= i < 2 ==> (#[trigger] r@[i]).1 == static_body_spec(r@[i].0.bits()),
        forall|i: int| 0 <= i < 2 ==> (#[trigger] r@[i]).2 == wall_collider_spec(r@[i].0.bits()),
{
    let mut out: Vec<(Entity, BodyDescriptor, ColliderDescriptor)> = Vec::new();
    let first = spawn_wall(registry);
    let second = spawn_wall(registry);
    out.push(first);
    out.push(second);
    out
}

/// Register the two trap regions, one above and one below the field, and
/// produce their physics descriptors. Anything drifting through either
/// boundary is removed by the trap rule.
pub fn setup_traps(registry: &mut Registry) -> (r: Vec<(Entity, BodyDescriptor, ColliderDescriptor)>)
    requires
        old(registry).wf(),
        old(registry).can_spawn(2),
    ensures
        final(registry).wf(),
        r@.len() == 2,
        r@[0].0.bits() == old(registry).next_key(),
        r@[1].0.bits() == old(registry).next_key() + 1,
        final(registry)@ == old(registry)@.insert(r@[0].0.bits(), Components::of_trap_spec())
            .insert(r@[1].0.bits(), Components::of_trap_spec()),
        final(registry).next_key() == old(registry).next_key() + 2,
        forall|i: int| 0 <= i < 2 ==> (#[trigger] r@[i]).1 == static_body_spec(r@[i].0.bits()),
        forall|i: int| 0 <= i < 2 ==> (#[trigger] r@[i]).2 == trap_collider_spec(r@[i].0.bits()),
{
    let mut out: Vec<(Entity, BodyDescriptor, ColliderDescriptor)> = Vec::new();
    let first = spawn_trap(registry);
    let second = spawn_trap(registry);
    out.push(first);
    out.push(second);
    out
}

/// The three spawners stationed along the top of the field, left to right:
/// each launches cuboids downwards, at angles between 240 and 300 degrees,
/// on its own period so their salvos drift in and out of phase.
pub fn setup_cubes_spawners() -> (r: Vec<Spawner>)
    ensures
        r@.len() == 3,
        forall|i: int| 0 <= i < 3 ==> (#[trigger] r@[i]).wf(),
        forall|i: int|
            0 <= i < 3 ==> {
                &&& (#[trigger] r@[i]).cooldown.elapsed() == 0
                &&& r@[i].angle_range == (Span { start: 240, end: 300 })
                &&& r@[i].size_range == (Span { start: 1, end: 4 })
                &&& r@[i].speed_range == (Span { start: 10, end: 50 })
                &&& r@[i].size_config_ok()
            },
        r@[0].cooldown.period() == 3130,
        r@[1].cooldown.period() == 1500,
        r@[2].cooldown.period() == 2790,
{
    let mut out: Vec<Spawner> = Vec::new();
    out.push(
        Spawner::new(Cooldown::new(3130), Some(Span { start: 240, end: 300 }), None, None),
    );
    out.push(
        Spawner::new(Cooldown::new(1500), Some(Span { start: 240, end: 300 }), None, None),
    );
    out.push(
        Spawner::new(Cooldown::new(2790), Some(Span { start: 240, end: 300 }), None, None),
    );
    out
}

} // verus!
