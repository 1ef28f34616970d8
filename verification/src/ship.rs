//! The player ship and the collision-damage rule.
//!
//! The rule scans the tick's resolved contact events: whenever exactly one
//! side of a starting contact is a live ship and the other is a live
//! cuboid, the ship loses a life and the cuboid is despawned. Several
//! contacts in one tick are each processed on their own, so one tick can
//! cost several lives; lives clamp at zero rather than wrapping below it.

use vstd::prelude::*;

use crate::identity::{attach, BodyDescriptor, ColliderDescriptor, Entity};
use crate::physics_events::ResolvedEvent;
use crate::physics_layers;
use crate::registry::{Components, Registry};

verus! {

/// The player ship. `lives` counts the hits it can still take; it is
/// clamped at zero rather than wrapping when the ship is out of lives.
#[derive(Debug, Clone, Copy, PartialEq, Eq, Structural)]
pub struct Ship {
    pub lives: u8,
}

/// How many lives a freshly created ship has.
pub const STARTING_LIVES: u8 = 3;

/// The sideways velocity and the spin requested by the player's steering
/// input, as `(linear, angular)`. Holding the left key moves the ship left
/// and rolls it clockwise, the right key the mirror image; the left key
/// wins when both are held, and no key means standing still.
pub fn ship_input_velocity(left: bool, right: bool) -> (v: (i32, i32))
    ensures
        v == if left {
            (-25i32, 5i32)
        } else if right {
            (25i32, -5i32)
        } else {
            (0i32, 0i32)
        },
{
    if left {
        (-25, 5)
    } else if right {
        (25, -5)
    } else {
        (0, 0)
    }
}

/// The collider descriptor of the ship owned by the entity with the given
/// identity: a solid collider in every group that reports contact events,
/// so the damage rule hears about every collision.
pub open spec fn ship_collider_spec(bits: u64) -> ColliderDescriptor {
    ColliderDescriptor {
        groups: physics_layers::all_spec(),
        sensor: false,
        contact_events: true,
        intersection_events: false,
        user_data: bits,
    }
}

/// Register the player ship, starting with its full complement of lives,
/// and produce the physics descriptors for its dynamic body and collider,
/// with the ship's identity attached to both.
pub fn create_ship(registry: &mut Registry) -> (r: (Entity, BodyDescriptor, ColliderDescriptor))
    requires
        old(registry).wf(),
        old(registry).can_spawn(1),
    ensures
        final(registry).wf(),
        r.0.bits() == old(registry).next_key(),
        final(registry)@ == old(registry)@.insert(
            r.0.bits(),
            Components::of_ship_spec(STARTING_LIVES),
        ),
        final(registry).next_key() == old(registry).next_key() + 1,
        r.1 == (BodyDescriptor { is_static: false, user_data: r.0.bits() }),
        r.2 == ship_collider_spec(r.0.bits()),
{
    let entity = registry.spawn(Components::of_ship(STARTING_LIVES));
    let body = BodyDescriptor { is_static: false, user_data: 0 };
    let collider = ColliderDescriptor {
        groups: physics_layers::all(),
        sensor: false,
        contact_events: true,
        intersection_events: false,
        user_data: 0,
    };
    let (body, collider) = attach(entity, body, collider);
    (entity, body, collider)
}

/// Whether one side of a resolved event is a live entity carrying a ship.
pub open spec fn is_live_ship(m: Map<u64, Components>, side: Option<Entity>) -> bool {
    match side {
        Some(e) => m.contains_key(e.bits()) && m[e.bits()].ship is Some,
        None => false,
    }
}

/// Whether one side of a resolved event is a live entity carrying a cuboid.
pub open spec fn is_live_cuboid(m: Map<u64, Components>, side: Option<Entity>) -> bool {
    match side {
        Some(e) => m.contains_key(e.bits()) && m[e.bits()].cuboid is Some,
        None => false,
    }
}

/// Whether a starting contact damages the ship on `ship_side`: exactly one
/// side is a ship and the other is a cuboid.
pub open spec fn ship_hit(
    m: Map<u64, Components>,
    ship_side: Option<Entity>,
    cuboid_side: Option<Entity>,
) -> bool {
    &&& is_live_ship(m, ship_side)
    &&& !is_live_ship(m, cuboid_side)
    &&& is_live_cuboid(m, cuboid_side)
}

/// One life fewer, clamped at zero instead of wrapping.
pub open spec fn decremented(lives: u8) -> u8 {
    if lives > 0 {
        (lives - 1) as u8
    } else {
        0
    }
}

/// The registry after a hit: the ship loses a life and the cuboid is gone.
pub open spec fn apply_hit(m: Map<u64, Components>, ship: Entity, cuboid: Entity) -> Map<
    u64,
    Components,
> {
    let c = m[ship.bits()];
    let struck = (Components {
        ship: Some(Ship { lives: decremented(c.ship.unwrap().lives) }),
        ..c
    });
    m.insert(ship.bits(), struck).remove(cuboid.bits())
}

/// The registry after the ship-damage rule has seen one resolved event.
pub open spec fn ship_damage_step(m: Map<u64, Components>, ev: ResolvedEvent) -> Map<
    u64,
    Components,
> {
    match ev {
        ResolvedEvent::ContactStarted(a, b) => {
            if ship_hit(m, a, b) {
                apply_hit(m, a.unwrap(), b.unwrap())
            } else if ship_hit(m, b, a) {
                apply_hit(m, b.unwrap(), a.unwrap())
            } else {
                m
            }
        },
        _ => m,
    }
}

/// The registry after the ship-damage rule has scanned a whole event
/// stream in order.
pub open spec fn ship_damage_run(m: Map<u64, Components>, evs: Seq<ResolvedEvent>) -> Map<
    u64,
    Components,
>
    decreases evs.len(),
{
    if evs.len() == 0 {
        m
    } else {
        ship_damage_step(ship_damage_run(m, evs.drop_last()), evs.last())
    }
}

/// Whether one side of an event is a live entity carrying a ship.
fn side_is_ship(registry: &Registry, side: &Option<Entity>) -> (r: bool)
    ensures
        r == is_live_ship(registry@, *side),
{
    match side {
        Some(e) => match registry.lookup(*e) {
            Some(c) => c.ship.is_some(),
            None => false,
        },
        None => false,
    }
}

/// Whether one side of an event is a live entity carrying a cuboid.
fn side_is_cuboid(registry: &Registry, side: &Option<Entity>) -> (r: bool)
    ensures
        r == is_live_cuboid(registry@, *side),
{
    match side {
        Some(e) => match registry.lookup(*e) {
            Some(c) => c.cuboid.is_some(),
            None => false,
        },
        None => false,
    }
}

/// Strike the ship: take one life (clamped at zero) and despawn the cuboid
/// that hit it.
fn strike(registry: &mut Registry, ship_entity: Entity, cuboid_entity: Entity)
    requires
        old(registry).wf(),
        is_live_ship(old(registry)@, Some(ship_entity)),
    ensures
        final(registry).wf(),
        final(registry)@ == apply_hit(old(registry)@, ship_entity, cuboid_entity),
        final(registry).next_key() == old(registry).next_key(),
{
    let c = registry.lookup(ship_entity).unwrap();
    let s = c.ship.unwrap();
    let lives: u8 = if s.lives > 0 {
        s.lives - 1
    } else {
        0
    };
    registry.update(ship_entity, Components { ship: Some(Ship { lives }), ..c });
    registry.despawn(cuboid_entity);
}

/// The ship-damage rule for one tick: scan the resolved contact events in
/// order; for each starting contact in which exactly one side is a live
/// ship and the other a live cuboid, the ship loses one life (clamped at
/// zero) and the cuboid is despawned. Every other event is ignored.
pub fn collisions(registry: &mut Registry, events: &Vec<ResolvedEvent>)
    requires
        old(registry).wf(),
    ensures
        final(registry).wf(),
        final(registry)@ == ship_damage_run(old(registry)@, events@),
        final(registry).next_key() == old(registry).next_key(),
{
    let ghost m0 = registry@;
    let mut i: usize = 0;
    while i < events.len()
        invariant
            i <= events@.len(),
            registry.wf(),
            registry@ == ship_damage_run(m0, events@.take(i as int)),
            registry.next_key() == old(registry).next_key(),
        decreases events@.len() - i,
    {
        proof {
            assert(events@.take(i + 1 as int).drop_last() =~= events@.take(i as int));
        }
        let ev = events[i];
        match ev {
            ResolvedEvent::ContactStarted(a, b) => {
                let a_ship = side_is_ship(registry, &a);
                let b_ship = side_is_ship(registry, &b);
                if a_ship && !b_ship && side_is_cuboid(registry, &b) {
                    strike(registry, a.unwrap(), b.unwrap());
                } else if b_ship && !a_ship && side_is_cuboid(registry, &a) {
                    strike(registry, b.unwrap(), a.unwrap());
                }
            },
            _ => {},
        }
        i = i + 1;
    }
    proof {
        assert(events@.take(events@.len() as int) =~= events@);
    }
}

} // verus!
