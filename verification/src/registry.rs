//! The entity registry: the authoritative record of which game objects are
//! live and which components each one carries. Rules despawn entities and
//! mutate components through it; the identity bridge checks liveness against
//! it when physics events are translated back to entities.

use vstd::prelude::*;

use std::collections::HashMap;

use crate::cuboids::Cuboid;
use crate::identity::Entity;
use crate::ship::Ship;
use crate::trap::Trap;
use crate::world::Wall;

verus! {

/// The component set a live entity owns: zero or one of each kind.
#[derive(Debug, Clone, Copy, PartialEq, Eq, Structural)]
pub struct Components {
    pub cuboid: Option<Cuboid>,
    pub ship: Option<Ship>,
    pub trap: Option<Trap>,
    pub wall: Option<Wall>,
}

impl Components {
    /// A component set with nothing in it.
    pub open spec fn none_spec() -> Components {
        Components { cuboid: None, ship: None, trap: None, wall: None }
    }

    /// The component set of a cuboid of the given size.
    pub open spec fn of_cuboid_spec(size: u8) -> Components {
        Components { cuboid: Some(Cuboid { size }), ship: None, trap: None, wall: None }
    }

    /// The component set of a ship with the given number of lives.
    pub open spec fn of_ship_spec(lives: u8) -> Components {
        Components { cuboid: None, ship: Some(Ship { lives }), trap: None, wall: None }
    }

    /// The component set of a trap region.
    pub open spec fn of_trap_spec() -> Components {
        Components { cuboid: None, ship: None, trap: Some(Trap), wall: None }
    }

    /// The component set of a boundary wall.
    pub open spec fn of_wall_spec() -> Components {
        Components { cuboid: None, ship: None, trap: None, wall: Some(Wall) }
    }

    /// A component set with nothing in it.
    pub fn none() -> (c: Components)
        ensures
            c == Components::none_spec(),
    {
        Components { cuboid: None, ship: None, trap: None, wall: None }
    }

    /// The component set of a cuboid of the given size.
    pub fn of_cuboid(size: u8) -> (c: Components)
        ensures
            c == Components::of_cuboid_spec(size),
    {
        Components { cuboid: Some(Cuboid { size }), ship: None, trap: None, wall: None }
    }

    /// The component set of a ship with the given number of lives.
    pub fn of_ship(lives: u8) -> (c: Components)
        ensures
            c == Components::of_ship_spec(lives),
    {
        Components { cuboid: None, ship: Some(Ship { lives }), trap: None, wall: None }
    }

    /// The component set of a trap region.
    pub fn of_trap() -> (c: Components)
        ensures
            c == Components::of_trap_spec(),
    {
        Components { cuboid: None, ship: None, trap: Some(Trap), wall: None }
    }

    /// The component set of a boundary wall.
    pub fn of_wall() -> (c: Components)
        ensures
            c == Components::of_wall_spec(),
    {
        Components { cuboid: None, ship: None, trap: None, wall: Some(Wall) }
    }
}

/// The registry of live entities, keyed by entity bit pattern. Identities
/// are handed out in strictly increasing order starting at 1 and never
/// reused, so a despawned entity's bit pattern stays dead forever and zero
/// never names an entity.
pub struct Registry {
    table: HashMap<u64, Components>,
    next_index: u32,
}

impl View for Registry {
    type V = Map<u64, Components>;

    /// The registry viewed as a map from live entity bit patterns to the
    /// components they own.
    closed spec fn view(&self) -> Map<u64, Components> {
        self.table@
    }
}

impl Registry {
    /// The bit pattern the next spawned entity will get.
    pub closed spec fn next_key(self) -> u64 {
        self.next_index as u64
    }

    /// Every live identity is non-zero and below the allocation watermark.
    pub open spec fn wf(self) -> bool {
        &&& 1 <= self.next_key()
        &&& forall|k: u64| self@.contains_key(k) ==> 1 <= k < self.next_key()
    }

    /// Room for at least `n` more entities before the index space runs out.
    pub open spec fn can_spawn(self, n: int) -> bool {
        self.next_key() + n <= u32::MAX
    }

    /// Whether there is room for at least `n` more entities before the
    /// index space runs out.
    pub fn can_spawn_more(&self, n: u32) -> (r: bool)
        ensures
            r == self.can_spawn(n as int),
    {
        u32::MAX - self.next_index >= n
    }

    /// An empty registry. The identity 0 is reserved for "no entity", so
    /// allocation starts at 1.
    pub fn new() -> (r: Registry)
        ensures
            r.wf(),
            r@ == Map::<u64, Components>::empty(),
            r.next_key() == 1,
    {
        Registry { table: HashMap::new(), next_index: 1 }
    }

    /// How many entities are live.
    pub fn len(&self) -> (n: usize)
        ensures
            n == self@.len(),
    {
        self.table.len()
    }

    /// Create a new entity owning the given components. The entity's
    /// identity is fresh: no earlier entity ever had it.
    pub fn spawn(&mut self, c: Components) -> (e: Entity)
        requires
            old(self).wf(),
            old(self).can_spawn(1),
        ensures
            final(self).wf(),
            e == (Entity { index: old(self).next_key() as u32, generation: 0 }),
            e.bits() == old(self).next_key(),
            !old(self)@.contains_key(e.bits()),
            final(self)@ == old(self)@.insert(e.bits(), c),
            final(self).next_key() == old(self).next_key() + 1,
    {
        let e = Entity { index: self.next_index, generation: 0 };
        let bits = e.to_bits();
        self.table.insert(bits, c);
        self.next_index = self.next_index + 1;
        proof {
            assert forall|k: u64| self@.contains_key(k) implies 1 <= k < self.next_key() by {
                if k != e.bits() {
                    assert(old(self)@.contains_key(k));
                }
            }
        }
        e
    }

    /// Remove an entity. Despawning is idempotent: despawning an entity
    /// that is already gone changes nothing.
    pub fn despawn(&mut self, e: Entity)
        requires
            old(self).wf(),
        ensures
            final(self).wf(),
            final(self)@ == old(self)@.remove(e.bits()),
            final(self).next_key() == old(self).next_key(),
    {
        let bits = e.to_bits();
        self.table.remove(&bits);
        proof {
            assert forall|k: u64| self@.contains_key(k) implies 1 <= k < self.next_key() by {
                assert(old(self)@.contains_key(k));
            }
        }
    }

    /// Whether a user-data bit pattern names a live entity.
    pub fn contains_bits(&self, bits: u64) -> (r: bool)
        ensures
            r == self@.contains_key(bits),
    {
        self.table.contains_key(&bits)
    }

    /// Whether an entity is live.
    pub fn contains(&self, e: Entity) -> (r: bool)
        ensures
            r == self@.contains_key(e.bits()),
    {
        let bits = e.to_bits();
        self.table.contains_key(&bits)
    }

    /// The components a live bit pattern owns, or nothing for a dead one.
    pub fn lookup_bits(&self, bits: u64) -> (r: Option<Components>)
        ensures
            r == if self@.contains_key(bits) {
                Some(self@[bits])
            } else {
                None::<Components>
            },
    {
        match self.table.get(&bits) {
            Some(c) => Some(*c),
            None => None,
        }
    }

    /// The components an entity owns, or nothing if it is not live.
    pub fn lookup(&self, e: Entity) -> (r: Option<Components>)
        ensures
            r == if self@.contains_key(e.bits()) {
                Some(self@[e.bits()])
            } else {
                None::<Components>
            },
    {
        let bits = e.to_bits();
        self.lookup_bits(bits)
    }

    /// Replace the components of a live entity.
    pub fn update(&mut self, e: Entity, c: Components)
        requires
            old(self).wf(),
            old(self)@.contains_key(e.bits()),
        ensures
            final(self).wf(),
            final(self)@ == old(self)@.insert(e.bits(), c),
            final(self).next_key() == old(self).next_key(),
    {
        let bits = e.to_bits();
        self.table.insert(bits, c);
    }
}

} // verus!
