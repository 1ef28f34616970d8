//! Collision-group masks handed to the physics engine when colliders are
//! created. A collider belongs to the groups in `memberships` and collides
//! only with colliders whose memberships intersect its `filter`.

use vstd::prelude::*;

verus! {

/// A pair of 32-bit group masks, as the physics engine expects them.
#[derive(Debug, Clone, Copy, PartialEq, Eq, Structural)]
pub struct InteractionGroups {
    pub memberships: u32,
    pub filter: u32,
}

/// The group of the static boundary walls.
pub open spec fn walls_spec() -> InteractionGroups {
    InteractionGroups { memberships: 0b0000_0000_0000_0001, filter: 0b0000_0000_0000_0001 }
}

/// The group of the trap sensor regions.
pub open spec fn traps_spec() -> InteractionGroups {
    InteractionGroups { memberships: 0b0000_0000_0000_0010, filter: 0b0000_0000_0000_0010 }
}

/// Membership of every group, colliding with everything.
pub open spec fn all_spec() -> InteractionGroups {
    InteractionGroups { memberships: 0xffff_ffff, filter: 0xffff_ffff }
}

/// The group of the static boundary walls.
pub fn walls() -> (g: InteractionGroups)
    ensures
        g == walls_spec(),
{
    InteractionGroups { memberships: 0b0000_0000_0000_0001, filter: 0b0000_0000_0000_0001 }
}

/// The group of the trap sensor regions.
pub fn traps() -> (g: InteractionGroups)
    ensures
        g == traps_spec(),
{
    InteractionGroups { memberships: 0b0000_0000_0000_0010, filter: 0b0000_0000_0000_0010 }
}

/// Membership of every group, colliding with everything.
pub fn all() -> (g: InteractionGroups)
    ensures
        g == all_spec(),
{
    InteractionGroups { memberships: 0xffff_ffff, filter: 0xffff_ffff }
}

} // verus!
