//! The precomputed asset table. The engine-side asset provider prepares one
//! mesh and one material for every cuboid size from 1 through 9; the spawn
//! layer must never request a size outside that table.

use vstd::prelude::*;

verus! {

/// The smallest cuboid size with a precomputed asset.
pub const MIN_CUBOID_SIZE: u8 = 1;

/// The first size past the asset table: sizes from `MIN_CUBOID_SIZE` up to
/// but not including this one have precomputed assets.
pub const CUBOID_SIZE_LIMIT: u8 = 10;

/// Whether a cuboid size has a precomputed mesh and material.
pub open spec fn size_in_table(size: int) -> bool {
    MIN_CUBOID_SIZE <= size < CUBOID_SIZE_LIMIT
}

/// Whether a cuboid size has a precomputed mesh and material.
pub fn size_has_asset(size: u8) -> (r: bool)
    ensures
        r == size_in_table(size as int),
{
    MIN_CUBOID_SIZE <= size && size < CUBOID_SIZE_LIMIT
}

/// Every size the asset provider must prepare, in ascending order.
pub fn asset_sizes() -> (v: Vec<u8>)
    ensures
        v@.len() == CUBOID_SIZE_LIMIT - MIN_CUBOID_SIZE,
        forall|i: int| 0 <= i < v@.len() ==> v@[i] == MIN_CUBOID_SIZE + i,
{
    let mut v: Vec<u8> = Vec::new();
    let mut s: u8 = MIN_CUBOID_SIZE;
    while s < CUBOID_SIZE_LIMIT
        invariant
            MIN_CUBOID_SIZE <= s <= CUBOID_SIZE_LIMIT,
            v@.len() == s - MIN_CUBOID_SIZE,
            forall|i: int| 0 <= i < v@.len() ==> v@[i] == MIN_CUBOID_SIZE + i,
        decreases CUBOID_SIZE_LIMIT - s,
    {
        v.push(s);
        s = s + 1;
    }
    v
}

} // verus!
