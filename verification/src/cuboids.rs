//! The falling cuboids and the timed spawners that create them.
//!
//! A spawner counts a recurring cooldown; when it fires it samples a size,
//! a launch angle and a speed uniformly from its configured ranges and
//! emits a request to create one cuboid with those kinematic parameters.
//! Sampling draws a fresh generator from system entropy on every firing,
//! so spawn sequences are deliberately not reproducible across runs: the
//! contract of a fired spawn pins each parameter to its range, never to a
//! value.

use vstd::prelude::*;

use crate::assets;
use crate::identity::{attach, BodyDescriptor, ColliderDescriptor, Entity};
use crate::physics_layers;
use crate::registry::{Components, Registry};
use crate::timer::Cooldown;

verus! {

/// A cuboid game object. Its size, in whole units from 1 to 9, picks the
/// precomputed mesh and material and the collider extent.
#[derive(Debug, Clone, Copy, PartialEq, Eq, Structural)]
pub struct Cuboid {
    pub size: u8,
}

impl Default for Cuboid {
    /// A middling cuboid.
    fn default() -> (c: Cuboid)
        ensures
            c.size == 4,
    {
        Cuboid { size: 4 }
    }
}

/// A non-empty half-open range of whole values, `start` inclusive to `end`
/// exclusive, from which one spawn parameter is sampled.
#[derive(Debug, Clone, Copy, PartialEq, Eq, Structural)]
pub struct Span {
    pub start: u16,
    pub end: u16,
}

impl Span {
    /// A sampling range must be non-empty.
    pub open spec fn wf(self) -> bool {
        self.start < self.end
    }

    /// Whether a value lies in the range.
    pub open spec fn has(self, v: int) -> bool {
        self.start <= v < self.end
    }
}

/// The generator used for spawn parameters.
#[verifier::external_type_specification]
#[verifier::external_body]
pub struct ExStdRng(rand::rngs::StdRng);

/// Relies on rand's `SeedableRng::from_entropy`: a generator freshly
/// seeded from system entropy. Nothing is promised of the values it will
/// produce; it aborts only if the operating system cannot supply entropy.
#[verifier::external_body]
fn rng_from_entropy() -> rand::rngs::StdRng {
    <rand::rngs::StdRng as rand::SeedableRng>::from_entropy()
}

/// Relies on rand's `Rng::gen_range`, which panics on an empty range and
/// otherwise returns a uniform sample within the given half-open range.
#[verifier::external_body]
fn sample_u64(rng: &mut rand::rngs::StdRng, lo: u64, hi: u64) -> (r: u64)
    requires
        lo < hi,
    ensures
        lo <= r < hi,
{
    rand::Rng::gen_range(rng, lo..hi)
}

/// A request to create one cuboid, as emitted by a fired spawner: the
/// cuboid's size, the launch angle in whole degrees, and the launch speed.
/// The object spawns offset from the spawner's anchor by `size` units along
/// the angle's unit vector and moves at `speed` along the same direction.
#[derive(Debug, Clone, Copy, PartialEq, Eq, Structural)]
pub struct SpawnCommand {
    pub size: u8,
    pub angle_deg: u16,
    pub speed: u8,
}

/// Why a spawn request was refused.
#[derive(Debug, Clone, Copy, PartialEq, Eq, Structural)]
pub enum SpawnError {
    /// The spawner's size range reaches outside the precomputed asset
    /// table, so a sampled size could name a mesh that does not exist.
    /// Caught when the spawner fires, before any asset lookup.
    SizeOutsideAssetTable,
}

/// A timed generator of cuboids. Each instance counts its own cooldown
/// and samples its own parameters; several spawners in one world are
/// independent of each other.
#[derive(Debug, Clone, Copy, PartialEq, Eq, Structural)]
pub struct Spawner {
    /// Cooldown timer for this spawner to spawn a cuboid.
    pub cooldown: Cooldown,
    /// Possible cuboid sizes to generate.
    pub size_range: Span,
    /// At which angles, in whole degrees, cuboids will be spawned.
    pub angle_range: Span,
    /// Possible velocity vector lengths.
    pub speed_range: Span,
}

/// Whether an optionally supplied range is non-empty and stays under the
/// given limit.
pub open spec fn span_choice_ok(choice: Option<Span>, limit: int) -> bool {
    match choice {
        Some(s) => s.wf() && s.end <= limit,
        None => true,
    }
}

/// The supplied range, or the default where none was supplied.
pub open spec fn span_choice(choice: Option<Span>, default: Span) -> Span {
    match choice {
        Some(s) => s,
        None => default,
    }
}

impl Spawner {
    /// The ranges are non-empty; angles are degrees under 360, and sizes
    /// and speeds fit in one byte.
    pub open spec fn wf(self) -> bool {
        &&& self.cooldown.wf()
        &&& self.size_range.wf()
        &&& self.angle_range.wf()
        &&& self.speed_range.wf()
        &&& self.size_range.end <= 256
        &&& self.angle_range.end <= 360
        &&& self.speed_range.end <= 256
    }

    /// Whether every size this spawner can sample has a precomputed asset.
    pub open spec fn size_config_ok(self) -> bool {
        &&& assets::MIN_CUBOID_SIZE <= self.size_range.start
        &&& self.size_range.end <= assets::CUBOID_SIZE_LIMIT
    }

    /// Whether every size this spawner can sample has a precomputed asset.
    pub fn has_valid_size_config(&self) -> (r: bool)
        ensures
            r == self.size_config_ok(),
    {
        MIN_CUBOID_SIZE_U16 <= self.size_range.start && self.size_range.end
            <= CUBOID_SIZE_LIMIT_U16
    }

    /// Whether this spawner is about to fire a size its asset table cannot
    /// serve: the configuration error a tick must fail fast on.
    pub fn would_fire_with_bad_size(&self, delta_ms: u64) -> (r: bool)
        ensures
            r == (self.cooldown.fires(delta_ms) && !self.size_config_ok()),
    {
        self.cooldown.would_fire(delta_ms) && !self.has_valid_size_config()
    }

    /// A spawner with the given cooldown, taking the default for each
    /// range not supplied: sizes 1 to 3, all angles, speeds 10 to 49.
    pub fn new(
        cooldown: Cooldown,
        angle_range: Option<Span>,
        size_range: Option<Span>,
        speed_range: Option<Span>,
    ) -> (s: Spawner)
        requires
            cooldown.wf(),
            span_choice_ok(angle_range, 360),
            span_choice_ok(size_range, 256),
            span_choice_ok(speed_range, 256),
        ensures
            s.wf(),
            s.cooldown == cooldown,
            s.angle_range == span_choice(angle_range, Span { start: 0, end: 360 }),
            s.size_range == span_choice(size_range, Span { start: 1, end: 4 }),
            s.speed_range == span_choice(speed_range, Span { start: 10, end: 50 }),
    {
        Spawner {
            cooldown,
            angle_range: match angle_range {
                Some(s) => s,
                None => Span { start: 0, end: 360 },
            },
            size_range: match size_range {
                Some(s) => s,
                None => Span { start: 1, end: 4 },
            },
            speed_range: match speed_range {
                Some(s) => s,
                None => Span { start: 10, end: 50 },
            },
        }
    }
}

impl Default for Spawner {
    /// A spawner with the default ranges and the shortest cooldown, which
    /// fires on every tick that advances time at all.
    fn default() -> (s: Spawner)
        ensures
            s.wf(),
            s.cooldown == (Cooldown { period_ms: 1, elapsed_ms: 0 }),
            s.size_range == (Span { start: 1, end: 4 }),
            s.angle_range == (Span { start: 0, end: 360 }),
            s.speed_range == (Span { start: 10, end: 50 }),
    {
        Spawner {
            cooldown: Cooldown::new(1),
            size_range: Span { start: 1, end: 4 },
            angle_range: Span { start: 0, end: 360 },
            speed_range: Span { start: 10, end: 50 },
        }
    }
}

/// A spawned cuboid is placed at `anchor + size · direction` and launched
/// at `speed · direction`, where `direction` is the sampled angle's unit
/// vector. This states the exact algebra behind that placement: scaling a
/// direction by `size` scales its squared magnitude by `size²`, so a unit
/// direction puts the object at distance exactly `size` from the anchor.
/// The engine-side conversion evaluates the direction in floating point,
/// which is outside this statement.
pub proof fn lemma_spawn_offset_distance(size: int, dir_x: int, dir_y: int)
    ensures
        (size * dir_x) * (size * dir_x) + (size * dir_y) * (size * dir_y) == size * size * (dir_x
            * dir_x + dir_y * dir_y),
{
    assert((size * dir_x) * (size * dir_x) + (size * dir_y) * (size * dir_y) == size * size * (
    dir_x * dir_x + dir_y * dir_y)) by (nonlinear_arith);
}

/// Whether a spawn request could have come from this spawner: every
/// parameter lies in its configured range, and the size has an asset.
pub open spec fn command_within(cmd: SpawnCommand, s: Spawner) -> bool {
    &&& s.size_range.has(cmd.size as int)
    &&& s.angle_range.has(cmd.angle_deg as int)
    &&& s.speed_range.has(cmd.speed as int)
    &&& assets::size_in_table(cmd.size as int)
}

impl Spawner {
    /// Sample one spawn request: a size, an angle and a speed drawn
    /// independently and uniformly from this spawner's ranges, using a
    /// fresh generator from system entropy. Fails fast, before sampling,
    /// when the size range reaches outside the precomputed asset table.
    pub fn fire(&self) -> (r: Result<SpawnCommand, SpawnError>)
        requires
            self.wf(),
        ensures
            match r {
                Ok(cmd) => self.size_config_ok() && command_within(cmd, *self),
                Err(e) => !self.size_config_ok() && e == SpawnError::SizeOutsideAssetTable,
            },
    {
        if !self.has_valid_size_config() {
            return Err(SpawnError::SizeOutsideAssetTable);
        }
        let mut rng = rng_from_entropy();
        let size = sample_u64(&mut rng, self.size_range.start as u64, self.size_range.end as u64)
            as u8;
        let angle_deg = sample_u64(
            &mut rng,
            self.angle_range.start as u64,
            self.angle_range.end as u64,
        ) as u16;
        let speed = sample_u64(&mut rng, self.speed_range.start as u64, self.speed_range.end as u64)
            as u8;
        Ok(SpawnCommand { size, angle_deg, speed })
    }

    /// Advance this spawner's cooldown by one tick and fire once if the
    /// accumulated time reached the period: at most one request per tick,
    /// whatever the tick's length. The ranges never change; only the
    /// cooldown clock moves.
    pub fn tick(&mut self, delta_ms: u64) -> (r: Result<Option<SpawnCommand>, SpawnError>)
        requires
            old(self).wf(),
        ensures
            final(self).wf(),
            final(self).cooldown == old(self).cooldown.after_tick(delta_ms),
            final(self).size_range == old(self).size_range,
            final(self).angle_range == old(self).angle_range,
            final(self).speed_range == old(self).speed_range,
            match r {
                Ok(None) => !old(self).cooldown.fires(delta_ms),
                Ok(Some(cmd)) => old(self).cooldown.fires(delta_ms) && old(self).size_config_ok()
                    && command_within(cmd, *old(self)),
                Err(e) => old(self).cooldown.fires(delta_ms) && !old(self).size_config_ok() && e
                    == SpawnError::SizeOutsideAssetTable,
            },
    {
        let fired = self.cooldown.tick(delta_ms);
        if !fired {
            Ok(None)
        } else {
            match self.fire() {
                Ok(cmd) => Ok(Some(cmd)),
                Err(e) => Err(e),
            }
        }
    }
}

/// Whether every spawner in a world's list is well-formed.
pub open spec fn spawners_wf(ss: Seq<Spawner>) -> bool {
    forall|i: int| 0 <= i < ss.len() ==> (#[trigger] ss[i]).wf()
}

/// A spawner after one tick: only its cooldown clock has moved.
pub open spec fn spawner_after_tick(s: Spawner, delta_ms: u64) -> Spawner {
    Spawner { cooldown: s.cooldown.after_tick(delta_ms), ..s }
}

/// Whether every spawner that would fire on this tick has a size range
/// inside the precomputed asset table.
pub open spec fn spawn_configs_ok(ss: Seq<Spawner>, delta_ms: u64) -> bool {
    forall|i: int|
        0 <= i < ss.len() && (#[trigger] ss[i]).cooldown.fires(delta_ms)
            ==> ss[i].size_config_ok()
}

/// How many of the spawners fire on this tick.
pub open spec fn fired_count(ss: Seq<Spawner>, delta_ms: u64) -> nat
    decreases ss.len(),
{
    if ss.len() == 0 {
        0
    } else {
        fired_count(ss.drop_last(), delta_ms) + if ss.last().cooldown.fires(delta_ms) {
            1nat
        } else {
            0nat
        }
    }
}

/// The position, in the spawner list, of the spawner that produces the
/// `j`-th spawn request of this tick.
pub open spec fn fired_index(ss: Seq<Spawner>, delta_ms: u64, j: int) -> int
    decreases ss.len(),
{
    if ss.len() == 0 {
        0
    } else if j < fired_count(ss.drop_last(), delta_ms) {
        fired_index(ss.drop_last(), delta_ms, j)
    } else {
        ss.len() - 1
    }
}

/// The `j`-th spawn request of a tick comes from a spawner that exists and
/// fires on that tick.
pub proof fn lemma_fired_index_props(ss: Seq<Spawner>, delta_ms: u64, j: int)
    requires
        0 <= j < fired_count(ss, delta_ms),
    ensures
        0 <= fired_index(ss, delta_ms, j) < ss.len(),
        ss[fired_index(ss, delta_ms, j)].cooldown.fires(delta_ms),
    decreases ss.len(),
{
    if ss.len() > 0 && j < fired_count(ss.drop_last(), delta_ms) {
        lemma_fired_index_props(ss.drop_last(), delta_ms, j);
    }
}

/// One tick of every spawner in the world, in list order: each advances
/// its own cooldown by the same elapsed time, and each that fires emits
/// one spawn request sampled from its own ranges. Fails fast, leaving
/// every spawner untouched, if any spawner about to fire has a size range
/// outside the precomputed asset table.
pub fn spawner_system(spawners: &mut Vec<Spawner>, delta_ms: u64) -> (r: Result<
    Vec<SpawnCommand>,
    SpawnError,
>)
    requires
        spawners_wf(old(spawners)@),
    ensures
        match r {
            Ok(cmds) => {
                &&& spawn_configs_ok(old(spawners)@, delta_ms)
                &&& final(spawners)@.len() == old(spawners)@.len()
                &&& forall|i: int|
                    0 <= i < old(spawners)@.len() ==> final(spawners)@[i] == spawner_after_tick(
                        #[trigger] old(spawners)@[i],
                        delta_ms,
                    )
                &&& cmds@.len() == fired_count(old(spawners)@, delta_ms)
                &&& forall|j: int|
                    0 <= j < cmds@.len() ==> command_within(
                        #[trigger] cmds@[j],
                        old(spawners)@[fired_index(old(spawners)@, delta_ms, j)],
                    )
            },
            Err(e) => {
                &&& !spawn_configs_ok(old(spawners)@, delta_ms)
                &&& e == SpawnError::SizeOutsideAssetTable
                &&& final(spawners)@ == old(spawners)@
            },
        },
{
    let ghost pre = spawners@;

    let mut i: usize = 0;
    while i < spawners.len()
        invariant
            spawners@ == pre,
            i <= pre.len(),
            forall|k: int|
                0 <= k < i && (#[trigger] pre[k]).cooldown.fires(delta_ms)
                    ==> pre[k].size_config_ok(),
        decreases pre.len() - i,
    {
        let s = spawners[i];
        if s.would_fire_with_bad_size(delta_ms) {
            proof {
                assert(pre[i as int].cooldown.fires(delta_ms) && !pre[i as int].size_config_ok());
            }
            return Err(SpawnError::SizeOutsideAssetTable);
        }
        i = i + 1;
    }

    let mut cmds: Vec<SpawnCommand> = Vec::new();
    let mut i: usize = 0;
    while i < spawners.len()
        invariant
            spawners_wf(pre),
            spawn_configs_ok(pre, delta_ms),
            i <= pre.len(),
            spawners@.len() == pre.len(),
            forall|k: int| i <= k < pre.len() ==> spawners@[k] == pre[k],
            forall|k: int|
                0 <= k < i ==> spawners@[k] == spawner_after_tick(#[trigger] pre[k], delta_ms),
            cmds@.len() == fired_count(pre.take(i as int), delta_ms),
            forall|j: int|
                0 <= j < cmds@.len() ==> command_within(
                    #[trigger] cmds@[j],
                    pre.take(i as int)[fired_index(pre.take(i as int), delta_ms, j)],
                ),
        decreases pre.len() - i,
    {
        let ghost taken = pre.take(i as int);
        let ghost extended = pre.take(i + 1 as int);
        proof {
            assert(extended.drop_last() =~= taken);
            assert(extended.last() == pre[i as int]);
        }
        let mut s = spawners[i];
        let outcome = s.tick(delta_ms);
        spawners.set(i, s);
        match outcome {
            Ok(Some(cmd)) => {
                proof {
                    assert forall|j: int| 0 <= j < cmds@.len() implies command_within(
                        #[trigger] cmds@[j],
                        extended[fired_index(extended, delta_ms, j)],
                    ) by {
                        lemma_fired_index_props(taken, delta_ms, j);
                    }
                }
                cmds.push(cmd);
            },
            Ok(None) => {
                proof {
                    assert forall|j: int| 0 <= j < cmds@.len() implies command_within(
                        #[trigger] cmds@[j],
                        extended[fired_index(extended, delta_ms, j)],
                    ) by {
                        lemma_fired_index_props(taken, delta_ms, j);
                    }
                }
            },
            Err(_) => {
                proof {
                    assert(false);
                }
            },
        }
        i = i + 1;
    }
    proof {
        assert(pre.take(pre.len() as int) =~= pre);
    }
    Ok(cmds)
}

/// `MIN_CUBOID_SIZE` widened for comparison against range bounds.
pub const MIN_CUBOID_SIZE_U16: u16 = 1;

/// `CUBOID_SIZE_LIMIT` widened for comparison against range bounds.
pub const CUBOID_SIZE_LIMIT_U16: u16 = 10;

/// Register a new cuboid of the given size and produce the body and
/// collider descriptors to hand to the physics engine: a dynamic body in
/// every collision group, with the new entity's identity embedded in both
/// user-data slots.
pub fn spawn_cuboid(registry: &mut Registry, size: u8) -> (r: (
    Entity,
    BodyDescriptor,
    ColliderDescriptor,
))
    requires
        old(registry).wf(),
        old(registry).can_spawn(1),
        assets::size_in_table(size as int),
    ensures
        final(registry).wf(),
        r.0.bits() == old(registry).next_key(),
        final(registry)@ == old(registry)@.insert(r.0.bits(), Components::of_cuboid_spec(size)),
        final(registry).next_key() == old(registry).next_key() + 1,
        r.1 == (BodyDescriptor { is_static: false, user_data: r.0.bits() }),
        r.2 == (ColliderDescriptor {
            groups: physics_layers::all_spec(),
            sensor: false,
            contact_events: false,
            intersection_events: false,
            user_data: r.0.bits(),
        }),
{
    let entity = registry.spawn(Components::of_cuboid(size));
    let body = BodyDescriptor { is_static: false, user_data: 0 };
    let collider = ColliderDescriptor {
        groups: physics_layers::all(),
        sensor: false,
        contact_events: false,
        intersection_events: false,
        user_data: 0,
    };
    let (body, collider) = attach(entity, body, collider);
    (entity, body, collider)
}

} // verus!
