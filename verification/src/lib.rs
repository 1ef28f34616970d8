//! Core logic of an arcade game: a field of physics-driven cuboids that
//! threaten a player ship, with timed randomized spawners, boundary trap
//! zones that remove objects passing through them, lives and a score.
//!
//! The rendering, windowing and physics integration are supplied by an
//! outside engine; this crate holds the event-driven spawn-and-rule layer
//! that sits between them: an identity bridge that ties game entities to
//! the physics engine's opaque handles, a timed spawner with randomized
//! kinematic parameters, an event bridge that turns raw per-tick physics
//! events into an ordered stream addressed by entity, and the rules that
//! react to that stream.

use vstd::prelude::*;

pub mod assets;
pub mod cuboids;
pub mod identity;
pub mod physics_layers;
pub mod physics_events;
pub mod registry;
pub mod ship;
pub mod trap;
pub mod world;
pub mod scoring;
pub mod timer;

use crate::cuboids::{
    command_within, fired_count, fired_index, spawn_configs_ok, spawner_after_tick,
    spawner_system, spawners_wf, SpawnCommand, SpawnError, Spawner,
};
use crate::physics_events::{bridge_events, bridge_spec, RawEvent};
use crate::registry::Registry;
use crate::ship::{collisions, ship_damage_run};
use crate::trap::{trap_run, traps};

verus! {

/// The group of subsystems that make up the game's core, driven together
/// through one simulation tick at a time.
pub struct GamePlugins;

impl GamePlugins {
    /// One simulation tick over the whole core, in the order the design
    /// requires: every spawner advances its cooldown once and the fired
    /// spawn requests are collected; the tick's raw physics events are all
    /// resolved against the registry as it stood when they were produced;
    /// then the ship-damage rule and the trap-removal rule each scan the
    /// resolved stream exactly once. Fails fast, changing nothing, if a
    /// spawner about to fire is configured outside the asset table; the
    /// caller applies the returned spawn requests before the next tick.
    pub fn run_tick(
        registry: &mut Registry,
        spawners: &mut Vec<Spawner>,
        raw_events: &Vec<RawEvent>,
        delta_ms: u64,
    ) -> (r: Result<Vec<SpawnCommand>, SpawnError>)
        requires
            old(registry).wf(),
            spawners_wf(old(spawners)@),
        ensures
            final(registry).wf(),
            final(registry).next_key() == old(registry).next_key(),
            match r {
                Ok(cmds) => {
                    &&& final(registry)@ == trap_run(
                        ship_damage_run(
                            old(registry)@,
                            bridge_spec(old(registry)@, raw_events@),
                        ),
                        bridge_spec(old(registry)@, raw_events@),
                    )
                    &&& spawn_configs_ok(old(spawners)@, delta_ms)
                    &&& final(spawners)@.len() == old(spawners)@.len()
                    &&& forall|i: int|
                        0 <= i < old(spawners)@.len() ==> final(spawners)@[i]
                            == spawner_after_tick(#[trigger] old(spawners)@[i], delta_ms)
                    &&& cmds@.len() == fired_count(old(spawners)@, delta_ms)
                    &&& forall|j: int|
                        0 <= j < cmds@.len() ==> command_within(
                            #[trigger] cmds@[j],
                            old(spawners)@[fired_index(old(spawners)@, delta_ms, j)],
                        )
                },
                Err(e) => {
                    &&& e == SpawnError::SizeOutsideAssetTable
                    &&& !spawn_configs_ok(old(spawners)@, delta_ms)
                    &&& final(registry)@ == old(registry)@
                    &&& final(spawners)@ == old(spawners)@
                },
            },
    {
        let cmds = match spawner_system(spawners, delta_ms) {
            Ok(cmds) => cmds,
            Err(e) => {
                return Err(e);
            },
        };
        let resolved = bridge_events(registry, raw_events);
        collisions(registry, &resolved);
        traps(registry, &resolved);
        Ok(cmds)
    }
}

} // verus!
