//! The trap marker and the trap-removal rule.
//!
//! The rule scans the tick's resolved intersection events: when an overlap
//! with a trap side begins, the other side is despawned unconditionally —
//! even if that other side is itself a trap or a wall. When both sides are
//! traps, each treats the other as the thing to remove, so both despawn.

use vstd::prelude::*;

use crate::identity::Entity;
use crate::physics_events::ResolvedEvent;
use crate::registry::{Components, Registry};

verus! {

/// Marker for a static sensor region that removes whatever passes through
/// it. A trap has no mutable state of its own.
#[derive(Debug, Default, Clone, Copy, PartialEq, Eq, Structural)]
pub struct Trap;

/// Whether one side of a resolved event is a live entity carrying a trap.
pub open spec fn is_live_trap(m: Map<u64, Components>, side: Option<Entity>) -> bool {
    match side {
        Some(e) => m.contains_key(e.bits()) && m[e.bits()].trap is Some,
        None => false,
    }
}

/// The registry with one event side despawned; a side that resolved to no
/// entity leaves the registry as it is.
pub open spec fn despawn_side(m: Map<u64, Components>, side: Option<Entity>) -> Map<
    u64,
    Components,
> {
    match side {
        Some(e) => m.remove(e.bits()),
        None => m,
    }
}

/// The registry after the trap rule has seen one resolved event: for a
/// beginning intersection, whether each side is a trap is judged against
/// the state before the event, and then every side facing a trap is
/// despawned — both sides when two traps meet.
pub open spec fn trap_step(m: Map<u64, Components>, ev: ResolvedEvent) -> Map<u64, Components> {
    match ev {
        ResolvedEvent::Intersection(a, b, intersecting) => {
            if intersecting {
                let after_a = if is_live_trap(m, a) {
                    despawn_side(m, b)
                } else {
                    m
                };
                if is_live_trap(m, b) {
                    despawn_side(after_a, a)
                } else {
                    after_a
                }
            } else {
                m
            }
        },
        _ => m,
    }
}

/// The registry after the trap rule has scanned a whole event stream in
/// order.
pub open spec fn trap_run(m: Map<u64, Components>, evs: Seq<ResolvedEvent>) -> Map<
    u64,
    Components,
>
    decreases evs.len(),
{
    if evs.len() == 0 {
        m
    } else {
        trap_step(trap_run(m, evs.drop_last()), evs.last())
    }
}

/// Whether one side of an event is a live entity carrying a trap.
fn side_is_trap(registry: &Registry, side: &Option<Entity>) -> (r: bool)
    ensures
        r == is_live_trap(registry@, *side),
{
    match side {
        Some(e) => match registry.lookup(*e) {
            Some(c) => c.trap.is_some(),
            None => false,
        },
        None => false,
    }
}

/// Despawn one event side, if it resolved to an entity.
fn despawn_other(registry: &mut Registry, side: &Option<Entity>)
    requires
        old(registry).wf(),
    ensures
        final(registry).wf(),
        final(registry)@ == despawn_side(old(registry)@, *side),
        final(registry).next_key() == old(registry).next_key(),
{
    match side {
        Some(e) => registry.despawn(*e),
        None => {},
    }
}

/// The trap-removal rule for one tick: scan the resolved intersection
/// events in order; whenever an overlap begins and one side is a live
/// trap, despawn the other side unconditionally. Both sides of a
/// trap-to-trap overlap despawn each other.
pub fn traps(registry: &mut Registry, events: &Vec<ResolvedEvent>)
    requires
        old(registry).wf(),
    ensures
        final(registry).wf(),
        final(registry)@ == trap_run(old(registry)@, events@),
        final(registry).next_key() == old(registry).next_key(),
{
    let ghost m0 = registry@;
    let mut i: usize = 0;
    while i < events.len()
        invariant
            i <= events@.len(),
            registry.wf(),
            registry@ == trap_run(m0, events@.take(i as int)),
            registry.next_key() == old(registry).next_key(),
        decreases events@.len() - i,
    {
        proof {
            assert(events@.take(i + 1 as int).drop_last() =~= events@.take(i as int));
        }
        let ev = events[i];
        match ev {
            ResolvedEvent::Intersection(a, b, intersecting) => {
                if intersecting {
                    let a_trap = side_is_trap(registry, &a);
                    let b_trap = side_is_trap(registry, &b);
                    if a_trap {
                        despawn_other(registry, &b);
                    }
                    if b_trap {
                        despawn_other(registry, &a);
                    }
                }
            },
            _ => {},
        }
        i = i + 1;
    }
    proof {
        assert(events@.take(events@.len() as int) =~= events@);
    }
}

} // verus!
