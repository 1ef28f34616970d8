//! The event bridge. Once per tick the physics engine's event queues are
//! drained into a stream of raw events addressed by collider user-data;
//! this module rewrites that stream so each side names the live game entity
//! it belongs to, through the identity bridge. Events are delivered in the
//! order the engine produced them, live for one tick only, and a side whose
//! object is already gone reads as "no entity" rather than failing.

use vstd::prelude::*;

use crate::identity::{resolve, resolve_spec, Entity};
use crate::registry::{Components, Registry};

verus! {

/// One raw physics event, as drained from the engine's per-tick queues.
/// Each side carries the user-data slot of the collider involved.
#[derive(Debug, Clone, Copy, PartialEq, Eq, Structural)]
pub enum RawEvent {
    /// Two colliders began touching.
    ContactStarted(u64, u64),
    /// Two colliders stopped touching.
    ContactStopped(u64, u64),
    /// A sensor overlap changed; the flag tells whether the two colliders
    /// are now intersecting.
    Intersection(u64, u64, bool),
}

/// One event of the translated per-tick stream, each side resolved to the
/// live game entity it belongs to, or nothing for static geometry and for
/// objects no longer live.
#[derive(Debug, Clone, Copy, PartialEq, Eq, Structural)]
pub enum ResolvedEvent {
    /// Two objects began touching.
    ContactStarted(Option<Entity>, Option<Entity>),
    /// Two objects stopped touching.
    ContactStopped(Option<Entity>, Option<Entity>),
    /// A sensor overlap changed; the flag tells whether the two objects
    /// are now intersecting.
    Intersection(Option<Entity>, Option<Entity>, bool),
}

/// How one raw event resolves against the live-entity map.
pub open spec fn resolve_event_spec(m: Map<u64, Components>, ev: RawEvent) -> ResolvedEvent {
    match ev {
        RawEvent::ContactStarted(a, b) => ResolvedEvent::ContactStarted(
            resolve_spec(m, a),
            resolve_spec(m, b),
        ),
        RawEvent::ContactStopped(a, b) => ResolvedEvent::ContactStopped(
            resolve_spec(m, a),
            resolve_spec(m, b),
        ),
        RawEvent::Intersection(a, b, intersecting) => ResolvedEvent::Intersection(
            resolve_spec(m, a),
            resolve_spec(m, b),
            intersecting,
        ),
    }
}

/// How a whole raw stream resolves, keeping its order and length.
pub open spec fn bridge_spec(m: Map<u64, Components>, raw: Seq<RawEvent>) -> Seq<ResolvedEvent> {
    raw.map_values(|ev: RawEvent| resolve_event_spec(m, ev))
}

/// Resolve one raw event against the registry.
pub fn resolve_event(registry: &Registry, ev: &RawEvent) -> (r: ResolvedEvent)
    ensures
        r == resolve_event_spec(registry@, *ev),
{
    match *ev {
        RawEvent::ContactStarted(a, b) => ResolvedEvent::ContactStarted(
            resolve(registry, a),
            resolve(registry, b),
        ),
        RawEvent::ContactStopped(a, b) => ResolvedEvent::ContactStopped(
            resolve(registry, a),
            resolve(registry, b),
        ),
        RawEvent::Intersection(a, b, intersecting) => ResolvedEvent::Intersection(
            resolve(registry, a),
            resolve(registry, b),
            intersecting,
        ),
    }
}

/// Translate one tick's raw event stream into the resolved stream the
/// rules consume: the same events in the same order, each side rewritten
/// to the entity it belongs to.
pub fn bridge_events(registry: &Registry, raw: &Vec<RawEvent>) -> (r: Vec<ResolvedEvent>)
    ensures
        r@ == bridge_spec(registry@, raw@),
{
    let mut out: Vec<ResolvedEvent> = Vec::new();
    let mut i: usize = 0;
    while i < raw.len()
        invariant
            i <= raw@.len(),
            out@ == bridge_spec(registry@, raw@.take(i as int)),
        decreases raw@.len() - i,
    {
        out.push(resolve_event(registry, &raw[i]));
        proof {
            assert(raw@.take(i + 1 as int).map_values(
                |ev: RawEvent| resolve_event_spec(registry@, ev),
            ) =~= raw@.take(i as int).map_values(
                |ev: RawEvent| resolve_event_spec(registry@, ev),
            ).push(resolve_event_spec(registry@, raw@[i as int])));
        }
        i = i + 1;
    }
    proof {
        assert(raw@.take(raw@.len() as int) =~= raw@);
    }
    out
}

} // verus!
