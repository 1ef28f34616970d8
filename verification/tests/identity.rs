//! The identity bridge: embedding entity identities into physics
//! descriptors and resolving them back while the entity lives.

use rscuboids::identity::{attach, resolve, BodyDescriptor, ColliderDescriptor, Entity};
use rscuboids::physics_layers;
use rscuboids::registry::{Components, Registry};

fn plain_collider() -> ColliderDescriptor {
    ColliderDescriptor {
        groups: physics_layers::all(),
        sensor: false,
        contact_events: true,
        intersection_events: false,
        user_data: 0,
    }
}

#[test]
fn entity_bits_round_trip() {
    let e = Entity { index: 7, generation: 3 };
    let bits = e.to_bits();
    assert_eq!(bits, 3u64 * 0x1_0000_0000 + 7);
    assert_eq!(Entity::from_bits(bits), e);

    let top = Entity { index: u32::MAX, generation: u32::MAX };
    assert_eq!(Entity::from_bits(top.to_bits()), top);
}

#[test]
fn attach_embeds_identity_into_both_descriptors() {
    let e = Entity { index: 42, generation: 1 };
    let body = BodyDescriptor { is_static: false, user_data: 0 };
    let collider = plain_collider();
    let (body2, collider2) = attach(e, body, collider);
    assert_eq!(body2.user_data, e.to_bits());
    assert_eq!(collider2.user_data, e.to_bits());
    // everything but the user-data slot is untouched
    assert_eq!(body2.is_static, body.is_static);
    assert_eq!(collider2.groups, collider.groups);
    assert_eq!(collider2.sensor, collider.sensor);
    assert_eq!(collider2.contact_events, collider.contact_events);
    assert_eq!(collider2.intersection_events, collider.intersection_events);
}

#[test]
fn attach_then_resolve_returns_original_entity() {
    let mut reg = Registry::new();
    let e = reg.spawn(Components::of_cuboid(2));
    let body = BodyDescriptor { is_static: false, user_data: 0 };
    let (body2, collider2) = attach(e, body, plain_collider());
    assert_eq!(resolve(&reg, collider2.user_data), Some(e));
    assert_eq!(resolve(&reg, body2.user_data), Some(e));
}

#[test]
fn resolve_zero_user_data_is_no_entity() {
    let mut reg = Registry::new();
    reg.spawn(Components::of_cuboid(1));
    assert_eq!(resolve(&reg, 0), None);
}

#[test]
fn resolve_returns_entity_until_despawn() {
    let mut reg = Registry::new();
    let e = reg.spawn(Components::of_ship(3));
    let bits = e.to_bits();
    assert_eq!(resolve(&reg, bits), Some(e));

    // still resolvable while other entities come and go
    let other = reg.spawn(Components::of_cuboid(2));
    assert_eq!(resolve(&reg, bits), Some(e));
    reg.despawn(other);
    assert_eq!(resolve(&reg, bits), Some(e));

    reg.despawn(e);
    assert_eq!(resolve(&reg, bits), None);
}

#[test]
fn stale_handle_never_resolves_after_despawn() {
    let mut reg = Registry::new();
    let a = reg.spawn(Components::of_cuboid(1));
    let b = reg.spawn(Components::of_cuboid(2));
    reg.despawn(a);
    assert_eq!(resolve(&reg, a.to_bits()), None);

    // identities are never reused, so later spawns cannot revive the handle
    let c = reg.spawn(Components::of_cuboid(3));
    assert_ne!(c.to_bits(), a.to_bits());
    assert_eq!(resolve(&reg, a.to_bits()), None);
    assert_eq!(resolve(&reg, b.to_bits()), Some(b));
}

#[test]
fn despawn_is_idempotent() {
    let mut reg = Registry::new();
    let a = reg.spawn(Components::of_cuboid(1));
    let b = reg.spawn(Components::of_trap());
    assert_eq!(reg.len(), 2);
    reg.despawn(a);
    assert_eq!(reg.len(), 1);
    reg.despawn(a);
    assert_eq!(reg.len(), 1);
    assert!(reg.contains(b));
}

#[test]
fn lookup_reports_components() {
    let mut reg = Registry::new();
    let a = reg.spawn(Components::of_cuboid(5));
    let c = reg.lookup(a).unwrap();
    assert_eq!(c.cuboid.unwrap().size, 5);
    assert!(c.ship.is_none());
    assert!(c.trap.is_none());
    assert!(c.wall.is_none());
    assert_eq!(reg.lookup_bits(0), None);
}
