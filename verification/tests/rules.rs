//! The rule engine: ship damage on contact with cuboids, and trap removal
//! of whatever intersects a trap.

use rscuboids::cuboids::spawn_cuboid;
use rscuboids::physics_events::{bridge_events, RawEvent, ResolvedEvent};
use rscuboids::registry::{Components, Registry};
use rscuboids::ship::{collisions, create_ship};
use rscuboids::trap::traps;

#[test]
fn ship_hit_by_cuboid_loses_life_and_cuboid_despawns() {
    let mut reg = Registry::new();
    let (ship_e, _, ship_col) = create_ship(&mut reg);
    let (cub_e, _, cub_col) = spawn_cuboid(&mut reg, 3);

    let raw = vec![RawEvent::ContactStarted(ship_col.user_data, cub_col.user_data)];
    let resolved = bridge_events(&reg, &raw);
    collisions(&mut reg, &resolved);

    assert_eq!(reg.lookup(ship_e).unwrap().ship.unwrap().lives, 2);
    assert!(reg.lookup(cub_e).is_none());
}

#[test]
fn ship_on_either_side_of_the_contact_is_hit() {
    let mut reg = Registry::new();
    let (ship_e, _, ship_col) = create_ship(&mut reg);
    let (cub_e, _, cub_col) = spawn_cuboid(&mut reg, 2);

    // the cuboid is named first this time
    let raw = vec![RawEvent::ContactStarted(cub_col.user_data, ship_col.user_data)];
    let resolved = bridge_events(&reg, &raw);
    collisions(&mut reg, &resolved);

    assert_eq!(reg.lookup(ship_e).unwrap().ship.unwrap().lives, 2);
    assert!(reg.lookup(cub_e).is_none());
}

#[test]
fn contact_between_two_cuboids_changes_nothing() {
    let mut reg = Registry::new();
    let (ship_e, _, _) = create_ship(&mut reg);
    let (a, _, a_col) = spawn_cuboid(&mut reg, 2);
    let (b, _, b_col) = spawn_cuboid(&mut reg, 3);

    let raw = vec![RawEvent::ContactStarted(a_col.user_data, b_col.user_data)];
    let resolved = bridge_events(&reg, &raw);
    collisions(&mut reg, &resolved);

    assert_eq!(reg.lookup(ship_e).unwrap().ship.unwrap().lives, 3);
    assert!(reg.contains(a));
    assert!(reg.contains(b));
    assert_eq!(reg.len(), 3);
}

#[test]
fn several_contacts_in_one_tick_each_cost_a_life() {
    let mut reg = Registry::new();
    let (ship_e, _, ship_col) = create_ship(&mut reg);
    let (a, _, a_col) = spawn_cuboid(&mut reg, 1);
    let (b, _, b_col) = spawn_cuboid(&mut reg, 2);

    let raw = vec![
        RawEvent::ContactStarted(ship_col.user_data, a_col.user_data),
        RawEvent::ContactStarted(b_col.user_data, ship_col.user_data),
    ];
    let resolved = bridge_events(&reg, &raw);
    collisions(&mut reg, &resolved);

    assert_eq!(reg.lookup(ship_e).unwrap().ship.unwrap().lives, 1);
    assert!(reg.lookup(a).is_none());
    assert!(reg.lookup(b).is_none());
}

#[test]
fn lives_clamp_at_zero() {
    let mut reg = Registry::new();
    let ship_e = reg.spawn(Components::of_ship(0));
    let (cub_e, _, cub_col) = spawn_cuboid(&mut reg, 2);

    let raw = vec![RawEvent::ContactStarted(ship_e.to_bits(), cub_col.user_data)];
    let resolved = bridge_events(&reg, &raw);
    collisions(&mut reg, &resolved);

    assert_eq!(reg.lookup(ship_e).unwrap().ship.unwrap().lives, 0);
    assert!(reg.lookup(cub_e).is_none());
}

#[test]
fn stopped_contacts_are_ignored() {
    let mut reg = Registry::new();
    let (ship_e, _, ship_col) = create_ship(&mut reg);
    let (cub_e, _, cub_col) = spawn_cuboid(&mut reg, 2);

    let raw = vec![RawEvent::ContactStopped(ship_col.user_data, cub_col.user_data)];
    let resolved = bridge_events(&reg, &raw);
    collisions(&mut reg, &resolved);

    assert_eq!(reg.lookup(ship_e).unwrap().ship.unwrap().lives, 3);
    assert!(reg.contains(cub_e));
}

#[test]
fn contact_with_static_geometry_is_ignored() {
    let mut reg = Registry::new();
    let (ship_e, _, ship_col) = create_ship(&mut reg);

    // user-data 0 is static world geometry: no entity on that side
    let raw = vec![RawEvent::ContactStarted(ship_col.user_data, 0)];
    let resolved = bridge_events(&reg, &raw);
    assert_eq!(resolved[0], ResolvedEvent::ContactStarted(Some(ship_e), None));
    collisions(&mut reg, &resolved);

    assert_eq!(reg.lookup(ship_e).unwrap().ship.unwrap().lives, 3);
}

#[test]
fn trap_removes_other_side_and_persists() {
    let mut reg = Registry::new();
    let trap_e = reg.spawn(Components::of_trap());
    let (cub_e, _, cub_col) = spawn_cuboid(&mut reg, 2);

    let raw = vec![RawEvent::Intersection(trap_e.to_bits(), cub_col.user_data, true)];
    let resolved = bridge_events(&reg, &raw);
    traps(&mut reg, &resolved);

    assert!(reg.contains(trap_e));
    assert!(reg.lookup(cub_e).is_none());
}

#[test]
fn two_traps_intersecting_both_despawn() {
    let mut reg = Registry::new();
    let t1 = reg.spawn(Components::of_trap());
    let t2 = reg.spawn(Components::of_trap());

    let raw = vec![RawEvent::Intersection(t1.to_bits(), t2.to_bits(), true)];
    let resolved = bridge_events(&reg, &raw);
    traps(&mut reg, &resolved);

    assert!(reg.lookup(t1).is_none());
    assert!(reg.lookup(t2).is_none());
    assert_eq!(reg.len(), 0);
}

#[test]
fn intersection_without_a_trap_changes_nothing() {
    let mut reg = Registry::new();
    let (a, _, a_col) = spawn_cuboid(&mut reg, 2);
    let (b, _, b_col) = spawn_cuboid(&mut reg, 3);

    let raw = vec![RawEvent::Intersection(a_col.user_data, b_col.user_data, true)];
    let resolved = bridge_events(&reg, &raw);
    traps(&mut reg, &resolved);

    assert!(reg.contains(a));
    assert!(reg.contains(b));
}

#[test]
fn ended_intersections_are_ignored() {
    let mut reg = Registry::new();
    let trap_e = reg.spawn(Components::of_trap());
    let (cub_e, _, cub_col) = spawn_cuboid(&mut reg, 2);

    let raw = vec![RawEvent::Intersection(trap_e.to_bits(), cub_col.user_data, false)];
    let resolved = bridge_events(&reg, &raw);
    traps(&mut reg, &resolved);

    assert!(reg.contains(cub_e));
}

#[test]
fn bridge_keeps_order_and_length() {
    let mut reg = Registry::new();
    let (ship_e, _, ship_col) = create_ship(&mut reg);
    let (cub_e, _, cub_col) = spawn_cuboid(&mut reg, 2);

    let raw = vec![
        RawEvent::Intersection(0, cub_col.user_data, true),
        RawEvent::ContactStarted(ship_col.user_data, cub_col.user_data),
        RawEvent::ContactStopped(cub_col.user_data, 0),
    ];
    let resolved = bridge_events(&reg, &raw);
    assert_eq!(resolved.len(), 3);
    assert_eq!(resolved[0], ResolvedEvent::Intersection(None, Some(cub_e), true));
    assert_eq!(resolved[1], ResolvedEvent::ContactStarted(Some(ship_e), Some(cub_e)));
    assert_eq!(resolved[2], ResolvedEvent::ContactStopped(Some(cub_e), None));
}

#[test]
fn despawned_side_resolves_to_no_entity() {
    let mut reg = Registry::new();
    let (cub_e, _, cub_col) = spawn_cuboid(&mut reg, 2);
    reg.despawn(cub_e);

    // the object went away earlier in the tick; its handle must read as
    // "no entity" rather than failing
    let raw = vec![RawEvent::ContactStarted(cub_col.user_data, 0)];
    let resolved = bridge_events(&reg, &raw);
    assert_eq!(resolved[0], ResolvedEvent::ContactStarted(None, None));
}
