//! The cooldown timer's accumulator semantics and the spawner's sampled
//! spawn requests.

use rscuboids::cuboids::{spawner_system, Span, SpawnError, Spawner};
use rscuboids::timer::Cooldown;

#[test]
fn cooldown_accumulates_across_uneven_ticks() {
    let mut c = Cooldown::new(100);
    assert!(!c.tick(33));
    assert!(!c.tick(33));
    assert!(!c.tick(33));
    // 99 ms accumulated; one more millisecond completes the period
    assert!(c.tick(1));
    // the clock restarted from the remainder
    assert!(!c.tick(99));
    assert!(c.tick(1));
}

#[test]
fn cooldown_keeps_remainder_past_period() {
    let mut c = Cooldown::new(100);
    assert!(!c.tick(90));
    assert!(c.tick(20));
    // 110 ms accumulated: fired once, 10 ms carried over
    assert!(!c.tick(89));
    assert!(c.tick(1));
}

#[test]
fn cooldown_fires_at_most_once_per_tick() {
    let mut c = Cooldown::new(50);
    // a stalled frame worth many periods still fires only once
    assert!(c.tick(500));
    assert!(!c.tick(49));
    assert!(c.tick(1));
}

#[test]
fn spawner_new_takes_defaults_for_missing_ranges() {
    let s = Spawner::new(Cooldown::new(10), None, None, None);
    assert_eq!(s.size_range, Span { start: 1, end: 4 });
    assert_eq!(s.angle_range, Span { start: 0, end: 360 });
    assert_eq!(s.speed_range, Span { start: 10, end: 50 });

    let t = Spawner::new(
        Cooldown::new(10),
        Some(Span { start: 240, end: 300 }),
        Some(Span { start: 2, end: 5 }),
        Some(Span { start: 30, end: 40 }),
    );
    assert_eq!(t.angle_range, Span { start: 240, end: 300 });
    assert_eq!(t.size_range, Span { start: 2, end: 5 });
    assert_eq!(t.speed_range, Span { start: 30, end: 40 });
}

#[test]
fn spawner_default_uses_standard_ranges() {
    let s = Spawner::default();
    assert_eq!(s.size_range, Span { start: 1, end: 4 });
    assert_eq!(s.angle_range, Span { start: 0, end: 360 });
    assert_eq!(s.speed_range, Span { start: 10, end: 50 });
}

#[test]
fn fire_samples_within_configured_ranges() {
    let s = Spawner::new(
        Cooldown::new(10),
        Some(Span { start: 240, end: 300 }),
        Some(Span { start: 2, end: 5 }),
        Some(Span { start: 10, end: 20 }),
    );
    for _ in 0..50 {
        let cmd = s.fire().unwrap();
        assert!(2 <= cmd.size && cmd.size < 5);
        assert!(240 <= cmd.angle_deg && cmd.angle_deg < 300);
        assert!(10 <= cmd.speed && cmd.speed < 20);
    }
}

#[test]
fn fire_pins_single_value_ranges() {
    let s = Spawner::new(
        Cooldown::new(10),
        Some(Span { start: 90, end: 91 }),
        Some(Span { start: 3, end: 4 }),
        Some(Span { start: 25, end: 26 }),
    );
    let cmd = s.fire().unwrap();
    assert_eq!(cmd.size, 3);
    assert_eq!(cmd.angle_deg, 90);
    assert_eq!(cmd.speed, 25);
}

#[test]
fn fire_rejects_size_range_outside_asset_table() {
    let high = Spawner::new(Cooldown::new(10), None, Some(Span { start: 5, end: 12 }), None);
    assert_eq!(high.fire(), Err(SpawnError::SizeOutsideAssetTable));

    let low = Spawner::new(Cooldown::new(10), None, Some(Span { start: 0, end: 3 }), None);
    assert_eq!(low.fire(), Err(SpawnError::SizeOutsideAssetTable));
}

#[test]
fn spawner_tick_fires_only_when_period_reached() {
    let mut s = Spawner::new(Cooldown::new(100), None, None, None);
    assert_eq!(s.tick(50), Ok(None));
    match s.tick(60) {
        Ok(Some(cmd)) => {
            assert!(1 <= cmd.size && cmd.size < 4);
            assert!(cmd.angle_deg < 360);
            assert!(10 <= cmd.speed && cmd.speed < 50);
        },
        other => panic!("expected a spawn request, got {:?}", other),
    }
    assert_eq!(s.tick(5), Ok(None));
}

#[test]
fn spawner_tick_reports_bad_size_range_when_firing() {
    let mut s = Spawner::new(Cooldown::new(100), None, Some(Span { start: 8, end: 11 }), None);
    // not yet due: the bad configuration is not consulted
    assert_eq!(s.tick(50), Ok(None));
    assert_eq!(s.tick(60), Err(SpawnError::SizeOutsideAssetTable));
}

#[test]
fn spawner_system_ticks_every_spawner_once() {
    let mut spawners = vec![
        Spawner::new(Cooldown::new(100), None, None, None),
        Spawner::new(Cooldown::new(200), None, None, None),
        Spawner::new(Cooldown::new(120), Some(Span { start: 180, end: 181 }), None, None),
    ];
    let cmds = spawner_system(&mut spawners, 150).unwrap();
    // the first and third spawners are due, the second is not
    assert_eq!(cmds.len(), 2);
    assert_eq!(cmds[1].angle_deg, 180);
    assert_eq!(spawners[0].cooldown.elapsed_ms, 50);
    assert_eq!(spawners[1].cooldown.elapsed_ms, 150);
    assert_eq!(spawners[2].cooldown.elapsed_ms, 30);

    let more = spawner_system(&mut spawners, 50).unwrap();
    // the first completes a second period and the second its first
    assert_eq!(more.len(), 2);
    assert!(1 <= more[0].size && more[0].size < 4);
    assert_eq!(spawners[0].cooldown.elapsed_ms, 0);
    assert_eq!(spawners[1].cooldown.elapsed_ms, 0);
    assert_eq!(spawners[2].cooldown.elapsed_ms, 80);
}

#[test]
fn spawner_system_fails_fast_and_leaves_spawners_untouched() {
    let mut spawners = vec![
        Spawner::new(Cooldown::new(100), None, None, None),
        Spawner::new(Cooldown::new(100), None, Some(Span { start: 9, end: 20 }), None),
    ];
    assert_eq!(spawner_system(&mut spawners, 150), Err(SpawnError::SizeOutsideAssetTable));
    // nothing advanced: the tick was refused as a whole
    assert_eq!(spawners[0].cooldown.elapsed_ms, 0);
    assert_eq!(spawners[1].cooldown.elapsed_ms, 0);

    // while the bad spawner is not due, the others still run
    let cmds = spawner_system(&mut spawners, 50).unwrap();
    assert_eq!(cmds.len(), 0);
    assert_eq!(spawners[0].cooldown.elapsed_ms, 50);
}
