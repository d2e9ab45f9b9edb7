use asteroids::ammo::AmmoInt;
use asteroids::asteroid::Asteroids;
use asteroids::bullet::shoot_bullet;
use asteroids::geom::Vec2;
use asteroids::player::spawn_player;
use asteroids::world::{asteroid_collision_with_player, handle_collision_events, GameEvents, World};

fn world_with_player() -> World {
    let mut w = World::new();
    spawn_player(&mut w);
    w
}

fn dummy_asteroid(id: u64) -> Asteroids {
    Asteroids {
        id,
        pos: Vec2 { x: 100_000, y: 0 },
        vel: Vec2 { x: 2000, y: 0 },
        angvel: 0,
        shape: vec![],
    }
}

#[test]
fn firing_up_spawns_a_bullet_ahead_with_inherited_momentum() {
    let mut w = world_with_player();
    let mut ammo = AmmoInt::default();
    // Player at the origin facing straight up with a full magazine.
    shoot_bullet(&mut w, &mut ammo, true, Vec2 { x: 0, y: 1000 }, 16);
    assert_eq!(w.bullets.len(), 1);
    assert_eq!(w.bullets[0].pos, Vec2 { x: 0, y: 50_000 });
    assert_eq!(w.bullets[0].vel, Vec2 { x: 0, y: 500_000 });
    assert_eq!(ammo.current_ammo, 14);

    // A moving ship passes its own velocity on to the bullet.
    let mut w2 = world_with_player();
    let mut ammo2 = AmmoInt::default();
    w2.player.as_mut().unwrap().vel = Vec2 { x: 1000, y: 2000 };
    shoot_bullet(&mut w2, &mut ammo2, true, Vec2 { x: 0, y: 1000 }, 16);
    assert_eq!(w2.bullets[0].vel, Vec2 { x: 1000, y: 502_000 });
}

#[test]
fn ammo_stays_within_bounds_over_any_fire_sequence() {
    let mut w = world_with_player();
    let mut ammo = AmmoInt::default();
    // Rapid fire with no time passing: the magazine drains to zero and
    // never goes below it.
    for _ in 0..30 {
        shoot_bullet(&mut w, &mut ammo, true, Vec2 { x: 0, y: 1000 }, 0);
        assert!(ammo.current_ammo <= 15);
    }
    assert_eq!(ammo.current_ammo, 0);
    assert_eq!(w.bullets.len(), 15);

    // Slow fire with a full reload cycle per shot: every spent shot is
    // regained, and the count never exceeds the maximum.
    let mut w2 = world_with_player();
    let mut ammo2 = AmmoInt::default();
    for _ in 0..30 {
        shoot_bullet(&mut w2, &mut ammo2, true, Vec2 { x: 0, y: 1000 }, 1000);
        assert!(ammo2.current_ammo <= 15);
        assert_eq!(ammo2.current_ammo, 15);
    }
}

#[test]
fn reload_timer_only_ticks_on_a_discharging_frame() {
    let mut w = world_with_player();
    let mut ammo = AmmoInt::default();
    // Two shots 700 ms apart: the second completes the cycle and regains
    // one shot, keeping the overshoot in the timer.
    shoot_bullet(&mut w, &mut ammo, true, Vec2 { x: 0, y: 1000 }, 700);
    assert_eq!(ammo.current_ammo, 14);
    assert_eq!(ammo.reload_timer.elapsed_millis, 700);
    shoot_bullet(&mut w, &mut ammo, true, Vec2 { x: 0, y: 1000 }, 700);
    assert_eq!(ammo.current_ammo, 14);
    assert_eq!(ammo.reload_timer.elapsed_millis, 400);
    // An idle frame, however long, leaves the timer untouched.
    shoot_bullet(&mut w, &mut ammo, false, Vec2 { x: 0, y: 1000 }, 1000);
    assert_eq!(ammo.current_ammo, 14);
    assert_eq!(ammo.reload_timer.elapsed_millis, 400);
}

#[test]
fn touching_asteroids_emit_one_event_each_and_resolution_kills_the_player() {
    let mut w = world_with_player();
    let pid = w.player.as_ref().unwrap().id;
    w.asteroids.push(dummy_asteroid(10));
    w.asteroids.push(dummy_asteroid(11));
    w.next_id = 12;
    // Both asteroids touch the player; a third party (a bullet, say) is
    // touching the first asteroid too and is ignored.
    let touching = vec![vec![pid, 42], vec![pid]];
    asteroid_collision_with_player(&mut w, &touching);
    assert_eq!(w.events.len(), 2);
    for e in &w.events {
        assert!(matches!(e, GameEvents::ShipCollideWithAsteroid(id) if *id == pid));
    }
    handle_collision_events(&mut w);
    assert!(w.player.is_none());
    assert!(w.events.is_empty());
    // A later frame with no player alive: detection emits nothing, and
    // resolution takes no action and raises no error.
    let touching_later = vec![vec![pid, 42], vec![pid]];
    asteroid_collision_with_player(&mut w, &touching_later);
    assert!(w.events.is_empty());
    handle_collision_events(&mut w);
    assert!(w.player.is_none());
    assert!(w.events.is_empty());
}

#[test]
fn stale_or_foreign_events_leave_the_player_alone() {
    let mut w = world_with_player();
    // An event naming some other entity resolves to nothing.
    w.events.push(GameEvents::ShipCollideWithAsteroid(99));
    handle_collision_events(&mut w);
    assert!(w.player.is_some());
    assert!(w.events.is_empty());
    // Asteroids touching only each other emit no event.
    w.asteroids.push(dummy_asteroid(10));
    w.asteroids.push(dummy_asteroid(11));
    w.next_id = 12;
    let touching = vec![vec![11], vec![10]];
    asteroid_collision_with_player(&mut w, &touching);
    assert!(w.events.is_empty());
}
