use asteroids::ammo::AmmoInt;
use asteroids::asteroid::{create_random_asteroid_shape, move_asteroids, spawn_asteroids, Asteroids};
use asteroids::bullet::{move_bullet, shoot_bullet, Bullet};
use asteroids::geom::Vec2;
use asteroids::player::{apply_player_motion, player_controls, spawn_player, wrap_player_position, ShipControls};
use asteroids::world::World;

fn world_with_player() -> World {
    let mut w = World::new();
    spawn_player(&mut w);
    w
}

const NO_KEYS: ShipControls = ShipControls {
    rotate_left: false,
    rotate_right: false,
    thrust_forward: false,
    thrust_backward: false,
};

#[test]
fn asteroid_shape_has_twenty_vertices_in_the_scaled_annulus() {
    for &scale in &[500i64, 1000, 1499] {
        let pts = create_random_asteroid_shape(scale);
        assert_eq!(pts.len(), 20);
        for v in &pts {
            assert!(v.x.abs() <= 50 * scale);
            assert!(v.y.abs() <= 50 * scale);
        }
        // Vertex 0 lies on the positive x axis: its x coordinate is the raw
        // radius, drawn in [10 * scale, 50 * scale).
        assert_eq!(pts[0].y, 0);
        assert!(10 * scale <= pts[0].x && pts[0].x < 50 * scale);
        // Vertex 5 lies on the positive y axis.
        assert_eq!(pts[5].x, 0);
        assert!(10 * scale <= pts[5].y && pts[5].y < 50 * scale);
        // Vertex 10 lies on the negative x axis.
        assert_eq!(pts[10].y, 0);
        assert!(-50 * scale < pts[10].x && pts[10].x <= -10 * scale);
    }
}

#[test]
fn spawning_fills_an_empty_field_with_nine_asteroids() {
    let mut w = World::new();
    spawn_asteroids(&mut w);
    assert_eq!(w.asteroids.len(), 9);
    assert_eq!(w.next_id, 9);
    for a in &w.asteroids {
        // On one of the four edges, moving inward along the spawn axis with
        // magnitude in [2000, 5000) milli-units per second.
        let on_left = a.pos.x == -500_000 && (2000..5000).contains(&a.vel.x) && a.vel.y == 0;
        let on_right = a.pos.x == 500_000 && (-4999..=-2000).contains(&a.vel.x) && a.vel.y == 0;
        let on_bottom = a.pos.y == -500_000 && (2000..5000).contains(&a.vel.y) && a.vel.x == 0;
        let on_top = a.pos.y == 500_000 && (-4999..=-2000).contains(&a.vel.y) && a.vel.x == 0;
        assert!(on_left || on_right || on_bottom || on_top);
        assert!(a.pos.x.abs() <= 500_000 && a.pos.y.abs() <= 500_000);
        assert!((-2000..=2000).contains(&a.angvel));
        assert_eq!(a.shape.len(), 20);
    }
}

#[test]
fn spawning_is_a_no_op_while_asteroids_exist() {
    let mut w = World::new();
    spawn_asteroids(&mut w);
    assert_eq!(w.asteroids.len(), 9);
    let ids: Vec<u64> = w.asteroids.iter().map(|a| a.id).collect();
    spawn_asteroids(&mut w);
    assert_eq!(w.asteroids.len(), 9);
    assert_eq!(w.next_id, 9);
    let ids_after: Vec<u64> = w.asteroids.iter().map(|a| a.id).collect();
    assert_eq!(ids, ids_after);
    // One asteroid left is still enough to suppress a new wave.
    w.asteroids.truncate(1);
    spawn_asteroids(&mut w);
    assert_eq!(w.asteroids.len(), 1);
}

#[test]
fn asteroids_leaving_the_field_despawn_and_others_move_exactly() {
    let mut w = World::new();
    w.asteroids.push(Asteroids {
        id: 0,
        pos: Vec2 { x: 500_000, y: 0 },
        vel: Vec2 { x: 3000, y: 0 },
        angvel: 0,
        shape: vec![],
    });
    w.asteroids.push(Asteroids {
        id: 1,
        pos: Vec2 { x: 0, y: -10_000 },
        vel: Vec2 { x: 0, y: 4000 },
        angvel: 0,
        shape: vec![],
    });
    w.asteroids.push(Asteroids {
        id: 2,
        pos: Vec2 { x: 500_000, y: 0 },
        vel: Vec2 { x: 0, y: 2000 },
        angvel: 0,
        shape: vec![],
    });
    w.next_id = 3;
    move_asteroids(&mut w, 1000);
    // The first moved to x = 503_000, beyond the 500-unit boundary: gone.
    assert_eq!(w.asteroids.len(), 2);
    assert_eq!(w.asteroids[0].id, 1);
    // The second advanced by velocity times one second exactly.
    assert_eq!(w.asteroids[0].pos, Vec2 { x: 0, y: -6000 });
    // The third ends exactly on the boundary, which is still in play.
    assert_eq!(w.asteroids[1].id, 2);
    assert_eq!(w.asteroids[1].pos, Vec2 { x: 500_000, y: 2000 });
}

#[test]
fn moving_an_empty_field_is_a_no_op() {
    let mut w = World::new();
    move_asteroids(&mut w, 16);
    move_bullet(&mut w, 16);
    assert!(w.asteroids.is_empty());
    assert!(w.bullets.is_empty());
}

#[test]
fn bullets_leaving_the_field_despawn_and_others_move_exactly() {
    let mut w = World::new();
    w.bullets.push(Bullet {
        id: 0,
        pos: Vec2 { x: 499_000, y: 0 },
        vel: Vec2 { x: 500_000, y: 0 },
    });
    w.bullets.push(Bullet {
        id: 1,
        pos: Vec2 { x: 0, y: 0 },
        vel: Vec2 { x: 500_000, y: 0 },
    });
    w.next_id = 2;
    move_bullet(&mut w, 16);
    // The first moved 8 units to x = 507_000: out of bounds, gone.
    assert_eq!(w.bullets.len(), 1);
    assert_eq!(w.bullets[0].id, 1);
    assert_eq!(w.bullets[0].pos, Vec2 { x: 8000, y: 0 });
}

#[test]
fn player_position_wraps_to_the_opposite_edge_on_all_four_sides() {
    let cases = [
        (Vec2 { x: 500_001, y: 0 }, Vec2 { x: -500_000, y: 0 }),
        (Vec2 { x: -500_001, y: 0 }, Vec2 { x: 500_000, y: 0 }),
        (Vec2 { x: 0, y: 500_001 }, Vec2 { x: 0, y: -500_000 }),
        (Vec2 { x: 0, y: -500_001 }, Vec2 { x: 0, y: 500_000 }),
    ];
    for (before, after) in cases {
        let mut w = world_with_player();
        w.player.as_mut().unwrap().pos = before;
        wrap_player_position(&mut w);
        assert_eq!(w.player.as_ref().unwrap().pos, after);
    }
    // Exactly on the boundary, the position is untouched.
    let mut w = world_with_player();
    w.player.as_mut().unwrap().pos = Vec2 { x: 500_000, y: -500_000 };
    wrap_player_position(&mut w);
    assert_eq!(w.player.as_ref().unwrap().pos, Vec2 { x: 500_000, y: -500_000 });
}

#[test]
fn controls_set_rotation_thrust_and_heading() {
    let mut w = world_with_player();
    let left_and_forward = ShipControls {
        rotate_left: true,
        rotate_right: false,
        thrust_forward: true,
        thrust_backward: false,
    };
    player_controls(&mut w, left_and_forward, 100);
    {
        let p = w.player.as_ref().unwrap();
        assert_eq!(p.player.rotation_speed, 5000);
        assert_eq!(p.player.thrust, 300);
        assert!(p.thrusting);
        // The heading turned by 5 milli-radians per millisecond of frame time.
        assert_eq!(p.angle, 500);
    }
    let right = ShipControls { rotate_left: false, rotate_right: true, ..NO_KEYS };
    player_controls(&mut w, right, 200);
    {
        let p = w.player.as_ref().unwrap();
        assert_eq!(p.player.rotation_speed, -5000);
        assert_eq!(p.player.thrust, 0);
        assert!(!p.thrusting);
        // 500 - 1000 wraps below zero into [0, 6283).
        assert_eq!(p.angle, 500 - 1000 + 6283);
    }
}

#[test]
fn thrust_overwrites_velocity_and_moves_by_it_once() {
    let mut w = world_with_player();
    let forward = ShipControls { thrust_forward: true, ..NO_KEYS };
    player_controls(&mut w, forward, 100);
    // Facing straight up: velocity becomes facing * thrust * dt / 1000 and
    // the position advances by the velocity itself, with no second scaling.
    apply_player_motion(&mut w, Vec2 { x: 0, y: 1000 }, 100);
    {
        let p = w.player.as_ref().unwrap();
        assert_eq!(p.vel, Vec2 { x: 0, y: 30_000 });
        assert_eq!(p.pos, Vec2 { x: 0, y: 30_000 });
    }
    // With the key released the velocity is overwritten back to zero, not
    // accumulated.
    player_controls(&mut w, NO_KEYS, 100);
    apply_player_motion(&mut w, Vec2 { x: 0, y: 1000 }, 100);
    {
        let p = w.player.as_ref().unwrap();
        assert_eq!(p.vel, Vec2 { x: 0, y: 0 });
        assert_eq!(p.pos, Vec2 { x: 0, y: 30_000 });
    }
}

#[test]
fn spawned_player_starts_at_rest_at_the_origin() {
    let w = world_with_player();
    let p = w.player.as_ref().unwrap();
    assert_eq!(p.id, 0);
    assert_eq!(p.pos, Vec2 { x: 0, y: 0 });
    assert_eq!(p.vel, Vec2 { x: 0, y: 0 });
    assert_eq!(p.angle, 0);
    assert_eq!(p.player.thrust, 0);
    assert_eq!(p.player.rotation_speed, 0);
    assert!(!p.thrusting);
    assert_eq!(p.collider_a, Vec2 { x: 0, y: 2000 });
    assert_eq!(p.collider_b, Vec2 { x: -1000, y: -1000 });
    assert_eq!(p.collider_c, Vec2 { x: 1000, y: -1000 });
    assert_eq!(w.next_id, 1);
}

#[test]
fn default_ammo_is_a_full_magazine() {
    let a = AmmoInt::default();
    assert_eq!(a.current_ammo, 15);
    assert_eq!(a.reload_timer.elapsed_millis, 0);
}

#[test]
fn firing_without_the_key_or_without_ammo_changes_nothing() {
    let mut w = world_with_player();
    let mut ammo = AmmoInt::default();
    shoot_bullet(&mut w, &mut ammo, false, Vec2 { x: 0, y: 1000 }, 16);
    assert_eq!(w.bullets.len(), 0);
    assert_eq!(ammo.current_ammo, 15);
    assert_eq!(ammo.reload_timer.elapsed_millis, 0);
    ammo.current_ammo = 0;
    shoot_bullet(&mut w, &mut ammo, true, Vec2 { x: 0, y: 1000 }, 16);
    assert_eq!(w.bullets.len(), 0);
    assert_eq!(ammo.current_ammo, 0);
    assert_eq!(ammo.reload_timer.elapsed_millis, 0);
}
