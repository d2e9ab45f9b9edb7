use crate::ammo::{
    ammo_count_step, ammo_timer_step, ammo_wf, AmmoInt, MAX_AMMO, RELOAD_TIME_MILLIS,
};
use crate::geom::{div_milli, in_play, is_in_play, mul_div_milli, Vec2};
use crate::player::PlayerEnt;
use crate::world::{world_wf, World};
use vstd::prelude::*;

verus! {

/// A bullet's muzzle speed, in units per second.
pub const BULLET_SPEED: i64 = 500;

/// How far ahead of the ship's position a bullet appears, in units.
pub const BULLET_OFFSET: i64 = 50;

/// One bullet entity: a small circular projectile with its identity,
/// position and velocity.
#[derive(Clone, Copy, Debug, PartialEq, Eq, Structural)]
pub struct Bullet {
    pub id: u64,
    pub pos: Vec2,
    pub vel: Vec2,
}

/// A bullet's well-formedness: it sits within one movement step of the play
/// field, moving no faster than the muzzle speed plus the ship's top speed.
pub open spec fn bullet_wf(b: Bullet) -> bool {
    &&& -2_000_000 <= b.pos.x <= 2_000_000
    &&& -2_000_000 <= b.pos.y <= 2_000_000
    &&& -1_000_000 <= b.vel.x <= 1_000_000
    &&& -1_000_000 <= b.vel.y <= 1_000_000
}

/// The bullet a firing ship produces: placed `BULLET_OFFSET` units along
/// the facing direction from the ship, moving along the facing at the
/// muzzle speed plus the ship's own velocity (it inherits momentum).
pub open spec fn spawned_bullet(p: PlayerEnt, facing: Vec2, id: u64) -> Bullet {
    Bullet {
        id,
        pos: Vec2 {
            x: (p.pos.x + facing.x * BULLET_OFFSET) as i64,
            y: (p.pos.y + facing.y * BULLET_OFFSET) as i64,
        },
        vel: Vec2 {
            x: (facing.x * BULLET_SPEED + p.vel.x) as i64,
            y: (facing.y * BULLET_SPEED + p.vel.y) as i64,
        },
    }
}

/// Fires on the rising edge of the fire key: if the key was just pressed,
/// a shot is in the magazine, and the player is alive, a bullet spawns from
/// the ship, one shot is spent, and the reload timer advances by the
/// frame's elapsed time — regaining one shot if it completed a cycle and
/// the magazine is below the maximum. On any other frame nothing changes:
/// in particular, the reload timer does not tick on a frame without a
/// discharge.
pub fn shoot_bullet(w: &mut World, ammo: &mut AmmoInt, fire_just_pressed: bool, facing: Vec2, dt: i64)
    requires
        world_wf(*old(w)),
        ammo_wf(*old(ammo)),
        -1000 <= facing.x <= 1000,
        -1000 <= facing.y <= 1000,
        0 <= dt <= 1000,
        old(w).next_id < u64::MAX,
    ensures
        world_wf(*final(w)),
        ammo_wf(*final(ammo)),
        final(ammo).current_ammo as int == ammo_count_step(
            old(ammo).current_ammo as int,
            old(ammo).reload_timer.elapsed_millis as int,
            fire_just_pressed && old(w).player is Some,
            dt as int,
        ),
        final(ammo).reload_timer.elapsed_millis as int == ammo_timer_step(
            old(ammo).current_ammo as int,
            old(ammo).reload_timer.elapsed_millis as int,
            fire_just_pressed && old(w).player is Some,
            dt as int,
        ),
        final(w).asteroids@ == old(w).asteroids@,
        final(w).player == old(w).player,
        final(w).events@ == old(w).events@,
        old(w).player matches Some(p) ==> ((fire_just_pressed && old(ammo).current_ammo > 0)
            ==> {
            &&& final(w).bullets@ == old(w).bullets@.push(
                spawned_bullet(p, facing, old(w).next_id),
            )
            &&& final(w).next_id == old(w).next_id + 1
        }),
        !(fire_just_pressed && old(ammo).current_ammo > 0 && old(w).player is Some) ==> {
            &&& final(w).bullets@ == old(w).bullets@
            &&& final(w).next_id == old(w).next_id
        },
{
    if fire_just_pressed {
        if ammo.current_ammo > 0 {
            match &w.player {
                Some(p) => {
                    let bullet = Bullet {
                        id: w.next_id,
                        pos: Vec2 {
                            x: p.pos.x + facing.x * BULLET_OFFSET,
                            y: p.pos.y + facing.y * BULLET_OFFSET,
                        },
                        vel: Vec2 {
                            x: facing.x * BULLET_SPEED + p.vel.x,
                            y: facing.y * BULLET_SPEED + p.vel.y,
                        },
                    };
                    w.bullets.push(bullet);
                    w.next_id = w.next_id + 1;
                    ammo.current_ammo = ammo.current_ammo - 1;
                    let ticked = ammo.reload_timer.elapsed_millis + dt;
                    if ticked >= RELOAD_TIME_MILLIS {
                        ammo.reload_timer.elapsed_millis = ticked - RELOAD_TIME_MILLIS;
                        if ammo.current_ammo < MAX_AMMO {
                            ammo.current_ammo = ammo.current_ammo + 1;
                        }
                    } else {
                        ammo.reload_timer.elapsed_millis = ticked;
                    }
                },
                None => {},
            }
        }
    }
}

/// One movement step: the bullet's position advanced by its velocity times
/// the elapsed time.
pub open spec fn step_bullet(b: Bullet, dt: int) -> Bullet {
    Bullet {
        pos: Vec2 {
            x: (b.pos.x + div_milli(b.vel.x * dt)) as i64,
            y: (b.pos.y + div_milli(b.vel.y * dt)) as i64,
        },
        ..b
    }
}

/// The bullets left after one movement step: each moved by its velocity, in
/// their original order, keeping exactly those still inside the play field.
pub open spec fn surviving_bullets(s: Seq<Bullet>, dt: int) -> Seq<Bullet>
    decreases s.len(),
{
    if s.len() == 0 {
        Seq::empty()
    } else {
        let prev = surviving_bullets(s.drop_last(), dt);
        let m = step_bullet(s.last(), dt);
        if in_play(m.pos) {
            prev.push(m)
        } else {
            prev
        }
    }
}

/// Advances every bullet by its velocity times the elapsed time, and
/// destroys any whose position then leaves the play field on either axis:
/// every bullet still present afterwards is inside the field.
pub fn move_bullet(w: &mut World, dt: i64)
    requires
        world_wf(*old(w)),
        0 <= dt <= 1000,
    ensures
        world_wf(*final(w)),
        final(w).bullets@ == surviving_bullets(old(w).bullets@, dt as int),
        forall|i: int|
            0 <= i < final(w).bullets@.len() ==> in_play(#[trigger] final(w).bullets@[i].pos),
        final(w).asteroids@ == old(w).asteroids@,
        final(w).player == old(w).player,
        final(w).events@ == old(w).events@,
        final(w).next_id == old(w).next_id,
{
    let ghost orig = w.bullets@;
    let total: usize = w.bullets.len();
    let mut kept: Vec<Bullet> = Vec::new();
    let mut i: usize = 0;
    while w.bullets.len() > 0
        invariant
            world_wf(*old(w)),
            0 <= dt <= 1000,
            orig.len() == total,
            i <= total,
            i + w.bullets@.len() == orig.len(),
            w.bullets@ == orig.skip(i as int),
            orig == old(w).bullets@,
            kept@ == surviving_bullets(orig.take(i as int), dt as int),
            forall|j: int|
                0 <= j < kept@.len() ==> in_play(#[trigger] kept@[j].pos) && bullet_wf(kept@[j])
                    && kept@[j].id < old(w).next_id,
            w.asteroids@ == old(w).asteroids@,
            w.player == old(w).player,
            w.events@ == old(w).events@,
            w.next_id == old(w).next_id,
        decreases w.bullets@.len(),
    {
        proof {
            assert(orig.skip(i as int).remove(0) =~= orig.skip(i as int + 1));
            assert(orig.skip(i as int)[0] == orig[i as int]);
            assert(bullet_wf(orig[i as int]) && orig[i as int].id < old(w).next_id) by {
                assert(orig[i as int] == old(w).bullets@[i as int]);
            }
        }
        let b = w.bullets.remove(0);
        proof {
            assert(-1_000_000_000 <= b.vel.x * dt <= 1_000_000_000 && -1_000_000_000 <= b.vel.y
                * dt <= 1_000_000_000) by (nonlinear_arith)
                requires
                    -1_000_000 <= b.vel.x <= 1_000_000,
                    -1_000_000 <= b.vel.y <= 1_000_000,
                    0 <= dt <= 1000,
            ;
            crate::geom::lemma_div_milli_bound(b.vel.x * dt, 1_000_000);
            crate::geom::lemma_div_milli_bound(b.vel.y * dt, 1_000_000);
        }
        let nx = b.pos.x + mul_div_milli(b.vel.x, dt);
        let ny = b.pos.y + mul_div_milli(b.vel.y, dt);
        let moved = Bullet { pos: Vec2 { x: nx, y: ny }, ..b };
        proof {
            assert(moved == step_bullet(orig[i as int], dt as int));
            assert(orig.take(i as int + 1).drop_last() =~= orig.take(i as int));
            assert(orig.take(i as int + 1).last() == orig[i as int]);
        }
        if is_in_play(moved.pos) {
            kept.push(moved);
        }
        i += 1;
    }
    proof {
        assert(orig.take(i as int) =~= orig);
    }
    w.bullets = kept;
}

} // verus!
