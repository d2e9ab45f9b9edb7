use crate::geom::{div_milli, mul_div_milli, Vec2, HALF_FIELD, TAU_MILLI};
use crate::world::{world_wf, World};
use vstd::arithmetic::div_mod::{lemma_div_by_multiple, lemma_div_multiples_vanish, lemma_div_of0};
use vstd::prelude::*;

verus! {

/// How fast the ship turns while a rotate key is held, in milli-radians
/// per second.
pub const ROTATION_SPEED: i64 = 5000;

/// The ship's engine power while a thrust key is held, in units per second.
pub const MAX_THRUST: i64 = 300;

/// The ship's control component: engine power and turn rate as set by the
/// keys this frame. Thrust is in units per second, the turn rate in
/// milli-radians per second.
#[derive(Clone, Copy, Debug, PartialEq, Eq, Structural)]
pub struct Player {
    pub thrust: i64,
    pub rotation_speed: i64,
}

/// The single ship entity: its identity, control component, transform
/// (position and heading), velocity, thruster indicator flag, and the three
/// corners of its triangular collider.
#[derive(Clone, Copy, Debug, PartialEq, Eq, Structural)]
pub struct PlayerEnt {
    pub id: u64,
    pub player: Player,
    pub pos: Vec2,
    pub angle: i64,
    pub vel: Vec2,
    pub thrusting: bool,
    pub collider_a: Vec2,
    pub collider_b: Vec2,
    pub collider_c: Vec2,
}

/// The keys that steer the ship, as sampled by the host once per frame.
#[derive(Clone, Copy, Debug, PartialEq, Eq, Structural)]
pub struct ShipControls {
    pub rotate_left: bool,
    pub rotate_right: bool,
    pub thrust_forward: bool,
    pub thrust_backward: bool,
}

/// The ship's well-formedness: all kinematic quantities stay inside the
/// bounds that one frame of the update rules can produce, and the heading
/// is normalized into one turn.
pub open spec fn player_wf(p: PlayerEnt) -> bool {
    &&& -1_000_000 <= p.pos.x <= 1_000_000
    &&& -1_000_000 <= p.pos.y <= 1_000_000
    &&& -300_000 <= p.vel.x <= 300_000
    &&& -300_000 <= p.vel.y <= 300_000
    &&& 0 <= p.angle < TAU_MILLI
    &&& -MAX_THRUST <= p.player.thrust <= MAX_THRUST
    &&& -ROTATION_SPEED <= p.player.rotation_speed <= ROTATION_SPEED
}

/// A heading moved by less than one turn, folded back into `[0, TAU_MILLI)`.
pub open spec fn norm_angle(a: int) -> int
    recommends
        -TAU_MILLI <= a < 2 * TAU_MILLI,
{
    if a < 0 {
        a + TAU_MILLI
    } else if a >= TAU_MILLI {
        a - TAU_MILLI
    } else {
        a
    }
}

/// The turn rate the keys command: rotate-left wins over rotate-right, and
/// with neither held the ship does not turn.
pub open spec fn commanded_rotation_speed(c: ShipControls) -> int {
    if c.rotate_left {
        ROTATION_SPEED as int
    } else if c.rotate_right {
        -ROTATION_SPEED as int
    } else {
        0
    }
}

/// The engine power the keys command: forward wins over backward, and with
/// neither held the engine is off.
pub open spec fn commanded_thrust(c: ShipControls) -> int {
    if c.thrust_forward {
        MAX_THRUST as int
    } else if c.thrust_backward {
        -MAX_THRUST as int
    } else {
        0
    }
}

/// Creates the single player ship, once at startup: at the field origin,
/// heading up, at rest, engine off, with the fixed triangular collider.
pub fn spawn_player(w: &mut World)
    requires
        world_wf(*old(w)),
        old(w).player is None,
        old(w).next_id < u64::MAX,
    ensures
        world_wf(*final(w)),
        final(w).player == Some(
            PlayerEnt {
                id: old(w).next_id,
                player: Player { thrust: 0, rotation_speed: 0 },
                pos: Vec2 { x: 0, y: 0 },
                angle: 0,
                vel: Vec2 { x: 0, y: 0 },
                thrusting: false,
                collider_a: Vec2 { x: 0, y: 2000 },
                collider_b: Vec2 { x: -1000i64, y: -1000i64 },
                collider_c: Vec2 { x: 1000, y: -1000i64 },
            },
        ),
        final(w).next_id == old(w).next_id + 1,
        final(w).asteroids@ == old(w).asteroids@,
        final(w).bullets@ == old(w).bullets@,
        final(w).events@ == old(w).events@,
{
    let ship = PlayerEnt {
        id: w.next_id,
        player: Player { thrust: 0, rotation_speed: 0 },
        pos: Vec2 { x: 0, y: 0 },
        angle: 0,
        vel: Vec2 { x: 0, y: 0 },
        thrusting: false,
        collider_a: Vec2 { x: 0, y: 2000 },
        collider_b: Vec2 { x: -1000, y: -1000 },
        collider_c: Vec2 { x: 1000, y: -1000 },
    };
    w.player = Some(ship);
    w.next_id = w.next_id + 1;
}

/// The ship after one steering step: the commanded turn rate and engine
/// power from the keys, the heading turned by the new rate times the
/// elapsed time and folded back into one turn, and the thruster indicator
/// lit while either thrust key is held. Position and velocity are untouched.
pub open spec fn controlled_player(p: PlayerEnt, c: ShipControls, dt: int) -> PlayerEnt {
    PlayerEnt {
        player: Player {
            rotation_speed: commanded_rotation_speed(c) as i64,
            thrust: commanded_thrust(c) as i64,
        },
        angle: norm_angle(p.angle + commanded_rotation_speed(c) * dt / 1000) as i64,
        thrusting: c.thrust_forward || c.thrust_backward,
        ..p
    }
}

/// Steers the ship from the sampled keys: sets the commanded turn rate,
/// turns the heading by that rate times the elapsed time, and sets the
/// commanded engine power and the thruster indicator. With no ship alive
/// this is a silent skip. Position and velocity are untouched here: the
/// host reads the new heading to compute the facing vector, and the thrust
/// is applied to the motion in a separate step.
#[verifier::rlimit(30)]
pub fn player_controls(w: &mut World, controls: ShipControls, dt: i64)
    requires
        world_wf(*old(w)),
        0 <= dt <= 1000,
    ensures
        world_wf(*final(w)),
        final(w).asteroids@ == old(w).asteroids@,
        final(w).bullets@ == old(w).bullets@,
        final(w).events@ == old(w).events@,
        final(w).next_id == old(w).next_id,
        old(w).player is None ==> final(w).player is None,
        old(w).player matches Some(p) ==> final(w).player == Some(
            controlled_player(p, controls, dt as int),
        ),
{
    let ghost old_player = w.player;
    match &mut w.player {
        Some(p) => {
            let delta: i64;
            if controls.rotate_left {
                p.player.rotation_speed = ROTATION_SPEED;
                delta = 5 * dt;
                proof {
                    lemma_div_by_multiple(5 * dt, 1000);
                    assert(ROTATION_SPEED * dt == (5 * dt) * 1000);
                }
            } else if controls.rotate_right {
                p.player.rotation_speed = -ROTATION_SPEED;
                delta = -(5 * dt);
                proof {
                    lemma_div_multiples_vanish(-(5 * dt) as int, 1000);
                    assert((-ROTATION_SPEED) * dt == 1000 * (-(5 * dt))) by (nonlinear_arith);
                }
            } else {
                p.player.rotation_speed = 0;
                delta = 0;
                proof {
                    lemma_div_of0(1000);
                }
            }
            let turned = p.angle + delta;
            if turned < 0 {
                p.angle = turned + TAU_MILLI;
            } else if turned >= TAU_MILLI {
                p.angle = turned - TAU_MILLI;
            } else {
                p.angle = turned;
            }
            if controls.thrust_forward {
                p.player.thrust = MAX_THRUST;
                p.thrusting = true;
            } else if controls.thrust_backward {
                p.player.thrust = -MAX_THRUST;
                p.thrusting = true;
            } else {
                p.player.thrust = 0;
                p.thrusting = false;
            }
        },
        None => {},
    }
    proof {
        if old_player is Some {
            let p = old_player->0;
            assert(w.player == Some(controlled_player(p, controls, dt as int)));
        }
    }
}

/// Applies the commanded thrust to the ship's motion: the velocity is
/// overwritten — not accumulated — with the facing direction times the
/// engine power times the elapsed time, and the position advances by that
/// velocity, with no further time scaling. `facing` is the unit vector of
/// the ship's heading, in milli-units, as the host computes it from the
/// angle after this frame's turn. With no ship alive this is a silent skip.
pub fn apply_player_motion(w: &mut World, facing: Vec2, dt: i64)
    requires
        world_wf(*old(w)),
        -1000 <= facing.x <= 1000,
        -1000 <= facing.y <= 1000,
        0 <= dt <= 1000,
        old(w).player matches Some(p) ==> -HALF_FIELD <= p.pos.x <= HALF_FIELD && -HALF_FIELD
            <= p.pos.y <= HALF_FIELD,
    ensures
        world_wf(*final(w)),
        final(w).asteroids@ == old(w).asteroids@,
        final(w).bullets@ == old(w).bullets@,
        final(w).events@ == old(w).events@,
        final(w).next_id == old(w).next_id,
        old(w).player is None ==> final(w).player is None,
        old(w).player matches Some(p) ==> final(w).player matches Some(q) && {
            &&& q.vel.x == div_milli(facing.x * p.player.thrust * dt)
            &&& q.vel.y == div_milli(facing.y * p.player.thrust * dt)
            &&& q.pos.x == p.pos.x + q.vel.x
            &&& q.pos.y == p.pos.y + q.vel.y
            &&& q.angle == p.angle
            &&& q.player == p.player
            &&& q.thrusting == p.thrusting
            &&& q.id == p.id
            &&& q.collider_a == p.collider_a
            &&& q.collider_b == p.collider_b
            &&& q.collider_c == p.collider_c
        },
{
    match &mut w.player {
        Some(p) => {
            proof {
                assert(-300_000 <= facing.x * p.player.thrust <= 300_000 && -300_000 <= facing.y
                    * p.player.thrust <= 300_000) by (nonlinear_arith)
                    requires
                        -1000 <= facing.x <= 1000,
                        -1000 <= facing.y <= 1000,
                        -300 <= p.player.thrust <= 300,
                ;
            }
            let ax = facing.x * p.player.thrust;
            let ay = facing.y * p.player.thrust;
            proof {
                assert(-300_000_000 <= ax * dt <= 300_000_000 && -300_000_000 <= ay * dt
                    <= 300_000_000) by (nonlinear_arith)
                    requires
                        -300_000 <= ax <= 300_000,
                        -300_000 <= ay <= 300_000,
                        0 <= dt <= 1000,
                ;
                crate::geom::lemma_div_milli_bound(ax * dt, 300_000);
                crate::geom::lemma_div_milli_bound(ay * dt, 300_000);
            }
            let vx = mul_div_milli(ax, dt);
            let vy = mul_div_milli(ay, dt);
            p.vel = Vec2 { x: vx, y: vy };
            p.pos = Vec2 { x: p.pos.x + vx, y: p.pos.y + vy };
        },
        None => {},
    }
}

/// One coordinate after the player's boundary wrap: a coordinate beyond
/// half the field on either side reappears at the opposite edge, exactly;
/// anything inside is untouched.
pub open spec fn wrap_coord(x: int) -> int {
    if x > HALF_FIELD {
        -HALF_FIELD as int
    } else if x < -HALF_FIELD {
        HALF_FIELD as int
    } else {
        x
    }
}

/// Wraps the player's position at the play-field boundary: each axis that
/// left the field reappears at the opposite edge. The player is never
/// destroyed by leaving bounds — only by collision. With no ship alive this
/// is a silent skip.
pub fn wrap_player_position(w: &mut World)
    requires
        world_wf(*old(w)),
    ensures
        world_wf(*final(w)),
        final(w).asteroids@ == old(w).asteroids@,
        final(w).bullets@ == old(w).bullets@,
        final(w).events@ == old(w).events@,
        final(w).next_id == old(w).next_id,
        old(w).player is None ==> final(w).player is None,
        old(w).player matches Some(p) ==> final(w).player matches Some(q) && {
            &&& q.pos.x == wrap_coord(p.pos.x as int)
            &&& q.pos.y == wrap_coord(p.pos.y as int)
            &&& -HALF_FIELD <= q.pos.x <= HALF_FIELD
            &&& -HALF_FIELD <= q.pos.y <= HALF_FIELD
            &&& q.angle == p.angle
            &&& q.vel == p.vel
            &&& q.player == p.player
            &&& q.thrusting == p.thrusting
            &&& q.id == p.id
            &&& q.collider_a == p.collider_a
            &&& q.collider_b == p.collider_b
            &&& q.collider_c == p.collider_c
        },
{
    match &mut w.player {
        Some(p) => {
            if p.pos.x > HALF_FIELD {
                p.pos.x = -HALF_FIELD;
            } else if p.pos.x < -HALF_FIELD {
                p.pos.x = HALF_FIELD;
            }
            if p.pos.y > HALF_FIELD {
                p.pos.y = -HALF_FIELD;
            } else if p.pos.y < -HALF_FIELD {
                p.pos.y = HALF_FIELD;
            }
        },
        None => {},
    }
}

} // verus!
