use crate::geom::{div_milli, in_play, is_in_play, mul_div_milli, Vec2, HALF_FIELD};
use crate::rng::{rand_i64_in, rand_i64_in_inclusive};
use crate::world::{world_wf, World};
use vstd::prelude::*;

verus! {

/// One asteroid entity: identity, transform, linear and angular velocity,
/// and the closed polygon outline that also serves as its sensor collider.
pub struct Asteroids {
    pub id: u64,
    pub pos: Vec2,
    pub vel: Vec2,
    pub angvel: i64,
    pub shape: Vec<Vec2>,
}

/// An asteroid's well-formedness: it sits within one movement step of the
/// play field and carries the bounded kinematics that spawning assigns.
pub open spec fn asteroid_wf(a: Asteroids) -> bool {
    &&& -1_000_000 <= a.pos.x <= 1_000_000
    &&& -1_000_000 <= a.pos.y <= 1_000_000
    &&& -5000 <= a.vel.x <= 5000
    &&& -5000 <= a.vel.y <= 5000
    &&& -2000 <= a.angvel <= 2000
}

/// Cosine of the k-th of 20 evenly spaced directions (angle k * 2pi/20),
/// in milli-units.
pub open spec fn spoke_cos(k: int) -> int {
    if k == 0 { 1000 } else if k == 1 { 951 } else if k == 2 { 809 } else if k == 3 { 588 }
    else if k == 4 { 309 } else if k == 5 { 0 } else if k == 6 { -309 } else if k == 7 { -588 }
    else if k == 8 { -809 } else if k == 9 { -951 } else if k == 10 { -1000 } else if k == 11 { -951 }
    else if k == 12 { -809 } else if k == 13 { -588 } else if k == 14 { -309 } else if k == 15 { 0 }
    else if k == 16 { 309 } else if k == 17 { 588 } else if k == 18 { 809 } else { 951 }
}

/// Sine of the k-th of 20 evenly spaced directions, in milli-units.
pub open spec fn spoke_sin(k: int) -> int {
    if k == 0 { 0 } else if k == 1 { 309 } else if k == 2 { 588 } else if k == 3 { 809 }
    else if k == 4 { 951 } else if k == 5 { 1000 } else if k == 6 { 951 } else if k == 7 { 809 }
    else if k == 8 { 588 } else if k == 9 { 309 } else if k == 10 { 0 } else if k == 11 { -309 }
    else if k == 12 { -588 } else if k == 13 { -809 } else if k == 14 { -951 } else if k == 15 { -1000 }
    else if k == 16 { -951 } else if k == 17 { -809 } else if k == 18 { -588 } else { -309 }
}

/// The unit vector of the k-th spoke direction, in milli-units.
fn spoke_dir(k: usize) -> (d: Vec2)
    requires
        k < 20,
    ensures
        d.x == spoke_cos(k as int),
        d.y == spoke_sin(k as int),
{
    match k {
        0 => Vec2 { x: 1000, y: 0 },
        1 => Vec2 { x: 951, y: 309 },
        2 => Vec2 { x: 809, y: 588 },
        3 => Vec2 { x: 588, y: 809 },
        4 => Vec2 { x: 309, y: 951 },
        5 => Vec2 { x: 0, y: 1000 },
        6 => Vec2 { x: -309, y: 951 },
        7 => Vec2 { x: -588, y: 809 },
        8 => Vec2 { x: -809, y: 588 },
        9 => Vec2 { x: -951, y: 309 },
        10 => Vec2 { x: -1000, y: 0 },
        11 => Vec2 { x: -951, y: -309 },
        12 => Vec2 { x: -809, y: -588 },
        13 => Vec2 { x: -588, y: -809 },
        14 => Vec2 { x: -309, y: -951 },
        15 => Vec2 { x: 0, y: -1000 },
        16 => Vec2 { x: 309, y: -951 },
        17 => Vec2 { x: 588, y: -809 },
        18 => Vec2 { x: 809, y: -588 },
        _ => Vec2 { x: 951, y: -309 },
    }
}

/// The polygon `pts` is the asteroid outline drawn from the radius sequence
/// `radii` at scale factor `scale` (scale in milli-units): exactly 20
/// vertices, vertex k on spoke k at a radius in `[10 * scale, 50 * scale)`
/// milli-units — that is, between 10 and 50 logical units times the scale.
pub open spec fn asteroid_shape_from(pts: Seq<Vec2>, radii: Seq<int>, scale: int) -> bool {
    &&& pts.len() == 20
    &&& radii.len() == 20
    &&& forall|k: int| 0 <= k < 20 ==> {
        &&& 10 * scale <= #[trigger] radii[k] < 50 * scale
        &&& pts[k].x == div_milli(radii[k] * spoke_cos(k))
        &&& pts[k].y == div_milli(radii[k] * spoke_sin(k))
    }
}

/// Builds one randomized asteroid outline: 20 vertices, vertex k at angle
/// k * 2pi/20 from center, at a radius drawn independently per vertex,
/// uniform over 10 to 50 logical units scaled by `scale` (in milli-units,
/// so `scale` covers 0.5 to 1.5).
pub fn create_random_asteroid_shape(scale: i64) -> (pts: Vec<Vec2>)
    requires
        500 <= scale < 1500,
    ensures
        pts@.len() == 20,
        exists|radii: Seq<int>| #[trigger] asteroid_shape_from(pts@, radii, scale as int),
{
    let mut pts: Vec<Vec2> = Vec::new();
    let ghost mut radii: Seq<int> = Seq::empty();
    let mut k: usize = 0;
    while k < 20
        invariant
            k <= 20,
            pts@.len() == k,
            radii.len() == k,
            500 <= scale < 1500,
            forall|j: int| 0 <= j < k ==> {
                &&& 10 * scale <= #[trigger] radii[j] < 50 * scale
                &&& pts@[j].x == div_milli(radii[j] * spoke_cos(j))
                &&& pts@[j].y == div_milli(radii[j] * spoke_sin(j))
            },
        decreases 20 - k,
    {
        let r = rand_i64_in(10 * scale, 50 * scale);
        let d = spoke_dir(k);
        let vx = mul_div_milli(r, d.x);
        let vy = mul_div_milli(r, d.y);
        pts.push(Vec2 { x: vx, y: vy });
        proof {
            radii = radii.push(r as int);
        }
        k += 1;
    }
    proof {
        assert(asteroid_shape_from(pts@, radii, scale as int));
    }
    pts
}

/// What every freshly spawned asteroid satisfies: the given identity, an
/// outline drawn at some scale in `[0.5, 1.5)`, a place on one of the four
/// field edges with a velocity pointing inward along the spawn axis at a
/// magnitude in `[2, 5)` units per second, and an angular velocity in
/// `[-2, 2]` radians per second (all in milli-units).
pub open spec fn spawned_asteroid_ok(a: Asteroids, id: u64) -> bool {
    &&& a.id == id
    &&& exists|scale: int, radii: Seq<int>|
        500 <= scale < 1500 && #[trigger] asteroid_shape_from(a.shape@, radii, scale)
    &&& spawn_edge_ok(a)
    &&& -2000 <= a.angvel <= 2000
}

/// The asteroid sits on one of the four field edges, at a uniformly random
/// coordinate along that edge, moving into the field along the spawn axis.
pub open spec fn spawn_edge_ok(a: Asteroids) -> bool {
    ||| (a.pos.x == -HALF_FIELD && -HALF_FIELD <= a.pos.y <= HALF_FIELD && 2000 <= a.vel.x < 5000
        && a.vel.y == 0)
    ||| (a.pos.x == HALF_FIELD && -HALF_FIELD <= a.pos.y <= HALF_FIELD && -5000 < a.vel.x <= -2000
        && a.vel.y == 0)
    ||| (a.pos.y == -HALF_FIELD && -HALF_FIELD <= a.pos.x <= HALF_FIELD && 2000 <= a.vel.y < 5000
        && a.vel.x == 0)
    ||| (a.pos.y == HALF_FIELD && -HALF_FIELD <= a.pos.x <= HALF_FIELD && -5000 < a.vel.y <= -2000
        && a.vel.x == 0)
}

/// Replenishes the asteroid field: a no-op while any asteroid is still in
/// flight, and exactly 9 fresh asteroids, with consecutive new identities,
/// the moment the field is empty.
pub fn spawn_asteroids(w: &mut World)
    requires
        world_wf(*old(w)),
        old(w).next_id + 9 <= u64::MAX,
    ensures
        world_wf(*final(w)),
        old(w).asteroids@.len() > 0 ==> *final(w) == *old(w),
        old(w).asteroids@.len() == 0 ==> {
            &&& final(w).asteroids@.len() == 9
            &&& forall|i: int|
                0 <= i < 9 ==> spawned_asteroid_ok(
                    #[trigger] final(w).asteroids@[i],
                    (old(w).next_id + i) as u64,
                )
            &&& final(w).next_id == old(w).next_id + 9
        },
        final(w).bullets@ == old(w).bullets@,
        final(w).player == old(w).player,
        final(w).events@ == old(w).events@,
{
    if w.asteroids.len() > 0 {
        return;
    }
    let ghost first_id = w.next_id;
    let mut n: usize = 0;
    while n < 9
        invariant
            n <= 9,
            w.asteroids@.len() == n,
            w.next_id == first_id + n,
            first_id + 9 <= u64::MAX,
            forall|i: int|
                0 <= i < n ==> spawned_asteroid_ok(
                    #[trigger] w.asteroids@[i],
                    (first_id + i) as u64,
                ),
            forall|i: int|
                0 <= i < n ==> asteroid_wf(#[trigger] w.asteroids@[i]) && w.asteroids@[i].id
                    < w.next_id,
            w.bullets@ == old(w).bullets@,
            w.player == old(w).player,
            w.events@ == old(w).events@,
            w.next_id >= old(w).next_id,
            world_wf(*old(w)),
        decreases 9 - n,
    {
        let scale = rand_i64_in(500, 1500);
        let shape = create_random_asteroid_shape(scale);
        let edge = rand_i64_in(0, 4);
        let coord = rand_i64_in_inclusive(-HALF_FIELD, HALF_FIELD);
        let mag = rand_i64_in(2000, 5000);
        let pos: Vec2;
        let vel: Vec2;
        if edge == 0 {
            pos = Vec2 { x: -HALF_FIELD, y: coord };
            vel = Vec2 { x: mag, y: 0 };
        } else if edge == 1 {
            pos = Vec2 { x: HALF_FIELD, y: coord };
            vel = Vec2 { x: -mag, y: 0 };
        } else if edge == 2 {
            pos = Vec2 { x: coord, y: -HALF_FIELD };
            vel = Vec2 { x: 0, y: mag };
        } else {
            pos = Vec2 { x: coord, y: HALF_FIELD };
            vel = Vec2 { x: 0, y: -mag };
        }
        let angvel = rand_i64_in_inclusive(-2000, 2000);
        let id = w.next_id;
        let ast = Asteroids { id, pos, vel, angvel, shape };
        proof {
            let radii = choose|radii: Seq<int>|
                asteroid_shape_from(ast.shape@, radii, scale as int);
            assert(500 <= scale as int && (scale as int) < 1500 && asteroid_shape_from(
                ast.shape@,
                radii,
                scale as int,
            ));
            assert(spawned_asteroid_ok(ast, id));
        }
        w.asteroids.push(ast);
        w.next_id = w.next_id + 1;
        n += 1;
    }
}

/// One movement step: the asteroid's position advanced by its velocity
/// times the elapsed time.
pub open spec fn step_asteroid(a: Asteroids, dt: int) -> Asteroids {
    Asteroids {
        pos: Vec2 {
            x: (a.pos.x + div_milli(a.vel.x * dt)) as i64,
            y: (a.pos.y + div_milli(a.vel.y * dt)) as i64,
        },
        ..a
    }
}

/// The asteroids left after one movement step: each moved by its velocity,
/// in their original order, keeping exactly those that are still inside the
/// play field.
pub open spec fn surviving_asteroids(s: Seq<Asteroids>, dt: int) -> Seq<Asteroids>
    decreases s.len(),
{
    if s.len() == 0 {
        Seq::empty()
    } else {
        let prev = surviving_asteroids(s.drop_last(), dt);
        let m = step_asteroid(s.last(), dt);
        if in_play(m.pos) {
            prev.push(m)
        } else {
            prev
        }
    }
}

/// Advances every asteroid by its velocity times the elapsed time, and
/// destroys any whose position then leaves the play field on either axis:
/// every asteroid still present afterwards is inside the field.
pub fn move_asteroids(w: &mut World, dt: i64)
    requires
        world_wf(*old(w)),
        0 <= dt <= 1000,
    ensures
        world_wf(*final(w)),
        final(w).asteroids@ == surviving_asteroids(old(w).asteroids@, dt as int),
        forall|i: int|
            0 <= i < final(w).asteroids@.len() ==> in_play(#[trigger] final(w).asteroids@[i].pos),
        final(w).bullets@ == old(w).bullets@,
        final(w).player == old(w).player,
        final(w).events@ == old(w).events@,
        final(w).next_id == old(w).next_id,
{
    let ghost orig = w.asteroids@;
    let total: usize = w.asteroids.len();
    let mut kept: Vec<Asteroids> = Vec::new();
    let mut i: usize = 0;
    while w.asteroids.len() > 0
        invariant
            world_wf(*old(w)),
            0 <= dt <= 1000,
            orig.len() == total,
            i <= total,
            i + w.asteroids@.len() == orig.len(),
            w.asteroids@ == orig.skip(i as int),
            orig == old(w).asteroids@,
            kept@ == surviving_asteroids(orig.take(i as int), dt as int),
            forall|j: int|
                0 <= j < kept@.len() ==> in_play(#[trigger] kept@[j].pos) && asteroid_wf(kept@[j])
                    && kept@[j].id < old(w).next_id,
            w.bullets@ == old(w).bullets@,
            w.player == old(w).player,
            w.events@ == old(w).events@,
            w.next_id == old(w).next_id,
        decreases w.asteroids@.len(),
    {
        proof {
            assert(orig.skip(i as int).remove(0) =~= orig.skip(i as int + 1));
            assert(orig.skip(i as int)[0] == orig[i as int]);
            assert(asteroid_wf(orig[i as int]) && orig[i as int].id < old(w).next_id) by {
                assert(orig[i as int] == old(w).asteroids@[i as int]);
            }
        }
        let a = w.asteroids.remove(0);
        proof {
            assert(-5_000_000 <= a.vel.x * dt <= 5_000_000 && -5_000_000 <= a.vel.y * dt
                <= 5_000_000) by (nonlinear_arith)
                requires
                    -5000 <= a.vel.x <= 5000,
                    -5000 <= a.vel.y <= 5000,
                    0 <= dt <= 1000,
            ;
            crate::geom::lemma_div_milli_bound(a.vel.x * dt, 5000);
            crate::geom::lemma_div_milli_bound(a.vel.y * dt, 5000);
        }
        let nx = a.pos.x + mul_div_milli(a.vel.x, dt);
        let ny = a.pos.y + mul_div_milli(a.vel.y, dt);
        let moved = Asteroids { pos: Vec2 { x: nx, y: ny }, ..a };
        proof {
            assert(moved == step_asteroid(orig[i as int], dt as int));
            assert(orig.take(i as int + 1).drop_last() =~= orig.take(i as int));
            assert(orig.take(i as int + 1).last() == orig[i as int]);
        }
        if is_in_play(moved.pos) {
            kept.push(moved);
        }
        i += 1;
    }
    proof {
        assert(orig.take(i as int) =~= orig);
    }
    w.asteroids = kept;
}

} // verus!
