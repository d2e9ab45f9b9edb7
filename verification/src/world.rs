use crate::asteroid::{asteroid_wf, Asteroids};
use crate::bullet::{bullet_wf, Bullet};
use crate::player::{player_wf, PlayerEnt};
use vstd::prelude::*;

verus! {

/// Domain events raised by the collision dispatcher, each carrying the
/// identity of the player entity that an asteroid touched. Events live for
/// one detection/resolution cycle and are never persisted.
#[derive(Clone, Copy, Debug, PartialEq, Eq, Structural)]
pub enum GameEvents {
    ShipCollideWithAsteroid(u64),
}

/// The entity arena: every live entity keyed by a stable identifier drawn
/// from `next_id`, plus the single-frame collision event queue. The hosting
/// engine owns nothing of the simulation state but a copy for display.
pub struct World {
    pub next_id: u64,
    pub asteroids: Vec<Asteroids>,
    pub bullets: Vec<Bullet>,
    pub player: Option<PlayerEnt>,
    pub events: Vec<GameEvents>,
}

/// The arena's invariant: every entity is well-formed and its identity was
/// drawn before the next free one.
pub open spec fn world_wf(w: World) -> bool {
    &&& forall|i: int|
        0 <= i < w.asteroids@.len() ==> asteroid_wf(#[trigger] w.asteroids@[i])
            && w.asteroids@[i].id < w.next_id
    &&& forall|i: int|
        0 <= i < w.bullets@.len() ==> bullet_wf(#[trigger] w.bullets@[i]) && w.bullets@[i].id
            < w.next_id
    &&& (w.player matches Some(p) ==> player_wf(p) && p.id < w.next_id)
}

impl World {
    /// An empty arena: no entities, no pending events, identities starting
    /// at zero.
    pub fn new() -> (w: World)
        ensures
            world_wf(w),
            w.next_id == 0,
            w.asteroids@.len() == 0,
            w.bullets@.len() == 0,
            w.player is None,
            w.events@.len() == 0,
    {
        World {
            next_id: 0,
            asteroids: Vec::new(),
            bullets: Vec::new(),
            player: None,
            events: Vec::new(),
        }
    }
}

/// How many entries of `hits` name the identity `id`.
pub open spec fn count_hits_in(hits: Seq<u64>, id: u64) -> nat
    decreases hits.len(),
{
    if hits.len() == 0 {
        0
    } else {
        count_hits_in(hits.drop_last(), id) + if hits.last() == id {
            1nat
        } else {
            0nat
        }
    }
}

/// How many times the identity `id` occurs over all the per-asteroid
/// touching sets.
pub open spec fn count_player_hits(touching: Seq<Vec<u64>>, id: u64) -> nat
    decreases touching.len(),
{
    if touching.len() == 0 {
        0
    } else {
        count_player_hits(touching.drop_last(), id) + count_hits_in(touching.last()@, id)
    }
}

/// Detection phase: walks the physics engine's per-asteroid touching sets
/// (one set per live asteroid, refreshed by the physics plugin each frame)
/// and emits one ship-collision event for every entry that names the player
/// — one event per touching asteroid, duplicates included. Touching
/// entities other than the player are ignored, and with no player alive
/// nothing is emitted.
pub fn asteroid_collision_with_player(w: &mut World, touching: &Vec<Vec<u64>>)
    requires
        world_wf(*old(w)),
        touching@.len() == old(w).asteroids@.len(),
    ensures
        world_wf(*final(w)),
        final(w).asteroids@ == old(w).asteroids@,
        final(w).bullets@ == old(w).bullets@,
        final(w).player == old(w).player,
        final(w).next_id == old(w).next_id,
        old(w).player is None ==> final(w).events@ == old(w).events@,
        old(w).player matches Some(p) ==> {
            &&& final(w).events@.len() == old(w).events@.len() + count_player_hits(
                touching@,
                p.id,
            )
            &&& forall|k: int|
                0 <= k < old(w).events@.len() ==> final(w).events@[k] == old(w).events@[k]
            &&& forall|k: int|
                old(w).events@.len() <= k < final(w).events@.len()
                    ==> final(w).events@[k] == GameEvents::ShipCollideWithAsteroid(p.id)
        },
{
    let pid: u64;
    match &w.player {
        Some(p) => {
            pid = p.id;
        },
        None => {
            return;
        },
    }
    let ghost old_events = w.events@;
    let mut i: usize = 0;
    while i < touching.len()
        invariant
            i <= touching@.len(),
            w.asteroids@ == old(w).asteroids@,
            w.bullets@ == old(w).bullets@,
            w.player == old(w).player,
            w.next_id == old(w).next_id,
            old(w).player matches Some(p) && p.id == pid,
            w.events@.len() == old_events.len() + count_player_hits(
                touching@.take(i as int),
                pid,
            ),
            old_events == old(w).events@,
            forall|k: int| 0 <= k < old_events.len() ==> w.events@[k] == old_events[k],
            forall|k: int|
                old_events.len() <= k < w.events@.len() ==> w.events@[k]
                    == GameEvents::ShipCollideWithAsteroid(pid),
        decreases touching@.len() - i,
    {
        let row = &touching[i];
        let mut j: usize = 0;
        while j < row.len()
            invariant
                j <= row@.len(),
                i < touching@.len(),
                row@ == touching@[i as int]@,
                w.asteroids@ == old(w).asteroids@,
                w.bullets@ == old(w).bullets@,
                w.player == old(w).player,
                w.next_id == old(w).next_id,
                old(w).player matches Some(p) && p.id == pid,
                w.events@.len() == old_events.len() + count_player_hits(
                    touching@.take(i as int),
                    pid,
                ) + count_hits_in(row@.take(j as int), pid),
                old_events == old(w).events@,
                forall|k: int| 0 <= k < old_events.len() ==> w.events@[k] == old_events[k],
                forall|k: int|
                    old_events.len() <= k < w.events@.len() ==> w.events@[k]
                        == GameEvents::ShipCollideWithAsteroid(pid),
            decreases row@.len() - j,
        {
            if row[j] == pid {
                w.events.push(GameEvents::ShipCollideWithAsteroid(pid));
            }
            proof {
                assert(row@.take(j as int + 1).drop_last() =~= row@.take(j as int));
                assert(row@.take(j as int + 1).last() == row@[j as int]);
            }
            j += 1;
        }
        proof {
            assert(row@.take(j as int) =~= row@);
            assert(touching@.take(i as int + 1).drop_last() =~= touching@.take(i as int));
            assert(touching@.take(i as int + 1).last() == touching@[i as int]);
        }
        i += 1;
    }
    proof {
        assert(touching@.take(i as int) =~= touching@);
    }
}

/// Resolution phase: drains the event queue, and if any queued event names
/// the currently alive player, destroys the player entity. A stale event —
/// the player already gone — is a silent no-op, never an error; extra
/// duplicate events change nothing.
pub fn handle_collision_events(w: &mut World)
    requires
        world_wf(*old(w)),
    ensures
        world_wf(*final(w)),
        final(w).events@.len() == 0,
        final(w).asteroids@ == old(w).asteroids@,
        final(w).bullets@ == old(w).bullets@,
        final(w).next_id == old(w).next_id,
        final(w).player == (match old(w).player {
            Some(p) => if (exists|k: int|
                0 <= k < old(w).events@.len() && old(w).events@[k]
                    == GameEvents::ShipCollideWithAsteroid(p.id)) {
                None
            } else {
                Some(p)
            },
            None => None::<PlayerEnt>,
        }),
{
    let pid: u64;
    match &w.player {
        Some(p) => {
            pid = p.id;
        },
        None => {
            w.events.clear();
            return;
        },
    }
    let ghost old_events = w.events@;
    let mut hit: bool = false;
    let mut i: usize = 0;
    while i < w.events.len()
        invariant
            i <= w.events@.len(),
            w.events@ == old_events,
            old(w).player matches Some(p) && p.id == pid,
            w.player == old(w).player,
            w.asteroids@ == old(w).asteroids@,
            w.bullets@ == old(w).bullets@,
            w.next_id == old(w).next_id,
            hit == (exists|k: int|
                0 <= k < i && old_events[k] == GameEvents::ShipCollideWithAsteroid(pid)),
        decreases w.events@.len() - i,
    {
        let ev = w.events[i];
        match ev {
            GameEvents::ShipCollideWithAsteroid(eid) => {
                if eid == pid {
                    hit = true;
                }
            },
        }
        i += 1;
    }
    if hit {
        w.player = None;
    }
    w.events.clear();
}

} // verus!
