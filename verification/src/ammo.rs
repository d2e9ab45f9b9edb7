use vstd::prelude::*;

verus! {

/// Most shots the magazine ever holds.
pub const MAX_AMMO: u32 = 15;

/// One reload cycle, in milliseconds.
pub const RELOAD_TIME_MILLIS: i64 = 1000;

/// A repeating countdown, held as the time already spent in the current
/// cycle. It completes a cycle whenever the accumulated time reaches
/// `RELOAD_TIME_MILLIS`, and then keeps the overshoot.
#[derive(Clone, Copy, Debug, PartialEq, Eq, Structural)]
pub struct ReloadTimer {
    pub elapsed_millis: i64,
}

/// The process-wide ammunition store: the current shot count and the
/// repeating reload countdown. Invariant: the count never exceeds
/// `MAX_AMMO`, and the timer sits strictly inside one cycle.
#[derive(Clone, Copy, Debug, PartialEq, Eq, Structural)]
pub struct AmmoInt {
    pub current_ammo: u32,
    pub reload_timer: ReloadTimer,
}

/// The ammunition store's invariant.
pub open spec fn ammo_wf(a: AmmoInt) -> bool {
    &&& a.current_ammo <= MAX_AMMO
    &&& 0 <= a.reload_timer.elapsed_millis < RELOAD_TIME_MILLIS
}

impl Default for AmmoInt {
    /// A full magazine with a freshly started reload cycle.
    fn default() -> (a: AmmoInt)
        ensures
            a.current_ammo == MAX_AMMO,
            a.reload_timer.elapsed_millis == 0,
            ammo_wf(a),
    {
        AmmoInt { current_ammo: MAX_AMMO, reload_timer: ReloadTimer { elapsed_millis: 0 } }
    }
}

/// Whether a fire attempt actually discharges: the trigger was pulled on
/// this frame and a shot is in the magazine. The reload timer only advances
/// on a discharging frame; on every other frame the store is untouched.
pub open spec fn ammo_fires(cur: int, attempt: bool) -> bool {
    attempt && cur > 0
}

/// The shot count after one frame: a discharge spends one shot, then gains
/// one back if the reload timer completed a cycle during this frame and the
/// count is still below the maximum.
pub open spec fn ammo_count_step(cur: int, elapsed: int, attempt: bool, dt: int) -> int {
    if ammo_fires(cur, attempt) {
        if elapsed + dt >= RELOAD_TIME_MILLIS && cur - 1 < MAX_AMMO {
            cur
        } else {
            cur - 1
        }
    } else {
        cur
    }
}

/// The reload timer after one frame: it accumulates the frame's elapsed
/// time only on a discharging frame, wrapping at the end of a cycle.
pub open spec fn ammo_timer_step(cur: int, elapsed: int, attempt: bool, dt: int) -> int {
    if ammo_fires(cur, attempt) {
        if elapsed + dt >= RELOAD_TIME_MILLIS {
            elapsed + dt - RELOAD_TIME_MILLIS
        } else {
            elapsed + dt
        }
    } else {
        elapsed
    }
}

/// The shot count and timer after a whole run of frames, each frame giving
/// whether fire was attempted and how much time passed.
pub open spec fn ammo_run(cur: int, elapsed: int, frames: Seq<(bool, i64)>) -> (int, int)
    decreases frames.len(),
{
    if frames.len() == 0 {
        (cur, elapsed)
    } else {
        let prev = ammo_run(cur, elapsed, frames.drop_last());
        let last = frames.last();
        (
            ammo_count_step(prev.0, prev.1, last.0, last.1 as int),
            ammo_timer_step(prev.0, prev.1, last.0, last.1 as int),
        )
    }
}

/// Law: across any sequence of fire attempts, the shot count never exceeds
/// the maximum and never goes below zero, and the reload timer stays inside
/// one cycle.
pub proof fn lemma_ammo_invariant(cur: int, elapsed: int, frames: Seq<(bool, i64)>)
    requires
        0 <= cur <= MAX_AMMO,
        0 <= elapsed < RELOAD_TIME_MILLIS,
        forall|i: int| 0 <= i < frames.len() ==> 0 <= (#[trigger] frames[i]).1 <= 1000,
    ensures
        0 <= ammo_run(cur, elapsed, frames).0 <= MAX_AMMO,
        0 <= ammo_run(cur, elapsed, frames).1 < RELOAD_TIME_MILLIS,
    decreases frames.len(),
{
    if frames.len() > 0 {
        lemma_ammo_invariant(cur, elapsed, frames.drop_last());
    }
}

} // verus!
