use vstd::arithmetic::div_mod::{lemma_div_by_multiple, lemma_div_is_ordered};
use vstd::prelude::*;

verus! {

/// Half the width (and height) of the square play field, in milli-units.
/// The window is 1000 x 1000 logical units centered at the origin.
pub const HALF_FIELD: i64 = 500_000;

/// One full turn, in milli-radians (2 * pi rounded to fixed point).
pub const TAU_MILLI: i64 = 6283;

/// A planar point or vector in milli-units (one logical unit is 1000).
#[derive(Clone, Copy, Debug, PartialEq, Eq, Structural)]
pub struct Vec2 {
    pub x: i64,
    pub y: i64,
}

/// Division of a milli-scaled product back to milli-units, truncating
/// toward zero as the host machine's signed division does.
pub open spec fn div_milli(n: int) -> int {
    if n >= 0 {
        n / 1000
    } else {
        -((-n) / 1000)
    }
}

/// Truncating division by 1000 never enlarges a bound on the numerator
/// by more than the factor 1000.
pub proof fn lemma_div_milli_bound(n: int, m: int)
    requires
        0 <= m,
        -(m * 1000) <= n <= m * 1000,
    ensures
        -m <= div_milli(n) <= m,
{
    if n >= 0 {
        lemma_div_is_ordered(n, m * 1000, 1000);
        lemma_div_by_multiple(m, 1000);
        assert(n / 1000 >= 0) by {
            lemma_div_is_ordered(0, n, 1000);
        }
    } else {
        lemma_div_is_ordered(-n, m * 1000, 1000);
        lemma_div_by_multiple(m, 1000);
        assert((-n) / 1000 >= 0) by {
            lemma_div_is_ordered(0, -n, 1000);
        }
    }
}

/// Multiplies two fixed-point quantities and rescales the product back to
/// milli-units: the exact value of `a * b / 1000` under truncating division.
pub fn mul_div_milli(a: i64, b: i64) -> (r: i64)
    requires
        -4_000_000_000 <= a <= 4_000_000_000,
        -2_000_000 <= b <= 2_000_000,
    ensures
        r == div_milli(a * b),
{
    proof {
        assert(-8_000_000_000_000_000 <= a * b <= 8_000_000_000_000_000) by (nonlinear_arith)
            requires
                -4_000_000_000 <= a <= 4_000_000_000,
                -2_000_000 <= b <= 2_000_000,
        ;
    }
    let p: i64 = a * b;
    if p >= 0 {
        let q: u64 = (p as u64) / 1000;
        proof {
            lemma_div_is_ordered(p as int, 8_000_000_000_000_000, 1000);
            lemma_div_is_ordered(0, p as int, 1000);
        }
        q as i64
    } else {
        let np: i64 = -p;
        let q: u64 = (np as u64) / 1000;
        proof {
            lemma_div_is_ordered(np as int, 8_000_000_000_000_000, 1000);
            lemma_div_is_ordered(0, np as int, 1000);
        }
        -(q as i64)
    }
}

/// A position is inside the play field when neither coordinate's magnitude
/// exceeds half the field dimension.
pub open spec fn in_play(p: Vec2) -> bool {
    &&& -HALF_FIELD <= p.x <= HALF_FIELD
    &&& -HALF_FIELD <= p.y <= HALF_FIELD
}

/// Executable form of `in_play`.
pub fn is_in_play(p: Vec2) -> (r: bool)
    ensures
        r == in_play(p),
{
    -HALF_FIELD <= p.x && p.x <= HALF_FIELD && -HALF_FIELD <= p.y && p.y <= HALF_FIELD
}

} // verus!
