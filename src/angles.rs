use vstd::prelude::*;

verus! {

/// A full turn, in thousandths of a degree.
pub const FULL_TURN: i64 = 360000;

/// Half a turn, in thousandths of a degree.
pub const HALF_TURN: i64 = 180000;

/// The direction `a` brought into `[0, FULL_TURN)`.
pub open spec fn norm_angle(a: int) -> int {
    a % (FULL_TURN as int)
}

/// The smaller of the two angles between directions `a` and `b`, in
/// `[0, HALF_TURN]`.
pub open spec fn angle_gap(a: int, b: int) -> int {
    let d = norm_angle(a - b);
    if d > HALF_TURN {
        FULL_TURN - d
    } else {
        d
    }
}

/// Brings any direction into `[0, FULL_TURN)`: a negative direction is
/// wrapped round, never clamped.
pub fn normalize_angle(a: i64) -> (r: u32)
    ensures
        r as int == norm_angle(a as int),
        r < FULL_TURN,
{
    match a.checked_rem_euclid(FULL_TURN) {
        Some(m) => m as u32,
        None => 0,
    }
}

/// The angle between a heading and a bearing, folded into `[0, HALF_TURN]`,
/// so that 350 and 10 degrees are 20 degrees apart.
pub fn heading_difference(heading: u32, bearing: u32) -> (r: u32)
    ensures
        r as int == angle_gap(heading as int, bearing as int),
        r <= HALF_TURN,
{
    let d = normalize_angle(heading as i64 - bearing as i64);
    if d as i64 > HALF_TURN {
        (FULL_TURN - d as i64) as u32
    } else {
        d
    }
}

/// A difference of directions does not change when the subtracted one is
/// first taken round the compass.
pub proof fn lemma_norm_sub(a: int, b: int)
    ensures
        norm_angle(a - norm_angle(b)) == norm_angle(a - b),
{
    vstd::arithmetic::div_mod::lemma_sub_mod_noop_right(a, b, FULL_TURN as int);
}

/// Within a turn either side of `[0, FULL_TURN)`, bringing a direction round
/// the compass adds or takes away at most one turn.
pub proof fn lemma_norm_near(x: int)
    requires
        -FULL_TURN <= x < 2 * FULL_TURN,
    ensures
        norm_angle(x) == if x < 0 {
            x + FULL_TURN
        } else if x >= FULL_TURN {
            x - FULL_TURN
        } else {
            x
        },
{
    let m = FULL_TURN as int;
    if x < 0 {
        vstd::arithmetic::div_mod::lemma_fundamental_div_mod_converse(x, m, -1, x + m);
    } else if x >= m {
        vstd::arithmetic::div_mod::lemma_fundamental_div_mod_converse(x, m, 1, x - m);
    } else {
        vstd::arithmetic::div_mod::lemma_fundamental_div_mod_converse(x, m, 0, x);
    }
}

} // verus!
