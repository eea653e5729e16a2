use vstd::prelude::*;

verus! {

/// The course back along a radial, `(radial + 180) mod 360`, in whole degrees.
pub open spec fn reciprocal(radial: int) -> int {
    (radial + 180) % 360
}

/// The compass point a radial is nearest to, or `"UNKNOWN"` for a value
/// outside `[0, 360]`.
pub open spec fn cardinal_name(radial: int) -> Seq<char> {
    if (337 <= radial <= 360) || (0 <= radial <= 22) {
        "NORTH"@
    } else if 23 <= radial <= 67 {
        "NORTHEAST"@
    } else if 68 <= radial <= 112 {
        "EAST"@
    } else if 113 <= radial <= 157 {
        "SOUTHEAST"@
    } else if 158 <= radial <= 202 {
        "SOUTH"@
    } else if 203 <= radial <= 247 {
        "SOUTHWEST"@
    } else if 248 <= radial <= 292 {
        "WEST"@
    } else if 293 <= radial <= 336 {
        "NORTHWEST"@
    } else {
        "UNKNOWN"@
    }
}

/// Names the compass point of a radial given in whole degrees.
pub fn radial_to_cardinal(radial: i32) -> (r: &'static str)
    ensures
        r@ == cardinal_name(radial as int),
{
    if (337 <= radial && radial <= 360) || (0 <= radial && radial <= 22) {
        "NORTH"
    } else if 23 <= radial && radial <= 67 {
        "NORTHEAST"
    } else if 68 <= radial && radial <= 112 {
        "EAST"
    } else if 113 <= radial && radial <= 157 {
        "SOUTHEAST"
    } else if 158 <= radial && radial <= 202 {
        "SOUTH"
    } else if 203 <= radial && radial <= 247 {
        "SOUTHWEST"
    } else if 248 <= radial && radial <= 292 {
        "WEST"
    } else if 293 <= radial && radial <= 336 {
        "NORTHWEST"
    } else {
        "UNKNOWN"
    }
}

/// The bearing from the beacon out along a radial: the radial itself.
pub fn bearing_from_radial(radial: i32) -> (r: i32)
    ensures
        r == radial,
{
    radial
}

/// The bearing flown towards the beacon along a radial, in `[0, 360)`.
pub fn bearing_to_from_radial(radial: i32) -> (r: i32)
    ensures
        r as int == reciprocal(radial as int),
        0 <= r < 360,
{
    match (radial as i64 + 180).checked_rem_euclid(360) {
        Some(m) => m as i32,
        None => 0,
    }
}

/// The reciprocal of a radial in `[0, 360)` lies in `[0, 360)` and differs
/// from it by exactly 180 degrees, and the reciprocal of the reciprocal is
/// the radial again.
pub proof fn lemma_reciprocal_twice(radial: int)
    requires
        0 <= radial < 360,
    ensures
        0 <= reciprocal(radial) < 360,
        reciprocal(radial) == radial + 180 || reciprocal(radial) == radial - 180,
        reciprocal(reciprocal(radial)) == radial,
{
}

} // verus!
