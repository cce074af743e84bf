//! The decisions in the player's controls that are not about speed: which way the
//! player is steering, and which way they face.
use vstd::prelude::*;

verus! {

/// The steering direction for this frame: `-1` for left, `1` for right, `0` for neither
/// or both (holding both cancels out, so a stuck key cannot lock the player into a run).
pub open spec fn steer_direction(left: bool, right: bool) -> int {
    (if right { 1int } else { 0int }) - (if left { 1int } else { 0int })
}

/// Reads the held direction keys and updates the facing.
///
/// Returns the direction (`-1`, `0` or `1`) and whether the player now faces left:
/// facing follows the direction while there is one, and is kept when there is none.
pub fn steering(left: bool, right: bool, facing_left: bool) -> (result: (i8, bool))
    ensures
        result.0 == steer_direction(left, right),
        result.1 == (if result.0 != 0 { result.0 < 0 } else { facing_left }),
{
    let direction: i8 = (if right { 1i8 } else { 0i8 }) - (if left { 1i8 } else { 0i8 });
    if direction != 0 {
        (direction, direction < 0)
    } else {
        (direction, facing_left)
    }
}

} // verus!
