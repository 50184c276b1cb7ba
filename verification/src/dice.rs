//! Dice, and the strokes it takes to putt out from a green.
use vstd::prelude::*;
use crate::chance::random_in_range;

verus! {

/// Rolls one six-sided die.
pub fn roll_single_die() -> (face: u8)
    ensures
        1 <= face <= 6,
{
    random_in_range(1, 6)
}

/// Rolls two six-sided dice.
pub fn roll_two_dice() -> (faces: (u8, u8))
    ensures
        1 <= faces.0 <= 6,
        1 <= faces.1 <= 6,
{
    (random_in_range(1, 6), random_in_range(1, 6))
}

/// The putts needed from a green of the given tier: the tier itself for
/// tiers 0 to 2, and 3 for any higher tier.
pub open spec fn putting_strokes(green_tier: u8) -> u16 {
    if green_tier <= 2 {
        green_tier as u16
    } else {
        3
    }
}

/// The putts needed from a green of tier `green_tier`.
pub fn get_putting_strokes(green_tier: u8) -> (strokes: u16)
    ensures
        strokes == putting_strokes(green_tier),
{
    match green_tier {
        0 => 0,
        1 => 1,
        2 => 2,
        _ => 3,
    }
}

} // verus!
