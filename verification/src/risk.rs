//! Risk tier labels for asset classes.

use vstd::prelude::*;

verus! {

/// The human-readable description of a numeric risk tier.
pub fn tier_description(tier: u8) -> (r: &'static str)
    ensures
        tier == 1 ==> r@ == "Blue Chip - Lowest relative risk"@,
        tier == 2 ==> r@ == "Large Cap - Moderate risk"@,
        tier == 3 ==> r@ == "Mid Cap - Higher risk"@,
        tier == 4 ==> r@ == "Small Cap - High risk"@,
        tier == 5 ==> r@ == "Meme/Speculative - Extreme risk"@,
        !(1 <= tier <= 5) ==> r@ == "Unknown"@,
{
    match tier {
        1 => "Blue Chip - Lowest relative risk",
        2 => "Large Cap - Moderate risk",
        3 => "Mid Cap - Higher risk",
        4 => "Small Cap - High risk",
        5 => "Meme/Speculative - Extreme risk",
        _ => "Unknown",
    }
}

} // verus!
