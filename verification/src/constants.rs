//! Fixed numeric rules of the game, stated in hundredths of probability one.
//!
//! Every luck modifier in the game is a whole multiple of one hundredth, so
//! the engine stores luck as integer hundredths and never loses precision.

use vstd::prelude::*;

verus! {

/// How many hundredths make probability one.
pub const LUCK_SCALE: u64 = 100;

/// Personal luck granted by the slight offerings.
pub const SLIGHT_LUCK: u64 = 1;

/// Luck granted by the moderate offerings.
pub const MODERATE_LUCK: u64 = 2;

/// Luck granted by the great offerings.
pub const GREAT_LUCK: u64 = 3;

/// Per-living-teammate luck coefficient of Up the Ante, by tier.
pub const UTA_TIER1: u64 = 1;

/// Per-living-teammate luck coefficient of Up the Ante, tier two.
pub const UTA_TIER2: u64 = 2;

/// Per-living-teammate luck coefficient of Up the Ante, tier three.
pub const UTA_TIER3: u64 = 3;

/// Personal luck granted by Slippery Meat, tier one.
pub const SM_TIER1: u64 = 2;

/// Personal luck granted by Slippery Meat, tier two.
pub const SM_TIER2: u64 = 3;

/// Personal luck granted by Slippery Meat, tier three.
pub const SM_TIER3: u64 = 4;

/// Number of members a team always holds.
pub const TEAM_MAX_CAPACITY: usize = 4;

/// Number of distinct perk kinds that modify self-rescue luck.
pub const COUNT_LUCK_PERKS: usize = 2;

/// Shared base chance of a successful self-rescue attempt.
pub const BASE_UNHOOK_CHANCE: u64 = 4;

/// Self-rescue attempts every member gets without equipment.
pub const BASE_UNHOOK_ATTEMPTS: i8 = 3;

/// Additional self-rescue attempts granted by Slippery Meat.
pub const SLIPPERY_EXTRA_UNHOOKS: i8 = 3;

/// Largest number of self-rescue attempts a member can reach.
pub const MAX_UNHOOK_ATTEMPTS: i8 = 6;

/// Common denominator of every compound chance: `LUCK_SCALE` raised to
/// `MAX_UNHOOK_ATTEMPTS`, so chances over three to six attempts share it.
pub const PROB_DENOMINATOR: u64 = 1_000_000_000_000;

} // verus!
