//! Luck aggregation engine for a four-member cooperative rescue team.
//!
//! Each team member equips up to two perks and one offering; the engine
//! combines the resulting additive and count-scaling luck modifiers into a
//! per-member probability of self-rescue. All probabilities are exact
//! rationals: a `Luck` value counts hundredths of probability one, and a
//! compound chance over up to six attempts is a numerator over the fixed
//! denominator `PROB_DENOMINATOR` (one hundred to the sixth power).

pub mod constants;
pub mod living_count;
pub mod luck;
pub mod luck_record;
pub mod array_vec;
pub mod perk;
pub mod offering;
pub mod update;
pub mod loadout;
pub mod player;
pub mod team;
pub mod choices;
