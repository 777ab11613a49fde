//! A validated count of living team members.

use vstd::prelude::*;

use crate::constants::TEAM_MAX_CAPACITY;

verus! {

/// Why a raw integer was rejected as a living count.
#[derive(Debug, Clone, Copy, PartialEq, Eq, Structural)]
pub enum LivingCountError {
    LessOrEqualViolated,
}

/// How many team members are alive: always at most `TEAM_MAX_CAPACITY`.
#[derive(Debug, Clone, Copy, PartialEq, Eq)]
pub struct LivingCount(u8);

impl View for LivingCount {
    type V = int;

    closed spec fn view(&self) -> int {
        self.0 as int
    }
}

impl LivingCount {
    #[verifier::type_invariant]
    closed spec fn bounded(self) -> bool {
        self.0 <= TEAM_MAX_CAPACITY
    }

    /// Validates a raw count: anything above `TEAM_MAX_CAPACITY` is rejected.
    pub fn try_new(raw: u8) -> (r: Result<LivingCount, LivingCountError>)
        ensures
            raw <= TEAM_MAX_CAPACITY ==> (r matches Ok(c) && c@ == raw),
            raw > TEAM_MAX_CAPACITY ==> (r matches Err(e) && e == LivingCountError::LessOrEqualViolated),
    {
        if raw <= TEAM_MAX_CAPACITY as u8 {
            Ok(LivingCount(raw))
        } else {
            Err(LivingCountError::LessOrEqualViolated)
        }
    }

    /// The validated count as a plain integer.
    pub fn into_inner(self) -> (r: u8)
        ensures
            r == self@,
            r <= TEAM_MAX_CAPACITY,
    {
        proof {
            use_type_invariant(&self);
        }
        self.0
    }
}

} // verus!
