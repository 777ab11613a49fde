//! The luck measure and the scope a luck bonus applies to.

use vstd::prelude::*;

verus! {

/// A luck amount in hundredths of probability one.
pub type Luck = u64;

/// Whether a luck bonus helps only its owner or the whole team.
#[derive(Debug, Clone, Copy, PartialEq, Eq, Structural)]
pub enum LuckScope {
    Personal,
    Global,
}

} // verus!
