//! Selection values for a front end's dropdowns: each optional slot value
//! as a flat choice list, with a fixed label per choice.

use vstd::prelude::*;

use crate::offering::Offering;
use crate::perk::Tier;

verus! {

/// A tier choice for one perk slot, `NA` meaning the slot is empty.
#[derive(Debug, Clone, Copy, PartialEq, Eq, Structural)]
pub enum PerkChoice {
    NA,
    One,
    Two,
    Three,
}

/// The choice standing for an optional tier.
pub open spec fn perk_choice_of(value: Option<Tier>) -> PerkChoice {
    match value {
        None => PerkChoice::NA,
        Some(Tier::One) => PerkChoice::One,
        Some(Tier::Two) => PerkChoice::Two,
        Some(Tier::Three) => PerkChoice::Three,
    }
}

/// The optional tier a choice stands for.
pub open spec fn tier_of_perk_choice(value: PerkChoice) -> Option<Tier> {
    match value {
        PerkChoice::NA => None,
        PerkChoice::One => Some(Tier::One),
        PerkChoice::Two => Some(Tier::Two),
        PerkChoice::Three => Some(Tier::Three),
    }
}

impl PerkChoice {
    /// The choice standing for an optional tier.
    pub fn from_tier(value: Option<Tier>) -> (r: PerkChoice)
        ensures
            r == perk_choice_of(value),
    {
        match value {
            None => PerkChoice::NA,
            Some(Tier::One) => PerkChoice::One,
            Some(Tier::Two) => PerkChoice::Two,
            Some(Tier::Three) => PerkChoice::Three,
        }
    }

    /// The optional tier this choice stands for.
    pub fn into_tier(self) -> (r: Option<Tier>)
        ensures
            r == tier_of_perk_choice(self),
    {
        match self {
            PerkChoice::NA => None,
            PerkChoice::One => Some(Tier::One),
            PerkChoice::Two => Some(Tier::Two),
            PerkChoice::Three => Some(Tier::Three),
        }
    }

    /// The choice's display name.
    pub fn label(&self) -> (r: &'static str)
        ensures
            *self == PerkChoice::NA ==> r@ == "NA"@,
            *self == PerkChoice::One ==> r@ == "One"@,
            *self == PerkChoice::Two ==> r@ == "Two"@,
            *self == PerkChoice::Three ==> r@ == "Three"@,
    {
        match self {
            PerkChoice::NA => "NA",
            PerkChoice::One => "One",
            PerkChoice::Two => "Two",
            PerkChoice::Three => "Three",
        }
    }
}

/// The round trip through a choice loses nothing: a choice remembers
/// exactly the optional tier it stands for, and the other way around.
pub proof fn lemma_perk_choice_round_trip(value: Option<Tier>, choice: PerkChoice)
    ensures
        tier_of_perk_choice(perk_choice_of(value)) == value,
        perk_choice_of(tier_of_perk_choice(choice)) == choice,
{
}

/// An offering choice for the offering slot, `NA` meaning the slot is
/// empty.
#[derive(Debug, Clone, Copy, PartialEq, Eq, Hash, Structural)]
pub enum OfferingChoice {
    NA,
    ChalkPouch,
    CreamPouch,
    SaltPouch,
    SaltStatuette,
    IvoryPouch,
    SaltyLips,
}

/// The choice standing for an optional offering.
pub open spec fn offering_choice_of(value: Option<Offering>) -> OfferingChoice {
    match value {
        None => OfferingChoice::NA,
        Some(Offering::ChalkPouch) => OfferingChoice::ChalkPouch,
        Some(Offering::CreamPouch) => OfferingChoice::CreamPouch,
        Some(Offering::SaltPouch) => OfferingChoice::SaltPouch,
        Some(Offering::SaltStatuette) => OfferingChoice::SaltStatuette,
        Some(Offering::IvoryPouch) => OfferingChoice::IvoryPouch,
        Some(Offering::SaltyLips) => OfferingChoice::SaltyLips,
    }
}

/// The optional offering a choice stands for.
pub open spec fn offering_of_choice(value: OfferingChoice) -> Option<Offering> {
    match value {
        OfferingChoice::NA => None,
        OfferingChoice::ChalkPouch => Some(Offering::ChalkPouch),
        OfferingChoice::CreamPouch => Some(Offering::CreamPouch),
        OfferingChoice::SaltPouch => Some(Offering::SaltPouch),
        OfferingChoice::SaltStatuette => Some(Offering::SaltStatuette),
        OfferingChoice::IvoryPouch => Some(Offering::IvoryPouch),
        OfferingChoice::SaltyLips => Some(Offering::SaltyLips),
    }
}

impl OfferingChoice {
    /// The choice standing for an optional offering.
    pub fn from_offering(value: Option<Offering>) -> (r: OfferingChoice)
        ensures
            r == offering_choice_of(value),
    {
        match value {
            None => OfferingChoice::NA,
            Some(Offering::ChalkPouch) => OfferingChoice::ChalkPouch,
            Some(Offering::CreamPouch) => OfferingChoice::CreamPouch,
            Some(Offering::SaltPouch) => OfferingChoice::SaltPouch,
            Some(Offering::SaltStatuette) => OfferingChoice::SaltStatuette,
            Some(Offering::IvoryPouch) => OfferingChoice::IvoryPouch,
            Some(Offering::SaltyLips) => OfferingChoice::SaltyLips,
        }
    }

    /// The optional offering this choice stands for.
    pub fn into_offering(self) -> (r: Option<Offering>)
        ensures
            r == offering_of_choice(self),
    {
        match self {
            OfferingChoice::NA => None,
            OfferingChoice::ChalkPouch => Some(Offering::ChalkPouch),
            OfferingChoice::CreamPouch => Some(Offering::CreamPouch),
            OfferingChoice::SaltPouch => Some(Offering::SaltPouch),
            OfferingChoice::SaltStatuette => Some(Offering::SaltStatuette),
            OfferingChoice::IvoryPouch => Some(Offering::IvoryPouch),
            OfferingChoice::SaltyLips => Some(Offering::SaltyLips),
        }
    }

    /// The choice's display name.
    pub fn label(&self) -> (r: &'static str)
        ensures
            *self == OfferingChoice::NA ==> r@ == "NA"@,
            *self == OfferingChoice::ChalkPouch ==> r@ == "ChalkPouch"@,
            *self == OfferingChoice::CreamPouch ==> r@ == "CreamPouch"@,
            *self == OfferingChoice::SaltPouch ==> r@ == "SaltPouch"@,
            *self == OfferingChoice::SaltStatuette ==> r@ == "SaltStatuette"@,
            *self == OfferingChoice::IvoryPouch ==> r@ == "IvoryPouch"@,
            *self == OfferingChoice::SaltyLips ==> r@ == "SaltyLips"@,
    {
        match self {
            OfferingChoice::NA => "NA",
            OfferingChoice::ChalkPouch => "ChalkPouch",
            OfferingChoice::CreamPouch => "CreamPouch",
            OfferingChoice::SaltPouch => "SaltPouch",
            OfferingChoice::SaltStatuette => "SaltStatuette",
            OfferingChoice::IvoryPouch => "IvoryPouch",
            OfferingChoice::SaltyLips => "SaltyLips",
        }
    }
}

/// The round trip through an offering choice loses nothing.
pub proof fn lemma_offering_choice_round_trip(value: Option<Offering>, choice: OfferingChoice)
    ensures
        offering_of_choice(offering_choice_of(value)) == value,
        offering_choice_of(offering_of_choice(choice)) == choice,
{
}

} // verus!
