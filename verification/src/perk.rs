//! The two luck perks, their tiers, and their modifier records.

use vstd::prelude::*;

use crate::constants::{
    SLIPPERY_EXTRA_UNHOOKS, SM_TIER1, SM_TIER2, SM_TIER3, UTA_TIER1, UTA_TIER2, UTA_TIER3,
};
use crate::luck::Luck;
use crate::luck_record::{
    combined, count_scaling_record, personal_record, unhook_record, LoadoutLuckRecord,
    LuckRecordModel,
};

verus! {

/// The magnitude level of an equipped perk.
#[derive(Debug, Clone, Copy, PartialEq, Eq, Hash, Structural)]
pub enum Tier {
    One,
    Two,
    Three,
}

impl Tier {
    /// Every tier, lowest first.
    pub fn iterator() -> (r: Vec<Tier>)
        ensures
            r@ == seq![Tier::One, Tier::Two, Tier::Three],
    {
        let r = vec![Tier::One, Tier::Two, Tier::Three];
        proof {
            assert(r@ =~= seq![Tier::One, Tier::Two, Tier::Three]);
        }
        r
    }

    /// The tier's display name.
    pub fn label(&self) -> (r: &'static str)
        ensures
            *self == Tier::One ==> r@ == "one"@,
            *self == Tier::Two ==> r@ == "two"@,
            *self == Tier::Three ==> r@ == "three"@,
    {
        match self {
            Tier::One => "one",
            Tier::Two => "two",
            Tier::Three => "three",
        }
    }
}

/// The two perks that modify self-rescue luck.
#[derive(Debug, Clone, Copy, PartialEq, Eq, Hash, Structural)]
pub enum PerkName {
    SlipperyMeat,
    UpTheAnte,
}

impl PerkName {
    /// Every perk kind.
    pub fn iterator() -> (r: Vec<PerkName>)
        ensures
            r@ == seq![PerkName::SlipperyMeat, PerkName::UpTheAnte],
    {
        let r = vec![PerkName::SlipperyMeat, PerkName::UpTheAnte];
        proof {
            assert(r@ =~= seq![PerkName::SlipperyMeat, PerkName::UpTheAnte]);
        }
        r
    }
}

/// An equipped perk: which one, at which tier.
#[derive(Debug, Clone, Copy, PartialEq, Eq, Hash, Structural)]
pub struct Perk {
    pub name: PerkName,
    pub tier: Tier,
}

/// Up the Ante's per-living-teammate coefficient at the given tier.
pub open spec fn uta_tier_luck(tier: Tier) -> int {
    match tier {
        Tier::One => UTA_TIER1 as int,
        Tier::Two => UTA_TIER2 as int,
        Tier::Three => UTA_TIER3 as int,
    }
}

/// Slippery Meat's personal luck at the given tier.
pub open spec fn slippery_tier_luck(tier: Tier) -> int {
    match tier {
        Tier::One => SM_TIER1 as int,
        Tier::Two => SM_TIER2 as int,
        Tier::Three => SM_TIER3 as int,
    }
}

/// The modifier record an equipped perk contributes: Up the Ante a
/// count-scaling coefficient; Slippery Meat personal luck plus three extra
/// rescue attempts.
pub open spec fn perk_record_model(p: Perk) -> LuckRecordModel {
    match p.name {
        PerkName::UpTheAnte => count_scaling_record(uta_tier_luck(p.tier)),
        PerkName::SlipperyMeat => combined(
            personal_record(slippery_tier_luck(p.tier)),
            unhook_record(SLIPPERY_EXTRA_UNHOOKS as int),
        ),
    }
}

fn uta_tier_percent(tier: Tier) -> (r: Luck)
    ensures
        r == uta_tier_luck(tier),
{
    match tier {
        Tier::One => UTA_TIER1,
        Tier::Two => UTA_TIER2,
        Tier::Three => UTA_TIER3,
    }
}

fn slippery_meat_record(tier: Tier) -> (r: LoadoutLuckRecord)
    ensures
        r@ == combined(
            personal_record(slippery_tier_luck(tier)),
            unhook_record(SLIPPERY_EXTRA_UNHOOKS as int),
        ),
{
    let unhook_chance_record = LoadoutLuckRecord::from_personal(
        match tier {
            Tier::One => SM_TIER1,
            Tier::Two => SM_TIER2,
            Tier::Three => SM_TIER3,
        },
    );
    let unhook_count_record = LoadoutLuckRecord::from_unhook_mod(SLIPPERY_EXTRA_UNHOOKS);
    unhook_chance_record.combine(&unhook_count_record)
}

impl Perk {
    pub fn new(name: PerkName, tier: Tier) -> (r: Perk)
        ensures
            r == (Perk { name, tier }),
    {
        Perk { name, tier }
    }

    pub fn set_tier(&mut self, tier: Tier)
        ensures
            *final(self) == (Perk { tier, ..*old(self) }),
    {
        self.tier = tier
    }

    pub fn name(&self) -> (r: PerkName)
        ensures
            r == self.name,
    {
        self.name
    }

    pub fn tier(&self) -> (r: Tier)
        ensures
            r == self.tier,
    {
        self.tier
    }

    /// The modifier record this perk contributes to its owner's loadout.
    pub fn luck_record(&self) -> (r: LoadoutLuckRecord)
        ensures
            r@ == perk_record_model(*self),
    {
        match self.name {
            PerkName::UpTheAnte => LoadoutLuckRecord::from_uta(uta_tier_percent(self.tier)),
            PerkName::SlipperyMeat => slippery_meat_record(self.tier),
        }
    }
}

/// A perk slot: empty, or holding an equipped perk.
#[derive(Debug, Clone, Copy, PartialEq, Eq, Hash)]
pub struct PerkSlot(pub Option<Perk>);

impl PerkSlot {
    pub fn new(value: Option<Perk>) -> (r: PerkSlot)
        ensures
            r.0 == value,
    {
        PerkSlot(value)
    }

    pub fn into_inner(self) -> (r: Option<Perk>)
        ensures
            r == self.0,
    {
        self.0
    }
}

impl Default for PerkSlot {
    /// An empty slot.
    fn default() -> (r: PerkSlot)
        ensures
            r.0 is None,
    {
        PerkSlot(None)
    }
}

/// A tier choice for one perk slot: `None` clears the slot.
#[derive(Debug, Clone, Copy, PartialEq, Eq, Hash)]
pub struct TierSlot(pub Option<Tier>);

impl TierSlot {
    pub fn new(value: Option<Tier>) -> (r: TierSlot)
        ensures
            r.0 == value,
    {
        TierSlot(value)
    }

    pub fn into_inner(self) -> (r: Option<Tier>)
        ensures
            r == self.0,
    {
        self.0
    }
}

} // verus!
