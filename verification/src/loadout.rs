//! One member's equipment: a slot per perk kind plus one offering slot.

use vstd::prelude::*;

use crate::luck_record::{
    combined, identity_record, lemma_combined_identity, LoadoutLuckRecord, LuckRecordModel,
};
use crate::offering::{offering_record_model, OfferingSlot};
use crate::perk::{perk_record_model, Perk, PerkName, PerkSlot, TierSlot};
use crate::update::{LoadoutUpdate, PerkUpdate};

verus! {

/// One member's equipment. Each perk kind has its own slot holding only a
/// tier, so "at most one instance of each perk kind" is structural rather
/// than a runtime check.
#[derive(Debug, Clone, Copy, PartialEq, Eq, Hash)]
pub struct Loadout {
    pub slippery: TierSlot,
    pub uta: TierSlot,
    pub offering: OfferingSlot,
}

/// What the slot of the given perk kind contributes.
pub open spec fn tier_slot_record(name: PerkName, s: TierSlot) -> LuckRecordModel {
    match s.0 {
        Some(tier) => perk_record_model(Perk { name, tier }),
        None => identity_record(),
    }
}

/// What an occupied or empty offering slot contributes.
pub open spec fn offering_slot_record(s: OfferingSlot) -> LuckRecordModel {
    match s.0 {
        Some(o) => offering_record_model(o),
        None => identity_record(),
    }
}

/// The whole loadout's modifier record: the offering's contribution
/// combined with each perk slot's, in slot order.
pub open spec fn loadout_record_model(l: Loadout) -> LuckRecordModel {
    combined(
        combined(
            offering_slot_record(l.offering),
            tier_slot_record(PerkName::SlipperyMeat, l.slippery),
        ),
        tier_slot_record(PerkName::UpTheAnte, l.uta),
    )
}

/// The tier slot a perk kind lives in.
pub open spec fn loadout_tier_slot(l: Loadout, perk: PerkName) -> TierSlot {
    match perk {
        PerkName::SlipperyMeat => l.slippery,
        PerkName::UpTheAnte => l.uta,
    }
}

/// The equipped perk of the given kind, if its slot is occupied.
pub open spec fn loadout_perk_slot(l: Loadout, perk: PerkName) -> PerkSlot {
    PerkSlot(
        match loadout_tier_slot(l, perk).0 {
            Some(tier) => Some(Perk { name: perk, tier }),
            None => None,
        },
    )
}

/// The loadout after one perk-slot update.
pub open spec fn loadout_perk_updated(l: Loadout, u: PerkUpdate) -> Loadout {
    match u.perk {
        PerkName::SlipperyMeat => Loadout { slippery: u.value, ..l },
        PerkName::UpTheAnte => Loadout { uta: u.value, ..l },
    }
}

/// The loadout after one slot update.
pub open spec fn loadout_altered(l: Loadout, u: LoadoutUpdate) -> Loadout {
    match u {
        LoadoutUpdate::Offering(x) => Loadout { offering: x, ..l },
        LoadoutUpdate::Perk(x) => loadout_perk_updated(l, x),
    }
}

impl Loadout {
    /// Applies one slot update.
    pub fn alter(&mut self, update: LoadoutUpdate)
        ensures
            *final(self) == loadout_altered(*old(self), update),
    {
        match update {
            LoadoutUpdate::Offering(x) => self.offering = x,
            LoadoutUpdate::Perk(x) => self.set_perk(x.perk, x.value),
        }
    }

    /// Replaces the slot of the given perk kind; `None` clears it. Always
    /// succeeds: every perk kind has a slot.
    pub fn set_perk(&mut self, perk: PerkName, tier: TierSlot)
        ensures
            *final(self) == loadout_perk_updated(*old(self), PerkUpdate { perk, value: tier }),
    {
        match perk {
            PerkName::SlipperyMeat => self.slippery = tier,
            PerkName::UpTheAnte => self.uta = tier,
        }
    }

    /// Replaces the offering slot; `None` clears it.
    pub fn set_offering(&mut self, offering: OfferingSlot)
        ensures
            *final(self) == (Loadout { offering, ..*old(self) }),
    {
        self.offering = offering;
    }

    /// The equipped perk of the given kind, if any.
    pub fn get_perk(&self, perk: PerkName) -> (r: PerkSlot)
        ensures
            r == loadout_perk_slot(*self, perk),
    {
        let slot = match perk {
            PerkName::SlipperyMeat => self.slippery,
            PerkName::UpTheAnte => self.uta,
        };
        PerkSlot(
            match slot.0 {
                Some(t) => Some(Perk::new(perk, t)),
                None => None,
            },
        )
    }

    /// The offering slot.
    pub fn offering(&self) -> (r: &OfferingSlot)
        ensures
            *r == self.offering,
    {
        &self.offering
    }

    /// Folds every occupied slot's record into one modifier record.
    pub fn collate_luck(&self) -> (r: LoadoutLuckRecord)
        ensures
            r@ == loadout_record_model(*self),
    {
        let offering_luck: LoadoutLuckRecord = match self.offering.0 {
            Some(o) => o.luck_record(),
            None => LoadoutLuckRecord::empty(),
        };
        let with_slippery: LoadoutLuckRecord = match self.slippery.0 {
            Some(t) => offering_luck.combine(&Perk::new(PerkName::SlipperyMeat, t).luck_record()),
            None => {
                proof {
                    lemma_combined_identity(offering_luck@);
                }
                offering_luck
            },
        };
        let with_uta: LoadoutLuckRecord = match self.uta.0 {
            Some(t) => with_slippery.combine(&Perk::new(PerkName::UpTheAnte, t).luck_record()),
            None => {
                proof {
                    lemma_combined_identity(with_slippery@);
                }
                with_slippery
            },
        };
        with_uta
    }
}

impl Default for Loadout {
    /// An empty loadout: no perks, no offering.
    fn default() -> (r: Loadout)
        ensures
            r == (Loadout {
                slippery: TierSlot(None),
                uta: TierSlot(None),
                offering: OfferingSlot(None),
            }),
    {
        Loadout {
            slippery: TierSlot(None),
            uta: TierSlot(None),
            offering: OfferingSlot(None),
        }
    }
}

/// Bounds every loadout record respects: they keep the whole team pipeline
/// inside machine integers and the compound-chance formula's domain.
pub proof fn lemma_loadout_record_bounds(l: Loadout)
    ensures
        0 <= loadout_record_model(l).personal <= 7,
        0 <= loadout_record_model(l).global <= 3,
        loadout_record_model(l).up_the_ante_coeff matches Some(c) ==> 1 <= c <= 3,
        0 <= loadout_record_model(l).additional_unhooks <= 3,
{
}

/// Setting a perk slot and reading it back yields exactly the tier that was
/// set: the equipped perk of that kind for `Some`, the cleared slot for
/// `None`; the offering and the other perk slot are untouched.
pub proof fn lemma_set_perk_round_trip(l: Loadout, perk: PerkName, tier: TierSlot)
    ensures
        loadout_perk_slot(loadout_perk_updated(l, PerkUpdate { perk, value: tier }), perk).0
            == (match tier.0 {
            Some(t) => Some(Perk { name: perk, tier: t }),
            None => None::<Perk>,
        }),
        loadout_perk_updated(l, PerkUpdate { perk, value: tier }).offering == l.offering,
        forall|other: PerkName|
            other != perk ==> loadout_tier_slot(
                loadout_perk_updated(l, PerkUpdate { perk, value: tier }),
                other,
            ) == loadout_tier_slot(l, other),
{
}

} // verus!
