//! A team member: a loadout plus a living flag.

use vstd::prelude::*;

use crate::loadout::{loadout_altered, loadout_record_model, loadout_tier_slot, Loadout};
use crate::luck_record::{
    player_converted, LoadoutPlayerConverter, LuckRecordModel, PlayerLuckRecord,
};
use crate::offering::OfferingSlot;
use crate::perk::{PerkName, Tier, TierSlot};
use crate::update::SurvivorUpdateData;

verus! {

/// A team member. Equipment and life status change independently; each
/// mutation is a plain field replacement.
#[derive(Debug, Clone, Copy, PartialEq, Eq, Hash)]
pub struct Player {
    pub loadout: Loadout,
    pub is_alive: bool,
}

/// A member's gated record: the loadout's record, with the count-scaling
/// coefficient suppressed while the member is dead. This is the only place
/// a member's life status touches their own luck contribution.
pub open spec fn player_record_model(p: Player) -> LuckRecordModel {
    player_converted(p.is_alive, loadout_record_model(p.loadout))
}

/// The member after one update.
pub open spec fn player_altered(p: Player, u: SurvivorUpdateData) -> Player {
    match u {
        SurvivorUpdateData::Life(alive) => Player { is_alive: alive, ..p },
        SurvivorUpdateData::LoadoutUpdate(x) => Player {
            loadout: loadout_altered(p.loadout, x),
            ..p
        },
    }
}

/// A fresh member: no equipment, alive.
pub open spec fn default_player() -> Player {
    Player {
        loadout: Loadout {
            slippery: TierSlot(None),
            uta: TierSlot(None),
            offering: OfferingSlot(None),
        },
        is_alive: true,
    }
}

impl Player {
    /// Applies one update to this member.
    pub fn alter(&mut self, update: SurvivorUpdateData)
        ensures
            *final(self) == player_altered(*old(self), update),
    {
        match update {
            SurvivorUpdateData::Life(alive) => self.is_alive = alive,
            SurvivorUpdateData::LoadoutUpdate(x) => self.loadout.alter(x),
        }
    }

    /// Sets the living flag.
    pub fn set_alive(&mut self, alive: bool)
        ensures
            *final(self) == (Player { is_alive: alive, ..*old(self) }),
    {
        self.is_alive = alive;
    }

    /// The equipped tier of the given perk kind, if any.
    pub fn get_perk_tier(&self, name: PerkName) -> (r: Option<Tier>)
        ensures
            r == loadout_tier_slot(self.loadout, name).0,
    {
        match name {
            PerkName::SlipperyMeat => self.loadout.slippery.0,
            PerkName::UpTheAnte => self.loadout.uta.0,
        }
    }

    /// The offering slot.
    pub fn get_offering(&self) -> (r: &OfferingSlot)
        ensures
            *r == self.loadout.offering,
    {
        self.loadout.offering()
    }

    pub fn is_alive(&self) -> (r: bool)
        ensures
            r == self.is_alive,
    {
        self.is_alive
    }

    pub fn is_dead(&self) -> (r: bool)
        ensures
            r == !self.is_alive,
    {
        !self.is_alive
    }

    fn make_record_converter(&self) -> (r: LoadoutPlayerConverter)
        ensures
            r.is_alive == self.is_alive,
    {
        LoadoutPlayerConverter::new(self.is_alive)
    }

    /// This member's gated record: collates the loadout, then suppresses
    /// the count-scaling coefficient if the member is dead.
    pub fn make_player_luck(&self) -> (r: PlayerLuckRecord)
        ensures
            r@ == player_record_model(*self),
    {
        self.make_record_converter().convert(self.loadout.collate_luck())
    }
}

impl Default for Player {
    /// A fresh member: no equipment, alive.
    fn default() -> (r: Player)
        ensures
            r == default_player(),
    {
        Player { loadout: Loadout::default(), is_alive: true }
    }
}

} // verus!
