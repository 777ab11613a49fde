//! Typed mutations addressed at one team member.

use vstd::prelude::*;

use crate::constants::TEAM_MAX_CAPACITY;
use crate::offering::OfferingSlot;
use crate::perk::{PerkName, TierSlot};

verus! {

/// Why a raw integer was rejected as a member index.
#[derive(Debug, Clone, Copy, PartialEq, Eq, Structural)]
pub enum SurvivorIdError {
    LessViolated,
}

/// A member index, always below `TEAM_MAX_CAPACITY`.
#[derive(Debug, Clone, Copy, PartialEq, Eq, Hash)]
pub struct SurvivorId(usize);

impl View for SurvivorId {
    type V = int;

    closed spec fn view(&self) -> int {
        self.0 as int
    }
}

impl SurvivorId {
    #[verifier::type_invariant]
    closed spec fn bounded(self) -> bool {
        self.0 < TEAM_MAX_CAPACITY
    }

    /// Validates a raw index: anything from `TEAM_MAX_CAPACITY` up is
    /// rejected.
    pub fn try_new(raw: usize) -> (r: Result<SurvivorId, SurvivorIdError>)
        ensures
            raw < TEAM_MAX_CAPACITY ==> (r matches Ok(id) && id@ == raw),
            raw >= TEAM_MAX_CAPACITY ==> (r matches Err(e) && e == SurvivorIdError::LessViolated),
    {
        if raw < TEAM_MAX_CAPACITY {
            Ok(SurvivorId(raw))
        } else {
            Err(SurvivorIdError::LessViolated)
        }
    }

    /// The validated index as a plain integer.
    pub fn into_inner(self) -> (r: usize)
        ensures
            r == self@,
            r < TEAM_MAX_CAPACITY,
    {
        proof {
            use_type_invariant(&self);
        }
        self.0
    }
}

/// A new tier choice for one perk slot; `None` clears the slot.
#[derive(Debug, Clone, Copy, PartialEq, Eq)]
pub struct PerkUpdate {
    pub perk: PerkName,
    pub value: TierSlot,
}

impl PerkUpdate {
    pub fn perk(&self) -> (r: &PerkName)
        ensures
            *r == self.perk,
    {
        &self.perk
    }

    pub fn value(&self) -> (r: &TierSlot)
        ensures
            *r == self.value,
    {
        &self.value
    }
}

/// A change to one equipment slot of a loadout.
#[derive(Debug, Clone, Copy, PartialEq, Eq)]
pub enum LoadoutUpdate {
    Perk(PerkUpdate),
    Offering(OfferingSlot),
}

/// A change to one member: equipment, or life status.
#[derive(Debug, Clone, Copy, PartialEq, Eq)]
pub enum SurvivorUpdateData {
    LoadoutUpdate(LoadoutUpdate),
    Life(bool),
}

/// A member change addressed by a validated index.
#[derive(Debug, Clone, Copy, PartialEq, Eq)]
pub struct SurvivorUpdate {
    pub id: SurvivorId,
    pub update: SurvivorUpdateData,
}

impl SurvivorUpdate {
    pub fn id(&self) -> (r: &SurvivorId)
        ensures
            *r == self.id,
    {
        &self.id
    }

    pub fn update(&self) -> (r: &SurvivorUpdateData)
        ensures
            *r == self.update,
    {
        &self.update
    }

    /// A perk-slot change for the addressed member.
    pub fn perk(id: SurvivorId, perk: PerkName, tier: TierSlot) -> (r: SurvivorUpdate)
        ensures
            r.id == id,
            r.update == SurvivorUpdateData::LoadoutUpdate(
                LoadoutUpdate::Perk(PerkUpdate { perk, value: tier }),
            ),
    {
        SurvivorUpdate {
            id,
            update: SurvivorUpdateData::LoadoutUpdate(
                LoadoutUpdate::Perk(PerkUpdate { perk, value: tier }),
            ),
        }
    }

    /// Like [`SurvivorUpdate::perk`], validating a raw index first.
    pub fn perk_usize(id: usize, perk: PerkName, tier: TierSlot) -> (r: Result<
        SurvivorUpdate,
        SurvivorIdError,
    >)
        ensures
            id < TEAM_MAX_CAPACITY ==> (r matches Ok(u) && u.id@ == id && u.update
                == SurvivorUpdateData::LoadoutUpdate(
                LoadoutUpdate::Perk(PerkUpdate { perk, value: tier }),
            )),
            id >= TEAM_MAX_CAPACITY ==> (r matches Err(e) && e == SurvivorIdError::LessViolated),
    {
        let id = match SurvivorId::try_new(id) {
            Ok(i) => i,
            Err(e) => {
                return Err(e);
            },
        };
        Ok(Self::perk(id, perk, tier))
    }

    /// An offering-slot change for the addressed member.
    pub fn offering(id: SurvivorId, offering: OfferingSlot) -> (r: SurvivorUpdate)
        ensures
            r.id == id,
            r.update == SurvivorUpdateData::LoadoutUpdate(LoadoutUpdate::Offering(offering)),
    {
        SurvivorUpdate {
            id,
            update: SurvivorUpdateData::LoadoutUpdate(LoadoutUpdate::Offering(offering)),
        }
    }

    /// Like [`SurvivorUpdate::offering`], validating a raw index first.
    pub fn offering_usize(id: usize, offering: OfferingSlot) -> (r: Result<
        SurvivorUpdate,
        SurvivorIdError,
    >)
        ensures
            id < TEAM_MAX_CAPACITY ==> (r matches Ok(u) && u.id@ == id && u.update
                == SurvivorUpdateData::LoadoutUpdate(LoadoutUpdate::Offering(offering))),
            id >= TEAM_MAX_CAPACITY ==> (r matches Err(e) && e == SurvivorIdError::LessViolated),
    {
        let id = match SurvivorId::try_new(id) {
            Ok(i) => i,
            Err(e) => {
                return Err(e);
            },
        };
        Ok(Self::offering(id, offering))
    }

    /// A life-status change for the addressed member.
    pub fn living_status(id: SurvivorId, alive: bool) -> (r: SurvivorUpdate)
        ensures
            r.id == id,
            r.update == SurvivorUpdateData::Life(alive),
    {
        SurvivorUpdate { id, update: SurvivorUpdateData::Life(alive) }
    }

    /// Any member change for the addressed member.
    pub fn data(id: SurvivorId, update: SurvivorUpdateData) -> (r: SurvivorUpdate)
        ensures
            r.id == id,
            r.update == update,
    {
        SurvivorUpdate { id, update }
    }

    /// Like [`SurvivorUpdate::data`], validating a raw index first.
    pub fn data_usize(id: usize, update: SurvivorUpdateData) -> (r: Result<
        SurvivorUpdate,
        SurvivorIdError,
    >)
        ensures
            id < TEAM_MAX_CAPACITY ==> (r matches Ok(u) && u.id@ == id && u.update == update),
            id >= TEAM_MAX_CAPACITY ==> (r matches Err(e) && e == SurvivorIdError::LessViolated),
    {
        let id = match SurvivorId::try_new(id) {
            Ok(i) => i,
            Err(e) => {
                return Err(e);
            },
        };
        Ok(Self::data(id, update))
    }
}

} // verus!
