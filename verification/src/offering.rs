//! The six luck offerings and their modifier records.

use vstd::prelude::*;

use crate::constants::{GREAT_LUCK, MODERATE_LUCK, SLIGHT_LUCK};
use crate::luck::{Luck, LuckScope};
use crate::luck_record::{global_record, personal_record, LoadoutLuckRecord, LuckRecordModel};

verus! {

/// A single-slot luck offering: three magnitudes, each in a personal and a
/// team-wide variant.
#[derive(Debug, Clone, Copy, PartialEq, Eq, Hash, Structural)]
pub enum Offering {
    ChalkPouch,
    CreamPouch,
    SaltPouch,
    SaltStatuette,
    IvoryPouch,
    SaltyLips,
}

/// The luck an offering grants, in hundredths.
pub open spec fn offering_luck_value(o: Offering) -> int {
    match o {
        Offering::ChalkPouch | Offering::SaltPouch => SLIGHT_LUCK as int,
        Offering::CreamPouch | Offering::SaltStatuette => MODERATE_LUCK as int,
        Offering::IvoryPouch | Offering::SaltyLips => GREAT_LUCK as int,
    }
}

/// Whether an offering's luck is personal or team-wide.
pub open spec fn offering_is_personal(o: Offering) -> bool {
    match o {
        Offering::ChalkPouch | Offering::CreamPouch | Offering::IvoryPouch => true,
        _ => false,
    }
}

/// The modifier record an offering contributes.
pub open spec fn offering_record_model(o: Offering) -> LuckRecordModel {
    if offering_is_personal(o) {
        personal_record(offering_luck_value(o))
    } else {
        global_record(offering_luck_value(o))
    }
}

impl Offering {
    /// The luck this offering grants, in hundredths.
    pub fn luck_value(&self) -> (r: Luck)
        ensures
            r == offering_luck_value(*self),
    {
        match self {
            Offering::ChalkPouch | Offering::SaltPouch => SLIGHT_LUCK,
            Offering::CreamPouch | Offering::SaltStatuette => MODERATE_LUCK,
            Offering::IvoryPouch | Offering::SaltyLips => GREAT_LUCK,
        }
    }

    /// Whether this offering helps only its owner.
    pub fn luck_is_personal(&self) -> (r: bool)
        ensures
            r == offering_is_personal(*self),
    {
        match self {
            Offering::ChalkPouch | Offering::CreamPouch | Offering::IvoryPouch => true,
            _ => false,
        }
    }

    /// The scope this offering's luck applies to.
    pub fn luck_scope(&self) -> (r: LuckScope)
        ensures
            r == (if offering_is_personal(*self) {
                LuckScope::Personal
            } else {
                LuckScope::Global
            }),
    {
        if self.luck_is_personal() {
            LuckScope::Personal
        } else {
            LuckScope::Global
        }
    }

    /// The modifier record this offering contributes to its owner's loadout.
    pub fn luck_record(&self) -> (r: LoadoutLuckRecord)
        ensures
            r@ == offering_record_model(*self),
    {
        if self.luck_is_personal() {
            LoadoutLuckRecord::from_personal(self.luck_value())
        } else {
            LoadoutLuckRecord::from_global(self.luck_value())
        }
    }

    /// Every offering, in catalog order.
    pub fn iterator() -> (r: Vec<Offering>)
        ensures
            r@ == seq![
                Offering::ChalkPouch,
                Offering::CreamPouch,
                Offering::SaltPouch,
                Offering::SaltStatuette,
                Offering::IvoryPouch,
                Offering::SaltyLips,
            ],
    {
        let r = vec![
            Offering::ChalkPouch,
            Offering::CreamPouch,
            Offering::SaltPouch,
            Offering::SaltStatuette,
            Offering::IvoryPouch,
            Offering::SaltyLips,
        ];
        proof {
            assert(r@ =~= seq![
                Offering::ChalkPouch,
                Offering::CreamPouch,
                Offering::SaltPouch,
                Offering::SaltStatuette,
                Offering::IvoryPouch,
                Offering::SaltyLips,
            ]);
        }
        r
    }

    /// The offering's display name.
    pub fn label(&self) -> (r: &'static str)
        ensures
            *self == Offering::ChalkPouch ==> r@ == "chalk pouch"@,
            *self == Offering::CreamPouch ==> r@ == "cream pouch"@,
            *self == Offering::SaltPouch ==> r@ == "salt pouch"@,
            *self == Offering::SaltStatuette ==> r@ == "salt statuette"@,
            *self == Offering::IvoryPouch ==> r@ == "ivory pouch"@,
            *self == Offering::SaltyLips ==> r@ == "salty lips"@,
    {
        match self {
            Offering::ChalkPouch => "chalk pouch",
            Offering::CreamPouch => "cream pouch",
            Offering::SaltPouch => "salt pouch",
            Offering::SaltStatuette => "salt statuette",
            Offering::IvoryPouch => "ivory pouch",
            Offering::SaltyLips => "salty lips",
        }
    }
}

/// An offering slot: empty, or holding an offering.
#[derive(Debug, Clone, Copy, PartialEq, Eq, Hash)]
pub struct OfferingSlot(pub Option<Offering>);

impl OfferingSlot {
    pub fn new(value: Option<Offering>) -> (r: OfferingSlot)
        ensures
            r.0 == value,
    {
        OfferingSlot(value)
    }

    pub fn into_inner(self) -> (r: Option<Offering>)
        ensures
            r == self.0,
    {
        self.0
    }
}

impl Default for OfferingSlot {
    /// An empty slot.
    fn default() -> (r: OfferingSlot)
        ensures
            r.0 is None,
    {
        OfferingSlot(None)
    }
}

} // verus!
