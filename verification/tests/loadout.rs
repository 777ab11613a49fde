//! Loadout slots and collation, exercised on concrete equipment.

use hook_escape_calculator::living_count::LivingCount;
use hook_escape_calculator::luck_record::{LoadoutPlayerConverter, PlayerTeamConverter};
use hook_escape_calculator::loadout::Loadout;
use hook_escape_calculator::offering::{Offering, OfferingSlot};
use hook_escape_calculator::perk::{PerkName, Tier, TierSlot};

#[test]
fn example0() {
    let mut survivor = Loadout::default();
    survivor.set_perk(PerkName::SlipperyMeat, TierSlot(Some(Tier::One)));
    survivor.set_offering(OfferingSlot(Some(Offering::SaltStatuette)));
    let record = survivor.collate_luck();
    // Personal luck 0.02 from Slippery Meat tier one.
    assert_eq!(record.personal, 2);
    // Six attempts at most: three base plus three from Slippery Meat.
    assert_eq!(3 + record.additional_unhooks, 6_i8);
    // No Up the Ante: no count-scaling contribution against three others.
    assert_eq!(record.up_the_ante_coeff, None);
    // Global luck 0.02 from the salt statuette.
    assert_eq!(record.global, 2);
}

#[test]
fn example1() {
    let mut survivor = Loadout::default();
    survivor.set_perk(PerkName::UpTheAnte, TierSlot(Some(Tier::Three)));
    survivor.set_offering(OfferingSlot(Some(Offering::ChalkPouch)));
    let record = survivor.collate_luck();
    // Personal luck 0.01 from the chalk pouch.
    assert_eq!(record.personal, 1);
    // Three attempts only: no Slippery Meat.
    assert_eq!(3 + record.additional_unhooks, 3_i8);
    // Up the Ante tier three against two living others: 0.06 global.
    let converter = PlayerTeamConverter::new(LivingCount::try_new(2).unwrap());
    let gate = LoadoutPlayerConverter::new(true);
    let resolved = converter.convert(&gate.convert(record));
    assert_eq!(resolved.global(), 6);
    // No global luck from the personal offering.
    assert_eq!(record.global, 0);
}

#[test]
fn set_perk_round_trip() {
    let mut l = Loadout::default();
    l.set_perk(PerkName::UpTheAnte, TierSlot(Some(Tier::Two)));
    let slot = l.get_perk(PerkName::UpTheAnte);
    let perk = slot.into_inner().expect("slot was just set");
    assert_eq!(perk.name(), PerkName::UpTheAnte);
    assert_eq!(perk.tier(), Tier::Two);
    // The other slots are untouched.
    assert_eq!(l.get_perk(PerkName::SlipperyMeat).into_inner(), None);
    assert_eq!(l.offering().into_inner(), None);
    // Clearing the slot reads back as empty.
    l.set_perk(PerkName::UpTheAnte, TierSlot(None));
    assert_eq!(l.get_perk(PerkName::UpTheAnte).into_inner(), None);
}

#[test]
fn set_offering_round_trip() {
    let mut l = Loadout::default();
    l.set_offering(OfferingSlot(Some(Offering::SaltyLips)));
    assert_eq!(l.offering().into_inner(), Some(Offering::SaltyLips));
    l.set_offering(OfferingSlot(None));
    assert_eq!(l.offering().into_inner(), None);
}

#[test]
fn empty_loadout_collates_to_identity() {
    let record = Loadout::default().collate_luck();
    assert_eq!(record.personal, 0);
    assert_eq!(record.global, 0);
    assert_eq!(record.up_the_ante_coeff, None);
    assert_eq!(record.additional_unhooks, 0);
}

#[test]
fn full_loadout_collates_every_slot() {
    let mut l = Loadout::default();
    l.set_perk(PerkName::SlipperyMeat, TierSlot(Some(Tier::Three)));
    l.set_perk(PerkName::UpTheAnte, TierSlot(Some(Tier::Two)));
    l.set_offering(OfferingSlot(Some(Offering::IvoryPouch)));
    let record = l.collate_luck();
    // Personal: 0.03 ivory pouch + 0.04 Slippery Meat tier three.
    assert_eq!(record.personal, 7);
    assert_eq!(record.global, 0);
    assert_eq!(record.up_the_ante_coeff, Some(2));
    assert_eq!(record.additional_unhooks, 3);
}
