//! The fixed equipment catalog: lookup tables, labels and enumerations.

use hook_escape_calculator::constants::COUNT_LUCK_PERKS;
use hook_escape_calculator::luck::LuckScope;
use hook_escape_calculator::offering::Offering;
use hook_escape_calculator::perk::{Perk, PerkName, Tier};

#[test]
fn perk_count_actual_and_expected_match() {
    let perks: usize = PerkName::iterator().len();
    let expected = COUNT_LUCK_PERKS;
    assert_eq!(perks, expected)
}

#[test]
fn slippery_meat_records_by_tier() {
    let expected: [(Tier, u64); 3] = [(Tier::One, 2), (Tier::Two, 3), (Tier::Three, 4)];
    for (tier, personal) in expected {
        let record = Perk::new(PerkName::SlipperyMeat, tier).luck_record();
        assert_eq!(record.personal, personal);
        assert_eq!(record.global, 0);
        assert_eq!(record.up_the_ante_coeff, None);
        assert_eq!(record.additional_unhooks, 3);
    }
}

#[test]
fn up_the_ante_records_by_tier() {
    let expected: [(Tier, u64); 3] = [(Tier::One, 1), (Tier::Two, 2), (Tier::Three, 3)];
    for (tier, coeff) in expected {
        let record = Perk::new(PerkName::UpTheAnte, tier).luck_record();
        assert_eq!(record.personal, 0);
        assert_eq!(record.global, 0);
        assert_eq!(record.up_the_ante_coeff, Some(coeff));
        assert_eq!(record.additional_unhooks, 0);
    }
}

#[test]
fn offering_catalog_values_and_scopes() {
    let expected: [(Offering, u64, bool); 6] = [
        (Offering::ChalkPouch, 1, true),
        (Offering::CreamPouch, 2, true),
        (Offering::SaltPouch, 1, false),
        (Offering::SaltStatuette, 2, false),
        (Offering::IvoryPouch, 3, true),
        (Offering::SaltyLips, 3, false),
    ];
    for (offering, value, personal) in expected {
        assert_eq!(offering.luck_value(), value);
        assert_eq!(offering.luck_is_personal(), personal);
        let scope = offering.luck_scope();
        if personal {
            assert_eq!(scope, LuckScope::Personal);
        } else {
            assert_eq!(scope, LuckScope::Global);
        }
        let record = offering.luck_record();
        if personal {
            assert_eq!(record.personal, value);
            assert_eq!(record.global, 0);
        } else {
            assert_eq!(record.personal, 0);
            assert_eq!(record.global, value);
        }
    }
}

#[test]
fn catalog_enumerations_are_complete() {
    assert_eq!(
        Tier::iterator(),
        vec![Tier::One, Tier::Two, Tier::Three]
    );
    assert_eq!(
        Offering::iterator(),
        vec![
            Offering::ChalkPouch,
            Offering::CreamPouch,
            Offering::SaltPouch,
            Offering::SaltStatuette,
            Offering::IvoryPouch,
            Offering::SaltyLips,
        ]
    );
    assert_eq!(
        PerkName::iterator(),
        vec![PerkName::SlipperyMeat, PerkName::UpTheAnte]
    );
}

#[test]
fn labels_spell_catalog_names() {
    assert_eq!(Tier::One.label(), "one");
    assert_eq!(Tier::Three.label(), "three");
    assert_eq!(Offering::ChalkPouch.label(), "chalk pouch");
    assert_eq!(Offering::SaltyLips.label(), "salty lips");
}

#[test]
fn perk_set_tier_replaces_only_tier() {
    let mut perk = Perk::new(PerkName::UpTheAnte, Tier::One);
    perk.set_tier(Tier::Three);
    assert_eq!(perk.name(), PerkName::UpTheAnte);
    assert_eq!(perk.tier(), Tier::Three);
}
