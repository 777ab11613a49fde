//! The front-end choice enums: labels and slot-value round trips.

#![allow(non_snake_case)]

use hook_escape_calculator::choices::{OfferingChoice, PerkChoice};
use hook_escape_calculator::offering::Offering;
use hook_escape_calculator::perk::Tier;

#[test]
fn NA_offering_display() {
    assert_eq!("NA", OfferingChoice::NA.label())
}

#[test]
fn SaltPouch_offering_display() {
    assert_eq!("SaltPouch", OfferingChoice::SaltPouch.label())
}

#[test]
fn perk_choice_round_trip() {
    let values: [Option<Tier>; 4] = [None, Some(Tier::One), Some(Tier::Two), Some(Tier::Three)];
    for value in values {
        assert_eq!(PerkChoice::from_tier(value).into_tier(), value);
    }
    let choices = [
        PerkChoice::NA,
        PerkChoice::One,
        PerkChoice::Two,
        PerkChoice::Three,
    ];
    for choice in choices {
        assert_eq!(PerkChoice::from_tier(choice.into_tier()), choice);
    }
}

#[test]
fn offering_choice_round_trip() {
    let values: [Option<Offering>; 7] = [
        None,
        Some(Offering::ChalkPouch),
        Some(Offering::CreamPouch),
        Some(Offering::SaltPouch),
        Some(Offering::SaltStatuette),
        Some(Offering::IvoryPouch),
        Some(Offering::SaltyLips),
    ];
    for value in values {
        assert_eq!(OfferingChoice::from_offering(value).into_offering(), value);
    }
}

#[test]
fn perk_choice_labels() {
    assert_eq!(PerkChoice::NA.label(), "NA");
    assert_eq!(PerkChoice::One.label(), "One");
    assert_eq!(PerkChoice::Two.label(), "Two");
    assert_eq!(PerkChoice::Three.label(), "Three");
}
