//! The modifier-record algebra, exercised on concrete values. Luck is in
//! hundredths of probability one; overall chances are numerators over
//! `PROB_DENOMINATOR`.

use hook_escape_calculator::living_count::LivingCount;
use hook_escape_calculator::luck_record::{
    LoadoutLuckRecord, LoadoutPlayerConverter, PlayerTeamConverter, TeamLuckRecord,
};

fn record(personal: u64, global: u64, uta: Option<u64>, unhooks: i8) -> LoadoutLuckRecord {
    LoadoutLuckRecord {
        personal,
        global,
        up_the_ante_coeff: uta,
        additional_unhooks: unhooks,
    }
}

#[test]
fn luck_record_trivial_default_comparison() {
    let a = LoadoutLuckRecord::default();
    let b = LoadoutLuckRecord::default();
    assert_eq!(a, b);
}

#[test]
fn player_luck_record_trivial_default_comparison() {
    let a = LoadoutLuckRecord::default();
    let b = LoadoutLuckRecord::default();
    assert_eq!(a, b);
}

#[test]
fn integrated_combine() {
    let a = record(4, 1, Some(2), 0);
    let b = record(2, 2, None, 3);
    let c = a.combine(&b);
    assert_eq!(c.personal, 6);
    assert_eq!(c.global, 3);
    assert_eq!(c.up_the_ante_coeff, Some(2));
    assert_eq!(c.additional_unhooks, 3);
}

/// One per-member entry of `(personal, unhooks)` with no global luck.
fn single_entry(personal: u64, unhooks: i8) -> TeamLuckRecord {
    let converter = PlayerTeamConverter::new(LivingCount::try_new(0).unwrap());
    let gate = LoadoutPlayerConverter::new(true);
    converter.convert(&gate.convert(record(personal, 0, None, unhooks)))
}

#[test]
fn best_case_integration() {
    // Three altruists: Slippery Meat tier three and a personal entry each,
    // Up the Ante tier three resolved against three others, and a great
    // global offering each.
    let altruistic_team = TeamLuckRecord::with_global(4)
        .combine(&TeamLuckRecord::with_global(3 * 3 * 3 + 3 * 3))
        .combine(&single_entry(4, 3))
        .combine(&single_entry(4, 3))
        .combine(&single_entry(4, 3));
    // The best-equipped member: Slippery Meat tier three, salty lips and
    // Up the Ante tier three with three others living.
    let player = TeamLuckRecord::with_global(3 + 3 * 3).combine(&single_entry(4, 3));
    let full_team = altruistic_team.combine(&player);
    let full_luck: Vec<(u64, u64)> = full_team.make_single_and_total_unhook_pairs();
    let (one_try, all_tries) = full_luck.get(3).expect("3 less than full team size");
    // 0.56 per attempt; 1 - 0.44^6 over six attempts.
    assert_eq!(*one_try, 56);
    assert_eq!(*all_tries, 992_743_686_144);
}

#[test]
fn combine_is_associative() {
    let a = record(4, 1, Some(2), 0);
    let b = record(2, 2, Some(1), 3);
    let c = record(7, 0, None, 3);
    let left = a.combine(&b).combine(&c);
    let right = a.combine(&b.combine(&c));
    assert_eq!(left, right);
}

#[test]
fn combine_has_identity() {
    let a = record(4, 1, Some(2), 3);
    let e = LoadoutLuckRecord::empty();
    assert_eq!(a.combine(&e), a);
    assert_eq!(e.combine(&a), a);
}

#[test]
fn count_scaling_prefers_left() {
    let left = LoadoutLuckRecord::from_uta(2);
    let right = LoadoutLuckRecord::from_uta(3);
    assert_eq!(left.combine(&right).up_the_ante_coeff, Some(2));
    assert_eq!(right.combine(&left).up_the_ante_coeff, Some(3));
}

#[test]
fn constructors_set_one_field() {
    assert_eq!(LoadoutLuckRecord::from_personal(5), record(5, 0, None, 0));
    assert_eq!(LoadoutLuckRecord::from_global(5), record(0, 5, None, 0));
    assert_eq!(LoadoutLuckRecord::from_uta(5), record(0, 0, Some(5), 0));
    assert_eq!(LoadoutLuckRecord::from_unhook_mod(5), record(0, 0, None, 5));
}

#[test]
fn liveness_gate_suppresses_dead_coefficient() {
    let loaded = record(3, 2, Some(1), 0);
    let dead = LoadoutPlayerConverter::new(false);
    let alive = LoadoutPlayerConverter::new(true);

    let suppressed = dead.convert(loaded);
    assert_eq!(suppressed.0.up_the_ante_coeff, None);
    assert_eq!(suppressed.0.personal, 3);
    assert_eq!(suppressed.0.global, 2);

    // Gating the already suppressed record again changes nothing.
    let twice = dead.convert(suppressed.0);
    assert_eq!(twice, suppressed);

    // Reconverting the loadout record after a revival restores the
    // coefficient.
    let revived = alive.convert(loaded);
    assert_eq!(revived.0.up_the_ante_coeff, Some(1));
    assert_eq!(revived.0, loaded);
}

#[test]
fn team_converter_resolves_count_scaling() {
    let converter = PlayerTeamConverter::new(LivingCount::try_new(3).unwrap());
    let gate = LoadoutPlayerConverter::new(true);
    let resolved = converter.convert(&gate.convert(record(2, 1, Some(3), 0)));
    // Global luck: 1 flat plus 3 per other living member.
    assert_eq!(resolved.global(), 10);
    let pairs = resolved.luck_unhook_mod_pairs();
    assert_eq!(pairs, vec![(12, 0)]);
}

#[test]
fn team_records_concatenate_in_order() {
    let a = single_entry(1, 0);
    let b = single_entry(2, 3);
    let c = TeamLuckRecord::with_global(5).combine(&a).combine(&b);
    assert_eq!(c.global(), 5);
    assert_eq!(c.luck_unhook_mod_pairs(), vec![(6, 0), (7, 3)]);
}

#[test]
fn team_record_default_is_empty() {
    let d = TeamLuckRecord::default();
    assert_eq!(d.global(), 0);
    assert_eq!(d.luck_unhook_mod_pairs(), vec![]);
    assert_eq!(d.make_single_and_total_unhook_pairs(), vec![]);
}

#[test]
fn single_member_overall_chance_exact() {
    // Luck 0.10 over six attempts: 1 - 0.90^6.
    let team = TeamLuckRecord::with_global(10).combine(&single_entry(0, 3));
    let pairs = team.make_single_and_total_unhook_pairs();
    assert_eq!(pairs, vec![(10, 468_559_000_000)]);
}
