use incremental_tui::economy::{pow_checked, Cost, GameState, Resource, ResourceType};
use incremental_tui::upgrade::UpgradeOutcome;

#[test]
fn upgrade_wood_debits_itself_then_runs_dry() {
    // Wood: rate 1.0, cost 2 Wood, level 0, amount 2; Stone: rate 0.5,
    // cost 3 Wood, level 0, amount 0. Upgrading Wood debits 2 Wood and
    // raises its level; the next attempt costs 4 Wood and fails cleanly.
    let mut gs = GameState::default();
    assert_eq!(gs.resources[0].amount, 2);

    let outcome = gs.upgrade(0);
    assert_eq!(outcome, UpgradeOutcome::Applied);
    assert_eq!(gs.resources[0].amount, 0);
    assert_eq!(gs.resources[0].level, 1);

    let before = gs.resources.clone();
    let outcome = gs.upgrade(0);
    assert_eq!(outcome, UpgradeOutcome::InsufficientFunds);
    assert_eq!(gs.resources, before);
}

#[test]
fn upgrade_cost_is_exponential() {
    let mut r = Resource::new(
        ResourceType::Stone,
        500,
        Cost::new(3, ResourceType::Wood),
    );
    assert_eq!(r.upgrade_cost().amount, 3);
    assert_eq!(r.upgrade_cost().resource_type, ResourceType::Wood);
    r.level = 2;
    assert_eq!(r.upgrade_cost().amount, 27);
    r.level = 5;
    assert_eq!(r.upgrade_cost().amount, 729);
}

#[test]
fn pow_checked_matches_and_overflows() {
    assert_eq!(pow_checked(2, 10), Some(1024));
    assert_eq!(pow_checked(10, 0), Some(1));
    assert_eq!(pow_checked(0, 3), Some(0));
    assert_eq!(pow_checked(1, 1_000_000), Some(1));
    assert_eq!(pow_checked(2, 63), Some(1u64 << 63));
    assert_eq!(pow_checked(2, 64), None);
    assert_eq!(pow_checked(u64::MAX, 2), None);
}

#[test]
fn upgrade_paid_in_another_resource() {
    // Upgrading Stone costs 3 Wood.
    let mut gs = GameState::default();
    gs.resources[0].amount = 5;
    let outcome = gs.upgrade(1);
    assert_eq!(outcome, UpgradeOutcome::Applied);
    assert_eq!(gs.resources[0].amount, 2);
    assert_eq!(gs.resources[1].level, 1);
    assert_eq!(gs.resources[1].amount, 0);
}

#[test]
fn upgrade_without_cost_resource_is_a_no_op() {
    // A roster holding only Stone, priced in Wood: nothing can pay.
    let stone = Resource::new(
        ResourceType::Stone,
        500,
        Cost::new(3, ResourceType::Wood),
    ).start_with(100);
    let mut gs = GameState { resources: vec![stone] };
    let before = gs.resources.clone();
    let outcome = gs.upgrade(0);
    assert_eq!(outcome, UpgradeOutcome::NoCostResource);
    assert_eq!(gs.resources, before);
}

#[test]
fn unaffordable_price_beyond_the_machine_word() {
    // Level 63 Wood at base 2 would cost 2^64 Wood: more than any bank.
    let mut wood = Resource::new(
        ResourceType::Wood,
        1000,
        Cost::new(2, ResourceType::Wood),
    ).start_with(u64::MAX);
    wood.level = 63;
    let mut gs = GameState { resources: vec![wood] };
    let before = gs.resources.clone();
    let outcome = gs.upgrade(0);
    assert_eq!(outcome, UpgradeOutcome::InsufficientFunds);
    assert_eq!(gs.resources, before);
}

#[test]
fn labels_are_stable() {
    assert_eq!(ResourceType::Wood.label(), "Wood");
    assert_eq!(ResourceType::Stone.label(), "Stone");
    assert_eq!(ResourceType::Iron.label(), "Iron");
    assert_eq!(ResourceType::Diamond.label(), "Diamond");
}

#[test]
fn upgrade_cost_grows_strictly_with_level() {
    let mut r = Resource::new(
        ResourceType::Stone,
        500,
        Cost::new(2, ResourceType::Wood),
    );
    let mut previous = 0u64;
    for level in 0..20 {
        r.level = level;
        let cost = r.upgrade_cost().amount;
        assert!(cost > previous);
        previous = cost;
    }
}

#[test]
fn cost_labels_spell_the_price() {
    assert_eq!(Cost::new(3, ResourceType::Wood).label(), "3 Wood");
    assert_eq!(Cost::new(0, ResourceType::Iron).label(), "0 Iron");
    assert_eq!(Cost::new(10, ResourceType::Stone).label(), "10 Stone");
    assert_eq!(Cost::new(1_234_567, ResourceType::Diamond).label(), "1234567 Diamond");
    assert_eq!(Cost::new(u64::MAX, ResourceType::Wood).label(), "18446744073709551615 Wood");
}
