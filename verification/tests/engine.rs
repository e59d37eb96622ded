use incremental_tui::economy::{Cost, GameState, Resource, ResourceType};
use incremental_tui::{PROGRESS_DENOM, RATE_DENOM};

fn wood_at_level_one() -> Resource {
    Resource {
        resource_type: ResourceType::Wood,
        amount: 0,
        level: 1,
        cost: Cost { amount: 2, resource_type: ResourceType::Wood },
        progress: 0,
        progress_per_tick: 1000,
    }
}

#[test]
fn level_zero_never_accrues() {
    let mut gs = GameState::default();
    for _ in 0..1000 {
        gs.tick();
    }
    let fresh = GameState::default();
    assert_eq!(gs.resources, fresh.resources);
}

#[test]
fn hundred_ticks_credit_exactly_one_unit() {
    // Wood at level 1 with a base rate of one whole percent per tick:
    // after 100 ticks exactly one unit lands and the fraction is zero again.
    let mut gs = GameState { resources: vec![wood_at_level_one()] };
    for _ in 0..99 {
        gs.tick();
    }
    assert_eq!(gs.resources[0].amount, 0);
    assert_eq!(gs.resources[0].progress, 99_000);
    gs.tick();
    assert_eq!(gs.resources[0].amount, 1);
    assert_eq!(gs.resources[0].progress, 0);
}

#[test]
fn progress_stays_a_proper_fraction() {
    let mut r = wood_at_level_one();
    r.level = 7;
    r.progress_per_tick = 777;
    let mut gs = GameState { resources: vec![r] };
    for _ in 0..500 {
        gs.tick();
        assert!(gs.resources[0].progress < 100_000);
    }
}

#[test]
fn tick_accrues_each_resource_independently() {
    let mut gs = GameState::default();
    // Raise Stone to level 2 by hand and watch only Stone accrue.
    gs.resources[1].level = 2;
    gs.tick();
    assert_eq!(gs.resources[0].progress, 0);
    assert_eq!(gs.resources[1].progress, 1000);
    assert_eq!(gs.resources[2].progress, 0);
    assert_eq!(gs.resources[3].progress, 0);
    assert_eq!(gs.resources[1].amount, 0);
}

#[test]
fn amount_saturates_at_the_machine_word() {
    let mut r = wood_at_level_one();
    r.amount = u64::MAX - 1;
    r.level = 1000;
    r.progress_per_tick = 1_000_000;
    let mut gs = GameState { resources: vec![r] };
    gs.tick();
    assert_eq!(gs.resources[0].amount, u64::MAX);
    gs.tick();
    assert_eq!(gs.resources[0].amount, u64::MAX);
}

#[test]
fn n_ticks_equal_one_combined_accrual() {
    // Ticking 57 times accrues 57 * level * rate in one go, with the same
    // floor-and-remainder rule: level 3 at rate 777 gains 2331 per tick,
    // 57 * 2331 = 132_867, so one whole unit and 32_867 carried.
    let mut r = Resource::new(
        ResourceType::Iron,
        777,
        Cost::new(4, ResourceType::Stone),
    );
    r.level = 3;
    let gain: u64 = r.level * r.progress_per_tick;
    let n: u64 = 57;
    let total = n * gain;
    let expected_amount = total / PROGRESS_DENOM;
    let expected_progress = total % PROGRESS_DENOM;

    let mut gs = GameState { resources: vec![r] };
    for _ in 0..n {
        gs.tick();
    }
    assert_eq!(expected_amount, 1);
    assert_eq!(gs.resources[0].amount, expected_amount);
    assert_eq!(gs.resources[0].progress, expected_progress);
}

#[test]
fn full_rate_at_level_one_hundred() {
    // RATE_DENOM per tick is one whole unit per tick at level 100.
    let mut r = Resource::new(
        ResourceType::Wood,
        RATE_DENOM,
        Cost::new(2, ResourceType::Wood),
    );
    r.level = 100;
    let mut gs = GameState { resources: vec![r] };
    gs.tick();
    assert_eq!(gs.resources[0].amount, 1);
    assert_eq!(gs.resources[0].progress, 0);
}
