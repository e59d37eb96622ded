use incremental_tui::economy::GameState;
use incremental_tui::persist::LoadError;

#[test]
fn save_then_load_is_identity() {
    let mut gs = GameState::default();
    gs.resources[0].amount = 41;
    gs.resources[1].level = 3;
    gs.resources[2].progress = 12_345;
    let text = gs.save_string();
    let loaded = GameState::load_string(&text, 0).expect("a fresh save must load");
    assert_eq!(loaded.resources, gs.resources);
}

#[test]
fn save_text_is_json_numbers() {
    let gs = GameState::default();
    let text = gs.save_string();
    assert!(text.starts_with('['));
    assert!(text.ends_with(']'));
    // Seven words per resource, four resources.
    assert_eq!(text.split(',').count(), 28);
}

#[test]
fn offline_catch_up_replays_the_live_ticks() {
    // Ten seconds at ten ticks per second: exactly one hundred ticks,
    // numerically identical to ticking live.
    let mut gs = GameState::default();
    gs.resources[0].level = 1;
    gs.resources[1].level = 3;
    let text = gs.save_string();

    let mut live = GameState { resources: gs.resources.clone() };
    for _ in 0..100 {
        live.tick();
    }

    let loaded = GameState::load_string(&text, 10_000).expect("save must load");
    assert_eq!(loaded.resources, live.resources);
    // Wood starts with 2 banked; one hundred ticks at level 1 credit one.
    assert_eq!(loaded.resources[0].amount, 3);
    assert_eq!(loaded.resources[0].progress, 0);
}

#[test]
fn partial_seconds_round_down_to_whole_ticks() {
    let gs = GameState::default();
    let text = gs.save_string();
    // 999 ms at 10 ticks per second is 9 whole ticks; nothing is at a
    // level, so the state is unchanged either way.
    let loaded = GameState::load_string(&text, 999).expect("save must load");
    assert_eq!(loaded.resources, gs.resources);
}

#[test]
fn unparseable_text_is_malformed() {
    assert!(matches!(GameState::load_string("", 0), Err(LoadError::Malformed)));
    assert!(matches!(GameState::load_string("not json", 0), Err(LoadError::Malformed)));
    assert!(matches!(
        GameState::load_string("{\"resources\":[]}", 0),
        Err(LoadError::Malformed),
    ));
    assert!(matches!(GameState::load_string("[1,2,-3]", 0), Err(LoadError::Malformed)));
}

#[test]
fn ragged_or_invalid_words_are_bad_data() {
    // A ragged length: not a multiple of seven words.
    assert!(matches!(GameState::load_string("[1,2,3]", 0), Err(LoadError::InvalidData)));
    // An unknown kind tag.
    assert!(matches!(
        GameState::load_string("[9,0,0,2,0,0,1000]", 0),
        Err(LoadError::InvalidData),
    ));
    // A fraction at or above one whole unit.
    assert!(matches!(
        GameState::load_string("[0,0,0,2,0,100000,1000]", 0),
        Err(LoadError::InvalidData),
    ));
    // A zero base rate.
    assert!(matches!(
        GameState::load_string("[0,0,0,2,0,0,0]", 0),
        Err(LoadError::InvalidData),
    ));
    // Two resources of the same kind.
    assert!(matches!(
        GameState::load_string("[0,0,0,2,0,0,1000,0,0,0,3,0,0,500]", 0),
        Err(LoadError::InvalidData),
    ));
}

#[test]
fn a_valid_handwritten_save_loads() {
    // One Stone resource priced in Wood, with some progress carried.
    let loaded = GameState::load_string("[1,7,2,3,0,250,500]", 0).expect("valid words");
    assert_eq!(loaded.resources.len(), 1);
    let r = &loaded.resources[0];
    assert_eq!(r.resource_type, incremental_tui::economy::ResourceType::Stone);
    assert_eq!(r.amount, 7);
    assert_eq!(r.level, 2);
    assert_eq!(r.cost.amount, 3);
    assert_eq!(r.cost.resource_type, incremental_tui::economy::ResourceType::Wood);
    assert_eq!(r.progress, 250);
    assert_eq!(r.progress_per_tick, 500);
}
