use incremental_tui::dispatch::{App, AppEvent, Cursor, Event, KeyCode, KeyPress};
use incremental_tui::upgrade::UpgradeOutcome;

fn key(code: KeyCode) -> KeyPress {
    KeyPress { code, ctrl: false }
}

fn ctrl_key(code: KeyCode) -> KeyPress {
    KeyPress { code, ctrl: true }
}

#[test]
fn key_table_maps_quit_keys() {
    let app = App::new();
    assert_eq!(app.handle_key_event(key(KeyCode::Esc)), Some(AppEvent::Quit));
    assert_eq!(app.handle_key_event(key(KeyCode::Char('q'))), Some(AppEvent::Quit));
    assert_eq!(app.handle_key_event(ctrl_key(KeyCode::Char('c'))), Some(AppEvent::Quit));
    assert_eq!(app.handle_key_event(ctrl_key(KeyCode::Char('C'))), Some(AppEvent::Quit));
    // Without the control modifier, `c` means nothing.
    assert_eq!(app.handle_key_event(key(KeyCode::Char('c'))), None);
    // Only lower-case `q` quits.
    assert_eq!(app.handle_key_event(key(KeyCode::Char('Q'))), None);
}

#[test]
fn key_table_maps_movement_and_upgrade() {
    let app = App::new();
    assert_eq!(app.handle_key_event(key(KeyCode::Down)), Some(AppEvent::GoDown));
    assert_eq!(app.handle_key_event(key(KeyCode::Up)), Some(AppEvent::GoUp));
    assert_eq!(app.handle_key_event(key(KeyCode::Enter)), Some(AppEvent::Upgrade));
    assert_eq!(app.handle_key_event(key(KeyCode::Char('x'))), None);
    assert_eq!(app.handle_key_event(key(KeyCode::Other)), None);
}

#[test]
fn cursor_clamps_to_the_roster() {
    let mut c = Cursor::new();
    assert_eq!(c.selected, None);
    c.next(4);
    assert_eq!(c.selected, Some(0));
    c.next(4);
    c.next(4);
    c.next(4);
    assert_eq!(c.selected, Some(3));
    c.next(4);
    assert_eq!(c.selected, Some(3));
    c.previous(4);
    assert_eq!(c.selected, Some(2));
    c.previous(4);
    c.previous(4);
    assert_eq!(c.selected, Some(0));
    c.previous(4);
    assert_eq!(c.selected, Some(0));
}

#[test]
fn tick_event_advances_the_engine_only() {
    let mut app = App::new();
    app.game_state.resources[0].level = 1;
    let emitted = app.handle_events(Event::Tick);
    assert_eq!(emitted, None);
    assert!(app.running);
    assert_eq!(app.cursor.selected, None);
    assert_eq!(app.game_state.resources[0].progress, 1000);
}

#[test]
fn key_events_emit_intents_without_mutating() {
    let mut app = App::new();
    let before = app.game_state.resources.clone();
    let emitted = app.handle_events(Event::Key(key(KeyCode::Enter)));
    assert_eq!(emitted, Some(AppEvent::Upgrade));
    assert_eq!(app.game_state.resources, before);
    assert!(app.running);
}

#[test]
fn quit_intent_stops_the_machine() {
    let mut app = App::new();
    let emitted = app.handle_events(Event::App(AppEvent::Quit));
    assert_eq!(emitted, None);
    assert!(!app.running);
}

#[test]
fn upgrade_with_no_selection_advances_the_cursor() {
    let mut app = App::new();
    let outcome = app.upgrade_resource(None);
    assert_eq!(outcome, UpgradeOutcome::NoSelection);
    assert_eq!(app.cursor.selected, Some(0));
    let fresh = App::new();
    assert_eq!(app.game_state.resources, fresh.game_state.resources);
}

#[test]
fn upgrade_intent_applies_at_the_cursor() {
    let mut app = App::new();
    app.handle_events(Event::App(AppEvent::GoDown));
    assert_eq!(app.cursor.selected, Some(0));
    app.handle_events(Event::App(AppEvent::Upgrade));
    assert_eq!(app.game_state.resources[0].level, 1);
    assert_eq!(app.game_state.resources[0].amount, 0);
}

#[test]
fn cursor_moves_route_through_events() {
    let mut app = App::new();
    app.handle_events(Event::App(AppEvent::GoDown));
    app.handle_events(Event::App(AppEvent::GoDown));
    assert_eq!(app.cursor.selected, Some(1));
    app.handle_events(Event::App(AppEvent::GoUp));
    assert_eq!(app.cursor.selected, Some(0));
}
