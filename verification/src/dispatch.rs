//! The event dispatcher: a state machine over `Running`/`Stopped` that
//! routes each event of the merged stream — periodic ticks, key presses,
//! and the intents derived from them — to the progression engine, the
//! upgrade resolver, or the selection cursor.

use vstd::prelude::*;
use crate::economy::{GameState, wf_state};
use crate::engine::ticked_all;
use crate::upgrade::{UpgradeOutcome, upgrade_outcome_spec, upgraded_state_spec};

verus! {

/// A key press, reduced to what the dispatcher reads: the key's identity
/// and whether the control modifier — and only it — was held.
#[derive(Debug, Copy, Clone, PartialEq, Eq, Structural)]
pub struct KeyPress {
    pub code: KeyCode,
    /// True when the control modifier is held and no other one.
    pub ctrl: bool,
}

/// The key identities the dispatcher distinguishes.
#[derive(Debug, Copy, Clone, PartialEq, Eq, Structural)]
pub enum KeyCode {
    Esc,
    Enter,
    Up,
    Down,
    Char(char),
    Other,
}

/// A semantic action derived from raw input.
#[derive(Debug, Copy, Clone, PartialEq, Eq, Structural)]
pub enum AppEvent {
    Quit,
    GoUp,
    GoDown,
    Upgrade,
}

/// One event of the merged stream, in arrival order: a timer tick, a raw
/// key press, or an intent previously derived from one.
#[derive(Debug, Copy, Clone, PartialEq, Eq, Structural)]
pub enum Event {
    Tick,
    Key(KeyPress),
    App(AppEvent),
}

/// The fixed key-to-intent table: escape or `q` quits, as does control
/// with `c` or `C`; the arrows move the cursor; enter upgrades; every
/// other key is ignored.
pub open spec fn intent_of(key: KeyPress) -> Option<AppEvent> {
    match key.code {
        KeyCode::Esc => Some(AppEvent::Quit),
        KeyCode::Char(c) => if c == 'q' {
            Some(AppEvent::Quit)
        } else if (c == 'c' || c == 'C') && key.ctrl {
            Some(AppEvent::Quit)
        } else {
            None
        },
        KeyCode::Down => Some(AppEvent::GoDown),
        KeyCode::Up => Some(AppEvent::GoUp),
        KeyCode::Enter => Some(AppEvent::Upgrade),
        KeyCode::Other => None,
    }
}

/// The selection cursor: an index into the roster, or no selection. It
/// moves one position at a time and is clamped into `[0, len)`.
#[derive(Debug, Copy, Clone, PartialEq, Eq, Structural)]
pub struct Cursor {
    pub selected: Option<usize>,
}

/// Where one step down from `sel` lands in a list of `len` items.
pub open spec fn next_selection(sel: Option<usize>, len: usize) -> Option<usize> {
    if len == 0 {
        None
    } else {
        match sel {
            Option::None => Some(0usize),
            Option::Some(i) => if i + 1 < len {
                Some((i + 1) as usize)
            } else {
                Some((len - 1) as usize)
            },
        }
    }
}

/// Where one step up from `sel` lands in a list of `len` items.
pub open spec fn previous_selection(sel: Option<usize>, len: usize) -> Option<usize> {
    if len == 0 {
        None
    } else {
        match sel {
            Option::None => Some(0usize),
            Option::Some(i) => if i == 0 || i >= len {
                Some(0usize)
            } else {
                Some((i - 1) as usize)
            },
        }
    }
}

/// The cursor points inside the roster, if anywhere.
pub open spec fn cursor_in_range(c: Cursor, len: nat) -> bool {
    match c.selected {
        Option::None => true,
        Option::Some(i) => i < len,
    }
}

impl Cursor {
    /// No selection.
    pub fn new() -> (r: Cursor)
        ensures
            r.selected is None,
    {
        Cursor { selected: None }
    }

    /// Move one position down (clamped), or onto the first item when
    /// nothing was selected.
    pub fn next(&mut self, len: usize)
        ensures
            final(self).selected == next_selection(old(self).selected, len),
            cursor_in_range(*final(self), len as nat),
    {
        if len == 0 {
            self.selected = None;
            return;
        }
        let sel = match self.selected {
            None => 0,
            Some(i) => if i < len - 1 {
                i + 1
            } else {
                len - 1
            },
        };
        self.selected = Some(sel);
    }

    /// Move one position up (clamped), or onto the first item when nothing
    /// was selected.
    pub fn previous(&mut self, len: usize)
        ensures
            final(self).selected == previous_selection(old(self).selected, len),
            cursor_in_range(*final(self), len as nat),
    {
        if len == 0 {
            self.selected = None;
            return;
        }
        let sel = match self.selected {
            None => 0,
            Some(i) => if i == 0 || i >= len {
                0
            } else {
                i - 1
            },
        };
        self.selected = Some(sel);
    }
}

/// The running application core: the dispatcher's state. `running` is the
/// machine's state — true for `Running`, false for the terminal `Stopped`.
#[derive(Debug)]
pub struct App {
    /// Is the application running?
    pub running: bool,
    /// The economy being played.
    pub game_state: GameState,
    /// The selection cursor targeting upgrades; not persisted.
    pub cursor: Cursor,
}

impl App {
    /// The dispatcher's invariant: the cursor stays inside the roster and
    /// the roster is well formed.
    pub open spec fn wf(self) -> bool {
        &&& cursor_in_range(self.cursor, self.game_state.resources@.len() as nat)
        &&& wf_state(self.game_state.resources@)
    }

    /// A fresh application: running, default roster, nothing selected.
    pub fn new() -> (r: Self)
        ensures
            r.running,
            r.game_state.resources@ == crate::economy::default_roster(),
            r.cursor.selected is None,
            r.wf(),
    {
        App {
            running: true,
            game_state: GameState::default(),
            cursor: Cursor::new(),
        }
    }

    /// Map a key press to the intent it stands for, if any. The dispatcher
    /// feeds the intent back into the stream; the state does not change.
    pub fn handle_key_event(&self, key: KeyPress) -> (r: Option<AppEvent>)
        ensures
            r == intent_of(key),
    {
        match key.code {
            KeyCode::Esc => Some(AppEvent::Quit),
            KeyCode::Char(c) => if c == 'q' {
                Some(AppEvent::Quit)
            } else if (c == 'c' || c == 'C') && key.ctrl {
                Some(AppEvent::Quit)
            } else {
                None
            },
            KeyCode::Down => Some(AppEvent::GoDown),
            KeyCode::Up => Some(AppEvent::GoUp),
            KeyCode::Enter => Some(AppEvent::Upgrade),
            KeyCode::Other => None,
        }
    }

    /// Advance the whole roster by one tick.
    pub fn tick(&mut self)
        ensures
            final(self).game_state.resources@ == ticked_all(old(self).game_state.resources@),
            final(self).running == old(self).running,
            final(self).cursor == old(self).cursor,
            old(self).wf() ==> final(self).wf(),
    {
        self.game_state.tick();
    }

    /// Enter the terminal `Stopped` state. The caller persists the game
    /// state before the loop exits.
    pub fn quit(&mut self)
        ensures
            !final(self).running,
            final(self).game_state == old(self).game_state,
            final(self).cursor == old(self).cursor,
    {
        self.running = false;
    }

    /// Resolve an upgrade request against `target`: with no selection the
    /// cursor advances instead (pressing upgrade with nothing selected
    /// selects the next item rather than erroring).
    pub fn upgrade_resource(&mut self, target: Option<usize>) -> (r: UpgradeOutcome)
        requires
            (match target {
                Option::Some(i) => i < old(self).game_state.resources@.len()
                    && old(self).game_state.resources@[i as int].level < u64::MAX,
                Option::None => true,
            }),
        ensures
            final(self).running == old(self).running,
            final(self).game_state.resources@.len() == old(self).game_state.resources@.len(),
            old(self).wf() ==> final(self).wf(),
            (match target {
                Option::None => {
                    &&& r == UpgradeOutcome::NoSelection
                    &&& final(self).game_state == old(self).game_state
                    &&& final(self).cursor.selected == next_selection(
                        old(self).cursor.selected,
                        old(self).game_state.resources@.len() as usize,
                    )
                },
                Option::Some(i) => {
                    &&& final(self).cursor == old(self).cursor
                    &&& r == upgrade_outcome_spec(old(self).game_state.resources@, i as int)
                    &&& final(self).game_state.resources@
                        == upgraded_state_spec(old(self).game_state.resources@, i as int)
                },
            }),
    {
        match target {
            None => {
                let len = self.game_state.resources.len();
                self.cursor.next(len);
                UpgradeOutcome::NoSelection
            },
            Some(i) => self.game_state.upgrade(i),
        }
    }

    /// Route one event of the merged stream. A tick advances the engine; a
    /// key press maps to an intent handed back to the caller to enqueue; an
    /// intent moves the cursor, resolves an upgrade at the cursor, or stops
    /// the machine. The invariant is kept.
    pub fn handle_events(&mut self, event: Event) -> (emitted: Option<AppEvent>)
        requires
            old(self).wf(),
            (match event {
                Event::App(app_event) => (match app_event {
                    AppEvent::Upgrade => (match old(self).cursor.selected {
                        Option::Some(i) => old(self).game_state.resources@[i as int].level
                            < u64::MAX,
                        Option::None => true,
                    }),
                    _ => true,
                }),
                _ => true,
            }),
        ensures
            final(self).wf(),
            (match event {
                Event::Tick => {
                    &&& emitted is None
                    &&& final(self).game_state.resources@
                        == ticked_all(old(self).game_state.resources@)
                    &&& final(self).running == old(self).running
                    &&& final(self).cursor == old(self).cursor
                },
                Event::Key(key) => {
                    &&& emitted == intent_of(key)
                    &&& final(self).game_state == old(self).game_state
                    &&& final(self).running == old(self).running
                    &&& final(self).cursor == old(self).cursor
                },
                Event::App(app_event) => {
                    &&& emitted is None
                    &&& (match app_event {
                        AppEvent::GoDown => {
                            &&& final(self).cursor.selected == next_selection(
                                old(self).cursor.selected,
                                old(self).game_state.resources@.len() as usize,
                            )
                            &&& final(self).game_state == old(self).game_state
                            &&& final(self).running == old(self).running
                        },
                        AppEvent::GoUp => {
                            &&& final(self).cursor.selected == previous_selection(
                                old(self).cursor.selected,
                                old(self).game_state.resources@.len() as usize,
                            )
                            &&& final(self).game_state == old(self).game_state
                            &&& final(self).running == old(self).running
                        },
                        AppEvent::Upgrade => {
                            &&& final(self).running == old(self).running
                            &&& (match old(self).cursor.selected {
                                Option::None => {
                                    &&& final(self).cursor.selected == next_selection(
                                        old(self).cursor.selected,
                                        old(self).game_state.resources@.len() as usize,
                                    )
                                    &&& final(self).game_state == old(self).game_state
                                },
                                Option::Some(i) => {
                                    &&& final(self).cursor == old(self).cursor
                                    &&& final(self).game_state.resources@ == upgraded_state_spec(
                                        old(self).game_state.resources@,
                                        i as int,
                                    )
                                },
                            })
                        },
                        AppEvent::Quit => {
                            &&& !final(self).running
                            &&& final(self).game_state == old(self).game_state
                            &&& final(self).cursor == old(self).cursor
                        },
                    })
                },
            }),
    {
        match event {
            Event::Tick => {
                self.tick();
                None
            },
            Event::Key(key) => self.handle_key_event(key),
            Event::App(app_event) => {
                match app_event {
                    AppEvent::GoDown => {
                        let len = self.game_state.resources.len();
                        self.cursor.next(len);
                    },
                    AppEvent::GoUp => {
                        let len = self.game_state.resources.len();
                        self.cursor.previous(len);
                    },
                    AppEvent::Upgrade => {
                        let target = self.cursor.selected;
                        let _outcome = self.upgrade_resource(target);
                    },
                    AppEvent::Quit => {
                        self.quit();
                    },
                }
                None
            },
        }
    }
}

impl Default for App {
    /// The same fresh application as `App::new`.
    fn default() -> (r: Self)
        ensures
            r.running,
            r.game_state.resources@ == crate::economy::default_roster(),
            r.cursor.selected is None,
            r.wf(),
    {
        App::new()
    }
}

} // verus!
