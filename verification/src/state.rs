//! Application state and the input state machine: the two input modes, the
//! key events the timer recognises, and the single dispatch function that
//! interprets a key against the current state. Also the alarm-wait step that
//! keeps the control loop from resuming input until audio playback reports
//! no active voices.

use vstd::prelude::*;

use crate::parse::committed_duration;
use crate::parse::commit_duration_text;
use crate::timer::TimerState;

verus! {

/// The two input modes: `Normal` drives the timer, `Editing` mutates the
/// pending duration text.
#[derive(Clone, Copy, Debug, PartialEq, Eq, Structural)]
pub enum InputMode {
    Normal,
    Editing,
}

/// A key event, reduced to what the state machine reads: a character with
/// its control-modifier flag, or one of the named keys. `Other` stands for
/// every key the machine ignores.
#[derive(Clone, Copy, Debug, PartialEq, Eq, Structural)]
pub enum KeyInput {
    /// A character key. `ctrl` is true when the control modifier, and no
    /// other, is held.
    Char { c: char, ctrl: bool },
    Esc,
    Backspace,
    Enter,
    Other,
}

/// The whole application state: input mode, the duration text being edited,
/// the timer, and whether a countdown is running. A single owner mutates it,
/// one key or one poll observation at a time.
pub struct App {
    pub mode: InputMode,
    /// Pending duration text; retained across commits and mode changes.
    pub pending_text: Vec<char>,
    pub timer: TimerState,
    pub running: bool,
}

/// The mathematical model of an `App`: the same fields, with the pending
/// text as a sequence of characters.
pub struct AppModel {
    pub mode: InputMode,
    pub pending_text: Seq<char>,
    pub started_at: u64,
    pub target_secs: u64,
    pub running: bool,
}

impl View for App {
    type V = AppModel;

    open spec fn view(&self) -> AppModel {
        AppModel {
            mode: self.mode,
            pending_text: self.pending_text@,
            started_at: self.timer.started_at,
            target_secs: self.timer.target_secs,
            running: self.running,
        }
    }
}

/// The state `dispatch_spec` moves to, together with whether the key asked
/// the loop to terminate.
pub struct Dispatched {
    pub app: AppModel,
    pub quit: bool,
}

/// The transition table of the input state machine.
///
/// In `Normal`: control-q signals loop termination, `e` (with or without
/// control, control-q having been tested first) enters `Editing`, and space
/// starts a countdown at `now` with the last committed duration. In
/// `Editing`: escape returns to `Normal` with the text retained, a character
/// appends to the pending text, backspace removes its last character (no-op
/// when empty), and enter commits the text — parsed as a non-negative
/// integer, malformed text falling back to 60 seconds — and returns to
/// `Normal`. Every unrecognised key leaves the state unchanged.
pub open spec fn dispatch_spec(app: AppModel, key: KeyInput, now: u64) -> Dispatched {
    match app.mode {
        InputMode::Normal => match key {
            KeyInput::Char { c, ctrl } => {
                if ctrl && c == 'q' {
                    Dispatched { app, quit: true }
                } else if c == 'e' {
                    Dispatched { app: (AppModel { mode: InputMode::Editing, ..app }), quit: false }
                } else if c == ' ' {
                    Dispatched {
                        app: (AppModel { started_at: now, running: true, ..app }),
                        quit: false,
                    }
                } else {
                    Dispatched { app, quit: false }
                }
            },
            _ => Dispatched { app, quit: false },
        },
        InputMode::Editing => match key {
            KeyInput::Esc => Dispatched {
                app: (AppModel { mode: InputMode::Normal, ..app }),
                quit: false,
            },
            KeyInput::Char { c, ctrl: _ } => Dispatched {
                app: (AppModel { pending_text: app.pending_text.push(c), ..app }),
                quit: false,
            },
            KeyInput::Backspace => Dispatched {
                app: (AppModel {
                    pending_text: if app.pending_text.len() > 0 {
                        app.pending_text.drop_last()
                    } else {
                        app.pending_text
                    },
                    ..app
                }),
                quit: false,
            },
            KeyInput::Enter => Dispatched {
                app: (AppModel {
                    mode: InputMode::Normal,
                    target_secs: committed_duration(app.pending_text),
                    ..app
                }),
                quit: false,
            },
            _ => Dispatched { app, quit: false },
        },
    }
}

impl App {
    /// The initial application state at clock reading `now`: idle in
    /// `Normal` mode, with the duration text and the committed target both
    /// at the default of 60 seconds.
    pub fn new(now: u64) -> (app: App)
        ensures
            app@.mode == InputMode::Normal,
            app@.pending_text =~= seq!['6', '0'],
            app@.started_at == now,
            app@.target_secs == 60,
            !app@.running,
    {
        let mut text: Vec<char> = Vec::new();
        text.push('6');
        text.push('0');
        App {
            mode: InputMode::Normal,
            pending_text: text,
            timer: TimerState { started_at: now, target_secs: 60 },
            running: false,
        }
    }
}

/// Dispatch one key event against the current state at clock reading `now`,
/// moving the state exactly as the transition table says; the result is true
/// when the key asked the loop to terminate.
pub fn handle_key(app: &mut App, key: KeyInput, now: u64) -> (quit: bool)
    ensures
        final(app)@ == dispatch_spec(old(app)@, key, now).app,
        quit == dispatch_spec(old(app)@, key, now).quit,
{
    match app.mode {
        InputMode::Normal => match key {
            KeyInput::Char { c, ctrl } => {
                if ctrl && c == 'q' {
                    true
                } else if c == 'e' {
                    app.mode = InputMode::Editing;
                    false
                } else if c == ' ' {
                    app.timer.started_at = now;
                    app.running = true;
                    false
                } else {
                    false
                }
            },
            _ => false,
        },
        InputMode::Editing => match key {
            KeyInput::Esc => {
                app.mode = InputMode::Normal;
                false
            },
            KeyInput::Char { c, ctrl: _ } => {
                app.pending_text.push(c);
                false
            },
            KeyInput::Backspace => {
                if app.pending_text.len() > 0 {
                    app.pending_text.pop();
                    assert(app.pending_text@ =~= old(app).pending_text@.drop_last());
                }
                false
            },
            KeyInput::Enter => {
                let secs = commit_duration_text(&app.pending_text);
                app.timer.target_secs = secs;
                app.mode = InputMode::Normal;
                false
            },
            _ => false,
        },
    }
}

/// One observation of the audio backend's active-voice count, after the
/// alarm was triggered. The countdown is marked stopped only on the
/// observation of zero voices; any other count leaves the state untouched.
/// The result is true exactly when the wait is over.
pub fn observe_voices(app: &mut App, voices: u32) -> (done: bool)
    ensures
        done == (voices == 0),
        voices == 0 ==> final(app)@ == (AppModel { running: false, ..old(app)@ }),
        voices != 0 ==> final(app)@ == old(app)@,
{
    if voices == 0 {
        app.running = false;
        true
    } else {
        false
    }
}

/// Mode-transition idempotence: dispatching escape while already in
/// `Normal` leaves the state unchanged and does not quit.
pub proof fn lemma_escape_in_normal_is_identity(app: AppModel, now: u64)
    requires
        app.mode == InputMode::Normal,
    ensures
        dispatch_spec(app, KeyInput::Esc, now).app == app,
        !dispatch_spec(app, KeyInput::Esc, now).quit,
{
}

} // verus!
