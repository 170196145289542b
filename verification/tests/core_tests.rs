use countdown::control::countdown_tick;
use countdown::parse::{commit_duration_text, format_seconds, parse_duration};
use countdown::state::{handle_key, observe_voices, App, InputMode, KeyInput};
use countdown::timer::{elapsed, is_complete, progress, TimerState};

fn editing_app(text: &str) -> App {
    App {
        mode: InputMode::Editing,
        pending_text: text.chars().collect(),
        timer: TimerState { started_at: 0, target_secs: 60 },
        running: false,
    }
}

#[test]
fn commit_valid_text_yields_exact_value() {
    assert_eq!(commit_duration_text(&vec!['9', '0']), 90);
    assert_eq!(commit_duration_text(&vec!['0']), 0);
    assert_eq!(commit_duration_text(&vec!['0', '0', '7']), 7);
    assert_eq!(commit_duration_text(&vec!['+', '7']), 7);
    let max: Vec<char> = "4294967295".chars().collect();
    assert_eq!(commit_duration_text(&max), 4294967295);
}

#[test]
fn commit_malformed_text_yields_fallback() {
    assert_eq!(commit_duration_text(&Vec::new()), 60);
    let non_numeric: Vec<char> = "abc".chars().collect();
    assert_eq!(commit_duration_text(&non_numeric), 60);
    let negative: Vec<char> = "-5".chars().collect();
    assert_eq!(commit_duration_text(&negative), 60);
    let plus_only: Vec<char> = vec!['+'];
    assert_eq!(commit_duration_text(&plus_only), 60);
    let spaced: Vec<char> = "1 2".chars().collect();
    assert_eq!(commit_duration_text(&spaced), 60);
    let too_large: Vec<char> = "4294967296".chars().collect();
    assert_eq!(commit_duration_text(&too_large), 60);
}

#[test]
fn parse_duration_exact_results() {
    assert_eq!(parse_duration(&vec!['4', '2']), Some(42));
    assert_eq!(parse_duration(&vec!['0']), Some(0));
    assert_eq!(parse_duration(&Vec::new()), None);
    let signed: Vec<char> = "+123".chars().collect();
    assert_eq!(parse_duration(&signed), Some(123));
    let double_sign: Vec<char> = "++1".chars().collect();
    assert_eq!(parse_duration(&double_sign), None);
}

#[test]
fn elapsed_and_completion_boundaries() {
    let t = TimerState { started_at: 100, target_secs: 50 };
    assert_eq!(elapsed(&t, 100), 0);
    assert_eq!(elapsed(&t, 149), 49);
    assert!(!is_complete(&t, 149));
    assert!(is_complete(&t, 150));
    assert!(is_complete(&t, 151));
}

#[test]
fn zero_target_is_immediately_complete() {
    let t = TimerState { started_at: 5, target_secs: 0 };
    assert!(is_complete(&t, 5));
    let p = progress(&t, 5);
    assert!(p.num >= p.den);
    assert_eq!(p.num, 1);
    assert_eq!(p.den, 1);
}

#[test]
fn progress_is_nondecreasing_in_time() {
    let t = TimerState { started_at: 100, target_secs: 50 };
    let mut prev = progress(&t, 100);
    let mut now: u64 = 101;
    while now <= 170 {
        let next = progress(&t, now);
        // prev <= next as rationals, by cross-multiplication
        assert!((prev.num as u128) * (next.den as u128) <= (next.num as u128) * (prev.den as u128));
        prev = next;
        now += 1;
    }
}

#[test]
fn progress_is_exact_ratio() {
    let t = TimerState { started_at: 10, target_secs: 60 };
    let p = progress(&t, 25);
    assert_eq!(p.num, 15);
    assert_eq!(p.den, 60);
}

#[test]
fn escape_in_normal_leaves_state_unchanged() {
    let mut app = App::new(7);
    let quit = handle_key(&mut app, KeyInput::Esc, 7);
    assert!(!quit);
    assert_eq!(app.mode, InputMode::Normal);
    assert_eq!(app.pending_text, vec!['6', '0']);
    assert_eq!(app.timer.started_at, 7);
    assert_eq!(app.timer.target_secs, 60);
    assert!(!app.running);
}

#[test]
fn scenario_edit_type_commit_start_complete() {
    let mut app = App {
        mode: InputMode::Normal,
        pending_text: Vec::new(),
        timer: TimerState { started_at: 0, target_secs: 60 },
        running: false,
    };
    assert!(!handle_key(&mut app, KeyInput::Char { c: 'e', ctrl: false }, 0));
    assert_eq!(app.mode, InputMode::Editing);
    assert!(!handle_key(&mut app, KeyInput::Char { c: '9', ctrl: false }, 0));
    assert!(!handle_key(&mut app, KeyInput::Char { c: '0', ctrl: false }, 0));
    assert_eq!(app.pending_text, vec!['9', '0']);
    assert!(!handle_key(&mut app, KeyInput::Enter, 0));
    assert_eq!(app.mode, InputMode::Normal);
    assert_eq!(app.timer.target_secs, 90);
    assert!(!handle_key(&mut app, KeyInput::Char { c: ' ', ctrl: false }, 1000));
    assert!(app.running);
    assert_eq!(app.timer.started_at, 1000);
    assert!(!is_complete(&app.timer, 1089));
    assert!(is_complete(&app.timer, 1090));
    let p = progress(&app.timer, 1090);
    assert_eq!(p.num, 90);
    assert_eq!(p.den, 90);
}

#[test]
fn scenario_backspace_to_empty_commits_fallback() {
    let mut app = editing_app("7");
    assert!(!handle_key(&mut app, KeyInput::Backspace, 0));
    assert!(app.pending_text.is_empty());
    assert!(!handle_key(&mut app, KeyInput::Enter, 0));
    assert_eq!(app.mode, InputMode::Normal);
    assert_eq!(app.timer.target_secs, 60);
}

#[test]
fn backspace_on_empty_text_is_noop() {
    let mut app = editing_app("");
    assert!(!handle_key(&mut app, KeyInput::Backspace, 0));
    assert!(app.pending_text.is_empty());
    assert_eq!(app.mode, InputMode::Editing);
}

#[test]
fn scenario_alarm_wait_until_zero_voices() {
    let mut app = App::new(0);
    handle_key(&mut app, KeyInput::Char { c: ' ', ctrl: false }, 0);
    assert!(app.running);
    assert!(!observe_voices(&mut app, 3));
    assert!(app.running);
    assert!(!observe_voices(&mut app, 1));
    assert!(app.running);
    assert!(observe_voices(&mut app, 0));
    assert!(!app.running);
}

#[test]
fn ctrl_q_quits_only_in_normal_mode() {
    let mut app = App::new(0);
    assert!(handle_key(&mut app, KeyInput::Char { c: 'q', ctrl: true }, 0));
    assert_eq!(app.mode, InputMode::Normal);

    // In editing mode the same key is an ordinary character and is appended.
    let mut editing = editing_app("");
    assert!(!handle_key(&mut editing, KeyInput::Char { c: 'q', ctrl: true }, 0));
    assert_eq!(editing.pending_text, vec!['q']);
    assert_eq!(editing.mode, InputMode::Editing);
}

#[test]
fn unrecognised_keys_are_ignored() {
    let mut app = App::new(0);
    assert!(!handle_key(&mut app, KeyInput::Other, 0));
    assert!(!handle_key(&mut app, KeyInput::Backspace, 0));
    assert!(!handle_key(&mut app, KeyInput::Char { c: 'x', ctrl: false }, 0));
    assert_eq!(app.mode, InputMode::Normal);
    assert_eq!(app.pending_text, vec!['6', '0']);
    assert!(!app.running);

    let mut editing = editing_app("12");
    assert!(!handle_key(&mut editing, KeyInput::Other, 0));
    assert_eq!(editing.pending_text, vec!['1', '2']);
    assert_eq!(editing.mode, InputMode::Editing);
}

#[test]
fn start_key_restarts_with_committed_duration() {
    let mut app = App::new(0);
    assert!(!handle_key(&mut app, KeyInput::Char { c: ' ', ctrl: false }, 42));
    assert!(app.running);
    assert_eq!(app.timer.started_at, 42);
    assert_eq!(app.timer.target_secs, 60);
}

#[test]
fn countdown_tick_decides_completion() {
    let mut app = App::new(0);
    handle_key(&mut app, KeyInput::Char { c: ' ', ctrl: false }, 100);
    let early = countdown_tick(&app, 130);
    assert!(!early.complete);
    assert_eq!(early.view.elapsed_text, vec!['3', '0']);
    assert_eq!(early.view.progress.num, 30);
    assert_eq!(early.view.progress.den, 60);
    assert!(early.view.timer_running);
    let late = countdown_tick(&app, 160);
    assert!(late.complete);
    assert_eq!(late.view.elapsed_text, vec!['6', '0']);
}

#[test]
fn format_seconds_exact_digits() {
    assert_eq!(format_seconds(0), vec!['0']);
    assert_eq!(format_seconds(9), vec!['9']);
    assert_eq!(format_seconds(907), vec!['9', '0', '7']);
    let max: Vec<char> = "18446744073709551615".chars().collect();
    assert_eq!(format_seconds(u64::MAX), max);
}

#[test]
fn commit_of_formatted_value_round_trips() {
    let mut d: u64 = 0;
    while d <= 1000 {
        assert_eq!(commit_duration_text(&format_seconds(d)), d);
        d += 37;
    }
}
