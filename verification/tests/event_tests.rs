use pomobar::app::{App, CompletionEvent};
use pomobar::clock::current_date;
use pomobar::event::{handle_menu_event, parse_u32, EventResult};
use pomobar::models::TimerState;
use pomobar::persistence::Database;
use pomobar::timer::{timer_step, TimerMessage};

fn fresh_app() -> App {
    let db = Database::new_in_memory().unwrap();
    App::new_with_db(db).unwrap()
}

#[test]
fn test_handle_start_command() {
    let mut app = fresh_app();
    let today = current_date();
    let r = handle_menu_event(&mut app, "start", today);
    assert_eq!(r, EventResult::StateChanged);
    assert!(matches!(app.state, TimerState::PomodoroActive { .. }));
    assert_eq!(app.state.remaining_secs(), Some(25 * 60));
}

#[test]
fn test_handle_pause_resume_stop_commands() {
    let mut app = fresh_app();
    let today = current_date();
    handle_menu_event(&mut app, "start", today);
    assert_eq!(handle_menu_event(&mut app, "pause", today), EventResult::StateChanged);
    assert!(app.state.is_paused());
    assert_eq!(handle_menu_event(&mut app, "resume", today), EventResult::StateChanged);
    assert!(app.state.is_active());
    assert_eq!(handle_menu_event(&mut app, "stop", today), EventResult::StateChanged);
    assert!(matches!(app.state, TimerState::Idle));
}

#[test]
fn test_handle_complete_command() {
    let mut app = fresh_app();
    let today = current_date();

    // Completing while idle does nothing.
    assert_eq!(handle_menu_event(&mut app, "complete", today), EventResult::Continue);

    handle_menu_event(&mut app, "start", today);
    let r = handle_menu_event(&mut app, "complete", today);
    assert_eq!(
        r,
        EventResult::StateChangedWithCompletion(CompletionEvent::PomodoroComplete {
            count: 1,
            is_long_break: false,
        })
    );
    assert!(app.state.is_break());
}

#[test]
fn test_handle_skip_break_command() {
    let mut app = fresh_app();
    let today = current_date();
    handle_menu_event(&mut app, "start", today);
    handle_menu_event(&mut app, "complete", today);
    assert_eq!(handle_menu_event(&mut app, "skip_break", today), EventResult::StateChanged);
    assert!(matches!(app.state, TimerState::BreakFinished));
}

#[test]
fn test_handle_toggle_commands() {
    let mut app = fresh_app();
    let today = current_date();
    assert!(app.settings.sound_enabled);
    assert_eq!(handle_menu_event(&mut app, "sound_toggle", today), EventResult::Continue);
    assert!(!app.settings.sound_enabled);
    assert_eq!(handle_menu_event(&mut app, "notif_toggle", today), EventResult::Continue);
    assert!(!app.settings.notifications_enabled);
}

#[test]
fn test_handle_duration_commands() {
    let mut app = fresh_app();
    let today = current_date();
    assert_eq!(handle_menu_event(&mut app, "pomo_30", today), EventResult::SettingsChanged);
    assert_eq!(app.settings.pomodoro_mins, 30);
    assert_eq!(handle_menu_event(&mut app, "short_10", today), EventResult::SettingsChanged);
    assert_eq!(app.settings.short_break_mins, 10);
    assert_eq!(handle_menu_event(&mut app, "long_20", today), EventResult::SettingsChanged);
    assert_eq!(app.settings.long_break_mins, 20);
    assert_eq!(handle_menu_event(&mut app, "thresh_3", today), EventResult::SettingsChanged);
    assert_eq!(app.settings.pomodoros_for_long_break, 3);

    // The changes were persisted.
    let loaded = app.db.load_settings().unwrap();
    assert_eq!(loaded.pomodoro_mins, 30);
    assert_eq!(loaded.pomodoros_for_long_break, 3);
}

#[test]
fn test_handle_reset_count_command() {
    let mut app = fresh_app();
    let today = current_date();
    handle_menu_event(&mut app, "start", today);
    handle_menu_event(&mut app, "complete", today);
    assert_eq!(app.session.pomodoros_completed_today, 1);
    assert_eq!(handle_menu_event(&mut app, "reset_count", today), EventResult::StateChanged);
    assert_eq!(app.session.pomodoros_completed_today, 0);
}

#[test]
fn test_handle_quit_and_unknown_commands() {
    let mut app = fresh_app();
    let today = current_date();
    assert_eq!(handle_menu_event(&mut app, "quit", today), EventResult::Quit);
    assert_eq!(handle_menu_event(&mut app, "status", today), EventResult::Continue);
    assert_eq!(handle_menu_event(&mut app, "pomo_", today), EventResult::Continue);
    assert_eq!(handle_menu_event(&mut app, "pomo_abc", today), EventResult::Continue);
    assert_eq!(handle_menu_event(&mut app, "", today), EventResult::Continue);
    assert!(matches!(app.state, TimerState::Idle));
    assert_eq!(app.settings.pomodoro_mins, 25);
}

#[test]
fn test_parse_u32_values() {
    assert_eq!(parse_u32("0"), Some(0));
    assert_eq!(parse_u32("25"), Some(25));
    assert_eq!(parse_u32("007"), Some(7));
    assert_eq!(parse_u32("4294967295"), Some(u32::MAX));
    assert_eq!(parse_u32("4294967296"), None);
    assert_eq!(parse_u32("99999999999999999999"), None);
    assert_eq!(parse_u32(""), None);
    assert_eq!(parse_u32("12a"), None);
    assert_eq!(parse_u32("-3"), None);
}

#[test]
fn test_timer_step_plain_tick() {
    let db = Database::new_in_memory().unwrap();
    let mut app = App::new_with_db(db).unwrap();
    let today = current_date();

    // Idle: nothing to report.
    let msgs = timer_step(&mut app, today);
    assert_eq!(msgs.len(), 0);

    app.start_pomodoro();
    let msgs = timer_step(&mut app, today);
    assert_eq!(msgs.len(), 1);
    match &msgs[0] {
        TimerMessage::StateChanged { title } => assert_eq!(title, "🍅 24:59"),
        _ => panic!("expected a state change message"),
    }
}

#[test]
fn test_timer_step_completion_order() {
    let db = Database::new_in_memory().unwrap();
    let mut app = App::new_with_db(db).unwrap();
    let today = current_date();
    app.settings.short_break_mins = 5;

    app.start_pomodoro();
    // Force the countdown to its last second.
    app.state = TimerState::PomodoroActive { remaining_secs: 0, total_secs: 25 * 60 };

    let msgs = timer_step(&mut app, today);
    assert_eq!(msgs.len(), 2);
    match &msgs[0] {
        TimerMessage::Completed(ev) => assert_eq!(
            *ev,
            CompletionEvent::PomodoroComplete { count: 1, is_long_break: false }
        ),
        _ => panic!("expected the completion first"),
    }
    match &msgs[1] {
        TimerMessage::StateChanged { title } => assert_eq!(title, "☕ 05:00"),
        _ => panic!("expected the state change second"),
    }
}
