use pomobar::app::{App, CompletionEvent};
use pomobar::clock::current_date;
use pomobar::models::{Settings, TimerState};
use pomobar::persistence::Database;

fn create_test_app() -> App {
    let db = Database::new_in_memory().unwrap();
    App::new_with_db(db).unwrap()
}

#[test]
fn test_app_initial_state() {
    let app = create_test_app();
    assert!(app.state.is_idle());
    assert_eq!(app.settings, Settings::default());
}

#[test]
fn test_start_pomodoro() {
    let mut app = create_test_app();
    app.start_pomodoro();

    assert!(matches!(app.state, TimerState::PomodoroActive { .. }));
    assert_eq!(app.state.remaining_secs(), Some(25 * 60));
}

#[test]
fn test_pause_and_resume() {
    let mut app = create_test_app();
    let today = current_date();
    app.start_pomodoro();

    // Tick a few times
    for _ in 0..10 {
        app.tick(today);
    }

    app.pause();
    assert!(app.state.is_paused());
    let remaining_before = app.state.remaining_secs().unwrap();

    // Tick shouldn't change time when paused
    app.tick(today);
    assert_eq!(app.state.remaining_secs().unwrap(), remaining_before);

    app.resume();
    assert!(matches!(app.state, TimerState::PomodoroActive { .. }));
}

#[test]
fn test_stop() {
    let mut app = create_test_app();
    app.start_pomodoro();
    app.stop();

    assert!(app.state.is_idle());
    assert!(matches!(app.state, TimerState::Idle));
}

#[test]
fn test_complete_early() {
    let mut app = create_test_app();
    let today = current_date();
    app.start_pomodoro();
    let event = app.complete_early(today);

    // Should transition to break and return event
    assert!(app.state.is_break());
    assert_eq!(app.session.pomodoros_completed_today, 1);
    assert!(matches!(
        event,
        Some(CompletionEvent::PomodoroComplete { count: 1, .. })
    ));
}

#[test]
fn test_skip_break() {
    let mut app = create_test_app();
    let today = current_date();
    app.start_pomodoro();
    app.complete_early(today);

    assert!(app.state.is_break());

    app.skip_break();
    assert!(matches!(app.state, TimerState::BreakFinished));
}

#[test]
fn test_pomodoro_completes_to_break() {
    let mut app = create_test_app();
    let today = current_date();
    app.settings.pomodoro_mins = 1; // 1 minute for faster test

    app.start_pomodoro();

    // Tick through the entire pomodoro
    let mut completion_event = None;
    for _ in 0..61 {
        let (_, event) = app.tick(today);
        if event.is_some() {
            completion_event = event;
            break;
        }
    }

    assert!(app.state.is_break());
    assert_eq!(app.session.pomodoros_completed_today, 1);
    assert!(completion_event.is_some());
}

#[test]
fn test_long_break_after_threshold() {
    let mut app = create_test_app();
    let today = current_date();
    app.settings.pomodoros_for_long_break = 2;

    // Complete first pomodoro
    app.start_pomodoro();
    let event = app.complete_early(today);

    // Should be short break
    if let TimerState::BreakActive { is_long_break, .. } = &app.state {
        assert!(!is_long_break);
    } else {
        panic!("Expected BreakActive state");
    }
    assert!(matches!(
        event,
        Some(CompletionEvent::PomodoroComplete { is_long_break: false, .. })
    ));

    app.skip_break();
    app.start_pomodoro();
    let event = app.complete_early(today);

    // Should be long break now
    if let TimerState::BreakActive { is_long_break, .. } = &app.state {
        assert!(*is_long_break);
    } else {
        panic!("Expected BreakActive state");
    }
    assert!(matches!(
        event,
        Some(CompletionEvent::PomodoroComplete { is_long_break: true, .. })
    ));
}

#[test]
fn test_update_setting() {
    let mut app = create_test_app();
    app.update_setting(|mut s| {
        s.pomodoro_mins = 30;
        s
    });

    assert_eq!(app.settings.pomodoro_mins, 30);

    // Verify it was saved
    let loaded = app.db.load_settings().unwrap();
    assert_eq!(loaded.pomodoro_mins, 30);
}

#[test]
fn app_test_reset_today() {
    let mut app = create_test_app();
    let today = current_date();
    app.start_pomodoro();
    app.complete_early(today);

    assert_eq!(app.session.pomodoros_completed_today, 1);

    app.reset_today(today);

    assert_eq!(app.session.pomodoros_completed_today, 0);
    assert_eq!(app.session.total_focus_mins_today, 0);
}

#[test]
fn test_tick_returns_correct_flags() {
    let mut app = create_test_app();
    let today = current_date();

    // Idle state - no changes
    let (changed, event) = app.tick(today);
    assert!(!changed);
    assert!(event.is_none());

    // Active state - changes but not completed
    app.start_pomodoro();
    let (changed, event) = app.tick(today);
    assert!(changed);
    assert!(event.is_none());

    // Paused state - no changes
    app.pause();
    let (changed, event) = app.tick(today);
    assert!(!changed);
    assert!(event.is_none());
}

#[test]
fn test_break_completion_event() {
    let mut app = create_test_app();
    let today = current_date();
    app.settings.short_break_mins = 1; // 1 minute for faster test

    // Start and complete a pomodoro to get to break
    app.start_pomodoro();
    app.complete_early(today);

    assert!(app.state.is_break());

    // Tick through the break
    let mut break_event = None;
    for _ in 0..61 {
        let (_, event) = app.tick(today);
        if event.is_some() {
            break_event = event;
            break;
        }
    }

    assert!(matches!(app.state, TimerState::BreakFinished));
    assert!(matches!(break_event, Some(CompletionEvent::BreakComplete)));
}

#[test]
fn test_one_minute_pomodoro_yields_one_event() {
    // A one-minute pomodoro, ticked through: exactly one completion event,
    // with count 1 and a short break, while the threshold is above one.
    let mut app = create_test_app();
    let today = current_date();
    app.settings.pomodoro_mins = 1;
    app.settings.pomodoros_for_long_break = 4;

    app.start_pomodoro();
    assert_eq!(app.state.remaining_secs(), Some(60));

    let mut events = Vec::new();
    for _ in 0..61 {
        let (_, event) = app.tick(today);
        if let Some(ev) = event {
            events.push(ev);
        }
    }

    assert_eq!(events.len(), 1);
    assert_eq!(
        events[0],
        CompletionEvent::PomodoroComplete { count: 1, is_long_break: false }
    );
    if let TimerState::BreakActive { is_long_break, .. } = &app.state {
        assert!(!is_long_break);
    } else {
        panic!("Expected BreakActive state");
    }
}

#[test]
fn test_cycle_resets_after_long_break_granted() {
    // With a threshold of two: the first completion grants a short break,
    // the second a long one, and granting it resets the cycle counter.
    let mut app = create_test_app();
    let today = current_date();
    app.settings.pomodoros_for_long_break = 2;

    app.start_pomodoro();
    app.complete_early(today);
    assert_eq!(app.session.pomodoros_in_cycle, 1);

    app.skip_break();
    app.start_pomodoro();
    let event = app.complete_early(today);

    assert!(matches!(
        event,
        Some(CompletionEvent::PomodoroComplete { count: 2, is_long_break: true })
    ));
    assert_eq!(app.session.pomodoros_in_cycle, 0);
}

#[test]
fn test_paused_remaining_survives_many_ticks() {
    let mut app = create_test_app();
    let today = current_date();
    app.start_pomodoro();
    for _ in 0..7 {
        app.tick(today);
    }
    app.pause();
    let frozen = app.state.remaining_secs().unwrap();

    for _ in 0..100 {
        app.tick(today);
    }
    assert_eq!(app.state.remaining_secs(), Some(frozen));

    app.resume();
    assert_eq!(app.state.remaining_secs(), Some(frozen));
    app.tick(today);
    assert_eq!(app.state.remaining_secs(), Some(frozen - 1));
}

#[test]
fn test_stop_records_nothing() {
    let mut app = create_test_app();
    let today = current_date();
    app.start_pomodoro();
    for _ in 0..5 {
        app.tick(today);
    }
    let session_before = app.session;

    app.stop();

    assert!(matches!(app.state, TimerState::Idle));
    assert_eq!(app.session, session_before);
    let stored = app.db.load_today_session(today).unwrap();
    assert_eq!(stored.pomodoros_completed_today, 0);
}

#[test]
fn test_long_break_mins_getter() {
    let app = create_test_app();
    assert_eq!(app.long_break_mins(), 15);
}

#[test]
fn test_start_while_active_restarts() {
    let mut app = create_test_app();
    let today = current_date();
    app.start_pomodoro();
    for _ in 0..30 {
        app.tick(today);
    }
    assert_eq!(app.state.remaining_secs(), Some(25 * 60 - 30));

    app.start_pomodoro();
    assert_eq!(app.state.remaining_secs(), Some(25 * 60));
    assert_eq!(app.session.pomodoros_completed_today, 0);
}

#[test]
fn test_threshold_one_makes_every_break_long() {
    let mut app = create_test_app();
    let today = current_date();
    app.settings.pomodoros_for_long_break = 1;

    app.start_pomodoro();
    let event = app.complete_early(today);

    assert!(matches!(
        event,
        Some(CompletionEvent::PomodoroComplete { count: 1, is_long_break: true })
    ));
    assert_eq!(app.session.pomodoros_in_cycle, 0);
    assert_eq!(app.state.remaining_secs(), Some(15 * 60));
}

#[test]
fn test_zero_length_pomodoro_completes_on_first_tick() {
    let mut app = create_test_app();
    let today = current_date();
    app.settings.pomodoro_mins = 0;

    app.start_pomodoro();
    assert_eq!(app.state.remaining_secs(), Some(0));
    assert_eq!(app.state.progress_rounded(100), Some(100));

    let (changed, event) = app.tick(today);
    assert!(changed);
    assert!(matches!(
        event,
        Some(CompletionEvent::PomodoroComplete { count: 1, is_long_break: false })
    ));
    assert!(app.state.is_break());
    assert_eq!(app.session.total_focus_mins_today, 0);
}
