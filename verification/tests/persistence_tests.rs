use pomobar::clock::{current_date, Date};
use pomobar::models::{Session, Settings};
use pomobar::persistence::Database;

#[test]
fn test_database_creation() {
    let db = Database::new_in_memory();
    assert!(db.is_ok());
}

#[test]
fn test_settings_save_and_load() {
    let db = Database::new_in_memory().unwrap();

    // Default settings should be returned when nothing is saved
    let settings = db.load_settings().unwrap();
    assert_eq!(settings, Settings::default());

    // Save custom settings
    let custom_settings = Settings {
        pomodoro_mins: 30,
        short_break_mins: 10,
        long_break_mins: 20,
        pomodoros_for_long_break: 3,
        sound_enabled: false,
        notifications_enabled: true,
    };
    db.save_settings(&custom_settings).unwrap();

    // Load and verify
    let loaded = db.load_settings().unwrap();
    assert_eq!(loaded, custom_settings);
}

#[test]
fn test_session_save_and_load() {
    let db = Database::new_in_memory().unwrap();

    // Create and save a session
    let today = current_date();
    let session = Session {
        pomodoros_completed_today: 5,
        total_focus_mins_today: 125,
        pomodoros_in_cycle: 2,
        last_date: today,
    };
    db.save_session(&session).unwrap();

    // Load and verify (note: pomodoros_in_cycle resets on load)
    let loaded = db.load_today_session(today).unwrap();
    assert_eq!(loaded.pomodoros_completed_today, 5);
    assert_eq!(loaded.total_focus_mins_today, 125);
    assert_eq!(loaded.pomodoros_in_cycle, 0); // Always 0 on load
    assert_eq!(loaded.last_date, today);
}

#[test]
fn test_daily_stats_for_nonexistent_date() {
    let db = Database::new_in_memory().unwrap();

    let date = Date { year: 2024, month: 1, day: 15 };
    let stats = db.get_daily_stats(date).unwrap();

    assert_eq!(stats.date, date);
    assert_eq!(stats.completed_pomodoros, 0);
    assert_eq!(stats.total_focus_minutes, 0);
}

#[test]
fn persistence_test_reset_today() {
    let db = Database::new_in_memory().unwrap();

    // Save some data
    let today = current_date();
    let session = Session {
        pomodoros_completed_today: 5,
        total_focus_mins_today: 125,
        pomodoros_in_cycle: 2,
        last_date: today,
    };
    db.save_session(&session).unwrap();

    // Reset
    db.reset_today(today).unwrap();

    // Verify it's cleared
    let loaded = db.load_today_session(today).unwrap();
    assert_eq!(loaded.pomodoros_completed_today, 0);
    assert_eq!(loaded.total_focus_mins_today, 0);
}

#[test]
fn test_settings_overwrite() {
    let db = Database::new_in_memory().unwrap();

    let settings1 = Settings { pomodoro_mins: 30, ..Settings::default() };
    db.save_settings(&settings1).unwrap();

    let settings2 = Settings { pomodoro_mins: 45, ..Settings::default() };
    db.save_settings(&settings2).unwrap();

    let loaded = db.load_settings().unwrap();
    assert_eq!(loaded.pomodoro_mins, 45);
}

#[test]
fn test_open_at_bad_path_is_sqlite_error() {
    // A path whose directory does not exist cannot be opened.
    let r = Database::open("/nonexistent_dir_for_sure/pomobar.db");
    assert!(r.is_err());
}

#[test]
fn test_reset_today_durable_through_engine() {
    // Resetting through the engine clears both the in-memory counters and
    // the stored record, so a fresh load sees zeros.
    let db = Database::new_in_memory().unwrap();
    let mut app = pomobar::app::App::new_with_db(db).unwrap();
    let today = current_date();

    app.start_pomodoro();
    app.complete_early(today);
    assert_eq!(app.session.pomodoros_completed_today, 1);
    let stored = app.db.load_today_session(today).unwrap();
    assert_eq!(stored.pomodoros_completed_today, 1);

    app.reset_today(today);
    assert_eq!(app.session.pomodoros_completed_today, 0);
    assert_eq!(app.session.total_focus_mins_today, 0);
    assert_eq!(app.session.pomodoros_in_cycle, 0);

    let reloaded = app.db.load_today_session(today).unwrap();
    assert_eq!(reloaded.pomodoros_completed_today, 0);
    assert_eq!(reloaded.total_focus_mins_today, 0);
}

#[test]
fn test_date_key_format() {
    let d = Date { year: 2024, month: 1, day: 15 };
    assert_eq!(pomobar::text::date_key(&d), "2024-01-15");
    let d2 = Date { year: 987, month: 12, day: 3 };
    assert_eq!(pomobar::text::date_key(&d2), "0987-12-03");
}

#[test]
fn test_current_date_is_valid() {
    let d = current_date();
    assert!(d.year <= 9999);
    assert!((1..=12).contains(&d.month));
    assert!((1..=31).contains(&d.day));
}
