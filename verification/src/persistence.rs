//! SQLite persistence for settings and daily statistics. The store is a
//! collaborator: the library states what it hands the store and how it
//! interprets whatever comes back; the storage engine itself is trusted.

use vstd::prelude::*;
use crate::clock::Date;
use crate::models::{DailyStats, Session, Settings, spec_default_settings};
use crate::text::date_key;

verus! {

#[verifier::external_type_specification]
#[verifier::external_body]
pub struct ExConnection(rusqlite::Connection);

#[verifier::external_type_specification]
#[verifier::external_body]
pub struct ExSqliteError(rusqlite::Error);

/// Errors the store can surface to the engine.
#[derive(Debug)]
pub enum DatabaseError {
    /// The underlying SQLite call failed.
    Sqlite(rusqlite::Error),
}

/// A handle on the SQLite database holding the settings row and one daily
/// statistics row per date.
pub struct Database {
    conn: rusqlite::Connection,
}

/// A stored settings row: the four durations/thresholds and the two flags,
/// in declaration order.
pub type SettingsRow = (u32, u32, u32, u32, bool, bool);

/// Relies on rusqlite's `Connection::open_in_memory`.
#[verifier::external_body]
fn open_in_memory_conn() -> (r: Result<rusqlite::Connection, rusqlite::Error>) {
    rusqlite::Connection::open_in_memory()
}

/// Relies on rusqlite's `Connection::open`: opens or creates the database
/// file at `path`.
#[verifier::external_body]
fn open_path_conn(path: &str) -> (r: Result<rusqlite::Connection, rusqlite::Error>) {
    rusqlite::Connection::open(path)
}

/// Relies on rusqlite's `Connection::execute_batch` to run the schema
/// statements handed to it.
#[verifier::external_body]
fn exec_batch(conn: &rusqlite::Connection, sql: &str) -> (r: Result<(), rusqlite::Error>) {
    conn.execute_batch(sql)
}

/// Relies on rusqlite's `Connection::execute` with an `INSERT OR REPLACE`
/// statement: upserts the single settings row under the fixed key.
#[verifier::external_body]
fn upsert_settings_row(conn: &rusqlite::Connection, s: &Settings) -> (r: Result<
    (),
    rusqlite::Error,
>) {
    conn.execute(
        "INSERT OR REPLACE INTO settings (key, pomodoro_mins, short_break_mins, long_break_mins,\
         pomodoros_for_long_break, sound_enabled, notifications_enabled)\
         VALUES ('config', ?, ?, ?, ?, ?, ?)",
        (
            s.pomodoro_mins,
            s.short_break_mins,
            s.long_break_mins,
            s.pomodoros_for_long_break,
            s.sound_enabled,
            s.notifications_enabled,
        ),
    ).map(|_| ())
}

/// Relies on rusqlite's `Connection::query_row` over the single settings
/// row; a missing row comes back as `None` through rusqlite's
/// `QueryReturnedNoRows` error.
#[verifier::external_body]
fn query_settings_row(conn: &rusqlite::Connection) -> (r: Result<
    Option<SettingsRow>,
    rusqlite::Error,
>) {
    let res = conn.query_row(
        "SELECT pomodoro_mins, short_break_mins, long_break_mins, pomodoros_for_long_break,\
         sound_enabled, notifications_enabled FROM settings WHERE key = 'config'",
        (),
        |row| Ok((row.get(0)?, row.get(1)?, row.get(2)?, row.get(3)?, row.get(4)?, row.get(5)?)),
    );
    match res {
        Ok(t) => Ok(Some(t)),
        Err(rusqlite::Error::QueryReturnedNoRows) => Ok(None),
        Err(e) => Err(e),
    }
}

/// Relies on rusqlite's `Connection::execute` with an `INSERT OR REPLACE`
/// statement: upserts the daily row under the given date key.
#[verifier::external_body]
fn upsert_stats_row(conn: &rusqlite::Connection, key: &str, completed: u32, mins: u32) -> (r:
    Result<(), rusqlite::Error>) {
    conn.execute(
        "INSERT OR REPLACE INTO daily_stats (date, completed_pomodoros, total_focus_minutes)\
         VALUES (?, ?, ?)",
        (key, completed, mins),
    ).map(|_| ())
}

/// Relies on rusqlite's `Connection::query_row` over the daily row for the
/// given date key; a missing row comes back as `None` through rusqlite's
/// `QueryReturnedNoRows` error.
#[verifier::external_body]
fn query_stats_row(conn: &rusqlite::Connection, key: &str) -> (r: Result<
    Option<(u32, u32)>,
    rusqlite::Error,
>) {
    let res = conn.query_row(
        "SELECT completed_pomodoros, total_focus_minutes FROM daily_stats WHERE date = ?",
        (key,),
        |row| Ok((row.get(0)?, row.get(1)?)),
    );
    match res {
        Ok(t) => Ok(Some(t)),
        Err(rusqlite::Error::QueryReturnedNoRows) => Ok(None),
        Err(e) => Err(e),
    }
}

/// Relies on rusqlite's `Connection::execute` with a `DELETE` statement:
/// removes the daily row under the given date key, if any.
#[verifier::external_body]
fn delete_stats_row(conn: &rusqlite::Connection, key: &str) -> (r: Result<(), rusqlite::Error>) {
    conn.execute("DELETE FROM daily_stats WHERE date = ?", (key,)).map(|_| ())
}

/// The settings a stored row (or its absence) stands for: a missing row
/// means the documented defaults, a present row is read field for field.
pub open spec fn spec_settings_from_row(row: Option<SettingsRow>) -> Settings {
    match row {
        None => spec_default_settings(),
        Some(t) => Settings {
            pomodoro_mins: t.0,
            short_break_mins: t.1,
            long_break_mins: t.2,
            pomodoros_for_long_break: t.3,
            sound_enabled: t.4,
            notifications_enabled: t.5,
        },
    }
}

/// Turns a stored settings row into settings; absence yields the defaults.
pub fn settings_from_row(row: Option<SettingsRow>) -> (s: Settings)
    ensures
        s == spec_settings_from_row(row),
{
    match row {
        None => Settings::default(),
        Some((p, sb, lb, th, snd, ntf)) => Settings {
            pomodoro_mins: p,
            short_break_mins: sb,
            long_break_mins: lb,
            pomodoros_for_long_break: th,
            sound_enabled: snd,
            notifications_enabled: ntf,
        },
    }
}

/// The session a stored daily row (or its absence) stands for on `today`:
/// the daily counters come from the row (zero when absent) and the cycle
/// counter is always zero — cycle state does not survive a restart.
pub open spec fn spec_session_from_row(row: Option<(u32, u32)>, today: Date) -> Session {
    Session {
        pomodoros_completed_today: match row {
            Some(t) => t.0,
            None => 0u32,
        },
        total_focus_mins_today: match row {
            Some(t) => t.1,
            None => 0u32,
        },
        pomodoros_in_cycle: 0u32,
        last_date: today,
    }
}

/// Turns a stored daily row into today's session; absence yields zeros,
/// and the cycle counter always starts at zero.
pub fn session_from_row(row: Option<(u32, u32)>, today: Date) -> (s: Session)
    ensures
        s == spec_session_from_row(row, today),
{
    match row {
        Some((completed, mins)) => Session {
            pomodoros_completed_today: completed,
            total_focus_mins_today: mins,
            pomodoros_in_cycle: 0,
            last_date: today,
        },
        None => Session::new(today),
    }
}

/// The statistics a stored daily row (or its absence) stands for.
pub open spec fn spec_stats_from_row(row: Option<(u32, u32)>, date: Date) -> DailyStats {
    match row {
        Some(t) => DailyStats { date, completed_pomodoros: t.0, total_focus_minutes: t.1 },
        None => DailyStats { date, completed_pomodoros: 0u32, total_focus_minutes: 0u32 },
    }
}

/// Turns a stored daily row into statistics; absence yields zeros.
pub fn stats_from_row(row: Option<(u32, u32)>, date: Date) -> (s: DailyStats)
    ensures
        s == spec_stats_from_row(row, date),
{
    match row {
        Some((completed, mins)) => DailyStats {
            date,
            completed_pomodoros: completed,
            total_focus_minutes: mins,
        },
        None => DailyStats::new(date),
    }
}

impl Database {
    fn from_conn(conn: Result<rusqlite::Connection, rusqlite::Error>) -> (r: Result<
        Database,
        DatabaseError,
    >) {
        match conn {
            Err(e) => Err(DatabaseError::Sqlite(e)),
            Ok(conn) => {
                let schema =
                    "CREATE TABLE IF NOT EXISTS settings (\
                     key TEXT PRIMARY KEY,\
                     pomodoro_mins INTEGER NOT NULL,\
                     short_break_mins INTEGER NOT NULL,\
                     long_break_mins INTEGER NOT NULL,\
                     pomodoros_for_long_break INTEGER NOT NULL,\
                     sound_enabled INTEGER NOT NULL,\
                     notifications_enabled INTEGER NOT NULL\
                     );\
                     CREATE TABLE IF NOT EXISTS daily_stats (\
                     date TEXT PRIMARY KEY,\
                     completed_pomodoros INTEGER NOT NULL DEFAULT 0,\
                     total_focus_minutes INTEGER NOT NULL DEFAULT 0\
                     );";
                match exec_batch(&conn, schema) {
                    Ok(_) => Ok(Database { conn }),
                    Err(e) => Err(DatabaseError::Sqlite(e)),
                }
            },
        }
    }

    /// Opens or creates the database file at `path` and initializes the
    /// tables. The caller chooses the location; any directory it sits in
    /// must already exist.
    pub fn open(path: &str) -> (r: Result<Database, DatabaseError>) {
        Database::from_conn(open_path_conn(path))
    }

    /// Creates an in-memory database, initializing the tables.
    pub fn new_in_memory() -> (r: Result<Database, DatabaseError>) {
        Database::from_conn(open_in_memory_conn())
    }

    /// Loads settings from the database; an absent row yields the
    /// documented defaults.
    pub fn load_settings(&self) -> (r: Result<Settings, DatabaseError>)
        ensures
            r matches Ok(s) ==> exists|row: Option<SettingsRow>|
                s == spec_settings_from_row(row),
    {
        match query_settings_row(&self.conn) {
            Ok(row) => {
                let s = settings_from_row(row);
                proof {
                    assert(s == spec_settings_from_row(row));
                }
                Ok(s)
            },
            Err(e) => Err(DatabaseError::Sqlite(e)),
        }
    }

    /// Saves the full settings record under the fixed key.
    pub fn save_settings(&self, settings: &Settings) -> (r: Result<(), DatabaseError>) {
        match upsert_settings_row(&self.conn, settings) {
            Ok(_) => Ok(()),
            Err(e) => Err(DatabaseError::Sqlite(e)),
        }
    }

    /// Loads the session for `today`: the stored daily counters (zero when
    /// absent) and a cycle counter that always starts at zero.
    pub fn load_today_session(&self, today: Date) -> (r: Result<Session, DatabaseError>)
        ensures
            r matches Ok(s) ==> s.pomodoros_in_cycle == 0 && s.last_date == today,
    {
        let key = date_key(&today);
        match query_stats_row(&self.conn, key.as_str()) {
            Ok(row) => Ok(session_from_row(row, today)),
            Err(e) => Err(DatabaseError::Sqlite(e)),
        }
    }

    /// Upserts the daily record for the session's date.
    pub fn save_session(&self, session: &Session) -> (r: Result<(), DatabaseError>) {
        let key = date_key(&session.last_date);
        match upsert_stats_row(
            &self.conn,
            key.as_str(),
            session.pomodoros_completed_today,
            session.total_focus_mins_today,
        ) {
            Ok(_) => Ok(()),
            Err(e) => Err(DatabaseError::Sqlite(e)),
        }
    }

    /// Reads the statistics stored for `date`; an absent record yields
    /// zero-valued statistics for that date.
    pub fn get_daily_stats(&self, date: Date) -> (r: Result<DailyStats, DatabaseError>)
        ensures
            r matches Ok(s) ==> s.date == date,
    {
        let key = date_key(&date);
        match query_stats_row(&self.conn, key.as_str()) {
            Ok(row) => Ok(stats_from_row(row, date)),
            Err(e) => Err(DatabaseError::Sqlite(e)),
        }
    }

    /// Deletes the daily record stored for `today`, if any.
    pub fn reset_today(&self, today: Date) -> (r: Result<(), DatabaseError>) {
        let key = date_key(&today);
        match delete_stats_row(&self.conn, key.as_str()) {
            Ok(_) => Ok(()),
            Err(e) => Err(DatabaseError::Sqlite(e)),
        }
    }
}

} // verus!
