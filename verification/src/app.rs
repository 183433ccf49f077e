//! The timer engine: the only legal mutator of the timer state, the daily
//! session and the settings. Every transition is stated as a spec function
//! and every operation is proved against it; persistence failures are
//! swallowed so that the in-memory transition always proceeds.

use vstd::prelude::*;
use crate::clock::Date;
use crate::models::{
    Session, Settings, TimerState, session_has_room, settings_wf, spec_rollover,
    spec_complete_pomodoro,
};
use crate::persistence::{Database, DatabaseError};

verus! {

/// Startup errors: constructing an engine fails only when the store does.
#[derive(Debug)]
pub enum AppError {
    Database(DatabaseError),
}

/// Events that trigger notifications and sounds, produced exactly once per
/// phase-to-zero transition (or forced completion) and never stored.
#[derive(Clone, Copy, Debug, PartialEq, Eq, Structural)]
pub enum CompletionEvent {
    PomodoroComplete { count: u32, is_long_break: bool },
    BreakComplete,
}

/// The engine: one timer state, one session, one settings record, and the
/// store they are persisted through.
pub struct App {
    pub state: TimerState,
    pub settings: Settings,
    pub session: Session,
    pub db: Database,
}

/// Starting a pomodoro: the countdown is sized from the current settings,
/// full and running — from any prior state.
pub open spec fn spec_start(set: Settings) -> TimerState {
    TimerState::PomodoroActive {
        remaining_secs: (set.pomodoro_mins * 60) as u32,
        total_secs: (set.pomodoro_mins * 60) as u32,
    }
}

/// Pausing freezes a running pomodoro in place; any other state is left
/// alone.
pub open spec fn spec_pause(st: TimerState) -> TimerState {
    match st {
        TimerState::PomodoroActive { remaining_secs, total_secs } => TimerState::PomodoroPaused {
            remaining_secs,
            total_secs,
        },
        _ => st,
    }
}

/// Resuming continues a paused pomodoro from the frozen value; any other
/// state is left alone.
pub open spec fn spec_resume(st: TimerState) -> TimerState {
    match st {
        TimerState::PomodoroPaused { remaining_secs, total_secs } => TimerState::PomodoroActive {
            remaining_secs,
            total_secs,
        },
        _ => st,
    }
}

/// Skipping ends a running break without crediting anything; any other
/// state is left alone.
pub open spec fn spec_skip(st: TimerState) -> TimerState {
    if st is BreakActive {
        TimerState::BreakFinished
    } else {
        st
    }
}

/// Whether the break granted by the completion now being recorded is long:
/// the cycle counter after this completion has reached the threshold.
pub open spec fn spec_finish_is_long(se: Session, set: Settings, today: Date) -> bool {
    spec_complete_pomodoro(se, set.pomodoro_mins, today).pomodoros_in_cycle
        >= set.pomodoros_for_long_break
}

/// The session after a pomodoro completion: the counters grow, and when a
/// long break is granted the cycle counter resets to zero.
pub open spec fn spec_finish_session(se: Session, set: Settings, today: Date) -> Session {
    let s1 = spec_complete_pomodoro(se, set.pomodoro_mins, today);
    if spec_finish_is_long(se, set, today) {
        Session { pomodoros_in_cycle: 0u32, ..s1 }
    } else {
        s1
    }
}

/// The break state entered after a pomodoro completion, sized from the
/// current settings.
pub open spec fn spec_break_state(set: Settings, is_long: bool) -> TimerState {
    let mins = if is_long {
        set.long_break_mins
    } else {
        set.short_break_mins
    };
    TimerState::BreakActive {
        is_long_break: is_long,
        remaining_secs: (mins * 60) as u32,
        total_secs: (mins * 60) as u32,
    }
}

/// The event a pomodoro completion emits: today's completed count after
/// this completion, and whether the granted break is long.
pub open spec fn spec_finish_event(se: Session, set: Settings, today: Date) -> CompletionEvent {
    CompletionEvent::PomodoroComplete {
        count: spec_complete_pomodoro(se, set.pomodoro_mins, today).pomodoros_completed_today,
        is_long_break: spec_finish_is_long(se, set, today),
    }
}

/// One tick: a running countdown above zero loses one second; one at zero
/// completes (a pomodoro enters its break and updates the session, a break
/// enters `BreakFinished`); every other state is untouched. The result is
/// `(state, session, state_changed, completion_event)`.
pub open spec fn spec_tick(st: TimerState, se: Session, set: Settings, today: Date) -> (
    TimerState,
    Session,
    bool,
    Option<CompletionEvent>,
) {
    match st {
        TimerState::PomodoroActive { remaining_secs, total_secs } => {
            if remaining_secs > 0 {
                (
                    TimerState::PomodoroActive {
                        remaining_secs: (remaining_secs - 1) as u32,
                        total_secs,
                    },
                    se,
                    true,
                    None,
                )
            } else {
                (
                    spec_break_state(set, spec_finish_is_long(se, set, today)),
                    spec_finish_session(se, set, today),
                    true,
                    Some(spec_finish_event(se, set, today)),
                )
            }
        },
        TimerState::BreakActive { is_long_break, remaining_secs, total_secs } => {
            if remaining_secs > 0 {
                (
                    TimerState::BreakActive {
                        is_long_break,
                        remaining_secs: (remaining_secs - 1) as u32,
                        total_secs,
                    },
                    se,
                    true,
                    None,
                )
            } else {
                (TimerState::BreakFinished, se, true, Some(CompletionEvent::BreakComplete))
            }
        },
        _ => (st, se, false, None),
    }
}

/// Completing early from a running pomodoro runs the full completion path;
/// from any other state nothing happens. The result is
/// `(state, session, completion_event)`.
pub open spec fn spec_complete_early(st: TimerState, se: Session, set: Settings, today: Date) -> (
    TimerState,
    Session,
    Option<CompletionEvent>,
) {
    if st is PomodoroActive {
        (
            spec_break_state(set, spec_finish_is_long(se, set, today)),
            spec_finish_session(se, set, today),
            Some(spec_finish_event(se, set, today)),
        )
    } else {
        (st, se, None)
    }
}

impl App {
    /// Engine well-formedness: durations fit in `u32` seconds and the
    /// countdown never exceeds its phase length.
    pub open spec fn wf(self) -> bool {
        settings_wf(self.settings) && self.state.inv()
    }

    /// The runtime check for [`App::wf`], for callers outside the proof.
    pub fn is_well_formed(&self) -> (r: bool)
        ensures
            r == self.wf(),
    {
        let settings_ok = self.settings.pomodoro_mins <= crate::models::MAX_MINUTES
            && self.settings.short_break_mins <= crate::models::MAX_MINUTES
            && self.settings.long_break_mins <= crate::models::MAX_MINUTES;
        let state_ok = match self.state {
            TimerState::PomodoroActive { remaining_secs, total_secs } => remaining_secs
                <= total_secs,
            TimerState::PomodoroPaused { remaining_secs, total_secs } => remaining_secs
                <= total_secs,
            TimerState::BreakActive { remaining_secs, total_secs, .. } => remaining_secs
                <= total_secs,
            _ => true,
        };
        settings_ok && state_ok
    }

    /// Creates an engine over the given store: idle, with the stored
    /// settings (or defaults) and today's stored session; the cycle
    /// counter always starts at zero.
    pub fn new_with_db(db: Database) -> (r: Result<App, AppError>)
        ensures
            r matches Ok(app) ==> app.state is Idle && app.session.pomodoros_in_cycle == 0
                && app.state.inv(),
    {
        let settings = match db.load_settings() {
            Ok(s) => s,
            Err(e) => {
                return Err(AppError::Database(e));
            },
        };
        let today = crate::clock::current_date();
        let session = match db.load_today_session(today) {
            Ok(s) => s,
            Err(e) => {
                return Err(AppError::Database(e));
            },
        };
        Ok(App { state: TimerState::Idle, settings, session, db })
    }

    /// Starts a new pomodoro, from any state; an in-flight countdown is
    /// simply restarted.
    pub fn start_pomodoro(&mut self)
        requires
            old(self).wf(),
        ensures
            final(self).state == spec_start(old(self).settings),
            final(self).session == old(self).session,
            final(self).settings == old(self).settings,
            final(self).wf(),
    {
        let total_secs = self.settings.pomodoro_mins * 60;
        self.state = TimerState::PomodoroActive { remaining_secs: total_secs, total_secs };
    }

    /// Pauses the current pomodoro; a no-op in any other state.
    pub fn pause(&mut self)
        requires
            old(self).wf(),
        ensures
            final(self).state == spec_pause(old(self).state),
            final(self).session == old(self).session,
            final(self).settings == old(self).settings,
            final(self).wf(),
    {
        if let TimerState::PomodoroActive { remaining_secs, total_secs } = self.state {
            self.state = TimerState::PomodoroPaused { remaining_secs, total_secs };
        }
    }

    /// Resumes a paused pomodoro; a no-op in any other state.
    pub fn resume(&mut self)
        requires
            old(self).wf(),
        ensures
            final(self).state == spec_resume(old(self).state),
            final(self).session == old(self).session,
            final(self).settings == old(self).settings,
            final(self).wf(),
    {
        if let TimerState::PomodoroPaused { remaining_secs, total_secs } = self.state {
            self.state = TimerState::PomodoroActive { remaining_secs, total_secs };
        }
    }

    /// Stops the current timer and returns to idle, from any state,
    /// discarding in-flight progress: no completion is recorded and the
    /// session is untouched.
    pub fn stop(&mut self)
        requires
            old(self).wf(),
        ensures
            final(self).state is Idle,
            final(self).session == old(self).session,
            final(self).settings == old(self).settings,
            final(self).wf(),
    {
        self.state = TimerState::Idle;
    }

    /// Completes the current pomodoro early, crediting the full duration,
    /// exactly as a natural zero-countdown completion would; returns the
    /// event if the pomodoro was running, and does nothing otherwise.
    pub fn complete_early(&mut self, today: Date) -> (r: Option<CompletionEvent>)
        requires
            old(self).wf(),
            old(self).state is PomodoroActive ==> session_has_room(
                spec_rollover(old(self).session, today),
                old(self).settings.pomodoro_mins,
            ),
        ensures
            ({
                let (st, se, ev) = spec_complete_early(
                    old(self).state,
                    old(self).session,
                    old(self).settings,
                    today,
                );
                final(self).state == st && final(self).session == se && r == ev
            }),
            final(self).settings == old(self).settings,
            final(self).wf(),
    {
        if matches!(self.state, TimerState::PomodoroActive { .. }) {
            Some(self.finish_pomodoro(today))
        } else {
            None
        }
    }

    /// Skips the current break without crediting anything; a no-op in any
    /// other state.
    pub fn skip_break(&mut self)
        requires
            old(self).wf(),
        ensures
            final(self).state == spec_skip(old(self).state),
            final(self).session == old(self).session,
            final(self).settings == old(self).settings,
            final(self).wf(),
    {
        if matches!(self.state, TimerState::BreakActive { .. }) {
            self.state = TimerState::BreakFinished;
        }
    }

    /// Advances the timer by one second. Returns
    /// `(state_changed, completion_event)`, exactly as [`spec_tick`] says.
    pub fn tick(&mut self, today: Date) -> (r: (bool, Option<CompletionEvent>))
        requires
            old(self).wf(),
            old(self).state is PomodoroActive && old(self).state.spec_remaining() == Some(0u32)
                ==> session_has_room(
                spec_rollover(old(self).session, today),
                old(self).settings.pomodoro_mins,
            ),
        ensures
            ({
                let t = spec_tick(old(self).state, old(self).session, old(self).settings, today);
                final(self).state == t.0 && final(self).session == t.1 && r.0 == t.2 && r.1 == t.3
            }),
            final(self).settings == old(self).settings,
            final(self).wf(),
    {
        match self.state {
            TimerState::PomodoroActive { remaining_secs, total_secs } => {
                if remaining_secs > 0 {
                    self.state = TimerState::PomodoroActive {
                        remaining_secs: remaining_secs - 1,
                        total_secs,
                    };
                    (true, None)
                } else {
                    let event = self.finish_pomodoro(today);
                    (true, Some(event))
                }
            },
            TimerState::BreakActive { is_long_break, remaining_secs, total_secs } => {
                if remaining_secs > 0 {
                    self.state = TimerState::BreakActive {
                        is_long_break,
                        remaining_secs: remaining_secs - 1,
                        total_secs,
                    };
                    (true, None)
                } else {
                    self.finish_break();
                    (true, Some(CompletionEvent::BreakComplete))
                }
            },
            _ => (false, None),
        }
    }

    /// The completion path shared by a natural zero-countdown tick and an
    /// early completion: update and persist the session, decide the break
    /// kind, reset the cycle when a long break is granted, and enter the
    /// break.
    fn finish_pomodoro(&mut self, today: Date) -> (ev: CompletionEvent)
        requires
            old(self).wf(),
            session_has_room(spec_rollover(old(self).session, today), old(self).settings.pomodoro_mins),
        ensures
            final(self).state == spec_break_state(
                old(self).settings,
                spec_finish_is_long(old(self).session, old(self).settings, today),
            ),
            final(self).session == spec_finish_session(
                old(self).session,
                old(self).settings,
                today,
            ),
            ev == spec_finish_event(old(self).session, old(self).settings, today),
            final(self).settings == old(self).settings,
            final(self).wf(),
    {
        self.session.complete_pomodoro(self.settings.pomodoro_mins, today);
        let _ = self.db.save_session(&self.session);
        let is_long = self.session.is_long_break_due(self.settings.pomodoros_for_long_break);
        let count = self.session.pomodoros_completed_today;
        if is_long {
            self.session.reset_cycle();
        }
        let break_mins = if is_long {
            self.settings.long_break_mins
        } else {
            self.settings.short_break_mins
        };
        let total_secs = break_mins * 60;
        self.state = TimerState::BreakActive {
            is_long_break: is_long,
            remaining_secs: total_secs,
            total_secs,
        };
        CompletionEvent::PomodoroComplete { count, is_long_break: is_long }
    }

    fn finish_break(&mut self)
        ensures
            final(self).state is BreakFinished,
            final(self).session == old(self).session,
            final(self).settings == old(self).settings,
    {
        self.state = TimerState::BreakFinished;
    }

    /// Replaces the settings and persists the whole record: the single
    /// persistence path every configuration change ends in.
    pub(crate) fn set_settings(&mut self, new: Settings)
        ensures
            final(self).settings == new,
            final(self).state == old(self).state,
            final(self).session == old(self).session,
    {
        self.settings = new;
        let _ = self.db.save_settings(&self.settings);
    }

    /// Applies an edit to the settings and persists the whole record: the
    /// single path every configuration change takes.
    pub fn update_setting<F: FnOnce(Settings) -> Settings>(&mut self, updater: F)
        requires
            call_requires(updater, (old(self).settings,)),
        ensures
            call_ensures(updater, (old(self).settings,), final(self).settings),
            final(self).state == old(self).state,
            final(self).session == old(self).session,
    {
        let new = updater(self.settings);
        self.set_settings(new);
    }

    /// Resets today's statistics: all three session counters go to zero
    /// (the stored date stays) and the day's record is cleared from the
    /// store.
    pub fn reset_today(&mut self, today: Date)
        requires
            old(self).wf(),
        ensures
            final(self).session == (Session {
                pomodoros_completed_today: 0u32,
                total_focus_mins_today: 0u32,
                pomodoros_in_cycle: 0u32,
                last_date: old(self).session.last_date,
            }),
            final(self).state == old(self).state,
            final(self).settings == old(self).settings,
            final(self).wf(),
    {
        self.session.reset_today();
        let _ = self.db.reset_today(today);
    }

    /// Returns the long break duration in minutes.
    pub fn long_break_mins(&self) -> (r: u32)
        ensures
            r == self.settings.long_break_mins,
    {
        self.settings.long_break_mins
    }
}

/// The states `(timer, session)` go through after `n` ticks.
pub open spec fn spec_tick_n(st: TimerState, se: Session, set: Settings, today: Date, n: nat) -> (
    TimerState,
    Session,
)
    decreases n,
{
    if n == 0 {
        (st, se)
    } else {
        let prev = spec_tick_n(st, se, set, today, (n - 1) as nat);
        let t = spec_tick(prev.0, prev.1, set, today);
        (t.0, t.1)
    }
}

/// A tick in `Idle` or `BreakFinished` changes neither the state nor the
/// session, and emits no event.
pub proof fn lemma_tick_idle_noop(st: TimerState, se: Session, set: Settings, today: Date)
    requires
        st.spec_is_idle(),
    ensures
        spec_tick(st, se, set, today) == (st, se, false, Option::<CompletionEvent>::None),
{
}

/// Pausing freezes the countdown exactly: pause keeps the remaining and
/// total seconds, any number of ticks leaves the paused state and the
/// session unchanged, and resuming continues from the frozen value.
pub proof fn lemma_pause_tick_resume(
    remaining_secs: u32,
    total_secs: u32,
    se: Session,
    set: Settings,
    today: Date,
    n: nat,
)
    ensures
        spec_pause(TimerState::PomodoroActive { remaining_secs, total_secs })
            == (TimerState::PomodoroPaused { remaining_secs, total_secs }),
        spec_tick_n(
            TimerState::PomodoroPaused { remaining_secs, total_secs },
            se,
            set,
            today,
            n,
        ) == (TimerState::PomodoroPaused { remaining_secs, total_secs }, se),
        spec_resume(TimerState::PomodoroPaused { remaining_secs, total_secs })
            == (TimerState::PomodoroActive { remaining_secs, total_secs }),
    decreases n,
{
    if n > 0 {
        lemma_pause_tick_resume(remaining_secs, total_secs, se, set, today, (n - 1) as nat);
    }
}

/// Completing early from a running pomodoro is identical to a natural
/// completion: the same break state, session and event as a tick at zero
/// remaining, with one more completed pomodoro and the full duration of
/// focus time credited.
pub proof fn lemma_complete_early_matches_natural(
    st: TimerState,
    se: Session,
    set: Settings,
    today: Date,
)
    requires
        st is PomodoroActive,
        session_has_room(spec_rollover(se, today), set.pomodoro_mins),
    ensures
        ({
            let (bst, fse, ev) = spec_complete_early(st, se, set, today);
            let nt = spec_tick(
                TimerState::PomodoroActive {
                    remaining_secs: 0u32,
                    total_secs: st.spec_total()->0,
                },
                se,
                set,
                today,
            );
            bst == nt.0 && fse == nt.1 && ev == nt.3
                && fse.pomodoros_completed_today == spec_rollover(
                se,
                today,
            ).pomodoros_completed_today + 1 && fse.total_focus_mins_today == spec_rollover(
                se,
                today,
            ).total_focus_mins_today + set.pomodoro_mins
        }),
{
}

} // verus!
