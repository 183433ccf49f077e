//! Data models: the timer state machine, user settings, and the daily
//! session counters with their day-rollover rule.

use vstd::prelude::*;
use crate::clock::Date;

verus! {

/// The largest whole number of minutes whose second count still fits in a
/// `u32` (`MAX_MINUTES * 60 <= u32::MAX`).
pub const MAX_MINUTES: u32 = 71582788;

/// Timer state machine representing all possible states of the pomodoro
/// timer. Exactly one variant is active at a time.
#[derive(Clone, Copy, Debug, PartialEq, Eq, Structural)]
pub enum TimerState {
    /// No active timer, ready to start a pomodoro.
    Idle,
    /// Pomodoro work session in progress.
    PomodoroActive { remaining_secs: u32, total_secs: u32 },
    /// Pomodoro paused by the user; ticks leave it unchanged.
    PomodoroPaused { remaining_secs: u32, total_secs: u32 },
    /// Break in progress; the long/short flag is fixed at creation.
    BreakActive { is_long_break: bool, remaining_secs: u32, total_secs: u32 },
    /// Break finished, waiting for the user to start the next pomodoro.
    BreakFinished,
}

impl TimerState {
    /// The `(remaining_secs, total_secs)` pair of a countdown variant.
    pub open spec fn spec_countdown(self) -> Option<(u32, u32)> {
        match self {
            TimerState::PomodoroActive { remaining_secs, total_secs } => Some(
                (remaining_secs, total_secs),
            ),
            TimerState::PomodoroPaused { remaining_secs, total_secs } => Some(
                (remaining_secs, total_secs),
            ),
            TimerState::BreakActive { remaining_secs, total_secs, .. } => Some(
                (remaining_secs, total_secs),
            ),
            _ => None,
        }
    }

    pub open spec fn spec_remaining(self) -> Option<u32> {
        match self.spec_countdown() {
            Some(p) => Some(p.0),
            None => None,
        }
    }

    pub open spec fn spec_total(self) -> Option<u32> {
        match self.spec_countdown() {
            Some(p) => Some(p.1),
            None => None,
        }
    }

    /// Well-formedness: the countdown never exceeds the phase length.
    pub open spec fn inv(self) -> bool {
        match self.spec_countdown() {
            Some(p) => p.0 <= p.1,
            None => true,
        }
    }

    pub open spec fn spec_is_idle(self) -> bool {
        self is Idle || self is BreakFinished
    }

    /// Returns true if the timer is in an idle state (`Idle` or
    /// `BreakFinished`): the states a new pomodoro normally starts from.
    pub fn is_idle(&self) -> (r: bool)
        ensures
            r == self.spec_is_idle(),
    {
        matches!(self, TimerState::Idle | TimerState::BreakFinished)
    }

    /// Returns true if the timer is actively counting down.
    pub fn is_active(&self) -> (r: bool)
        ensures
            r == (*self is PomodoroActive || *self is BreakActive),
    {
        matches!(self, TimerState::PomodoroActive { .. } | TimerState::BreakActive { .. })
    }

    /// Returns true if the timer is paused.
    pub fn is_paused(&self) -> (r: bool)
        ensures
            r == (*self is PomodoroPaused),
    {
        matches!(self, TimerState::PomodoroPaused { .. })
    }

    /// Returns true if currently in a pomodoro session (active or paused).
    pub fn is_pomodoro(&self) -> (r: bool)
        ensures
            r == (*self is PomodoroActive || *self is PomodoroPaused),
    {
        matches!(self, TimerState::PomodoroActive { .. } | TimerState::PomodoroPaused { .. })
    }

    /// Returns true if currently on a break.
    pub fn is_break(&self) -> (r: bool)
        ensures
            r == (*self is BreakActive),
    {
        matches!(self, TimerState::BreakActive { .. })
    }

    /// The elapsed share of the countdown as an exact fraction
    /// `(numerator, denominator)`; a zero-length phase counts as complete,
    /// so it is given the fraction one.
    pub open spec fn spec_progress_fraction(self) -> Option<(int, int)> {
        match self.spec_countdown() {
            Some(p) => if p.1 == 0 {
                Some((1int, 1int))
            } else {
                Some((p.1 - p.0, p.1 as int))
            },
            None => None,
        }
    }

    /// The progress fraction scaled to `0..=scale` and rounded to the
    /// nearest integer (half rounds up), as the menu's progress bar shows
    /// it.
    pub open spec fn spec_progress_rounded(self, scale: u32) -> Option<u32> {
        match self.spec_countdown() {
            Some(p) => if p.1 == 0 {
                Some(scale)
            } else {
                Some((((p.1 - p.0) * scale * 2 + p.1) / (2 * p.1 as int)) as u32)
            },
            None => None,
        }
    }

    pub fn remaining_secs(&self) -> (r: Option<u32>)
        ensures
            r == self.spec_remaining(),
    {
        match self {
            TimerState::PomodoroActive { remaining_secs, .. } => Some(*remaining_secs),
            TimerState::PomodoroPaused { remaining_secs, .. } => Some(*remaining_secs),
            TimerState::BreakActive { remaining_secs, .. } => Some(*remaining_secs),
            _ => None,
        }
    }

    pub fn total_secs(&self) -> (r: Option<u32>)
        ensures
            r == self.spec_total(),
    {
        match self {
            TimerState::PomodoroActive { total_secs, .. } => Some(*total_secs),
            TimerState::PomodoroPaused { total_secs, .. } => Some(*total_secs),
            TimerState::BreakActive { total_secs, .. } => Some(*total_secs),
            _ => None,
        }
    }

    fn countdown(&self) -> (r: Option<(u32, u32)>)
        ensures
            r == self.spec_countdown(),
    {
        match self {
            TimerState::PomodoroActive { remaining_secs, total_secs } => Some(
                (*remaining_secs, *total_secs),
            ),
            TimerState::PomodoroPaused { remaining_secs, total_secs } => Some(
                (*remaining_secs, *total_secs),
            ),
            TimerState::BreakActive { remaining_secs, total_secs, .. } => Some(
                (*remaining_secs, *total_secs),
            ),
            _ => None,
        }
    }

    /// The rounded progress on a scale of `0..=scale`, or `None` when no
    /// countdown is running.
    pub fn progress_rounded(&self, scale: u32) -> (r: Option<u32>)
        requires
            self.inv(),
            scale <= 1000,
        ensures
            r == self.spec_progress_rounded(scale),
    {
        match self.countdown() {
            None => None,
            Some((rem, total)) => {
                if total == 0 {
                    Some(scale)
                } else {
                    let e: u64 = (total - rem) as u64;
                    proof {
                        assert(e * (scale as u64) <= 0xffff_ffff * 1000) by (nonlinear_arith)
                            requires
                                e <= 0xffff_ffff,
                                scale <= 1000,
                        ;
                    }
                    let num: u64 = e * (scale as u64) * 2 + (total as u64);
                    let den: u64 = 2 * (total as u64);
                    let q: u64 = num / den;
                    proof {
                        assert(num / den <= scale) by (nonlinear_arith)
                            requires
                                num == e * (scale as u64) * 2 + total,
                                den == 2 * (total as u64),
                                e <= total,
                                total >= 1,
                        ;
                    }
                    Some(q as u32)
                }
            },
        }
    }
}

/// The progress fraction of any well-formed countdown state lies in
/// `[0, 1]`, and is exactly `1` whenever the remaining time or the total
/// time is zero.
pub proof fn lemma_progress_fraction_bounds(st: TimerState)
    requires
        st.inv(),
        st.spec_progress_fraction() is Some,
    ensures
        0 <= (st.spec_progress_fraction()->0).0,
        (st.spec_progress_fraction()->0).0 <= (st.spec_progress_fraction()->0).1,
        0 < (st.spec_progress_fraction()->0).1,
        st.spec_remaining() == Some(0u32) || st.spec_total() == Some(0u32) ==> (
        st.spec_progress_fraction()->0).0 == (st.spec_progress_fraction()->0).1,
{
}

/// The rounded progress shown by the menu never exceeds its scale, and is
/// exactly the full scale whenever the remaining time or the total time is
/// zero.
pub proof fn lemma_progress_rounded_bounds(st: TimerState, scale: u32)
    requires
        st.inv(),
        st.spec_progress_rounded(scale) is Some,
    ensures
        (st.spec_progress_rounded(scale)->0) <= scale,
        st.spec_remaining() == Some(0u32) || st.spec_total() == Some(0u32)
            ==> st.spec_progress_rounded(scale) == Some(scale),
{
    let p = st.spec_countdown()->0;
    if p.1 != 0 {
        let e = p.1 - p.0;
        assert(((e * scale * 2 + p.1) / (2 * p.1 as int)) <= scale) by (nonlinear_arith)
            requires
                0 <= e <= p.1,
                p.1 >= 1,
        ;
        if p.0 == 0 {
            assert(((e * scale * 2 + p.1) / (2 * p.1 as int)) == scale) by (nonlinear_arith)
                requires
                    e == p.1,
                    p.1 >= 1,
            ;
        }
    }
}

/// User-configurable settings for the pomodoro timer.
#[derive(Clone, Copy, Debug, PartialEq, Eq, Structural)]
pub struct Settings {
    /// Duration of a pomodoro work session in minutes.
    pub pomodoro_mins: u32,
    /// Duration of a short break in minutes.
    pub short_break_mins: u32,
    /// Duration of a long break in minutes.
    pub long_break_mins: u32,
    /// Number of pomodoros before a long break.
    pub pomodoros_for_long_break: u32,
    /// Whether to play sounds on timer completion.
    pub sound_enabled: bool,
    /// Whether to show system notifications.
    pub notifications_enabled: bool,
}

/// The settings the library loads when none are stored.
pub open spec fn spec_default_settings() -> Settings {
    Settings {
        pomodoro_mins: 25u32,
        short_break_mins: 5u32,
        long_break_mins: 15u32,
        pomodoros_for_long_break: 4u32,
        sound_enabled: true,
        notifications_enabled: true,
    }
}

/// Every duration is small enough that its second count fits in a `u32`.
pub open spec fn settings_wf(s: Settings) -> bool {
    s.pomodoro_mins <= MAX_MINUTES && s.short_break_mins <= MAX_MINUTES && s.long_break_mins
        <= MAX_MINUTES
}

impl Default for Settings {
    /// The documented defaults: 25/5/15 minutes, threshold 4, both flags on.
    fn default() -> (s: Settings)
        ensures
            s == spec_default_settings(),
            settings_wf(s),
    {
        Settings {
            pomodoro_mins: 25,
            short_break_mins: 5,
            long_break_mins: 15,
            pomodoros_for_long_break: 4,
            sound_enabled: true,
            notifications_enabled: true,
        }
    }
}

/// Session tracking for the current day.
#[derive(Clone, Copy, Debug, PartialEq, Eq, Structural)]
pub struct Session {
    /// Number of pomodoros completed today.
    pub pomodoros_completed_today: u32,
    /// Total minutes of focus time today.
    pub total_focus_mins_today: u32,
    /// Number of pomodoros in the current cycle (resets after a long
    /// break; not reset by day rollover).
    pub pomodoros_in_cycle: u32,
    /// The date the two daily counters apply to.
    pub last_date: Date,
}

/// Day rollover: when the stored date differs from `today` the two daily
/// counters reset to zero and the date advances; the cycle counter is
/// untouched. On a matching date nothing changes.
pub open spec fn spec_rollover(s: Session, today: Date) -> Session {
    if s.last_date == today {
        s
    } else {
        Session {
            pomodoros_completed_today: 0u32,
            total_focus_mins_today: 0u32,
            pomodoros_in_cycle: s.pomodoros_in_cycle,
            last_date: today,
        }
    }
}

/// The counters can absorb one more completed pomodoro of `mins` minutes
/// without wrapping.
pub open spec fn session_has_room(s: Session, mins: u32) -> bool {
    s.pomodoros_completed_today < u32::MAX && s.pomodoros_in_cycle < u32::MAX
        && s.total_focus_mins_today + mins <= u32::MAX
}

/// Recording one completed pomodoro: first the rollover check, then all
/// three counters grow (the full duration is credited).
pub open spec fn spec_complete_pomodoro(s: Session, mins: u32, today: Date) -> Session {
    let r = spec_rollover(s, today);
    Session {
        pomodoros_completed_today: (r.pomodoros_completed_today + 1) as u32,
        total_focus_mins_today: (r.total_focus_mins_today + mins) as u32,
        pomodoros_in_cycle: (r.pomodoros_in_cycle + 1) as u32,
        last_date: r.last_date,
    }
}

impl Session {
    /// Creates a new session for the given date, with all counters zero.
    pub fn new(date: Date) -> (s: Session)
        ensures
            s == (Session {
                pomodoros_completed_today: 0u32,
                total_focus_mins_today: 0u32,
                pomodoros_in_cycle: 0u32,
                last_date: date,
            }),
    {
        Session {
            pomodoros_completed_today: 0,
            total_focus_mins_today: 0,
            pomodoros_in_cycle: 0,
            last_date: date,
        }
    }

    /// Checks whether the day has rolled over and resets the daily counts
    /// if so. Runs before any read or mutation that reports daily totals.
    pub fn check_day_rollover(&mut self, today: Date)
        ensures
            *final(self) == spec_rollover(*old(self), today),
    {
        if self.last_date != today {
            self.pomodoros_completed_today = 0;
            self.total_focus_mins_today = 0;
            self.last_date = today;
        }
    }

    /// Records completion of a pomodoro, crediting the full duration.
    pub fn complete_pomodoro(&mut self, duration_mins: u32, today: Date)
        requires
            session_has_room(spec_rollover(*old(self), today), duration_mins),
        ensures
            *final(self) == spec_complete_pomodoro(*old(self), duration_mins, today),
    {
        self.check_day_rollover(today);
        self.pomodoros_completed_today = self.pomodoros_completed_today + 1;
        self.total_focus_mins_today = self.total_focus_mins_today + duration_mins;
        self.pomodoros_in_cycle = self.pomodoros_in_cycle + 1;
    }

    /// Returns true if a long break is due based on the threshold.
    pub fn is_long_break_due(&self, threshold: u32) -> (r: bool)
        ensures
            r == (self.pomodoros_in_cycle >= threshold),
    {
        self.pomodoros_in_cycle >= threshold
    }

    /// Resets the current cycle counter (called exactly when a long break
    /// is granted).
    pub fn reset_cycle(&mut self)
        ensures
            *final(self) == (Session { pomodoros_in_cycle: 0u32, ..*old(self) }),
    {
        self.pomodoros_in_cycle = 0;
    }

    /// Resets all three counters for today; the stored date is untouched.
    pub fn reset_today(&mut self)
        ensures
            *final(self) == (Session {
                pomodoros_completed_today: 0u32,
                total_focus_mins_today: 0u32,
                pomodoros_in_cycle: 0u32,
                last_date: old(self).last_date,
            }),
    {
        self.pomodoros_completed_today = 0;
        self.total_focus_mins_today = 0;
        self.pomodoros_in_cycle = 0;
    }
}

impl Default for Session {
    /// An empty session for today's date.
    fn default() -> (s: Session)
        ensures
            s.pomodoros_completed_today == 0,
            s.total_focus_mins_today == 0,
            s.pomodoros_in_cycle == 0,
            crate::clock::valid_date(s.last_date),
    {
        Session::new(crate::clock::current_date())
    }
}

/// Day rollover never touches the cycle counter, and on a date mismatch it
/// zeroes exactly the two daily counters and advances the stored date.
pub proof fn lemma_day_rollover_resets(s: Session, today: Date)
    ensures
        spec_rollover(s, today).pomodoros_in_cycle == s.pomodoros_in_cycle,
        s.last_date != today ==> spec_rollover(s, today) == (Session {
            pomodoros_completed_today: 0u32,
            total_focus_mins_today: 0u32,
            pomodoros_in_cycle: s.pomodoros_in_cycle,
            last_date: today,
        }),
        s.last_date == today ==> spec_rollover(s, today) == s,
{
}

/// Daily statistics as persistence reports them for one date.
#[derive(Clone, Copy, Debug, PartialEq, Eq, Structural)]
pub struct DailyStats {
    pub date: Date,
    pub completed_pomodoros: u32,
    pub total_focus_minutes: u32,
}

impl DailyStats {
    /// Zero-valued statistics for the given date.
    pub fn new(date: Date) -> (s: DailyStats)
        ensures
            s == (DailyStats { date, completed_pomodoros: 0u32, total_focus_minutes: 0u32 }),
    {
        DailyStats { date, completed_pomodoros: 0, total_focus_minutes: 0 }
    }
}

} // verus!
