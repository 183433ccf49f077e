//! The menu's text lines: status, progress bar and daily statistics, each
//! with an exact statement of the characters it produces. Building the
//! menu widgets themselves is the front end's business.

use vstd::prelude::*;
use vstd::string::StringExecFns;
use crate::models::{Session, TimerState, lemma_progress_rounded_bounds};
use crate::text::{repeat_str, spec_dec, spec_repeat, u32_string};
use crate::timer::{format_time, spec_format_time};

verus! {

/// The status line for each state.
pub open spec fn spec_status(st: TimerState) -> Seq<char> {
    match st {
        TimerState::Idle => "Ready to focus"@,
        TimerState::PomodoroActive { remaining_secs, .. } => "⏱  "@ + spec_format_time(
            remaining_secs,
        ) + " remaining"@,
        TimerState::PomodoroPaused { remaining_secs, .. } => "⏸  "@ + spec_format_time(
            remaining_secs,
        ) + " (paused)"@,
        TimerState::BreakActive { is_long_break, remaining_secs, .. } => "☕  "@ + (
        if is_long_break {
            "Long break"@
        } else {
            "Short break"@
        }) + " - "@ + spec_format_time(remaining_secs),
        TimerState::BreakFinished => "Break complete - ready for next"@,
    }
}

/// Formats the status line for the menu.
pub fn format_status(state: &TimerState) -> (r: String)
    ensures
        r@ == spec_status(*state),
{
    match state {
        TimerState::Idle => String::from_str("Ready to focus"),
        TimerState::PomodoroActive { remaining_secs, .. } => {
            let mut s = String::from_str("⏱  ");
            let t = format_time(*remaining_secs);
            s.append(t.as_str());
            s.append(" remaining");
            s
        },
        TimerState::PomodoroPaused { remaining_secs, .. } => {
            let mut s = String::from_str("⏸  ");
            let t = format_time(*remaining_secs);
            s.append(t.as_str());
            s.append(" (paused)");
            s
        },
        TimerState::BreakActive { is_long_break, remaining_secs, .. } => {
            let mut s = String::from_str("☕  ");
            if *is_long_break {
                s.append("Long break");
            } else {
                s.append("Short break");
            }
            s.append(" - ");
            let t = format_time(*remaining_secs);
            s.append(t.as_str());
            s
        },
        TimerState::BreakFinished => String::from_str("Break complete - ready for next"),
    }
}

/// The progress bar: twenty cells and a rounded percentage for a running
/// countdown, an empty bar otherwise.
pub open spec fn spec_progress_bar(st: TimerState) -> Seq<char> {
    match st.spec_progress_rounded(20u32) {
        Some(filled) => spec_repeat("█"@, filled as int) + spec_repeat(
            "░"@,
            20 - filled as int,
        ) + "  "@ + spec_dec(st.spec_progress_rounded(100u32)->0 as int) + "%"@,
        None => "░░░░░░░░░░░░░░░░░░░░  0%"@,
    }
}

/// Formats the progress bar for the menu.
pub fn format_progress(state: &TimerState) -> (r: String)
    requires
        state.inv(),
    ensures
        r@ == spec_progress_bar(*state),
{
    match state.progress_rounded(20) {
        Some(filled) => {
            proof {
                lemma_progress_rounded_bounds(*state, 20u32);
                lemma_progress_rounded_bounds(*state, 100u32);
            }
            let pct = match state.progress_rounded(100) {
                Some(p) => p,
                None => 0,
            };
            let mut s = repeat_str("█", filled as usize);
            let rest = repeat_str("░", (20 - filled) as usize);
            s.append(rest.as_str());
            s.append("  ");
            let p = u32_string(pct);
            s.append(p.as_str());
            s.append("%");
            s
        },
        None => String::from_str("░░░░░░░░░░░░░░░░░░░░  0%"),
    }
}

/// The daily statistics line: up to ten tomato marks with a `+n` overflow
/// tally, then the count and the focus minutes; a fixed line when nothing
/// is completed yet.
pub open spec fn spec_stats_line(se: Session) -> Seq<char> {
    if se.pomodoros_completed_today == 0 {
        "Today: —  0 (0 min)"@
    } else {
        "Today: "@ + spec_repeat(
            "🍅"@,
            if se.pomodoros_completed_today > 10 {
                10int
            } else {
                se.pomodoros_completed_today as int
            },
        ) + (if se.pomodoros_completed_today > 10 {
            "+"@ + spec_dec(se.pomodoros_completed_today - 10)
        } else {
            Seq::<char>::empty()
        }) + "  "@ + spec_dec(se.pomodoros_completed_today as int) + " ("@ + spec_dec(
            se.total_focus_mins_today as int,
        ) + " min)"@
    }
}

/// Formats the daily statistics for the menu.
pub fn format_stats(session: &Session) -> (r: String)
    ensures
        r@ == spec_stats_line(*session),
{
    let count = session.pomodoros_completed_today;
    if count == 0 {
        String::from_str("Today: —  0 (0 min)")
    } else {
        let mut s = String::from_str("Today: ");
        let capped: u32 = if count > 10 {
            10
        } else {
            count
        };
        let toms = repeat_str("🍅", capped as usize);
        s.append(toms.as_str());
        if count > 10 {
            s.append("+");
            let extra = u32_string(count - 10);
            s.append(extra.as_str());
        }
        s.append("  ");
        let c = u32_string(count);
        s.append(c.as_str());
        s.append(" (");
        let m = u32_string(session.total_focus_mins_today);
        s.append(m.as_str());
        s.append(" min)");
        proof {
            assert(s@ =~= spec_stats_line(*session));
        }
        s
    }
}

} // verus!
