//! The tick loop's verified half: the `MM:SS` formatter, the tray title,
//! and one full pass of the loop body (rollover check, tick, messages).
//! The loop itself — the sleep, the lock, the channel — lives outside the
//! library and calls [`timer_step`] once per second.

use vstd::prelude::*;
use vstd::string::StringExecFns;
use crate::app::{App, CompletionEvent, spec_tick};
use crate::clock::Date;
use crate::models::{TimerState, session_has_room, spec_rollover};
use crate::text::{pad2_string, spec_pad2};

verus! {

/// Message sent from the tick loop to the consumer that renders it.
#[derive(Debug, Clone)]
pub enum TimerMessage {
    /// Timer state has changed; the tray title is ready for display.
    StateChanged { title: String },
    /// A timer completed; trigger notification/sound.
    Completed(CompletionEvent),
}

/// `secs` as `MM:SS` (the minutes keep all their digits past two).
pub open spec fn spec_format_time(secs: u32) -> Seq<char> {
    spec_pad2((secs / 60) as int) + seq![':'] + spec_pad2((secs % 60) as int)
}

/// Formats time in `MM:SS` form.
pub fn format_time(secs: u32) -> (r: String)
    ensures
        r@ == spec_format_time(secs),
{
    let mut s = pad2_string(secs / 60);
    s.append(":");
    let rest = pad2_string(secs % 60);
    s.append(rest.as_str());
    proof {
        reveal_strlit(":");
        assert(s@ =~= spec_format_time(secs));
    }
    s
}

/// The tray title for each state: the tomato alone when idle or between
/// breaks, else a badge and the remaining time.
pub open spec fn spec_tray_title(st: TimerState) -> Seq<char> {
    match st {
        TimerState::PomodoroActive { remaining_secs, .. } => "🍅 "@ + spec_format_time(
            remaining_secs,
        ),
        TimerState::PomodoroPaused { remaining_secs, .. } => "⏸ "@ + spec_format_time(
            remaining_secs,
        ),
        TimerState::BreakActive { remaining_secs, .. } => "☕ "@ + spec_format_time(
            remaining_secs,
        ),
        _ => "🍅"@,
    }
}

/// Formats the tray title based on the current timer state.
pub fn format_tray_title(state: &TimerState) -> (r: String)
    ensures
        r@ == spec_tray_title(*state),
{
    match state {
        TimerState::PomodoroActive { remaining_secs, .. } => {
            let mut s = String::from_str("🍅 ");
            let t = format_time(*remaining_secs);
            s.append(t.as_str());
            s
        },
        TimerState::PomodoroPaused { remaining_secs, .. } => {
            let mut s = String::from_str("⏸ ");
            let t = format_time(*remaining_secs);
            s.append(t.as_str());
            s
        },
        TimerState::BreakActive { remaining_secs, .. } => {
            let mut s = String::from_str("☕ ");
            let t = format_time(*remaining_secs);
            s.append(t.as_str());
            s
        },
        _ => String::from_str("🍅"),
    }
}

/// One pass of the tick loop while holding the engine exclusively: run the
/// day-rollover check, tick once, and return the messages to send in
/// order — the completion event first, then the state change with its
/// fresh title. No tick is ever skipped or coalesced: each pass reports
/// exactly what its own tick produced.
pub fn timer_step(app: &mut App, today: Date) -> (msgs: Vec<TimerMessage>)
    requires
        old(app).wf(),
        old(app).state is PomodoroActive && old(app).state.spec_remaining() == Some(0u32)
            ==> session_has_room(
            spec_rollover(old(app).session, today),
            old(app).settings.pomodoro_mins,
        ),
    ensures
        ({
            let t = spec_tick(
                old(app).state,
                spec_rollover(old(app).session, today),
                old(app).settings,
                today,
            );
            &&& final(app).state == t.0
            &&& final(app).session == t.1
            &&& final(app).settings == old(app).settings
            &&& final(app).wf()
            &&& msgs@.len() == (if t.3 is Some {
                2int
            } else if t.2 {
                1int
            } else {
                0int
            })
            &&& (t.3 matches Some(ev) ==> msgs@[0] == TimerMessage::Completed(ev))
            &&& (t.2 ==> (msgs@[msgs@.len() - 1] matches TimerMessage::StateChanged { title }
                && title@ == spec_tray_title(t.0)))
        }),
{
    app.session.check_day_rollover(today);
    let (changed, completion) = app.tick(today);
    let mut msgs: Vec<TimerMessage> = Vec::new();
    if let Some(ev) = completion {
        msgs.push(TimerMessage::Completed(ev));
    }
    if changed {
        let title = format_tray_title(&app.state);
        msgs.push(TimerMessage::StateChanged { title });
    }
    msgs
}

} // verus!
