//! Menu command handling: the text identifiers the front end's menu emits
//! are matched and parsed here, and dispatched onto the engine. The whole
//! command vocabulary is the engine's seven operations plus the settings
//! edits.

use vstd::prelude::*;
use vstd::string::StrSliceExecFns;
use crate::app::{
    App, CompletionEvent, spec_complete_early, spec_pause, spec_resume, spec_skip, spec_start,
};
use crate::clock::Date;
use crate::models::{MAX_MINUTES, Session, Settings, TimerState, session_has_room, spec_rollover};

verus! {

/// Result of handling a menu event.
#[derive(Debug, Clone, PartialEq, Eq, Structural)]
pub enum EventResult {
    /// Event handled, continue running.
    Continue,
    /// User requested quit.
    Quit,
    /// State changed, menu needs an update.
    StateChanged,
    /// Settings changed, menu needs a rebuild.
    SettingsChanged,
    /// State changed with a completion event to render.
    StateChangedWithCompletion(CompletionEvent),
}

/// Character-for-character equality of two text slices.
fn str_eq(a: &str, b: &str) -> (r: bool)
    ensures
        r == (a@ == b@),
{
    let alen = a.unicode_len();
    let blen = b.unicode_len();
    if alen != blen {
        return false;
    }
    let mut i: usize = 0;
    while i < alen
        invariant
            i <= alen,
            alen == a@.len(),
            blen == b@.len(),
            alen == blen,
            forall|j: int| 0 <= j < i ==> a@[j] == b@[j],
        decreases alen - i,
    {
        if a.get_char(i) != b.get_char(i) {
            return false;
        }
        i = i + 1;
    }
    proof {
        assert(a@ =~= b@);
    }
    true
}

/// True when `s` starts with `prefix`.
fn has_prefix(s: &str, prefix: &str) -> (r: bool)
    ensures
        r == (s@.len() >= prefix@.len() && s@.subrange(0, prefix@.len() as int) == prefix@),
{
    let plen = prefix.unicode_len();
    let slen = s.unicode_len();
    if slen < plen {
        return false;
    }
    let mut i: usize = 0;
    while i < plen
        invariant
            i <= plen,
            plen == prefix@.len(),
            slen == s@.len(),
            slen >= plen,
            forall|j: int| 0 <= j < i ==> s@[j] == prefix@[j],
        decreases plen - i,
    {
        if s.get_char(i) != prefix.get_char(i) {
            proof {
                assert(s@.subrange(0, plen as int)[i as int] != prefix@[i as int]);
            }
            return false;
        }
        i = i + 1;
    }
    proof {
        assert(s@.subrange(0, plen as int) =~= prefix@);
    }
    true
}

/// A decimal digit character.
pub open spec fn is_digit(c: char) -> bool {
    48 <= c as int <= 57
}

/// The number a digit sequence denotes (meaningful when all characters are
/// digits).
pub open spec fn digits_val(s: Seq<char>) -> int
    decreases s.len(),
{
    if s.len() == 0 {
        0
    } else {
        digits_val(s.drop_last()) * 10 + (s.last() as int - 48)
    }
}

pub open spec fn all_digits(s: Seq<char>) -> bool {
    forall|i: int| 0 <= i < s.len() ==> is_digit(s[i])
}

/// What parsing a decimal number accepts: a non-empty run of digits whose
/// value fits in a `u32` (leading zeros allowed, as the menu never emits
/// them anyway).
pub open spec fn spec_parse_u32(s: Seq<char>) -> Option<u32> {
    if s.len() > 0 && all_digits(s) && digits_val(s) <= u32::MAX {
        Some(digits_val(s) as u32)
    } else {
        None
    }
}

proof fn lemma_digits_val_nonneg(s: Seq<char>)
    requires
        all_digits(s),
    ensures
        digits_val(s) >= 0,
    decreases s.len(),
{
    if s.len() > 0 {
        assert(all_digits(s.drop_last()));
        lemma_digits_val_nonneg(s.drop_last());
        assert(is_digit(s.last()));
    }
}

/// A prefix of a digit run never denotes more than the whole run.
proof fn lemma_digits_val_prefix_le(s: Seq<char>, i: int)
    requires
        all_digits(s),
        0 <= i <= s.len(),
    ensures
        digits_val(s.take(i)) <= digits_val(s),
    decreases s.len() - i,
{
    if i < s.len() {
        lemma_digits_val_prefix_le(s, i + 1);
        assert(s.take(i + 1).drop_last() =~= s.take(i));
        assert(s.take(i + 1).last() == s[i]);
        assert(all_digits(s.take(i)));
        lemma_digits_val_nonneg(s.take(i));
        assert(digits_val(s.take(i + 1)) == digits_val(s.take(i)) * 10 + (s[i] as int - 48));
    } else {
        assert(s.take(i) =~= s);
    }
}

/// Parses a non-negative decimal number, rejecting anything that is not a
/// digit run fitting in a `u32`.
pub fn parse_u32(s: &str) -> (r: Option<u32>)
    ensures
        r == spec_parse_u32(s@),
{
    let len = s.unicode_len();
    if len == 0 {
        return None;
    }
    let mut val: u32 = 0;
    let mut i: usize = 0;
    while i < len
        invariant
            0 < len == s@.len(),
            i <= len,
            all_digits(s@.take(i as int)),
            val == digits_val(s@.take(i as int)),
        decreases len - i,
    {
        let c = s.get_char(i);
        let v = c as u32;
        if v < 48 || v > 57 {
            proof {
                assert(!is_digit(s@[i as int]));
            }
            return None;
        }
        let d = v - 48;
        let nv: u64 = (val as u64) * 10 + (d as u64);
        proof {
            assert(s@.take(i as int + 1).drop_last() =~= s@.take(i as int));
            assert(s@.take(i as int + 1).last() == s@[i as int]);
            assert(all_digits(s@.take(i as int + 1)));
        }
        if nv > 0xffff_ffff {
            proof {
                if all_digits(s@) {
                    lemma_digits_val_prefix_le(s@, i as int + 1);
                }
            }
            return None;
        }
        val = nv as u32;
        i = i + 1;
    }
    proof {
        assert(s@.take(len as int) =~= s@);
    }
    Some(val)
}

/// The number behind a prefixed identifier: `id` must start with the
/// prefix and the rest must parse as a decimal `u32`.
pub open spec fn spec_suffix_num(id: Seq<char>, p: Seq<char>) -> Option<u32> {
    if id.len() >= p.len() && id.subrange(0, p.len() as int) == p {
        spec_parse_u32(id.skip(p.len() as int))
    } else {
        None
    }
}

/// The number behind a prefixed identifier, or `None` when the prefix or
/// the number is missing.
fn prefixed_num(id: &str, prefix: &str) -> (r: Option<u32>)
    ensures
        r == spec_suffix_num(id@, prefix@),
{
    if has_prefix(id, prefix) {
        let suffix = id.substring_char(prefix.unicode_len(), id.unicode_len());
        proof {
            assert(suffix@ =~= id@.skip(prefix@.len() as int));
        }
        parse_u32(suffix)
    } else {
        None
    }
}

/// What a settings-submenu identifier does to the settings: each prefix
/// names the field its number is written to. A duration too large for a
/// `u32` second count is ignored; the threshold takes any number.
pub open spec fn spec_duration_change(set: Settings, id: Seq<char>) -> Option<Settings> {
    let pomo = spec_suffix_num(id, "pomo_"@);
    let short = spec_suffix_num(id, "short_"@);
    let long = spec_suffix_num(id, "long_"@);
    let thresh = spec_suffix_num(id, "thresh_"@);
    if pomo is Some && pomo->0 <= MAX_MINUTES {
        Some(Settings { pomodoro_mins: pomo->0, ..set })
    } else if short is Some && short->0 <= MAX_MINUTES {
        Some(Settings { short_break_mins: short->0, ..set })
    } else if long is Some && long->0 <= MAX_MINUTES {
        Some(Settings { long_break_mins: long->0, ..set })
    } else if thresh is Some {
        Some(Settings { pomodoros_for_long_break: thresh->0, ..set })
    } else {
        None
    }
}

/// What one menu command does: the state, session and settings afterward,
/// and the result handed back to the front end. Unknown identifiers change
/// nothing. The identifiers are checked in a fixed order; they are
/// mutually exclusive anyway.
pub open spec fn spec_handle_command(
    st: TimerState,
    se: Session,
    set: Settings,
    id: Seq<char>,
    today: Date,
) -> (TimerState, Session, Settings, EventResult) {
    if id == "start"@ {
        (spec_start(set), se, set, EventResult::StateChanged)
    } else if id == "pause"@ {
        (spec_pause(st), se, set, EventResult::StateChanged)
    } else if id == "resume"@ {
        (spec_resume(st), se, set, EventResult::StateChanged)
    } else if id == "stop"@ {
        (TimerState::Idle, se, set, EventResult::StateChanged)
    } else if id == "complete"@ {
        let (st2, se2, ev) = spec_complete_early(st, se, set, today);
        (
            st2,
            se2,
            set,
            match ev {
                Some(e) => EventResult::StateChangedWithCompletion(e),
                None => EventResult::Continue,
            },
        )
    } else if id == "skip_break"@ {
        (spec_skip(st), se, set, EventResult::StateChanged)
    } else if id == "sound_toggle"@ {
        (st, se, Settings { sound_enabled: !set.sound_enabled, ..set }, EventResult::Continue)
    } else if id == "notif_toggle"@ {
        (
            st,
            se,
            Settings { notifications_enabled: !set.notifications_enabled, ..set },
            EventResult::Continue,
        )
    } else if id == "reset_count"@ {
        (
            st,
            Session {
                pomodoros_completed_today: 0u32,
                total_focus_mins_today: 0u32,
                pomodoros_in_cycle: 0u32,
                last_date: se.last_date,
            },
            set,
            EventResult::StateChanged,
        )
    } else if id == "quit"@ {
        (st, se, set, EventResult::Quit)
    } else {
        match spec_duration_change(set, id) {
            Some(ns) => (st, se, ns, EventResult::SettingsChanged),
            None => (st, se, set, EventResult::Continue),
        }
    }
}

/// Handles a duration or threshold change coming from the settings
/// submenus, exactly as [`spec_duration_change`] says; returns `None` for
/// identifiers it does not recognize.
fn handle_duration_change(app: &mut App, id: &str) -> (r: Option<EventResult>)
    requires
        old(app).wf(),
    ensures
        final(app).state == old(app).state,
        final(app).session == old(app).session,
        final(app).wf(),
        match spec_duration_change(old(app).settings, id@) {
            Some(ns) => final(app).settings == ns && r == Some(EventResult::SettingsChanged),
            None => final(app).settings == old(app).settings && r is None,
        },
{
    let pomo = prefixed_num(id, "pomo_");
    let short = prefixed_num(id, "short_");
    let long = prefixed_num(id, "long_");
    let thresh = prefixed_num(id, "thresh_");
    if pomo.is_some() && pomo.unwrap() <= MAX_MINUTES {
        let mut ns = app.settings;
        ns.pomodoro_mins = pomo.unwrap();
        app.set_settings(ns);
        Some(EventResult::SettingsChanged)
    } else if short.is_some() && short.unwrap() <= MAX_MINUTES {
        let mut ns = app.settings;
        ns.short_break_mins = short.unwrap();
        app.set_settings(ns);
        Some(EventResult::SettingsChanged)
    } else if long.is_some() && long.unwrap() <= MAX_MINUTES {
        let mut ns = app.settings;
        ns.long_break_mins = long.unwrap();
        app.set_settings(ns);
        Some(EventResult::SettingsChanged)
    } else if thresh.is_some() {
        let mut ns = app.settings;
        ns.pomodoros_for_long_break = thresh.unwrap();
        app.set_settings(ns);
        Some(EventResult::SettingsChanged)
    } else {
        None
    }
}

/// Handles one menu command against the engine, exactly as
/// [`spec_handle_command`] says: each identifier maps to one engine
/// operation, unknown identifiers change nothing, and the result tells the
/// front end what to refresh.
pub fn handle_menu_event(app: &mut App, id: &str, today: Date) -> (r: EventResult)
    requires
        old(app).wf(),
        id@ == "complete"@ && old(app).state is PomodoroActive ==> session_has_room(
            spec_rollover(old(app).session, today),
            old(app).settings.pomodoro_mins,
        ),
    ensures
        ({
            let t = spec_handle_command(
                old(app).state,
                old(app).session,
                old(app).settings,
                id@,
                today,
            );
            final(app).state == t.0 && final(app).session == t.1 && final(app).settings == t.2
                && r == t.3
        }),
        final(app).wf(),
{
    if str_eq(id, "start") {
        app.start_pomodoro();
        EventResult::StateChanged
    } else if str_eq(id, "pause") {
        app.pause();
        EventResult::StateChanged
    } else if str_eq(id, "resume") {
        app.resume();
        EventResult::StateChanged
    } else if str_eq(id, "stop") {
        app.stop();
        EventResult::StateChanged
    } else if str_eq(id, "complete") {
        match app.complete_early(today) {
            Some(ev) => EventResult::StateChangedWithCompletion(ev),
            None => EventResult::Continue,
        }
    } else if str_eq(id, "skip_break") {
        app.skip_break();
        EventResult::StateChanged
    } else if str_eq(id, "sound_toggle") {
        let mut ns = app.settings;
        ns.sound_enabled = !ns.sound_enabled;
        app.set_settings(ns);
        EventResult::Continue
    } else if str_eq(id, "notif_toggle") {
        let mut ns = app.settings;
        ns.notifications_enabled = !ns.notifications_enabled;
        app.set_settings(ns);
        EventResult::Continue
    } else if str_eq(id, "reset_count") {
        app.reset_today(today);
        EventResult::StateChanged
    } else if str_eq(id, "quit") {
        EventResult::Quit
    } else {
        match handle_duration_change(app, id) {
            Some(res) => res,
            None => EventResult::Continue,
        }
    }
}

} // verus!
