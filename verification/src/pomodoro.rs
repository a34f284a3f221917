//! Pomodoro sessions: their kind, how one starts and completes, and what
//! starting or completing one does to focus mode and tracking.
use vstd::prelude::*;

use crate::analytics::{activity_duration, seconds_between};
use crate::models::chars_are;
use crate::text::chars_of;

verus! {

/// The kind of a pomodoro session.
#[derive(Debug, Clone, Copy, PartialEq, Eq, Structural)]
pub enum PomodoroSessionType {
    Work,
    Break,
}

/// A pomodoro session; times are Unix milliseconds.
#[derive(Debug, Clone)]
pub struct PomodoroSession {
    pub id: u128,
    pub session_type: PomodoroSessionType,
    pub start_time: i64,
    pub end_time: Option<i64>,
    pub duration_minutes: i32,
    pub actual_duration_seconds: Option<i32>,
    pub work_description: Option<String>,
    pub completed: bool,
    pub focus_mode_enabled: bool,
    pub app_tracking_enabled: bool,
}

/// The session kind named "work" or "break".
pub open spec fn session_type_of(s: Seq<char>) -> Option<PomodoroSessionType> {
    if s == "work"@ {
        Some(PomodoroSessionType::Work)
    } else if s == "break"@ {
        Some(PomodoroSessionType::Break)
    } else {
        None
    }
}

/// Reads a session kind; any other name is refused.
pub fn parse_session_type(s: &str) -> (res: Result<PomodoroSessionType, String>)
    ensures
        match session_type_of(s@) {
            Some(t) => res == Ok::<PomodoroSessionType, String>(t),
            None => res is Err && res->Err_0@ == "Invalid session type"@,
        },
{
    let v = chars_of(s);
    if chars_are(&v, "work") {
        Ok(PomodoroSessionType::Work)
    } else if chars_are(&v, "break") {
        Ok(PomodoroSessionType::Break)
    } else {
        Err(String::from_str("Invalid session type"))
    }
}

/// The name under which a session kind is stored.
pub fn session_type_name(t: PomodoroSessionType) -> (res: &'static str)
    ensures
        res@ == match t {
            PomodoroSessionType::Work => "work"@,
            PomodoroSessionType::Break => "break"@,
        },
{
    match t {
        PomodoroSessionType::Work => "work",
        PomodoroSessionType::Break => "break",
    }
}

/// A session that starts at `now`: not ended, not completed, with no
/// measured duration.
pub fn start_session(
    id: u128,
    session_type: PomodoroSessionType,
    now: i64,
    duration_minutes: i32,
    work_description: Option<String>,
    enable_focus_mode: bool,
    enable_app_tracking: bool,
) -> (res: PomodoroSession)
    ensures
        res.id == id,
        res.session_type == session_type,
        res.start_time == now,
        res.end_time is None,
        res.duration_minutes == duration_minutes,
        res.actual_duration_seconds is None,
        res.work_description == work_description,
        !res.completed,
        res.focus_mode_enabled == enable_focus_mode,
        res.app_tracking_enabled == enable_app_tracking,
{
    PomodoroSession {
        id,
        session_type,
        start_time: now,
        end_time: None,
        duration_minutes,
        actual_duration_seconds: None,
        work_description,
        completed: false,
        focus_mode_enabled: enable_focus_mode,
        app_tracking_enabled: enable_app_tracking,
    }
}

/// Ends a session at `now`: it records the end, whether it was completed,
/// and the whole seconds it lasted (kept to 32 bits).
pub fn complete_session(session: &mut PomodoroSession, now: i64, completed: bool)
    ensures
        final(session).end_time == Some(now),
        final(session).completed == completed,
        final(session).actual_duration_seconds == Some(
            (seconds_between(old(session).start_time, now) as i64) as i32,
        ),
        final(session).id == old(session).id,
        final(session).session_type == old(session).session_type,
        final(session).start_time == old(session).start_time,
        final(session).duration_minutes == old(session).duration_minutes,
        final(session).work_description == old(session).work_description,
        final(session).focus_mode_enabled == old(session).focus_mode_enabled,
        final(session).app_tracking_enabled == old(session).app_tracking_enabled,
{
    let secs = activity_duration(session.start_time, Some(now), now);
    session.end_time = Some(now);
    session.completed = completed;
    session.actual_duration_seconds = Some(secs as i32);
}

/// What to do to focus mode and tracking around a session.
#[derive(Debug, Clone, Copy, PartialEq, Eq, Structural)]
pub struct SessionEffects {
    /// Turn focus mode on (when starting) or off (when completing).
    pub switch_focus_mode: bool,
    /// `Some(true)` starts tracking, `Some(false)` stops it, `None` leaves it.
    pub tracking: Option<bool>,
}

/// On start: focus mode comes on if the session asks for it; tracking is
/// started or stopped as the session asks.
pub fn effects_on_start(session: &PomodoroSession) -> (res: SessionEffects)
    ensures
        res.switch_focus_mode == session.focus_mode_enabled,
        res.tracking == Some(session.app_tracking_enabled),
{
    SessionEffects {
        switch_focus_mode: session.focus_mode_enabled,
        tracking: Some(session.app_tracking_enabled),
    }
}

/// On completion: focus mode goes off if the session had it on; tracking
/// stops if the session tracked applications.
pub fn effects_on_complete(session: &PomodoroSession) -> (res: SessionEffects)
    ensures
        res.switch_focus_mode == session.focus_mode_enabled,
        res.tracking == (if session.app_tracking_enabled {
            Some(false)
        } else {
            None
        }),
{
    SessionEffects {
        switch_focus_mode: session.focus_mode_enabled,
        tracking: if session.app_tracking_enabled {
            Some(false)
        } else {
            None
        },
    }
}

} // verus!
