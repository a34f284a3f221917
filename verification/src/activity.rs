//! The decisions of the activity-tracking loop: whether what is in front now
//! continues the ongoing activity, ends it, or starts a new one.
use vstd::prelude::*;

use crate::models::{ActivityCategory, ActivityEntry};
use crate::tracker::{opt_view, CurrentActivity};

verus! {

/// What the tracking loop does with the store after one observation.
#[derive(Debug, Clone, Copy, PartialEq, Eq, Structural)]
pub enum ActivityAction {
    /// Nothing is in front and nothing is going on.
    Nothing,
    /// The ongoing activity continues.
    Keep,
    /// Nothing goes on: start an activity for what is in front.
    Start,
    /// Something else is in front: end the ongoing activity and start one.
    EndAndStart,
    /// Nothing is in front: end the ongoing activity.
    End,
}

/// Two activities are the same when application, window title and address
/// agree.
pub open spec fn same_activity(ongoing: ActivityEntry, current: CurrentActivity) -> bool {
    &&& ongoing.app_name@ == current.app_name@
    &&& ongoing.window_title@ == current.window_title@
    &&& opt_view(ongoing.url) == opt_view(current.url)
}

/// The action for an observation (`None`: nothing in front) and the ongoing
/// activity, if any.
pub open spec fn step_of(current: Option<CurrentActivity>, ongoing: Option<ActivityEntry>) -> ActivityAction {
    match current {
        None => if ongoing is Some {
            ActivityAction::End
        } else {
            ActivityAction::Nothing
        },
        Some(c) => match ongoing {
            None => ActivityAction::Start,
            Some(o) => if same_activity(o, c) {
                ActivityAction::Keep
            } else {
                ActivityAction::EndAndStart
            },
        },
    }
}

/// Whether two optional strings are equal.
fn opt_string_eq(a: &Option<String>, b: &Option<String>) -> (res: bool)
    ensures
        res == (opt_view(*a) == opt_view(*b)),
{
    match (a, b) {
        (Some(x), Some(y)) => x.eq(y),
        (None, None) => true,
        _ => false,
    }
}

/// Whether what is in front continues the ongoing activity.
pub fn is_same_activity(ongoing: &ActivityEntry, current: &CurrentActivity) -> (res: bool)
    ensures
        res == same_activity(*ongoing, *current),
{
    ongoing.app_name.eq(&current.app_name) && ongoing.window_title.eq(&current.window_title)
        && opt_string_eq(&ongoing.url, &current.url)
}

/// The action after observing `current` while `ongoing` goes on.
pub fn activity_step(current: Option<&CurrentActivity>, ongoing: Option<&ActivityEntry>) -> (res:
    ActivityAction)
    ensures
        res == step_of(
            match current {
                Some(c) => Some(*c),
                None => None,
            },
            match ongoing {
                Some(o) => Some(*o),
                None => None,
            },
        ),
{
    match current {
        None => if ongoing.is_some() {
            ActivityAction::End
        } else {
            ActivityAction::Nothing
        },
        Some(c) => match ongoing {
            None => ActivityAction::Start,
            Some(o) => if is_same_activity(o, c) {
                ActivityAction::Keep
            } else {
                ActivityAction::EndAndStart
            },
        },
    }
}

/// The entry that starts an activity for what is in front: it begins at
/// `start_time`, has not ended, and has no segments yet.
pub fn new_activity_entry(
    id: u128,
    start_time: i64,
    current: &CurrentActivity,
    category: ActivityCategory,
) -> (res: ActivityEntry)
    ensures
        res.id == id,
        res.start_time == start_time,
        res.end_time is None,
        res.app_name@ == current.app_name@,
        opt_view(res.app_bundle_id) == opt_view(current.app_bundle_id),
        res.window_title@ == current.window_title@,
        opt_view(res.url) == opt_view(current.url),
        res.category == category,
        res.segments@.len() == 0,
{
    ActivityEntry {
        id,
        start_time,
        end_time: None,
        app_name: current.app_name.clone(),
        app_bundle_id: current.app_bundle_id.clone(),
        window_title: current.window_title.clone(),
        url: current.url.clone(),
        category,
        segments: Vec::new(),
    }
}

} // verus!
