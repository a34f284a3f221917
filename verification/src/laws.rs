//! Properties that hold across the library's operations.
use vstd::prelude::*;

use crate::activity::{same_activity, step_of, ActivityAction};
use crate::analytics::{clip_spec, seconds_between};
use crate::categorize::{
    alternative_matches, app_patterns, categorize_spec, first_match, lemma_first_match, pattern_matches,
    url_patterns,
};
use crate::focus::{
    block_step, cache_lookup, category_decision, CacheManager, focus_allowed, focus_targets, is_velosi,
    CacheLookup, VerdictKind, BLOCK_MEMORY_NS, BLOCK_REPEAT_NS,
};
use crate::keyed::{age, keep_recent};
use crate::migrations::{migrations_spec, pending_spec};
use crate::models::{category_of_mapping_id, ActivityEntry, AppMapping, CategoryKind, UrlMapping};
use crate::proxy::{
    blocked_domain_list, domain_blocked, host_name, log_after, proxy_step, ProxyStep, MAX_PROXY_LOGS,
};
use crate::tracker::windows_app_name;
use crate::tray::{action_of, pause_options_spec, TrayAction};
use crate::text::{digits_value, has_substring, has_suffix, is_digit, lowercase_of, split_char, trim};
use crate::tracker::{opt_view, CurrentActivity};
use crate::tracking::{
    pause_info_spec, paused_state, seconds_until_tomorrow_spec, DAY_MS, resumed_state, toggled, TrackingState, NANOS_PER_SEC,
};

verus! {

// ---------------------------------------------------------------------------
// Tracking and pauses
// ---------------------------------------------------------------------------

/// Resuming after any pause leaves tracking on with no pause pending, so no
/// pause is reported; while paused, a pause is reported.
pub proof fn law_resume_after_pause(now: u64, d: Option<u64>)
    ensures
        pause_info_spec(paused_state(now, d), now) is Some,
        resumed_state().is_tracking,
        pause_info_spec(resumed_state(), now) is None,
{
}

/// Toggling twice restores the state.
pub proof fn law_toggle_twice(s: TrackingState)
    ensures
        toggled(toggled(s)) == s,
{
}

/// Right after a timed pause of `d` seconds, exactly `d` seconds are
/// reported left; an indefinite pause is reported as indefinite.
pub proof fn law_pause_reports_duration(now: u64, d: u64)
    ensures
        pause_info_spec(paused_state(now, Some(d)), now) == Some((d, false)),
        pause_info_spec(paused_state(now, None), now) == Some((0u64, true)),
{
    assert((d * NANOS_PER_SEC) / (NANOS_PER_SEC as int) == d) by (nonlinear_arith);
    assert(d * NANOS_PER_SEC >= 0) by (nonlinear_arith);
    if d > 0 {
        assert(d * NANOS_PER_SEC > 0) by (nonlinear_arith)
            requires
                d > 0,
        ;
    }
}

/// A timed pause of `d` seconds started at `now` is over at `later` exactly
/// when `d` seconds have passed; an indefinite pause never ends by itself.
pub proof fn law_timed_pause_ends(now: u64, d: u64, later: u64)
    ensures
        match paused_state(now, Some(d)).pause_until {
            Some(t) => (later >= t <==> later - now >= d * NANOS_PER_SEC),
            None => false,
        },
        paused_state(now, None).pause_until is None,
{
    assert(d * NANOS_PER_SEC >= 0) by (nonlinear_arith);
    assert(d * NANOS_PER_SEC <= u64::MAX * NANOS_PER_SEC) by (nonlinear_arith);
}

// ---------------------------------------------------------------------------
// Focus mode
// ---------------------------------------------------------------------------

/// An application allowed without expiry, or until after `now`, is allowed
/// at `now`; once its time has passed it is expired; once removed it is
/// missing; other applications are not affected.
pub proof fn law_allowed_app_lookup(
    m: Map<Seq<char>, Option<i64>>,
    app: Seq<char>,
    other: Seq<char>,
    expires_at: Option<i64>,
    now: i64,
)
    requires
        other != app,
    ensures
        cache_lookup(m.insert(app, expires_at), app, now) == (match expires_at {
            Some(e) => if e > now {
                CacheLookup::Allowed
            } else {
                CacheLookup::Expired
            },
            None => CacheLookup::Allowed,
        }),
        cache_lookup(m.remove(app), app, now) == CacheLookup::Missing,
        cache_lookup(m.insert(app, expires_at), other, now) == cache_lookup(m, other, now),
        cache_lookup(m.remove(app), other, now) == cache_lookup(m, other, now),
{
}

/// With focus mode off every application is allowed; Velosi itself and
/// applications the database allows are always allowed.
pub proof fn law_focus_allows(
    focus_enabled: bool,
    app: Seq<char>,
    bundle: Option<Seq<char>>,
    db_allowed: bool,
    allowed: Seq<Seq<char>>,
    maps: Seq<AppMapping>,
)
    ensures
        !focus_enabled ==> focus_allowed(focus_enabled, app, bundle, db_allowed, allowed, maps),
        is_velosi(app, bundle) ==> focus_allowed(focus_enabled, app, bundle, db_allowed, allowed, maps),
        db_allowed ==> focus_allowed(focus_enabled, app, bundle, db_allowed, allowed, maps),
{
}

/// A focus check in two steps (`FocusMode::begin_check` on the cache, then
/// `FocusMode::check_and_block_app` with the database's answer and the
/// category decision) allows exactly the applications that
/// `check_app_focus_allowed` allows on the same state, as long as the cache
/// holds only applications that the database allows.
pub proof fn law_focus_check_agrees(
    cache: CacheManager,
    app: Seq<char>,
    bundle: Option<Seq<char>>,
    now: i64,
    db_allowed: bool,
    maps: Seq<AppMapping>,
)
    requires
        cache_lookup(cache.allowed(), app, now) == CacheLookup::Allowed ==> db_allowed,
    ensures
        ((!cache.enabled() || is_velosi(app, bundle) || cache_lookup(cache.allowed(), app, now)
            == CacheLookup::Allowed) || db_allowed || category_decision(
            focus_targets(app, bundle),
            cache.categories(),
            maps,
        ) is Allowed) == focus_allowed(cache.enabled(), app, bundle, db_allowed, cache.categories(), maps),
{
}

/// With focus mode on and no category allowed, every application that is
/// neither Velosi nor allowed by the database is blocked.
pub proof fn law_no_categories_blocks(
    app: Seq<char>,
    bundle: Option<Seq<char>>,
    maps: Seq<AppMapping>,
)
    requires
        !is_velosi(app, bundle),
    ensures
        !focus_allowed(true, app, bundle, false, Seq::empty(), maps),
        category_decision(focus_targets(app, bundle), Seq::empty(), maps) == VerdictKind::NoCategoriesAllowed,
{
}

/// Once a block of `app` is reported at `now`, another block of it less
/// than ten seconds later is not reported again.
pub proof fn law_block_repeat_silenced(m: Map<Seq<char>, u64>, app: Seq<char>, now: u64, later: u64)
    requires
        block_step(m, app, now).1,
        now <= later,
        later - now < BLOCK_REPEAT_NS,
    ensures
        block_step(block_step(m, app, now).0, app, later).1 == false,
{
    let first = block_step(m, app, now).0;
    assert(first.dom().contains(app) && first[app] == now);
    assert(age(later, now) == later - now);
}

// ---------------------------------------------------------------------------
// Categories
// ---------------------------------------------------------------------------

/// A URL mapping that matches decides the category, whatever the
/// application mappings say; without any mapping the category is unknown.
pub proof fn law_url_mapping_first(
    app_name: Seq<char>,
    url: Seq<char>,
    url_maps: Seq<UrlMapping>,
    app_maps: Seq<AppMapping>,
    i: int,
)
    requires
        first_match(url_patterns(url_maps), seq![lowercase_of(url)]) == Some(i),
    ensures
        categorize_spec(app_name, Some(url), url_maps, app_maps) == category_of_mapping_id(
            url_maps[i].category_id@,
        ),
        categorize_spec(app_name, Some(url), Seq::empty(), Seq::empty()) == CategoryKind::Unknown,
        categorize_spec(app_name, None, Seq::empty(), Seq::empty()) == CategoryKind::Unknown,
{
    assert(crate::categorize::url_patterns(Seq::<UrlMapping>::empty()) =~= Seq::<Seq<char>>::empty());
    assert(crate::categorize::app_patterns(Seq::<AppMapping>::empty()) =~= Seq::<Seq<char>>::empty());
}

// ---------------------------------------------------------------------------
// Activities and timelines
// ---------------------------------------------------------------------------

/// An entry started for what is in front is the same activity as it, so the
/// next observation of the same thing keeps it; nothing in front ends any
/// ongoing activity.
pub proof fn law_started_activity_continues(e: ActivityEntry, c: CurrentActivity)
    requires
        e.app_name@ == c.app_name@,
        e.window_title@ == c.window_title@,
        opt_view(e.url) == opt_view(c.url),
    ensures
        same_activity(e, c),
        step_of(Some(c), Some(e)) == ActivityAction::Keep,
        step_of(None, Some(e)) == ActivityAction::End,
        step_of(Some(c), None) == ActivityAction::Start,
{
}

/// A clipped activity lies inside the window, starts no earlier than the
/// activity, and lasts a nonnegative number of seconds.
pub proof fn law_clip_within_window(start: i64, end: Option<i64>, window_start: i64, now: i64)
    ensures
        match clip_spec(start, end, window_start, now) {
            Some((s, e)) => window_start <= s && start <= s && s < e && e <= now && seconds_between(s, e)
                >= 0,
            None => true,
        },
{
}

// ---------------------------------------------------------------------------
// Schema
// ---------------------------------------------------------------------------

/// A new database needs every migration, in order; a database that
/// recorded every version needs none.
pub proof fn law_migrations_pending(applied: Seq<i32>)
    requires
        forall|k: int| 0 <= k < migrations_spec().len() ==> applied.contains(#[trigger] migrations_spec()[k].0),
    ensures
        pending_spec(migrations_spec(), Seq::empty()) == migrations_spec(),
        pending_spec(migrations_spec(), applied).len() == 0,
        forall|i: int, j: int|
            0 <= i < j < migrations_spec().len() ==> #[trigger] migrations_spec()[i].0 < #[trigger] migrations_spec()[j].0,
{
    let all = migrations_spec();
    reveal_with_fuel(pending_spec, 6);
    assert(applied.contains(all[0].0));
    assert(applied.contains(all[1].0));
    assert(applied.contains(all[2].0));
    assert(applied.contains(all[3].0));
    assert(applied.contains(all[4].0));
    assert(all.drop_last() =~= all.take(4));
    assert(all.take(4).drop_last() =~= all.take(3));
    assert(all.take(3).drop_last() =~= all.take(2));
    assert(all.take(2).drop_last() =~= all.take(1));
    assert(all.take(1).drop_last() =~= all.take(0));
    assert(pending_spec(all, Seq::empty()) =~= all);
}

// ---------------------------------------------------------------------------
// Proxy log
// ---------------------------------------------------------------------------

/// Appending to the log keeps the newest line last and never leaves more
/// than a hundred; below the limit nothing is dropped.
pub proof fn law_log_keeps_newest(log: Seq<Seq<char>>, line: Seq<char>)
    requires
        log.len() <= MAX_PROXY_LOGS,
    ensures
        log_after(log, line).last() == line,
        log_after(log, line).len() <= MAX_PROXY_LOGS,
        log.len() < MAX_PROXY_LOGS ==> log_after(log, line) == log.push(line),
{
}


// ---------------------------------------------------------------------------
// Proxy
// ---------------------------------------------------------------------------

/// Whatever the block list, the proxy refuses exactly the hosts it blocks:
/// it never tunnels to or forwards to a blocked host, and refuses only
/// blocked ones.
pub proof fn law_proxy_refuses_blocked(request: Seq<char>, blocked: Seq<Seq<char>>)
    ensures
        match proxy_step(request, blocked) {
            ProxyStep::Block(h) => domain_blocked(h, blocked),
            ProxyStep::Tunnel(h) => !domain_blocked(h, blocked),
            ProxyStep::Forward(h) => !domain_blocked(h, blocked),
            ProxyStep::BadRequest => true,
        },
{
}


// ---------------------------------------------------------------------------
// Focus mode matches bundle identifiers
// ---------------------------------------------------------------------------

/// An application is recognised by its bundle identifier as well as by its
/// name: when an alternative of the `i`-th mapping's pattern (trimmed and
/// lowercased) occurs in the lowercased bundle identifier, and no alternative
/// of an earlier mapping occurs in the lowercased name or bundle identifier,
/// the category decision is the `i`-th mapping's category.
pub proof fn law_bundle_id_selects_mapping(
    app: Seq<char>,
    b: Seq<char>,
    allowed: Seq<Seq<char>>,
    maps: Seq<AppMapping>,
    i: int,
    k: int,
)
    requires
        0 <= i < maps.len(),
        0 <= k < split_char(maps[i].app_pattern@, '|').len(),
        has_substring(lowercase_of(b), lowercase_of(trim(split_char(maps[i].app_pattern@, '|')[k]))),
        forall|j: int, a: int|
            0 <= j < i && 0 <= a < split_char(maps[j].app_pattern@, '|').len() ==> {
                let alt = lowercase_of(trim(#[trigger] split_char(maps[j].app_pattern@, '|')[a]));
                !has_substring(lowercase_of(app), alt) && !has_substring(lowercase_of(b), alt)
            },
    ensures
        category_decision(focus_targets(app, Some(b)), allowed, maps) == (if allowed.len() == 0 {
            VerdictKind::NoCategoriesAllowed
        } else if allowed.contains(maps[i].category_id@) {
            VerdictKind::Allowed
        } else {
            VerdictKind::CategoryNotAllowed(maps[i].category_id@)
        }),
{
    let targets = focus_targets(app, Some(b));
    let pats = app_patterns(maps);
    assert(targets[0] == lowercase_of(app));
    assert(targets[1] == lowercase_of(b));
    assert(pats[i] == maps[i].app_pattern@);
    assert(alternative_matches(targets, split_char(pats[i], '|')[k]));
    assert(pattern_matches(targets, pats[i]));
    assert forall|j: int| 0 <= j < i implies !pattern_matches(targets, #[trigger] pats[j]) by {
        assert(pats[j] == maps[j].app_pattern@);
        if pattern_matches(targets, pats[j]) {
            let a = choose|a: int|
                0 <= a < split_char(pats[j], '|').len() && alternative_matches(
                    targets,
                    #[trigger] split_char(pats[j], '|')[a],
                );
            let alt = lowercase_of(trim(split_char(maps[j].app_pattern@, '|')[a]));
            let t = choose|t: int| 0 <= t < targets.len() && has_substring(#[trigger] targets[t], alt);
            assert(t == 0 || t == 1);
            assert(false);
        }
    }
    lemma_first_match(pats, targets, i);
}

// ---------------------------------------------------------------------------
// The tracking loop keeps only the same activity
// ---------------------------------------------------------------------------

/// With an activity going on and something in front, the ongoing activity is
/// kept exactly when application name, window title and address all agree;
/// otherwise it is ended and a new one started. In particular another
/// application in front always ends the ongoing activity.
pub proof fn law_keep_only_identical_activity(c: CurrentActivity, o: ActivityEntry)
    ensures
        (step_of(Some(c), Some(o)) == ActivityAction::Keep) <==> (o.app_name@ == c.app_name@
            && o.window_title@ == c.window_title@ && opt_view(o.url) == opt_view(c.url)),
        step_of(Some(c), Some(o)) == ActivityAction::Keep || step_of(Some(c), Some(o))
            == ActivityAction::EndAndStart,
        o.app_name@ != c.app_name@ ==> step_of(Some(c), Some(o)) == ActivityAction::EndAndStart,
{
}

// ---------------------------------------------------------------------------
// Pause items last what their labels say
// ---------------------------------------------------------------------------

/// Seconds in the time unit a pause label names.
pub open spec fn unit_seconds(unit: Seq<char>) -> int {
    if unit == "minute"@ || unit == "minutes"@ {
        60
    } else if unit == "hour"@ || unit == "hours"@ {
        3600
    } else {
        0
    }
}

/// The label reads "Pause for <number> <unit>" and names `secs` seconds.
pub open spec fn label_names_seconds(label: Seq<char>, secs: int) -> bool {
    exists|num: Seq<char>, unit: Seq<char>|
        #![trigger digits_value(num), unit_seconds(unit)]
        {
            &&& label == "Pause for "@ + num + " "@ + unit
            &&& num.len() > 0
            &&& forall|d: int| 0 <= d < num.len() ==> is_digit(#[trigger] num[d])
            &&& unit_seconds(unit) > 0
            &&& secs == digits_value(num) * unit_seconds(unit)
        }
}

/// Shows that "Pause for <num> <unit>" names `num` times `unit` seconds.
proof fn lemma_label(num: Seq<char>, unit: Seq<char>, label: Seq<char>, secs: int)
    requires
        label == "Pause for "@ + num + " "@ + unit,
        num.len() > 0,
        forall|d: int| 0 <= d < num.len() ==> is_digit(#[trigger] num[d]),
        unit_seconds(unit) > 0,
        secs == digits_value(num) * unit_seconds(unit),
    ensures
        label_names_seconds(label, secs),
{
}

/// Every item of the pause menu does what its label says, whenever it is
/// chosen: an item labelled "Pause for <number> <unit>" pauses for that many
/// minutes or hours, "Pause until tomorrow" pauses until the next midnight
/// UTC (resuming within the last second before it), and "Pause
/// indefinitely" pauses until tracking is resumed.
pub proof fn law_pause_items_match_labels(now_ms: i64, i: int)
    requires
        0 <= i < pause_options_spec().len(),
    ensures
        ({
            let (id, label, _) = pause_options_spec()[i];
            match action_of(id, now_ms) {
                TrayAction::Pause(Some(s)) => if label == "Pause until tomorrow"@ {
                    &&& (now_ms % DAY_MS) + s * 1000 <= DAY_MS
                    &&& DAY_MS < (now_ms % DAY_MS) + s * 1000 + 1000
                } else {
                    label_names_seconds(label, s as int)
                },
                TrayAction::Pause(None) => label == "Pause indefinitely"@,
                _ => false,
            }
        }),
{
    reveal_strlit("Pause for ");
    reveal_strlit(" ");
    reveal_strlit("minute");
    reveal_strlit("minutes");
    reveal_strlit("hour");
    reveal_strlit("hours");
    reveal_strlit("Pause for 1 minute");
    reveal_strlit("Pause for 5 minutes");
    reveal_strlit("Pause for 30 minutes");
    reveal_strlit("Pause for 1 hour");
    reveal_strlit("Pause until tomorrow");
    reveal_strlit("Pause indefinitely");
    reveal_strlit("pause_1min");
    reveal_strlit("pause_5min");
    reveal_strlit("pause_30min");
    reveal_strlit("pause_1hour");
    reveal_strlit("pause_until_tomorrow");
    reveal_strlit("pause_indefinitely");
    reveal_strlit("toggle");
    reveal_strlit("focus_toggle");
    reveal_strlit("dashboard");
    reveal_strlit("quit");
    let (id, label, _) = pause_options_spec()[i];
    if i == 0 {
        assert(id == "pause_1min"@);
        assert(label == "Pause for 1 minute"@);
        assert(label.len() != "Pause until tomorrow"@.len());
        assert(id.len() != "toggle"@.len());
        assert(id.len() != "focus_toggle"@.len());
        assert(id.len() != "dashboard"@.len());
        let num = seq!['1'];
        assert(digits_value(num) == 1) by {
            assert(num.drop_last() =~= Seq::<char>::empty());
            assert(digits_value(Seq::<char>::empty()) == 0);
            assert(num.last() == '1');
            assert(('1' as int) == 49);
        }
        assert("Pause for "@ + num + " "@ + "minute"@ =~= label);
        lemma_label(num, "minute"@, label, 60);
    } else if i == 1 {
        assert(id == "pause_5min"@);
        assert(label == "Pause for 5 minutes"@);
        assert(label.len() != "Pause until tomorrow"@.len());
        assert(id.len() != "toggle"@.len());
        assert(id.len() != "focus_toggle"@.len());
        assert(id.len() != "dashboard"@.len());
        assert(id[6] != "pause_1min"@[6]);
        let num = seq!['5'];
        assert(digits_value(num) == 5) by {
            assert(num.drop_last() =~= Seq::<char>::empty());
            assert(digits_value(Seq::<char>::empty()) == 0);
            assert(num.last() == '5');
            assert(('5' as int) == 53);
        }
        assert("Pause for "@ + num + " "@ + "minutes"@ =~= label);
        lemma_label(num, "minutes"@, label, 300);
    } else if i == 2 {
        assert(id == "pause_30min"@);
        assert(label == "Pause for 30 minutes"@);
        assert(label[6] != "Pause until tomorrow"@[6]);
        assert(id.len() != "toggle"@.len());
        assert(id.len() != "focus_toggle"@.len());
        assert(id.len() != "dashboard"@.len());
        assert(id.len() != "pause_1min"@.len());
        assert(id.len() != "pause_5min"@.len());
        let num = seq!['3', '0'];
        assert(digits_value(num) == 30) by {
            assert(num.drop_last() =~= seq!['3']);
            assert(digits_value(Seq::<char>::empty()) == 0);
            assert(seq!['3'].last() == '3');
            assert(seq!['3'].drop_last() =~= Seq::<char>::empty());
            assert(('3' as int) == 51);
            assert(('0' as int) == 48);
            assert(digits_value(seq!['3']) == 3);
            assert(num.last() == '0');
        }
        assert("Pause for "@ + num + " "@ + "minutes"@ =~= label);
        lemma_label(num, "minutes"@, label, 1800);
    } else if i == 3 {
        assert(id == "pause_1hour"@);
        assert(label == "Pause for 1 hour"@);
        assert(label.len() != "Pause until tomorrow"@.len());
        assert(id.len() != "toggle"@.len());
        assert(id.len() != "focus_toggle"@.len());
        assert(id.len() != "dashboard"@.len());
        assert(id.len() != "pause_1min"@.len());
        assert(id.len() != "pause_5min"@.len());
        assert(id[6] != "pause_30min"@[6]);
        let num = seq!['1'];
        assert(digits_value(num) == 1) by {
            assert(num.drop_last() =~= Seq::<char>::empty());
            assert(digits_value(Seq::<char>::empty()) == 0);
            assert(num.last() == '1');
            assert(('1' as int) == 49);
        }
        assert("Pause for "@ + num + " "@ + "hour"@ =~= label);
        lemma_label(num, "hour"@, label, 3600);
    } else if i == 4 {
        assert(id == "pause_until_tomorrow"@);
        assert(label == "Pause until tomorrow"@);
        assert(id.len() != "toggle"@.len());
        assert(id.len() != "focus_toggle"@.len());
        assert(id.len() != "dashboard"@.len());
        assert(id.len() != "pause_1min"@.len());
        assert(id.len() != "pause_5min"@.len());
        assert(id.len() != "pause_30min"@.len());
        assert(id.len() != "pause_1hour"@.len());
        let r = now_ms % DAY_MS;
        assert(0 <= r < DAY_MS);
        let s = seconds_until_tomorrow_spec(now_ms);
        let m = DAY_MS - r;
        assert(0 < m <= DAY_MS);
        assert(s == m / 1000);
        assert(s * 1000 <= m < s * 1000 + 1000 && 0 <= s <= 86400) by (nonlinear_arith)
            requires
                s == m / 1000,
                0 < m <= 86_400_000,
        ;
        assert((s as u64) as int == s);
        assert(action_of(id, now_ms) == TrayAction::Pause(Some(s as u64)));
    } else {
        assert(id == "pause_indefinitely"@);
        assert(label == "Pause indefinitely"@);
        assert(id.len() != "toggle"@.len());
        assert(id.len() != "focus_toggle"@.len());
        assert(id.len() != "dashboard"@.len());
        assert(id.len() != "pause_1min"@.len());
        assert(id.len() != "pause_5min"@.len());
        assert(id.len() != "pause_30min"@.len());
        assert(id.len() != "pause_1hour"@.len());
        assert(id.len() != "pause_until_tomorrow"@.len());
        assert(label.len() != "Pause until tomorrow"@.len());
    }
}

// ---------------------------------------------------------------------------
// Windows executables
// ---------------------------------------------------------------------------

/// The known Windows executables (lowercased) and their display names.
pub open spec fn known_windows_executables() -> Seq<(Seq<char>, Seq<char>)> {
    seq![
        ("chrome"@, "Google Chrome"@),
        ("firefox"@, "Mozilla Firefox"@),
        ("msedge"@, "Microsoft Edge"@),
        ("code"@, "Visual Studio Code"@),
        ("notepad++"@, "Notepad++"@),
        ("explorer"@, "File Explorer"@),
        ("cmd"@, "Command Prompt"@),
        ("powershell"@, "PowerShell"@),
        ("discord"@, "Discord"@),
        ("slack"@, "Slack"@),
        ("teams"@, "Microsoft Teams"@),
        ("zoom"@, "Zoom"@),
        ("spotify"@, "Spotify"@),
        ("vlc"@, "VLC Media Player"@),
    ]
}

/// A Windows executable whose lowercased name is in the known table gets
/// the table's display name (so names differing only in case get the same
/// one); any other keeps its own name.
pub proof fn law_windows_names(raw: Seq<char>)
    ensures
        forall|k: int|
            0 <= k < known_windows_executables().len() && lowercase_of(raw)
                == #[trigger] known_windows_executables()[k].0 ==> windows_app_name(raw)
                == known_windows_executables()[k].1,
        (forall|k: int|
            0 <= k < known_windows_executables().len() ==> lowercase_of(raw)
                != #[trigger] known_windows_executables()[k].0) ==> windows_app_name(raw) == raw,
{
    reveal_strlit("chrome");
    reveal_strlit("firefox");
    reveal_strlit("msedge");
    reveal_strlit("code");
    reveal_strlit("notepad++");
    reveal_strlit("explorer");
    reveal_strlit("cmd");
    reveal_strlit("powershell");
    reveal_strlit("discord");
    reveal_strlit("slack");
    reveal_strlit("teams");
    reveal_strlit("zoom");
    reveal_strlit("spotify");
    reveal_strlit("vlc");
    let t = known_windows_executables();
    let l = lowercase_of(raw);
    assert forall|k: int|
        0 <= k < t.len() && l == #[trigger] t[k].0 implies windows_app_name(raw) == t[k].1 by {
        if k == 0 {
            assert(l == "chrome"@);
        } else if k == 1 {
            assert(l == "firefox"@);
            assert(l.len() != "chrome"@.len());
        } else if k == 2 {
            assert(l == "msedge"@);
            assert(l[0] != "chrome"@[0]);
            assert(l.len() != "firefox"@.len());
        } else if k == 3 {
            assert(l == "code"@);
            assert(l.len() != "chrome"@.len());
            assert(l.len() != "firefox"@.len());
            assert(l.len() != "msedge"@.len());
        } else if k == 4 {
            assert(l == "notepad++"@);
            assert(l.len() != "chrome"@.len());
            assert(l.len() != "firefox"@.len());
            assert(l.len() != "msedge"@.len());
            assert(l.len() != "code"@.len());
        } else if k == 5 {
            assert(l == "explorer"@);
            assert(l.len() != "chrome"@.len());
            assert(l.len() != "firefox"@.len());
            assert(l.len() != "msedge"@.len());
            assert(l.len() != "code"@.len());
            assert(l.len() != "notepad++"@.len());
        } else if k == 6 {
            assert(l == "cmd"@);
            assert(l.len() != "chrome"@.len());
            assert(l.len() != "firefox"@.len());
            assert(l.len() != "msedge"@.len());
            assert(l.len() != "code"@.len());
            assert(l.len() != "notepad++"@.len());
            assert(l.len() != "explorer"@.len());
        } else if k == 7 {
            assert(l == "powershell"@);
            assert(l.len() != "chrome"@.len());
            assert(l.len() != "firefox"@.len());
            assert(l.len() != "msedge"@.len());
            assert(l.len() != "code"@.len());
            assert(l.len() != "notepad++"@.len());
            assert(l.len() != "explorer"@.len());
            assert(l.len() != "cmd"@.len());
        } else if k == 8 {
            assert(l == "discord"@);
            assert(l.len() != "chrome"@.len());
            assert(l[0] != "firefox"@[0]);
            assert(l.len() != "msedge"@.len());
            assert(l.len() != "code"@.len());
            assert(l.len() != "notepad++"@.len());
            assert(l.len() != "explorer"@.len());
            assert(l.len() != "cmd"@.len());
            assert(l.len() != "powershell"@.len());
        } else if k == 9 {
            assert(l == "slack"@);
            assert(l.len() != "chrome"@.len());
            assert(l.len() != "firefox"@.len());
            assert(l.len() != "msedge"@.len());
            assert(l.len() != "code"@.len());
            assert(l.len() != "notepad++"@.len());
            assert(l.len() != "explorer"@.len());
            assert(l.len() != "cmd"@.len());
            assert(l.len() != "powershell"@.len());
            assert(l.len() != "discord"@.len());
        } else if k == 10 {
            assert(l == "teams"@);
            assert(l.len() != "chrome"@.len());
            assert(l.len() != "firefox"@.len());
            assert(l.len() != "msedge"@.len());
            assert(l.len() != "code"@.len());
            assert(l.len() != "notepad++"@.len());
            assert(l.len() != "explorer"@.len());
            assert(l.len() != "cmd"@.len());
            assert(l.len() != "powershell"@.len());
            assert(l.len() != "discord"@.len());
            assert(l[0] != "slack"@[0]);
        } else if k == 11 {
            assert(l == "zoom"@);
            assert(l.len() != "chrome"@.len());
            assert(l.len() != "firefox"@.len());
            assert(l.len() != "msedge"@.len());
            assert(l[0] != "code"@[0]);
            assert(l.len() != "notepad++"@.len());
            assert(l.len() != "explorer"@.len());
            assert(l.len() != "cmd"@.len());
            assert(l.len() != "powershell"@.len());
            assert(l.len() != "discord"@.len());
            assert(l.len() != "slack"@.len());
            assert(l.len() != "teams"@.len());
        } else if k == 12 {
            assert(l == "spotify"@);
            assert(l.len() != "chrome"@.len());
            assert(l[0] != "firefox"@[0]);
            assert(l.len() != "msedge"@.len());
            assert(l.len() != "code"@.len());
            assert(l.len() != "notepad++"@.len());
            assert(l.len() != "explorer"@.len());
            assert(l.len() != "cmd"@.len());
            assert(l.len() != "powershell"@.len());
            assert(l[0] != "discord"@[0]);
            assert(l.len() != "slack"@.len());
            assert(l.len() != "teams"@.len());
            assert(l.len() != "zoom"@.len());
        } else {
            assert(l == "vlc"@);
            assert(l.len() != "chrome"@.len());
            assert(l.len() != "firefox"@.len());
            assert(l.len() != "msedge"@.len());
            assert(l.len() != "code"@.len());
            assert(l.len() != "notepad++"@.len());
            assert(l.len() != "explorer"@.len());
            assert(l[0] != "cmd"@[0]);
            assert(l.len() != "powershell"@.len());
            assert(l.len() != "discord"@.len());
            assert(l.len() != "slack"@.len());
            assert(l.len() != "teams"@.len());
            assert(l.len() != "zoom"@.len());
            assert(l.len() != "spotify"@.len());
        }
    }
    assert(t[0].0 == "chrome"@);
    assert(t[1].0 == "firefox"@);
    assert(t[2].0 == "msedge"@);
    assert(t[3].0 == "code"@);
    assert(t[4].0 == "notepad++"@);
    assert(t[5].0 == "explorer"@);
    assert(t[6].0 == "cmd"@);
    assert(t[7].0 == "powershell"@);
    assert(t[8].0 == "discord"@);
    assert(t[9].0 == "slack"@);
    assert(t[10].0 == "teams"@);
    assert(t[11].0 == "zoom"@);
    assert(t[12].0 == "spotify"@);
    assert(t[13].0 == "vlc"@);
}

// ---------------------------------------------------------------------------
// The proxy's built-in block list
// ---------------------------------------------------------------------------

/// The domains a new proxy refuses (with their subdomains).
pub open spec fn built_in_blocked_domains() -> Seq<Seq<char>> {
    seq![
        "facebook.com"@,
        "www.facebook.com"@,
        "fb.com"@,
        "www.fb.com"@,
        "instagram.com"@,
        "www.instagram.com"@,
    ]
}

/// A new proxy (whose list is `blocked_domain_list`) refuses a host exactly
/// when its name, port dropped and lowercased, is facebook.com,
/// www.facebook.com, fb.com, www.fb.com, instagram.com or www.instagram.com,
/// or a subdomain of one of them.
pub proof fn law_new_proxy_blocks_built_in_domains(host: Seq<char>)
    ensures
        domain_blocked(host, blocked_domain_list()) <==> exists|k: int|
            0 <= k < built_in_blocked_domains().len() && (host_name(host)
                == #[trigger] built_in_blocked_domains()[k] || has_suffix(
                host_name(host),
                "."@ + built_in_blocked_domains()[k],
            )),
{
    assert(blocked_domain_list() =~= built_in_blocked_domains());
}

} // verus!
