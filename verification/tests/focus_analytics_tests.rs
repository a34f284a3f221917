use velosi_tracker::activity::{activity_step, is_same_activity, new_activity_entry, ActivityAction};
use velosi_tracker::analytics::{
    activity_duration, clip_to_window, group_by_app, group_by_category, recent_timeline,
    summarize_activities, top_apps, total_active_time, window_start,
};
use velosi_tracker::categorize::categorize_activity;
use velosi_tracker::focus::{
    allow_expiry, allowed_apps_detailed, check_app_focus_allowed, AllowedAppInfo, BlockReason,
    CacheEvent, CacheLookup, CacheManager, FocusCheck, FocusMode, FocusVerdict,
};
use velosi_tracker::models::{ActivityCategory, ActivityEntry, AppMapping, UrlMapping};
use velosi_tracker::tracker::CurrentActivity;
use velosi_tracker::tracking::{check_interval_ms, seconds_until_tomorrow, TrackingState};

fn s(x: &str) -> String {
    x.to_string()
}

fn app_map(pattern: &str, cat: &str) -> AppMapping {
    AppMapping { id: 1, app_pattern: s(pattern), category_id: s(cat), is_custom: false, created_at: 0, updated_at: 0 }
}

fn url_map(pattern: &str, cat: &str) -> UrlMapping {
    UrlMapping { id: 2, url_pattern: s(pattern), category_id: s(cat), is_custom: false, created_at: 0, updated_at: 0 }
}

fn entry(app: &str, cat: ActivityCategory, start: i64, end: Option<i64>) -> ActivityEntry {
    ActivityEntry {
        id: 7,
        start_time: start,
        end_time: end,
        app_name: s(app),
        app_bundle_id: None,
        window_title: s("w"),
        url: None,
        category: cat,
        segments: vec![],
    }
}

fn current(app: &str, title: &str, url: Option<&str>) -> CurrentActivity {
    CurrentActivity {
        app_name: s(app),
        app_bundle_id: None,
        window_title: s(title),
        url: url.map(s),
        timestamp: 0,
        segment_info: None,
    }
}

#[test]
fn pause_resume_and_toggle() {
    let mut st = TrackingState::new();
    assert!(st.get_tracking_status());
    st.pause_tracking(1_000, Some(60));
    assert!(!st.get_tracking_status());
    assert_eq!(st.pause_info(1_000), Some((60, false)));
    assert_eq!(st.pause_info(31_000_001_000), Some((29, false)));
    assert!(!st.resume_if_pause_expired(60_000_000_999));
    assert!(st.resume_if_pause_expired(60_000_001_000));
    assert!(st.get_tracking_status());
    assert_eq!(st.pause_info(0), None);
    st.pause_tracking_indefinitely(5);
    assert_eq!(st.pause_info(99), Some((0, true)));
    assert!(!st.resume_if_pause_expired(u64::MAX));
    st.resume_tracking();
    assert_eq!(st, TrackingState { is_tracking: true, pause_until: None });
    let before = st;
    st.toggle_tracking();
    assert!(!st.is_tracking);
    st.toggle_tracking();
    assert_eq!(st, before);
}

#[test]
fn tomorrow_and_intervals() {
    assert_eq!(seconds_until_tomorrow(0), 86_400);
    assert_eq!(seconds_until_tomorrow(86_399_500), 0);
    assert_eq!(seconds_until_tomorrow(1_700_000_000_000), 86_400 - 80_000);
    assert_eq!(seconds_until_tomorrow(-1_000), 1);
    assert_eq!(check_interval_ms(true), 500);
    assert_eq!(check_interval_ms(false), 5000);
}

#[test]
fn cache_lookup_after_changes() {
    let mut c = CacheManager::new();
    assert_eq!(c.is_app_allowed_cached("Test App", 100), CacheLookup::Missing);
    c.update_allowed_apps_cache("Test App", Some(400));
    assert_eq!(c.is_app_allowed_cached("Test App", 100), CacheLookup::Allowed);
    assert_eq!(c.is_app_allowed_cached("Test App", 400), CacheLookup::Expired);
    c.update_allowed_apps_cache("Permanent App", None);
    assert_eq!(c.is_app_allowed_cached("Permanent App", i64::MAX), CacheLookup::Allowed);
    c.remove_from_allowed_apps_cache("Test App");
    assert_eq!(c.is_app_allowed_cached("Test App", 100), CacheLookup::Missing);
    assert_eq!(c.is_app_allowed_cached("Permanent App", 0), CacheLookup::Allowed);
}

#[test]
fn cache_invalidation_events() {
    let mut c = CacheManager::new();
    c.apply_invalidation(CacheEvent::FocusModeEnabledChanged { enabled: Some(true) });
    assert!(c.is_focus_mode_enabled());
    c.apply_invalidation(CacheEvent::FocusModeEnabledChanged { enabled: None });
    assert!(c.is_focus_mode_enabled());
    c.store_app_mappings(vec![app_map("code", "development")]);
    assert!(c.get_app_mappings_cached().is_some());
    c.apply_invalidation(CacheEvent::AllowedCategoriesChanged { categories: Some(vec![s("work")]) });
    assert_eq!(c.allowed_categories(), &vec![s("work")]);
    assert!(c.get_app_mappings_cached().is_none());
    c.apply_invalidation(CacheEvent::AllowedAppsChanged { app_name: Some(s("Mail")), removed: false, expires_at: None });
    assert_eq!(c.is_app_allowed_cached("Mail", 0), CacheLookup::Allowed);
    c.apply_invalidation(CacheEvent::AllowedAppsChanged { app_name: Some(s("Mail")), removed: true, expires_at: None });
    assert_eq!(c.is_app_allowed_cached("Mail", 0), CacheLookup::Missing);
}

#[test]
fn focus_mode_checks() {
    let cache = CacheManager::with_state(vec![s("development")], vec![]);
    let mut fm = FocusMode::new(cache);
    assert_eq!(fm.begin_check("Slack", None, 0), FocusCheck::Allowed);
    fm.cache_manager_mut().update_focus_mode_enabled_cache(true);
    assert_eq!(fm.begin_check("Slack", None, 0), FocusCheck::NeedsLookup);
    assert_eq!(fm.begin_check("Velosi Tracker", None, 0), FocusCheck::Allowed);
    let maps = vec![app_map("slack|discord", "communication"), app_map("code", "development")];
    match fm.check_and_block_app("Slack", None, false, vec![], &maps, 1_000) {
        FocusVerdict::Blocked { reason, notify } => {
            assert!(notify);
            assert_eq!(reason.message(), "Category 'communication' is not allowed in focus mode");
        }
        FocusVerdict::Allowed => panic!("Slack should be blocked"),
    }
    match fm.check_and_block_app("Slack", None, false, vec![], &maps, 5_000_000_000) {
        FocusVerdict::Blocked { notify, .. } => assert!(!notify),
        FocusVerdict::Allowed => panic!("Slack should be blocked"),
    }
    match fm.check_and_block_app("Notes", None, false, vec![], &maps, 1) {
        FocusVerdict::Blocked { reason, .. } => {
            assert!(matches!(reason, BlockReason::NotCategorized));
            assert_eq!(reason.message(), "App not categorized - blocked in focus mode");
        }
        FocusVerdict::Allowed => panic!("uncategorized apps are blocked"),
    }
    assert!(matches!(fm.check_and_block_app("Code", None, false, vec![], &maps, 1), FocusVerdict::Allowed));
    assert!(matches!(
        fm.check_and_block_app("Slack", None, true, vec![(s("Slack"), None)], &maps, 1),
        FocusVerdict::Allowed
    ));
    assert_eq!(fm.cache_manager().is_app_allowed_cached("Slack", 0), CacheLookup::Allowed);
    fm.hide_blocked_app("Slack", 10_000_000_000);
    assert!(fm.was_recently_hidden("Slack", 11_000_000_000));
    assert!(!fm.was_recently_hidden("Slack", 12_500_000_000));
}

#[test]
fn focus_allowed_on_plain_values() {
    let maps = vec![app_map("code", "development")];
    let cats = vec![s("development")];
    assert!(check_app_focus_allowed(false, "Game", None, false, &cats, &maps));
    assert!(check_app_focus_allowed(true, "velosi", None, false, &cats, &maps));
    assert!(check_app_focus_allowed(true, "Game", Some("com.velosi.app"), false, &cats, &maps));
    assert!(check_app_focus_allowed(true, "Game", None, true, &cats, &maps));
    assert!(check_app_focus_allowed(true, "VS Code", None, false, &cats, &maps));
    assert!(!check_app_focus_allowed(true, "Game", None, false, &cats, &maps));
    assert!(!check_app_focus_allowed(true, "VS Code", None, false, &vec![], &maps));
}

#[test]
fn allowances_and_details() {
    assert_eq!(allow_expiry(1_000, Some(5)), Some(1_300));
    assert_eq!(allow_expiry(1_000, None), None);
    let info = AllowedAppInfo::new(s("Mail"), Some(1_000 + 179), 1_000);
    assert_eq!(info.expires_in_minutes, Some(2));
    assert!(!info.is_indefinite);
    let info = AllowedAppInfo::new(s("Mail"), Some(1_000 - 90), 1_000);
    assert_eq!(info.expires_in_minutes, Some(-1));
    let all = allowed_apps_detailed(vec![(s("A"), None), (s("B"), Some(3_600))], 0);
    assert_eq!(all.len(), 2);
    assert!(all[0].is_indefinite);
    assert_eq!(all[0].expires_in_minutes, None);
    assert_eq!(all[1].expires_in_minutes, Some(60));
}

#[test]
fn categorize_prefers_urls() {
    let urls = vec![url_map("youtube.com|netflix.com", "entertainment")];
    let apps = vec![app_map("chrome", "productive"), app_map(" Slack ", "communication")];
    let c = categorize_activity("Google Chrome", None, Some("https://www.YouTube.com/watch"), &urls, &apps);
    assert!(matches!(c, ActivityCategory::Entertainment));
    let c = categorize_activity("Google Chrome", None, Some("https://docs.rs"), &urls, &apps);
    assert!(matches!(c, ActivityCategory::Productive));
    let c = categorize_activity("SLACK", None, None, &urls, &apps);
    assert!(matches!(c, ActivityCategory::Communication));
    let c = categorize_activity("Terminal", None, None, &vec![], &vec![]);
    assert!(matches!(c, ActivityCategory::Unknown));
}

#[test]
fn activity_loop_decisions() {
    let cur = current("Code", "main.rs", None);
    let started = new_activity_entry(9, 100, &cur, ActivityCategory::Development);
    assert_eq!(started.start_time, 100);
    assert!(started.end_time.is_none());
    assert!(is_same_activity(&started, &cur));
    assert_eq!(activity_step(Some(&cur), Some(&started)), ActivityAction::Keep);
    let other = current("Code", "lib.rs", None);
    assert_eq!(activity_step(Some(&other), Some(&started)), ActivityAction::EndAndStart);
    let with_url = current("Code", "main.rs", Some("https://x"));
    assert_eq!(activity_step(Some(&with_url), Some(&started)), ActivityAction::EndAndStart);
    assert_eq!(activity_step(Some(&cur), None), ActivityAction::Start);
    assert_eq!(activity_step(None, Some(&started)), ActivityAction::End);
    assert_eq!(activity_step(None, None), ActivityAction::Nothing);
}

#[test]
fn durations_and_totals() {
    assert_eq!(activity_duration(1_000, Some(61_999), 0), 60);
    assert_eq!(activity_duration(1_000, None, 3_500), 2);
    assert_eq!(activity_duration(5_000, Some(3_500), 0), -1);
    assert_eq!(activity_duration(i64::MIN, Some(i64::MAX), 0), 18_446_744_073_709_551);
    assert_eq!(total_active_time(&vec![(s("a"), 5i64), (s("b"), -2), (s("a"), 10)]), 13);
    let g = group_by_app(&vec![(s("a"), 5), (s("b"), 1), (s("a"), 10)]);
    assert_eq!(g, vec![(s("a"), 15), (s("b"), 1)]);
    let c = group_by_category(&vec![
        (ActivityCategory::Social, 3),
        (ActivityCategory::Custom(s("x")), 4),
        (ActivityCategory::Social, 1),
    ]);
    assert_eq!(c.len(), 2);
    assert!(matches!(c[0].0, ActivityCategory::Social));
    assert_eq!(c[0].1, 4);
    assert_eq!(c[1].1, 4);
}

#[test]
fn top_apps_are_longest_first() {
    let groups: Vec<(String, i64)> = (0..12).map(|i| (format!("app{}", i), (i * 7 % 12) as i64)).collect();
    let top = top_apps(&groups, 10);
    assert_eq!(top.len(), 10);
    for w in top.windows(2) {
        assert!(w[0].1 >= w[1].1);
    }
    assert_eq!(top[0].1, 11);
    assert!(top.iter().all(|(_, d)| *d >= 2));
    assert_eq!(top_apps(&vec![(s("only"), 3)], 10), vec![(s("only"), 3)]);
}

#[test]
fn day_summary_adds_up() {
    let es = vec![
        entry("Code", ActivityCategory::Development, 0, Some(60_000)),
        entry("Slack", ActivityCategory::Communication, 60_000, Some(90_000)),
        entry("Code", ActivityCategory::Development, 90_000, None),
    ];
    let sum = summarize_activities(&es, 150_000);
    assert_eq!(sum.total_active_time, 150);
    assert_eq!(sum.top_apps, vec![(s("Code"), 120), (s("Slack"), 30)]);
    assert_eq!(sum.categories.len(), 2);
    let cat_total: i64 = sum.categories.iter().map(|(_, d)| *d).sum();
    assert_eq!(cat_total, sum.total_active_time);
}

#[test]
fn timeline_clipping() {
    assert_eq!(window_start(3_600_000, 60), 0);
    assert_eq!(clip_to_window(-5_000, Some(10_000), 0, 20_000), Some((0, 10_000, 10)));
    assert_eq!(clip_to_window(5_000, None, 0, 20_000), Some((5_000, 20_000, 15)));
    assert_eq!(clip_to_window(-5_000, Some(-1), 0, 20_000), None);
    assert_eq!(clip_to_window(25_000, None, 0, 20_000), None);
    let es = vec![
        entry("Old", ActivityCategory::Unknown, -10_000, Some(-5_000)),
        entry("Spans", ActivityCategory::Unknown, -10_000, Some(4_000)),
        entry("Now", ActivityCategory::Unknown, 8_000, None),
    ];
    let t = recent_timeline(&es, 0, 10_000);
    assert_eq!(t.start_time, 0);
    assert_eq!(t.end_time, 10_000);
    assert_eq!(t.activities.len(), 2);
    assert_eq!(t.activities[0].app_name, "Spans");
    assert_eq!(t.activities[0].start_time, 0);
    assert_eq!(t.activities[0].duration_seconds, 4);
    assert_eq!(t.activities[1].end_time, Some(10_000));
    assert_eq!(t.activities[1].duration_seconds, 2);
}
