use velosi_tracker::events::parse_cache_event;
use velosi_tracker::keyed::KeyedList;
use velosi_tracker::firewall::{linux_block_rule_args, windows_block_rule_args, FirewallWebsiteBlocker};
use velosi_tracker::focus::CacheEvent;
use velosi_tracker::mappings::{
    category_name, column_flag, flag_value, group_mappings_by_category, may_delete_category,
    setting_flag,
};
use velosi_tracker::migrations::{get_migrations, pending_migrations, Migration};
use velosi_tracker::categorize::categorize_activity;
use velosi_tracker::models::{ActivityCategory, AppMapping, UrlMapping};
use velosi_tracker::seed::{parse_seed_categories, parse_seed_mappings};
use velosi_tracker::overlay::{focus_overlay_url, overlay_labels_to_close, overlay_windows};
use velosi_tracker::pomodoro::{
    complete_session, effects_on_complete, effects_on_start, parse_session_type, session_type_name,
    start_session, PomodoroSessionType,
};
use velosi_tracker::proxy::{
    connect_failure_response, decide_request, log_entry, mac_enable_proxy_args,
    mac_proxy_output_enabled, parse_request_line, proxy_port_from_setting, split_host_port,
    proxy_setup_instructions, tunnel_close_event, urls_to_block, website_blocker_change, windows_proxy_output_enabled,
    windows_proxy_server_arg, LocalProxyBlocker, ProxyAction, BAD_REQUEST_RESPONSE, PROXY_PORT,
};
use velosi_tracker::scripts::{
    activate_script, browser_access_granted, dialog_choice, find_velosi_process,
    hide_fallback_script, minimize_script, system_events_granted, temporary_allow_expiry,
    DialogChoice,
};
use velosi_tracker::tray::{TrayAction, TrayManager};

fn s(x: &str) -> String {
    x.to_string()
}

#[test]
fn blocked_domains_and_hosts() {
    let proxy = LocalProxyBlocker::new();
    assert_eq!(proxy.get_blocked_domains().len(), 6);
    assert_eq!(proxy.get_blocked_domains()[4], "instagram.com");
    assert_eq!(proxy.get_proxy_info(), (s("127.0.0.1"), 62828));
    assert!(proxy.is_blocking());
    let mut configured = LocalProxyBlocker::new();
    configured.set_proxy_port(proxy_port_from_setting(Some("9090")));
    configured.set_blocked_domains(vec![s("youtube.com")]);
    assert_eq!(configured.get_proxy_info(), (s("127.0.0.1"), 9090));
    assert_eq!(configured.get_blocked_domains(), vec![s("youtube.com")]);
    let builtin = proxy.get_blocked_domains();
    assert!(LocalProxyBlocker::is_domain_blocked("facebook.com", &builtin));
    assert!(LocalProxyBlocker::is_domain_blocked("M.Facebook.COM:443", &builtin));
    assert!(LocalProxyBlocker::is_domain_blocked("www.instagram.com", &builtin));
    assert!(!LocalProxyBlocker::is_domain_blocked("notfacebook.com", &builtin));
    assert!(!LocalProxyBlocker::is_domain_blocked("example.com", &builtin));
    let user = vec![s("youtube.com"), s("x.com")];
    assert!(LocalProxyBlocker::is_domain_blocked("www.YouTube.com:443", &user));
    assert!(LocalProxyBlocker::is_domain_blocked("x.com", &user));
    assert!(!LocalProxyBlocker::is_domain_blocked("facebook.com", &user));
    assert!(!LocalProxyBlocker::is_domain_blocked("anything.org", &vec![]));
    assert_eq!(LocalProxyBlocker::extract_host_from_url("http://example.com/path"), Some(s("example.com")));
    assert_eq!(LocalProxyBlocker::extract_host_from_url("https://a.b:8443/x/y"), Some(s("a.b:8443")));
    assert_eq!(LocalProxyBlocker::extract_host_from_url("ftp://files.net/pub"), Some(s("files.net")));
    assert_eq!(LocalProxyBlocker::extract_host_from_url("facebook.com:443"), Some(s("facebook.com:443")));
    assert_eq!(split_host_port("a.b:8443", 443), (s("a.b"), 8443));
    assert_eq!(split_host_port("a.b:nope", 80), (s("a.b"), 80));
    assert_eq!(split_host_port("a.b", 80), (s("a.b"), 80));
}

#[test]
fn proxy_request_decisions() {
    assert_eq!(
        parse_request_line("GET http://x.org/ HTTP/1.1\r\nHost: x.org\r\n\r\n"),
        Some((s("GET"), s("http://x.org/")))
    );
    assert_eq!(parse_request_line("GET /\r\n"), None);
    assert_eq!(parse_request_line(""), None);
    let blocked = LocalProxyBlocker::new().get_blocked_domains();
    match decide_request("CONNECT www.facebook.com:443 HTTP/1.1\r\n\r\n", &blocked) {
        ProxyAction::Block(h) => assert_eq!(h, "www.facebook.com:443"),
        _ => panic!("should block"),
    }
    match decide_request("CONNECT example.com:443 HTTP/1.1\r\n\r\n", &blocked) {
        ProxyAction::Tunnel(h) => assert_eq!(h, "example.com:443"),
        _ => panic!("should tunnel"),
    }
    match decide_request("GET http://example.com/a HTTP/1.1\r\n\r\n", &blocked) {
        ProxyAction::Forward(h) => assert_eq!(h, "example.com"),
        _ => panic!("should forward"),
    }
    assert!(matches!(decide_request("garbage", &blocked), ProxyAction::BadRequest));
    match decide_request("GET http://example.com/a HTTP/1.1\r\n\r\n", &vec![s("example.com")]) {
        ProxyAction::Block(h) => assert_eq!(h, "example.com"),
        _ => panic!("should block the user's domain"),
    }
    assert!(BAD_REQUEST_RESPONSE.starts_with("HTTP/1.1 400 Bad Request"));
}

#[test]
fn proxy_answers() {
    let r = LocalProxyBlocker::generate_blocked_response("fb.com");
    let msg = "Website fb.com is blocked by proxy settings.";
    assert_eq!(
        r,
        format!("HTTP/1.1 403 Forbidden\r\nContent-Type: text/plain\r\nContent-Length: {}\r\n\r\n{}", msg.len(), msg)
    );
    let r = LocalProxyBlocker::generate_blocked_response("bücher.de");
    assert!(r.contains("Content-Length: 48\r\n"));
    assert_eq!(connect_failure_response(true, true), "HTTP/1.1 504 Gateway Timeout\r\n\r\n");
    assert_eq!(connect_failure_response(true, false), "HTTP/1.1 502 Bad Gateway\r\n\r\n");
    assert!(connect_failure_response(false, false).ends_with("Connection failed\r\n"));
    assert_eq!(tunnel_close_event(false, false), (s("COMPLETE"), s("HTTPS tunnel closed successfully")));
    assert_eq!(tunnel_close_event(true, true), (s("CLOSED"), s("HTTPS tunnel closed with 2 errors")));
    assert_eq!(log_entry("12:00:01", "BLOCKED", "fb.com", "Website blocked"), "[12:00:01] BLOCKED: fb.com - Website blocked");
}

#[test]
fn proxy_log_keeps_last_hundred() {
    let mut proxy = LocalProxyBlocker::new();
    assert!(proxy.get_proxy_logs().is_empty());
    for i in 0..105 {
        let line = proxy.log_event("10:00:00", "CONNECT", "client", &format!("line {}", i));
        assert_eq!(line, format!("[10:00:00] CONNECT: client - line {}", i));
    }
    let lines = proxy.get_proxy_logs();
    assert_eq!(lines.len(), 100);
    assert_eq!(lines[0], "[10:00:00] CONNECT: client - line 5");
    assert_eq!(lines[99], "[10:00:00] CONNECT: client - line 104");
}

#[test]
fn test_proxy_server_creation() {
    let proxy = LocalProxyBlocker::new();
    assert!(proxy.get_proxy_logs().is_empty());
    assert!(proxy.is_blocking());
}

#[test]
fn system_proxy_settings() {
    assert!(mac_proxy_output_enabled("Enabled: Yes\nServer: 127.0.0.1\nPort: 62828\n", 62828));
    assert!(!mac_proxy_output_enabled("Enabled: Yes\nServer: 127.0.0.1\nPort: 62828\n", 9090));
    assert!(!mac_proxy_output_enabled("Enabled: No\nServer: 127.0.0.1\nPort: 62828\n", 62828));
    assert!(windows_proxy_output_enabled("Proxy Server(s) :  http=127.0.0.1:62828;https=127.0.0.1:62828", 62828));
    assert!(!windows_proxy_output_enabled("Direct access (no proxy server).", 62828));
    assert_eq!(mac_enable_proxy_args(true, 62828), vec![s("-setsecurewebproxy"), s("Wi-Fi"), s("127.0.0.1"), s("62828")]);
    assert_eq!(mac_enable_proxy_args(false, 9090), vec![s("-setwebproxy"), s("Wi-Fi"), s("127.0.0.1"), s("9090")]);
    assert_eq!(windows_proxy_server_arg(62828), "proxy-server=\"http=127.0.0.1:62828;https=127.0.0.1:62828\"");
    assert_eq!(windows_proxy_server_arg(8080), "proxy-server=\"http=127.0.0.1:8080;https=127.0.0.1:8080\"");
    assert_eq!(proxy_port_from_setting(Some("8080")), 8080);
    assert_eq!(proxy_port_from_setting(Some("nope")), PROXY_PORT);
    assert_eq!(proxy_port_from_setting(None), 62828);
}

#[test]
fn what_focus_mode_blocks() {
    let m = |p: &str, c: &str| UrlMapping { id: 0, url_pattern: s(p), category_id: s(c), is_custom: true, created_at: 0, updated_at: 0 };
    let list = urls_to_block(&vec![m("youtube.com", "entertainment"), m("github.com", "development"), m("x.com", "social")]);
    assert_eq!(list, vec![s("youtube.com"), s("x.com")]);
    let fallback = urls_to_block(&vec![m("github.com", "development")]);
    assert_eq!(fallback.len(), 7);
    assert_eq!(fallback[0], "facebook.com");
    assert_eq!(fallback[6], "linkedin.com");
    assert_eq!(website_blocker_change(true, true, false), Some(true));
    assert_eq!(website_blocker_change(false, true, false), Some(false));
    assert_eq!(website_blocker_change(true, false, false), None);
    assert_eq!(website_blocker_change(true, false, true), Some(false));
    assert_eq!(website_blocker_change(false, true, true), None);
}

#[test]
fn firewall_blocker_state() {
    let mut fw = FirewallWebsiteBlocker::new();
    assert!(!fw.is_blocking());
    assert_eq!(fw.extract_domain("https://www.site.com:8080/path"), "www.site.com");
    assert_eq!(fw.extract_domain("http://https://x.io/"), "x.io");
    assert_eq!(fw.extract_domain("plain.org"), "plain.org");
    let d = fw.start_website_blocking(&vec![s("https://a.com/x"), s("a.com"), s("http://b.org")]);
    assert_eq!(d, vec![s("a.com"), s("a.com"), s("b.org")]);
    assert!(!fw.is_blocking());
    fw.mark_blocking_started();
    assert!(fw.is_blocking());
    assert_eq!(fw.stop_website_blocking(Err(s("pfctl failed"))), Err(s("pfctl failed")));
    assert!(fw.is_blocking());
    assert_eq!(fw.stop_website_blocking(Ok(())), Ok(()));
    assert!(!fw.is_blocking());
    let rules = fw.generate_pfctl_rules(&vec![s("1.2.3.4"), s("::1")]);
    assert_eq!(
        rules,
        "# Velosi Website Blocker Rules\n# Block outgoing connections to specified IPs\n\nblock out quick to 1.2.3.4\nblock out quick to ::1\n"
    );
    let w = windows_block_rule_args(3, "1.2.3.4");
    assert_eq!(w[4], "name=Velosi_Block_3");
    assert_eq!(w[7], "remoteip=1.2.3.4");
    assert_eq!(linux_block_rule_args("5.6.7.8")[3], "5.6.7.8");
}

#[test]
fn overlay_address_and_windows() {
    assert_eq!(
        focus_overlay_url("Slack & Co", "Category 'x' is not allowed"),
        "/focus-overlay?app_name=Slack%20%26%20Co&reason=Category%20%27x%27%20is%20not%20allowed"
    );
    assert_eq!(focus_overlay_url("ü~-_.", ""), "/focus-overlay?app_name=%C3%BC~-_.&reason=");
    let one = overlay_windows(1);
    assert_eq!(one.len(), 1);
    assert_eq!(one[0].label, "focus-overlay");
    assert!(one[0].monitor.is_none());
    let three = overlay_windows(3);
    assert_eq!(three.len(), 3);
    assert_eq!(three[2].label, "focus-overlay-2");
    assert_eq!(three[2].title, "Focus Mode - App Blocked (Monitor 3)");
    assert!(three[0].focused && !three[1].focused);
    let labels = overlay_labels_to_close();
    assert_eq!(labels.len(), 11);
    assert_eq!(labels[9], "focus-overlay-9");
    assert_eq!(labels[10], "focus-overlay");
}

#[test]
fn tray_menu_and_actions() {
    let m = TrayManager::create_menu(true, None, Some(true));
    let ids: Vec<&str> = m.items.iter().map(|e| e.id.as_str()).collect();
    assert_eq!(ids, vec!["tracking_status", "focus_status", "pause_menu", "focus_toggle", "dashboard", "quit"]);
    assert_eq!(m.items[0].text, "🟢 Tracking Active");
    assert!(!m.items[0].enabled);
    assert_eq!(m.items[3].text, "Disable Focus Mode");
    assert_eq!(m.pause_options.len(), 6);
    let m = TrayManager::create_menu(false, Some((0, true)), None);
    assert_eq!(m.items[0].text, "🔴 Paused Indefinitely");
    assert_eq!(m.items[1].text, "🎯 Focus Mode: Unknown");
    assert_eq!(m.items[2].id, "toggle");
    assert_eq!(m.items[2].text, "Resume Tracking");
    assert!(m.pause_options.is_empty());
    assert_eq!(TrayManager::tooltip(false, Some((30, false))), "Velosi - Paused (Timed)");
    assert_eq!(TrayManager::tooltip(false, None), "Velosi - Tracking Paused");
    assert_eq!(TrayManager::menu_action("pause_30min", 0), TrayAction::Pause(Some(1800)));
    let day_ms: i64 = 86_400_000;
    assert_eq!(TrayManager::menu_action("pause_until_tomorrow", 19_000 * day_ms + 3_600_000), TrayAction::Pause(Some(82_800)));
    assert_eq!(TrayManager::menu_action("pause_until_tomorrow", 19_000 * day_ms), TrayAction::Pause(Some(86_400)));
    assert_eq!(TrayManager::menu_action("pause_until_tomorrow", 1_500), TrayAction::Pause(Some(86_398)));
    assert_eq!(TrayManager::menu_action("pause_indefinitely", 1_500), TrayAction::Pause(None));
    assert_eq!(TrayManager::menu_action("quit", 0), TrayAction::Quit);
    assert_eq!(TrayManager::menu_action("other", 0), TrayAction::Ignore);
}

#[test]
fn schema_migrations() {
    let all: Vec<Migration> = get_migrations();
    let versions: Vec<i32> = all.iter().map(|m| m.version).collect();
    assert_eq!(versions, vec![1, 2, 3, 4, 5]);
    assert_eq!(all[3].description, "add_proxy_port");
    assert!(all[0].sql.contains("CREATE TABLE IF NOT EXISTS activity_entries"));
    let pending: Vec<i32> = pending_migrations(&vec![1, 3]).iter().map(|m| m.version).collect();
    assert_eq!(pending, vec![2, 4, 5]);
    assert!(pending_migrations(&vec![5, 4, 3, 2, 1]).is_empty());
    assert_eq!(pending_migrations(&vec![]).len(), 5);
}

#[test]
fn mapping_groups_and_settings() {
    let pairs = vec![(s("c1"), s("code")), (s("c2"), s("slack")), (s("c1"), s("xcode"))];
    let cats = vec![(s("c1"), s("Development")), (s("c3"), s("Other"))];
    let g = group_mappings_by_category(&pairs, &cats);
    assert_eq!(g.len(), 2);
    assert_eq!(g[0].category_name, "Development");
    assert_eq!(g[0].patterns, vec![s("code"), s("xcode")]);
    assert_eq!(g[1].category_name, "Unknown");
    assert_eq!(category_name(&cats, &s("c3")), "Other");
    assert!(setting_flag(Some("1"), false));
    assert!(!setting_flag(Some("true"), true));
    assert!(setting_flag(None, true));
    assert_eq!(flag_value(false), "0");
    assert!(column_flag(1) && !column_flag(2));
    assert!(!may_delete_category("UnKnown"));
    assert!(may_delete_category("Work"));
}

#[test]
fn pomodoro_sessions() {
    assert_eq!(parse_session_type("work"), Ok(PomodoroSessionType::Work));
    assert_eq!(parse_session_type("Break"), Err(s("Invalid session type")));
    assert_eq!(session_type_name(PomodoroSessionType::Break), "break");
    let mut p = start_session(1, PomodoroSessionType::Work, 1_000, 25, Some(s("essay")), true, false);
    assert!(!p.completed && p.end_time.is_none());
    let e = effects_on_start(&p);
    assert!(e.switch_focus_mode);
    assert_eq!(e.tracking, Some(false));
    complete_session(&mut p, 1_501_999, true);
    assert_eq!(p.end_time, Some(1_501_999));
    assert_eq!(p.actual_duration_seconds, Some(1_500));
    assert!(p.completed);
    let e = effects_on_complete(&p);
    assert!(e.switch_focus_mode);
    assert_eq!(e.tracking, None);
}

#[test]
fn mac_scripts_and_outputs() {
    assert_eq!(
        minimize_script("Slack"),
        "tell application \"System Events\" to tell process \"Slack\" to set value of attribute \"AXMinimized\" of window 1 to true"
    );
    assert_eq!(hide_fallback_script("Slack"), "tell application \"Slack\" to set visible to false");
    assert_eq!(activate_script("Velosi"), "tell application \"Velosi\" to activate");
    assert_eq!(find_velosi_process("Finder, \"Velosi Tracker\", Slack\n"), Some(s("Velosi Tracker")));
    assert_eq!(find_velosi_process("Finder, Slack"), None);
    assert_eq!(dialog_choice("allow_app\n"), DialogChoice::AllowApp);
    assert_eq!(dialog_choice("disable_focus"), DialogChoice::DisableFocusMode);
    assert_eq!(dialog_choice("timeout"), DialogChoice::TimedOut);
    assert_eq!(dialog_choice("whatever"), DialogChoice::StayFocused);
    assert_eq!(temporary_allow_expiry(100), 1_900);
    assert!(system_events_granted(true, "system_events_ok\n"));
    assert!(!system_events_granted(false, "system_events_ok"));
    assert!(browser_access_granted(true, " chrome_no_windows "));
    assert!(!browser_access_granted(true, "chrome_permission_denied"));
}

#[test]
fn cache_event_payloads() {
    match parse_cache_event(r#"{"type":"focus_mode_enabled_changed","enabled":true}"#).unwrap() {
        CacheEvent::FocusModeEnabledChanged { enabled } => assert_eq!(enabled, Some(true)),
        _ => panic!("wrong event"),
    }
    match parse_cache_event(r#"{"type":"allowed_categories_changed","categories":["work",3,"dev"]}"#).unwrap() {
        CacheEvent::AllowedCategoriesChanged { categories } => assert_eq!(categories, Some(vec![s("work"), s("dev")])),
        _ => panic!("wrong event"),
    }
    match parse_cache_event(r#"{"type":"allowed_apps_changed","app_name":"Mail","expires_at":99}"#).unwrap() {
        CacheEvent::AllowedAppsChanged { app_name, removed, expires_at } => {
            assert_eq!(app_name, Some(s("Mail")));
            assert!(!removed);
            assert_eq!(expires_at, Some(99));
        }
        _ => panic!("wrong event"),
    }
    assert!(matches!(parse_cache_event(r#"{"type":"other"}"#).unwrap(), CacheEvent::Unknown));
    assert!(matches!(parse_cache_event("[1,2]").unwrap(), CacheEvent::Unknown));
    let err = parse_cache_event("{not json").unwrap_err();
    assert!(err.starts_with("Failed to parse cache invalidation event: "));
}

#[test]
fn starting_data_files() {
    let cats = parse_seed_categories(
        r##"{"categories":[{"id":"work","name":"Work","color":"#f00"},{"id":"x"},{"id":"sub","name":"Sub","color":"#0f0","parent_id":"work"}]}"##,
    )
    .unwrap();
    assert_eq!(cats.len(), 2);
    assert_eq!(cats[0].name, "Work");
    assert_eq!(cats[0].parent_id, None);
    assert_eq!(cats[1].parent_id, Some(s("work")));
    assert!(parse_seed_categories("{}").unwrap().is_empty());
    assert!(parse_seed_categories("{").unwrap_err().starts_with("Failed to parse categories.json: "));
    let pairs = parse_seed_mappings(
        r#"{"mappings":[{"category":"dev","apps":["Visual Studio Code|Code|vscode",1,"Xcode"]},{"apps":["x"]}]}"#,
        "apps",
        "app-mappings.json",
    )
    .unwrap();
    assert_eq!(pairs, vec![(s("dev"), s("Visual Studio Code|Code|vscode")), (s("dev"), s("Xcode"))]);
    assert!(parse_seed_mappings("nope", "urls", "url-mappings.json")
        .unwrap_err()
        .starts_with("Failed to parse url-mappings.json: "));
}

#[test]
fn pattern_variations_match_any_name() {
    let maps = vec![AppMapping {
        id: 0,
        app_pattern: s("Visual Studio Code|Code|vscode"),
        category_id: s("development"),
        is_custom: false,
        created_at: 0,
        updated_at: 0,
    }];
    for name in ["Visual Studio Code", "Code", "vscode"] {
        assert!(matches!(categorize_activity(name, None, None, &vec![], &maps), ActivityCategory::Development));
    }
    assert!(matches!(categorize_activity("Figma", None, None, &vec![], &maps), ActivityCategory::Unknown));
}

#[test]
fn proxy_instructions() {
    let (mac, win) = proxy_setup_instructions("127.0.0.1", 62828);
    assert_eq!(mac.len(), 5);
    assert_eq!(mac[4], "5. Enter 127.0.0.1:62828");
    assert_eq!(win[2], "3. Enter 127.0.0.1:62828");
}

#[test]
fn keyed_list_reads_back_writes() {
    let mut m: KeyedList<u64> = KeyedList::new();
    assert_eq!(m.len(), 0);
    m.insert(s("Slack"), 10);
    m.insert(s("Zoom"), 50);
    m.insert(s("Slack"), 30);
    assert_eq!(m.len(), 2);
    assert_eq!(m.get("Slack"), Some(30));
    assert!(m.contains_key("Zoom"));
    m.remove("Zoom");
    assert!(!m.contains_key("Zoom"));
    assert_eq!(m.get("Zoom"), None);
    m.insert(s("Mail"), 95);
    m.retain_recent(100, 20);
    assert_eq!(m.get("Slack"), None);
    assert_eq!(m.get("Mail"), Some(95));
}
