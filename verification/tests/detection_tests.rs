use velosi_tracker::models::{ActivityCategory, SegmentType};
use velosi_tracker::text::{chars_of, decimal_string, lower_chars, parse_u16_chars, trim_chars};
use velosi_tracker::tracker::{
    accept_browser_url, accept_window_title, accessibility_granted, parse_front_app, ActivityTracker,
    BrowserQuery, PERMISSIONS_HELP,
};

fn s(x: &str) -> String {
    x.to_string()
}

#[test]
fn lowercase_and_trim_follow_std() {
    let l: String = lower_chars(&chars_of("HeLLo ÄÖ")).into_iter().collect();
    assert_eq!(l, "hello äö");
    let t: String = trim_chars(&chars_of("  \t padded \n")).into_iter().collect();
    assert_eq!(t, "padded");
    assert_eq!(decimal_string(0), "0");
    assert_eq!(decimal_string(62828), "62828");
    assert_eq!(parse_u16_chars(&chars_of("8080")), Some(8080));
    assert_eq!(parse_u16_chars(&chars_of("+443")), Some(443));
    assert_eq!(parse_u16_chars(&chars_of("65536")), None);
    assert_eq!(parse_u16_chars(&chars_of("")), None);
    assert_eq!(parse_u16_chars(&chars_of("12a")), None);
}

#[test]
fn categories_from_app_names() {
    assert!(matches!(ActivityCategory::from_app_name("Visual Studio Code - VSCode", None), ActivityCategory::Development));
    assert!(matches!(ActivityCategory::from_app_name("Google Chrome", None), ActivityCategory::Productive));
    assert!(matches!(ActivityCategory::from_app_name("Slack", None), ActivityCategory::Communication));
    assert!(matches!(ActivityCategory::from_app_name("Twitter", None), ActivityCategory::Social));
    assert!(matches!(ActivityCategory::from_app_name("Spotify", None), ActivityCategory::Entertainment));
    assert!(matches!(ActivityCategory::from_app_name("Calculator", None), ActivityCategory::Unknown));
    match ActivityCategory::from_mapping_id("Reading") {
        ActivityCategory::Custom(id) => assert_eq!(id, "Reading"),
        _ => panic!("expected a custom category"),
    }
    assert!(matches!(ActivityCategory::from_mapping_id("SOCIAL"), ActivityCategory::Social));
    assert!(matches!(ActivityCategory::from_user_choice("unknown"), ActivityCategory::Unknown));
    assert!(matches!(ActivityCategory::from_user_choice("Social"), ActivityCategory::Custom(_)));
}

#[test]
fn permission_messages() {
    let t = ActivityTracker::new();
    assert_eq!(t.test_permissions(true), "✅ Accessibility permissions are working correctly!");
    assert_eq!(t.test_permissions(false), PERMISSIONS_HELP);
    assert!(PERMISSIONS_HELP.starts_with("❌ Accessibility permissions needed."));
}

#[test]
fn tracker_activity_state() {
    let mut t = ActivityTracker::new();
    assert!(t.user_activity().is_active);
    assert!(!t.settle_activity(Some(1_800_000_000_001)));
    assert!(!t.user_activity().is_active);
    t.update_last_input_time();
    assert!(t.user_activity().is_active);
    assert!(t.settle_activity(Some(1_800_000_000_000)));
    assert!(t.settle_activity(None));
    assert!(t.check_user_activity());
    assert!(t.should_track());
}

#[test]
fn tracker_records_input_times() {
    let t0 = std::time::SystemTime::UNIX_EPOCH + std::time::Duration::from_secs(1_700_000_000);
    let mut t = ActivityTracker::started_at(t0);
    assert_eq!(t.user_activity().last_input_time, t0);
    assert!(t.user_activity().is_active);
    assert!(!t.settle_activity(Some(1_800_000_000_001)));
    assert_eq!(t.user_activity().last_input_time, t0);
    let t1 = t0 + std::time::Duration::from_secs(60);
    t.record_input_at(t1);
    assert_eq!(t.user_activity().last_input_time, t1);
    assert!(t.user_activity().is_active);
}

#[test]
fn browser_detection_mac() {
    let t = ActivityTracker::new();
    assert!(t.is_browser_app("Google Chrome", &None));
    assert!(t.is_browser_app("Microsoft Edge", &None));
    assert!(t.is_browser_app("Browser", &Some(s("com.apple.Safari"))));
    assert!(!t.is_browser_app("Browser", &Some(s("com.apple.Safari.extra"))));
    assert!(!t.is_browser_app("Terminal", &None));
    assert_eq!(t.browser_query("Google Chrome", &None), BrowserQuery::Chrome);
    assert_eq!(t.browser_query("X", &Some(s("com.apple.Safari"))), BrowserQuery::Safari);
    assert_eq!(t.browser_query("Firefox", &None), BrowserQuery::Firefox);
    assert_eq!(t.browser_query("Arc", &None), BrowserQuery::Unsupported);
}

#[test]
fn better_app_names_mac() {
    let t = ActivityTracker::new();
    assert_eq!(t.get_better_app_name("Code", &Some(s("com.microsoft.VSCode")), None), "Visual Studio Code");
    assert_eq!(t.get_better_app_name("zoom.us", &Some(s("us.zoom.xos")), None), "Zoom");
    assert_eq!(t.get_better_app_name("Preview", &Some(s("com.apple.Preview")), None), "Preview");
    assert_eq!(t.get_better_app_name("Electron", &None, None), "Electron App");
    assert_eq!(t.get_better_app_name("Electron", &None, Some(s("main.rs — velosi"))), "Visual Studio Code");
    assert_eq!(t.get_better_app_name("Electron", &None, Some(s("My Notion Page"))), "Notion");
    assert_eq!(t.get_better_app_name("Electron", &None, Some(s("#general | Slack"))), "Slack");
    assert_eq!(t.get_better_app_name("Electron", &None, Some(s("Mystery"))), "Electron App (Mystery)");
}

#[test]
fn segment_info_mac() {
    let t = ActivityTracker::new();
    let seg = t
        .extract_segment_info("Google Chrome", &None, "Repo", &Some(s("https://github.com/user/repo")))
        .unwrap();
    assert_eq!(seg.segment_type, SegmentType::BrowserTab);
    assert_eq!(seg.title, "github.com");
    assert_eq!(seg.url, Some(s("https://github.com/user/repo")));

    let seg = t.extract_segment_info("Google Chrome", &None, "Tab", &Some(s("https://127.0.0.1:8080/x"))).unwrap();
    assert_eq!(seg.title, "Unknown Site");
    let seg = t.extract_segment_info("Google Chrome", &None, "Tab", &Some(s("http://[bad"))).unwrap();
    assert_eq!(seg.title, "http://[bad");
    let seg = t.extract_segment_info("Safari", &None, "Tab", &Some(s("Safari: Start"))).unwrap();
    assert_eq!(seg.title, "Safari: Start");

    let seg = t.extract_segment_info("Visual Studio Code", &None, "● main.rs - velosi", &None).unwrap();
    assert_eq!(seg.segment_type, SegmentType::EditorFile);
    assert_eq!(seg.title, "main.rs");
    assert_eq!(seg.file_path, Some(s("main.rs")));

    let seg = t.extract_segment_info("iTerm2", &None, "~/project", &None).unwrap();
    assert_eq!(seg.segment_type, SegmentType::TerminalSession);
    assert_eq!(seg.title, "~/project");

    let seg = t.extract_segment_info("Finder", &None, "Downloads", &None).unwrap();
    assert_eq!(seg.segment_type, SegmentType::AppWindow);
    assert_eq!(seg.title, "Downloads");

    assert_eq!(t.extract_vscode_file_info("plain title"), Some(s("plain title")));
    assert_eq!(t.extract_vscode_file_info("a.ts - b - c"), Some(s("a.ts")));
}

#[test]
fn script_outputs_mac() {
    assert_eq!(accept_window_title("  Inbox \n"), Some(s("Inbox")));
    assert_eq!(accept_window_title("missing value\n"), None);
    assert_eq!(accept_window_title("Error: no window"), None);
    assert_eq!(accept_window_title("   "), None);
    assert_eq!(accept_browser_url("https://a.b\n"), Some(s("https://a.b")));
    assert_eq!(accept_browser_url("missing value"), None);
    assert!(accessibility_granted("success:Finder\n"));
    assert!(!accessibility_granted("error:denied"));
    assert_eq!(parse_front_app("Safari|com.apple.Safari\n"), (s("Safari"), Some(s("com.apple.Safari"))));
    assert_eq!(parse_front_app("Electron|\n"), (s("Electron"), None));
    assert_eq!(parse_front_app("Finder"), (s("Finder"), None));
}

#[test]
fn assembled_activities() {
    let t = ActivityTracker::new();
    let a = t.assemble_activity(s("Terminal"), None, None, Some(s("https://x.y")), 42);
    assert_eq!(a.window_title, "Unknown Window");
    assert_eq!(a.url, None);
    assert_eq!(a.timestamp, 42);
    assert_eq!(a.segment_info.unwrap().segment_type, SegmentType::TerminalSession);
    let a = t.assemble_activity(s("Safari"), None, Some(s("Docs")), Some(s("https://docs.rs/x")), 7);
    assert_eq!(a.url, Some(s("https://docs.rs/x")));
    assert_eq!(a.segment_info.unwrap().title, "docs.rs");
    let p = t.permission_required_activity(9);
    assert_eq!(p.app_name, "Permission Required");
    assert_eq!(p.window_title, "Accessibility permission needed - check console for instructions");
}

#[test]
fn windows_names_and_urls() {
    let t = ActivityTracker::new();
    assert_eq!(t.get_better_app_name_windows("CHROME"), "Google Chrome");
    assert_eq!(t.get_better_app_name_windows("msedge"), "Microsoft Edge");
    assert_eq!(t.get_better_app_name_windows("notepad++"), "Notepad++");
    assert_eq!(t.get_better_app_name_windows("Blender"), "Blender");
    assert!(t.is_browser_app_windows("Brave Browser"));
    assert!(!t.is_browser_app_windows("Visual Studio Code"));
    assert_eq!(
        t.get_browser_url_windows("Google Chrome", "https://site.io - Site - Google Chrome"),
        Some(s("Chrome Tab: https://site.io - Site"))
    );
    assert_eq!(
        t.get_browser_url_windows("Google Chrome", "Site - https://site.io - Google Chrome"),
        Some(s("https://site.io"))
    );
    assert_eq!(
        t.get_browser_url_windows("Google Chrome", "News - Google Chrome"),
        Some(s("Chrome Tab: News"))
    );
    assert_eq!(
        t.get_browser_url_windows("Mozilla Firefox", "Mail - Mozilla Firefox"),
        Some(s("Firefox Tab: Mail"))
    );
    assert_eq!(t.get_browser_url_windows("Opera", "Start"), Some(s("Opera: Start")));
}

#[test]
fn windows_file_paths_and_segments() {
    let t = ActivityTracker::new();
    assert_eq!(
        t.extract_file_path_from_title_windows("main.rs - velosi - Visual Studio Code"),
        Some(s("velosi/main.rs"))
    );
    assert_eq!(t.extract_file_path_from_title_windows("Welcome - Visual Studio Code"), Some(s("Welcome")));
    assert_eq!(t.extract_file_path_from_title_windows("notes.txt - Notepad++"), Some(s("notes.txt")));
    assert_eq!(t.extract_file_path_from_title_windows("open a.c and lib.rs now"), Some(s("lib.rs")));
    assert_eq!(t.extract_file_path_from_title_windows("version 1.2 notes"), None);
    assert_eq!(t.extract_file_path_from_title_windows("Settings"), None);

    let seg = t.extract_segment_info_windows("Google Chrome", "News - Google Chrome").unwrap();
    assert_eq!(seg.segment_type, SegmentType::BrowserTab);
    assert_eq!(seg.metadata, Some(s("Browser: Google Chrome")));
    let seg = t.extract_segment_info_windows("Notepad", "todo.txt - Notepad").unwrap();
    assert_eq!(seg.segment_type, SegmentType::EditorFile);
    assert_eq!(seg.file_path, Some(s("todo.txt")));
    assert_eq!(seg.metadata, Some(s("Editor: Notepad")));
    let seg = t.extract_segment_info_windows("Calculator", "Calculator").unwrap();
    assert_eq!(seg.segment_type, SegmentType::AppWindow);
    assert_eq!(seg.metadata, Some(s("Application: Calculator")));

    let a = t.assemble_activity_windows(Some(s("chrome")), 1234, Some(s("News - Google Chrome")), 5);
    assert_eq!(a.app_name, "Google Chrome");
    assert_eq!(a.app_bundle_id, Some(s("1234")));
    assert_eq!(a.url, Some(s("Chrome Tab: News")));
    let a = t.assemble_activity_windows(None, 7, None, 5);
    assert_eq!(a.app_name, "Unknown Application");
    assert_eq!(a.window_title, "Unknown Window");
    assert_eq!(a.url, None);
}
