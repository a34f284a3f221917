//! The tray menu: its items and their labels for the tracking and focus
//! state, the tooltip, and what each menu item does.
use vstd::prelude::*;

use crate::models::chars_are;
use crate::text::chars_of;
use crate::tracking::{seconds_until_tomorrow, seconds_until_tomorrow_spec};

verus! {

/// An item of the tray menu.
#[derive(Debug, Clone)]
pub struct MenuEntry {
    pub id: String,
    pub text: String,
    pub enabled: bool,
}

/// The abstract form of a menu item: identifier, text, enabled.
pub open spec fn entry_view(e: MenuEntry) -> (Seq<char>, Seq<char>, bool) {
    (e.id@, e.text@, e.enabled)
}

/// The views of menu items.
pub open spec fn entries_view(v: Seq<MenuEntry>) -> Seq<(Seq<char>, Seq<char>, bool)> {
    v.map_values(|e: MenuEntry| entry_view(e))
}

/// The tray menu: its items in order; the item "pause_menu" opens the
/// pause options.
#[derive(Debug, Clone)]
pub struct TrayMenu {
    pub items: Vec<MenuEntry>,
    pub pause_options: Vec<MenuEntry>,
}

/// The tracking status line.
pub open spec fn tracking_status_text(is_tracking: bool, pause_info: Option<(u64, bool)>) -> Seq<char> {
    if is_tracking {
        "🟢 Tracking Active"@
    } else {
        match pause_info {
            Some((_, indefinite)) => if indefinite {
                "🔴 Paused Indefinitely"@
            } else {
                "🔴 Paused (Timed)"@
            },
            None => "🔴 Tracking Paused"@,
        }
    }
}

/// The focus status line.
pub open spec fn focus_status_text(focus: Option<bool>) -> Seq<char> {
    match focus {
        Some(true) => "🎯 Focus Mode: ON"@,
        Some(false) => "🎯 Focus Mode: OFF"@,
        None => "🎯 Focus Mode: Unknown"@,
    }
}

/// The focus toggle's text.
pub open spec fn focus_toggle_text(focus: Option<bool>) -> Seq<char> {
    if focus == Some(true) {
        "Disable Focus Mode"@
    } else {
        "Enable Focus Mode"@
    }
}

/// The pause options, in order.
pub open spec fn pause_options_spec() -> Seq<(Seq<char>, Seq<char>, bool)> {
    seq![
        ("pause_1min"@, "Pause for 1 minute"@, true),
        ("pause_5min"@, "Pause for 5 minutes"@, true),
        ("pause_30min"@, "Pause for 30 minutes"@, true),
        ("pause_1hour"@, "Pause for 1 hour"@, true),
        ("pause_until_tomorrow"@, "Pause until tomorrow"@, true),
        ("pause_indefinitely"@, "Pause indefinitely"@, true),
    ]
}

/// The items of the menu: the two status lines (disabled), the pause
/// options while tracking or else the resume item, the focus toggle, the
/// dashboard and quit.
pub open spec fn menu_items_spec(is_tracking: bool, pause_info: Option<(u64, bool)>, focus: Option<bool>) -> Seq<
    (Seq<char>, Seq<char>, bool),
> {
    seq![
        ("tracking_status"@, tracking_status_text(is_tracking, pause_info), false),
        ("focus_status"@, focus_status_text(focus), false),
        if is_tracking {
            ("pause_menu"@, "Pause tracking options"@, true)
        } else {
            ("toggle"@, "Resume Tracking"@, true)
        },
        ("focus_toggle"@, focus_toggle_text(focus), true),
        ("dashboard"@, "Dashboard"@, true),
        ("quit"@, "Quit"@, true),
    ]
}

/// The tooltip of the tray icon.
pub open spec fn tooltip_text(is_tracking: bool, pause_info: Option<(u64, bool)>) -> Seq<char> {
    if is_tracking {
        "Velosi - Tracking Active"@
    } else {
        match pause_info {
            Some((_, indefinite)) => if indefinite {
                "Velosi - Paused Indefinitely"@
            } else {
                "Velosi - Paused (Timed)"@
            },
            None => "Velosi - Tracking Paused"@,
        }
    }
}

/// What a menu item does.
#[derive(Debug, Clone, Copy, PartialEq, Eq, Structural)]
pub enum TrayAction {
    ToggleTracking,
    ToggleFocusMode,
    ShowDashboard,
    /// Pause tracking, for this many seconds or (`None`) until resumed.
    Pause(Option<u64>),
    Quit,
    /// An unknown item: nothing happens.
    Ignore,
}

/// The action of the menu item with identifier `id`, chosen at `now_ms`
/// (Unix milliseconds): "until tomorrow" pauses until the next midnight UTC.
pub open spec fn action_of(id: Seq<char>, now_ms: i64) -> TrayAction {
    if id == "toggle"@ {
        TrayAction::ToggleTracking
    } else if id == "focus_toggle"@ {
        TrayAction::ToggleFocusMode
    } else if id == "dashboard"@ {
        TrayAction::ShowDashboard
    } else if id == "pause_1min"@ {
        TrayAction::Pause(Some(60))
    } else if id == "pause_5min"@ {
        TrayAction::Pause(Some(300))
    } else if id == "pause_30min"@ {
        TrayAction::Pause(Some(1800))
    } else if id == "pause_1hour"@ {
        TrayAction::Pause(Some(3600))
    } else if id == "pause_until_tomorrow"@ {
        TrayAction::Pause(Some(seconds_until_tomorrow_spec(now_ms) as u64))
    } else if id == "pause_indefinitely"@ {
        TrayAction::Pause(None)
    } else if id == "quit"@ {
        TrayAction::Quit
    } else {
        TrayAction::Ignore
    }
}

/// Builds a menu item.
fn entry(id: &str, text: &str, enabled: bool) -> (res: MenuEntry)
    ensures
        entry_view(res) == (id@, text@, enabled),
{
    MenuEntry { id: String::from_str(id), text: String::from_str(text), enabled }
}

/// The tray of the application.
pub struct TrayManager;

impl TrayManager {
    /// The tracking status line.
    pub fn tracking_status(is_tracking: bool, pause_info: Option<(u64, bool)>) -> (res: &'static str)
        ensures
            res@ == tracking_status_text(is_tracking, pause_info),
    {
        if is_tracking {
            "🟢 Tracking Active"
        } else {
            match pause_info {
                Some((_, indefinite)) => if indefinite {
                    "🔴 Paused Indefinitely"
                } else {
                    "🔴 Paused (Timed)"
                },
                None => "🔴 Tracking Paused",
            }
        }
    }

    /// The options of the pause submenu.
    pub fn create_pause_submenu() -> (res: Vec<MenuEntry>)
        ensures
            entries_view(res@) == pause_options_spec(),
    {
        let mut v: Vec<MenuEntry> = Vec::new();
        v.push(entry("pause_1min", "Pause for 1 minute", true));
        v.push(entry("pause_5min", "Pause for 5 minutes", true));
        v.push(entry("pause_30min", "Pause for 30 minutes", true));
        v.push(entry("pause_1hour", "Pause for 1 hour", true));
        v.push(entry("pause_until_tomorrow", "Pause until tomorrow", true));
        v.push(entry("pause_indefinitely", "Pause indefinitely", true));
        assert(entries_view(v@) =~= pause_options_spec());
        v
    }

    /// The menu for the tracking state, the pause (remaining seconds and
    /// whether it is indefinite) and the focus state (`None`: unknown). The
    /// pause options are offered only while tracking.
    pub fn create_menu(is_tracking: bool, pause_info: Option<(u64, bool)>, is_focus_mode_enabled: Option<bool>) -> (res:
        TrayMenu)
        ensures
            entries_view(res.items@) == menu_items_spec(is_tracking, pause_info, is_focus_mode_enabled),
            is_tracking ==> entries_view(res.pause_options@) == pause_options_spec(),
            !is_tracking ==> res.pause_options@.len() == 0,
    {
        let focus_status = match is_focus_mode_enabled {
            Some(true) => "🎯 Focus Mode: ON",
            Some(false) => "🎯 Focus Mode: OFF",
            None => "🎯 Focus Mode: Unknown",
        };
        let focus_toggle = match is_focus_mode_enabled {
            Some(true) => "Disable Focus Mode",
            _ => "Enable Focus Mode",
        };
        let mut items: Vec<MenuEntry> = Vec::new();
        items.push(entry("tracking_status", Self::tracking_status(is_tracking, pause_info), false));
        items.push(entry("focus_status", focus_status, false));
        let pause_options = if is_tracking {
            items.push(entry("pause_menu", "Pause tracking options", true));
            Self::create_pause_submenu()
        } else {
            items.push(entry("toggle", "Resume Tracking", true));
            Vec::new()
        };
        items.push(entry("focus_toggle", focus_toggle, true));
        items.push(entry("dashboard", "Dashboard", true));
        items.push(entry("quit", "Quit", true));
        assert(entries_view(items@) =~= menu_items_spec(is_tracking, pause_info, is_focus_mode_enabled));
        TrayMenu { items, pause_options }
    }

    /// The tooltip for the tracking state and pause.
    pub fn tooltip(is_tracking: bool, pause_info: Option<(u64, bool)>) -> (res: String)
        ensures
            res@ == tooltip_text(is_tracking, pause_info),
    {
        if is_tracking {
            String::from_str("Velosi - Tracking Active")
        } else {
            match pause_info {
                Some((_, indefinite)) => if indefinite {
                    String::from_str("Velosi - Paused Indefinitely")
                } else {
                    String::from_str("Velosi - Paused (Timed)")
                },
                None => String::from_str("Velosi - Tracking Paused"),
            }
        }
    }

    /// What the menu item with identifier `id` does when chosen at `now_ms`
    /// (Unix milliseconds).
    pub fn menu_action(id: &str, now_ms: i64) -> (res: TrayAction)
        ensures
            res == action_of(id@, now_ms),
    {
        let v = chars_of(id);
        if chars_are(&v, "toggle") {
            TrayAction::ToggleTracking
        } else if chars_are(&v, "focus_toggle") {
            TrayAction::ToggleFocusMode
        } else if chars_are(&v, "dashboard") {
            TrayAction::ShowDashboard
        } else if chars_are(&v, "pause_1min") {
            TrayAction::Pause(Some(60))
        } else if chars_are(&v, "pause_5min") {
            TrayAction::Pause(Some(300))
        } else if chars_are(&v, "pause_30min") {
            TrayAction::Pause(Some(1800))
        } else if chars_are(&v, "pause_1hour") {
            TrayAction::Pause(Some(3600))
        } else if chars_are(&v, "pause_until_tomorrow") {
            TrayAction::Pause(Some(seconds_until_tomorrow(now_ms)))
        } else if chars_are(&v, "pause_indefinitely") {
            TrayAction::Pause(None)
        } else if chars_are(&v, "quit") {
            TrayAction::Quit
        } else {
            TrayAction::Ignore
        }
    }
}

} // verus!
