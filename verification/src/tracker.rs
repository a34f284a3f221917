//! The activity tracker: the user's activity state and the rules that turn
//! what the operating system reports into application names, URLs and
//! segments.
use std::time::SystemTime;

use vstd::prelude::*;

use url::Url;

use crate::models::{chars_are, contains_any, has_any_substring, str_views, SegmentType};
use crate::text::{
    chars_of, concat_chars, contains_chars, ends_with_chars, equals_any, has_prefix,
    has_substring, has_suffix, lemma_split_seq_len, lit_then, lowercase_of, slice_chars,
    split_char, split_on_char, split_on_seq, split_seq, starts_with_chars, string_of,
    strip_leading, strip_leading_chars, to_lower, decimal, decimal_string, trim, trim_chars, utf8_len, utf8_len_chars,
    views,
};

verus! {

/// A point in wall-clock time (`std::time::SystemTime`), carried as is.
#[verifier::external_type_specification]
#[verifier::external_body]
pub struct ExSystemTime(SystemTime);

/// Reads the wall clock (`SystemTime::now`); nothing is promised of the
/// result, which depends on the time.
#[verifier::external_body]
fn system_time_now() -> SystemTime {
    SystemTime::now()
}

/// The nanoseconds elapsed since `t` (`SystemTime::elapsed`, its `Duration`
/// converted by `as_nanos`), or `None` when `t` lies in the future; nothing
/// is promised of the value, which depends on the time.
#[verifier::external_body]
fn elapsed_nanos(t: &SystemTime) -> Option<u128> {
    match t.elapsed() {
        Ok(d) => Some(d.as_nanos()),
        Err(_) => None,
    }
}

/// What `Url::parse` followed by `Url::domain` gives for a string: `None`
/// when the string does not parse as a URL, `Some(None)` when the URL has no
/// domain (no host, or an IP address), else the domain.
pub uninterp spec fn url_domain_of(s: Seq<char>) -> Option<Option<Seq<char>>>;

/// The view of a nested optional string.
pub open spec fn opt_opt_view(o: Option<Option<String>>) -> Option<Option<Seq<char>>> {
    match o {
        Some(Some(d)) => Some(Some(d@)),
        Some(None) => Some(None),
        None => None,
    }
}

/// Parses `s` with `Url::parse` and reads `Url::domain`; the result is
/// `url_domain_of(s)`.
#[verifier::external_body]
fn parsed_domain(s: &str) -> (res: Option<Option<String>>)
    ensures
        opt_opt_view(res) == url_domain_of(s@),
{
    match Url::parse(s) {
        Ok(u) => match u.domain() {
            Some(d) => Some(Some(d.to_string())),
            None => Some(None),
        },
        Err(_) => None,
    }
}

/// The abstract content of a `SegmentInfo`.
pub struct SegmentView {
    pub segment_type: SegmentType,
    pub title: Seq<char>,
    pub url: Option<Seq<char>>,
    pub file_path: Option<Seq<char>>,
    pub metadata: Option<Seq<char>>,
}

/// Detailed information about the segment the user is in.
#[derive(Debug, Clone)]
pub struct SegmentInfo {
    pub segment_type: SegmentType,
    /// Tab title, file name, ...
    pub title: String,
    /// The page of a browser tab.
    pub url: Option<String>,
    /// The file of an editor.
    pub file_path: Option<String>,
    pub metadata: Option<String>,
}

/// The application in front, as last observed.
#[derive(Debug, Clone)]
pub struct CurrentActivity {
    pub app_name: String,
    pub app_bundle_id: Option<String>,
    pub window_title: String,
    pub url: Option<String>,
    /// When it was observed, in Unix milliseconds.
    pub timestamp: i64,
    pub segment_info: Option<SegmentInfo>,
}

/// When the user last gave input, and whether they count as active.
#[derive(Debug)]
pub struct UserActivity {
    pub last_input_time: SystemTime,
    pub is_active: bool,
}

/// Inactivity (ns) after which the user no longer counts as active.
pub const INACTIVE_THRESHOLD_NS: u128 = 1_800_000_000_000;

/// Tracks whether the user is active.
pub struct ActivityTracker {
    user_activity: UserActivity,
    inactive_threshold_ns: u128,
}

/// The view of an optional string.
pub open spec fn opt_view(o: Option<String>) -> Option<Seq<char>> {
    match o {
        Some(s) => Some(s@),
        None => None,
    }
}

impl View for SegmentInfo {
    type V = SegmentView;

    open spec fn view(&self) -> SegmentView {
        SegmentView {
            segment_type: self.segment_type,
            title: self.title@,
            url: opt_view(self.url),
            file_path: opt_view(self.file_path),
            metadata: opt_view(self.metadata),
        }
    }
}

/// The view of an optional segment.
pub open spec fn opt_segment_view(o: Option<SegmentInfo>) -> Option<SegmentView> {
    match o {
        Some(s) => Some(s@),
        None => None,
    }
}

/// Parts of application names that show a browser.
pub open spec fn browser_name_marks() -> Seq<Seq<char>> {
    seq!["Chrome"@, "Safari"@, "Firefox"@, "Edge"@]
}

/// Bundle identifiers of browsers.
pub open spec fn browser_bundle_ids() -> Seq<Seq<char>> {
    seq!["com.google.Chrome"@, "com.apple.Safari"@, "org.mozilla.firefox"@, "com.microsoft.edgemac"@]
}

/// Whether an application is a browser, by its name or its bundle.
pub open spec fn is_browser(app: Seq<char>, bundle: Option<Seq<char>>) -> bool {
    has_any_substring(app, browser_name_marks()) || match bundle {
        Some(b) => browser_bundle_ids().contains(b),
        None => false,
    }
}

/// The display name that a known bundle identifier stands for.
pub open spec fn bundle_app_name(b: Seq<char>) -> Option<Seq<char>> {
    if b == "com.microsoft.VSCode"@ {
        Some("Visual Studio Code"@)
    } else if b == "com.google.Chrome"@ {
        Some("Google Chrome"@)
    } else if b == "com.apple.Safari"@ {
        Some("Safari"@)
    } else if b == "org.mozilla.firefox"@ {
        Some("Firefox"@)
    } else if b == "com.spotify.client"@ {
        Some("Spotify"@)
    } else if b == "com.apple.finder"@ {
        Some("Finder"@)
    } else if b == "com.apple.Terminal"@ {
        Some("Terminal"@)
    } else if b == "com.figma.Desktop"@ {
        Some("Figma"@)
    } else if b == "com.notion.id"@ {
        Some("Notion"@)
    } else if b == "com.slack.Slack"@ {
        Some("Slack"@)
    } else if b == "us.zoom.xos"@ {
        Some("Zoom"@)
    } else if b == "com.discord.Discord"@ {
        Some("Discord"@)
    } else {
        None
    }
}

/// Parts of a window title that show a code editor.
pub open spec fn code_title_marks() -> Seq<Seq<char>> {
    seq![".ts"@, ".js"@, ".jsx"@, ".tsx"@, ".py"@, ".rs"@, ".json"@, "src/"@, "velosi-tracker"@]
}

/// The name of an Electron application, told by its window title.
pub open spec fn electron_app_name(title: Option<Seq<char>>) -> Seq<char> {
    match title {
        None => "Electron App"@,
        Some(t) => {
            let l = lowercase_of(t);
            if has_substring(l, "visual studio code"@) || has_substring(l, "vs code"@)
                || has_any_substring(t, code_title_marks()) {
                "Visual Studio Code"@
            } else if has_substring(l, "notion"@) {
                "Notion"@
            } else if has_substring(l, "discord"@) {
                "Discord"@
            } else if has_substring(l, "slack"@) {
                "Slack"@
            } else if has_substring(l, "figma"@) {
                "Figma"@
            } else if has_substring(l, "spotify"@) {
                "Spotify"@
            } else {
                "Electron App ("@ + t + ")"@
            }
        },
    }
}

/// The display name of an application: the name its bundle stands for,
/// else for Electron the name its window title shows, else the raw name.
pub open spec fn better_app_name(
    raw: Seq<char>,
    bundle: Option<Seq<char>>,
    title: Option<Seq<char>>,
) -> Seq<char> {
    let known = match bundle {
        Some(b) => bundle_app_name(b),
        None => None,
    };
    match known {
        Some(n) => n,
        None => if raw == "Electron"@ {
            electron_app_name(title)
        } else {
            raw
        },
    }
}

/// The file part of an editor's window title ("file - folder", with a
/// leading unsaved marker removed), or the whole title.
pub open spec fn vscode_file(t: Seq<char>) -> Seq<char> {
    if has_substring(t, " - "@) {
        let p = split_seq(t, " - "@)[0];
        if p.len() > 0 && p[0] == '\u{25CF}' {
            trim(strip_leading(p, '\u{25CF}'))
        } else {
            p
        }
    } else {
        t
    }
}

/// The title of a browser segment: for an http(s) address its domain
/// ("Unknown Site" without one), else the address itself.
pub open spec fn browser_segment_title(url: Seq<char>) -> Seq<char> {
    if has_prefix(url, "http"@) {
        match url_domain_of(url) {
            Some(Some(d)) => d,
            Some(None) => "Unknown Site"@,
            None => url,
        }
    } else {
        url
    }
}

/// A segment with only a type and a title.
pub open spec fn plain_segment(kind: SegmentType, title: Seq<char>) -> SegmentView {
    SegmentView { segment_type: kind, title, url: None, file_path: None, metadata: None }
}

/// Whether an application is the code editor, by name or bundle.
pub open spec fn is_code_editor(app: Seq<char>, bundle: Option<Seq<char>>) -> bool {
    has_substring(app, "Visual Studio Code"@) || match bundle {
        Some(b) => has_substring(b, "com.microsoft.VSCode"@),
        None => false,
    }
}

/// The segment the user is in: a browser tab when a browser shows an
/// address, an editor file for the code editor, a terminal session, or else
/// the application's window.
pub open spec fn segment_of(
    app: Seq<char>,
    bundle: Option<Seq<char>>,
    title: Seq<char>,
    url: Option<Seq<char>>,
) -> SegmentView {
    if is_browser(app, bundle) && url is Some {
        SegmentView {
            segment_type: SegmentType::BrowserTab,
            title: browser_segment_title(url->0),
            url: url,
            file_path: None,
            metadata: None,
        }
    } else if is_code_editor(app, bundle) {
        let f = vscode_file(title);
        SegmentView {
            segment_type: SegmentType::EditorFile,
            title: f,
            url: None,
            file_path: Some(f),
            metadata: None,
        }
    } else if has_substring(app, "Terminal"@) || has_substring(app, "iTerm"@) {
        plain_segment(SegmentType::TerminalSession, title)
    } else {
        plain_segment(SegmentType::AppWindow, title)
    }
}

/// The browser script to run for an application, if any.
#[derive(Debug, Clone, Copy, PartialEq, Eq, Structural)]
pub enum BrowserQuery {
    /// Ask Google Chrome for its active tab.
    Chrome,
    /// Ask Safari for its current tab.
    Safari,
    /// Firefox cannot be asked; the tab is in the window title.
    Firefox,
    /// Not a browser that can be asked.
    Unsupported,
}

/// Which browser to ask for the address of the current tab.
pub open spec fn browser_query_of(app: Seq<char>, bundle: Option<Seq<char>>) -> BrowserQuery {
    let bundle_has = |p: Seq<char>| match bundle {
        Some(b) => has_substring(b, p),
        None => false,
    };
    if has_substring(app, "Chrome"@) || bundle_has("com.google.Chrome"@) {
        BrowserQuery::Chrome
    } else if has_substring(app, "Safari"@) || bundle_has("com.apple.Safari"@) {
        BrowserQuery::Safari
    } else if has_substring(app, "Firefox"@) || bundle_has("org.mozilla.firefox"@) {
        BrowserQuery::Firefox
    } else {
        BrowserQuery::Unsupported
    }
}


/// The display name of a Windows executable, by its lowercased name.
pub open spec fn windows_app_name(raw: Seq<char>) -> Seq<char> {
    let l = lowercase_of(raw);
    if l == "chrome"@ {
        "Google Chrome"@
    } else if l == "firefox"@ {
        "Mozilla Firefox"@
    } else if l == "msedge"@ {
        "Microsoft Edge"@
    } else if l == "code"@ {
        "Visual Studio Code"@
    } else if l == "notepad++"@ {
        "Notepad++"@
    } else if l == "explorer"@ {
        "File Explorer"@
    } else if l == "cmd"@ {
        "Command Prompt"@
    } else if l == "powershell"@ {
        "PowerShell"@
    } else if l == "discord"@ {
        "Discord"@
    } else if l == "slack"@ {
        "Slack"@
    } else if l == "teams"@ {
        "Microsoft Teams"@
    } else if l == "zoom"@ {
        "Zoom"@
    } else if l == "spotify"@ {
        "Spotify"@
    } else if l == "vlc"@ {
        "VLC Media Player"@
    } else {
        raw
    }
}

/// Parts of lowercased Windows application names that show a browser.
pub open spec fn windows_browser_marks() -> Seq<Seq<char>> {
    seq!["chrome"@, "firefox"@, "edge"@, "safari"@, "opera"@, "brave"@]
}

/// Whether a Windows application is a browser.
pub open spec fn is_browser_windows(app: Seq<char>) -> bool {
    has_any_substring(lowercase_of(app), windows_browser_marks())
}

/// `t` without the suffix `suf` (which it ends with).
pub open spec fn without_suffix(t: Seq<char>, suf: Seq<char>) -> Seq<char> {
    t.subrange(0, t.len() - suf.len())
}

/// Whether the application (lowercased) contains `mark` and its window title
/// contains `name` and ends with " - " and `name`.
pub open spec fn titled_by(app: Seq<char>, t: Seq<char>, mark: Seq<char>, name: Seq<char>) -> bool {
    has_substring(lowercase_of(app), mark) && has_substring(t, name) && has_suffix(
        t,
        " - "@ + name,
    )
}

/// What a Windows browser shows: an address found in its title, its tab
/// title, or the application and title.
pub open spec fn browser_url_windows(app: Seq<char>, t: Seq<char>) -> Seq<char> {
    let parts = split_seq(t, " - "@);
    if has_substring(t, " - "@) && parts.len() >= 2 && has_prefix(parts[parts.len() - 2], "http"@) {
        parts[parts.len() - 2]
    } else if titled_by(app, t, "chrome"@, "Google Chrome"@) {
        "Chrome Tab: "@ + without_suffix(t, " - Google Chrome"@)
    } else if titled_by(app, t, "firefox"@, "Mozilla Firefox"@) {
        "Firefox Tab: "@ + without_suffix(t, " - Mozilla Firefox"@)
    } else if titled_by(app, t, "edge"@, "Microsoft Edge"@) {
        "Edge Tab: "@ + without_suffix(t, " - Microsoft Edge"@)
    } else {
        app + ": "@ + t
    }
}

/// File extensions that a word of a title may end with.
pub open spec fn file_extensions() -> Seq<Seq<char>> {
    seq![".txt"@, ".rs"@, ".js"@, ".ts"@, ".py"@, ".cpp"@, ".c"@, ".h"@, ".java"@]
}

/// Whether a word of a title names a file.
pub open spec fn is_file_word(p: Seq<char>) -> bool {
    has_substring(p, "."@) && utf8_len(p) > 3 && exists|k: int|
        0 <= k < file_extensions().len() && has_suffix(p, #[trigger] file_extensions()[k])
}

/// The first word that names a file.
pub open spec fn first_file_word(ps: Seq<Seq<char>>) -> Option<Seq<char>>
    decreases ps.len(),
{
    if ps.len() == 0 {
        None
    } else if is_file_word(ps[0]) {
        Some(ps[0])
    } else {
        first_file_word(ps.drop_first())
    }
}

/// The file that a Windows editor's title shows.
pub open spec fn file_path_windows(t: Seq<char>) -> Option<Seq<char>> {
    let vs = " - Visual Studio Code"@;
    let np = " - Notepad++"@;
    if has_substring(t, vs) && has_suffix(t, vs) {
        let tp = without_suffix(t, vs);
        let parts = split_seq(tp, " - "@);
        if has_substring(tp, " - "@) && parts.len() >= 2 {
            Some(parts[1] + "/"@ + parts[0])
        } else {
            Some(tp)
        }
    } else if has_substring(t, np) && has_suffix(t, np) {
        Some(without_suffix(t, np))
    } else if has_substring(t, "."@) {
        first_file_word(split_char(t, ' '))
    } else {
        None
    }
}

/// The segment of a Windows application's window.
pub open spec fn segment_windows(app: Seq<char>, t: Seq<char>) -> SegmentView {
    let l = lowercase_of(app);
    if is_browser_windows(app) {
        SegmentView {
            segment_type: SegmentType::BrowserTab,
            title: t,
            url: Some(browser_url_windows(app, t)),
            file_path: None,
            metadata: Some("Browser: "@ + app),
        }
    } else if has_substring(l, "code"@) || has_substring(l, "notepad"@) || has_substring(t, "."@) {
        SegmentView {
            segment_type: SegmentType::EditorFile,
            title: t,
            url: None,
            file_path: file_path_windows(t),
            metadata: Some("Editor: "@ + app),
        }
    } else {
        SegmentView {
            segment_type: SegmentType::AppWindow,
            title: t,
            url: None,
            file_path: None,
            metadata: Some("Application: "@ + app),
        }
    }
}

/// Whether the characters of `hay` end with the literal `p`.
fn ends_lit(hay: &Vec<char>, p: &str) -> (res: bool)
    ensures
        res == has_suffix(hay@, p@),
{
    let pc = chars_of(p);
    ends_with_chars(hay, &pc)
}

/// `t` without its last `n` characters.
fn drop_tail(t: &Vec<char>, n: usize) -> (res: Vec<char>)
    requires
        n <= t@.len(),
    ensures
        res@ == t@.subrange(0, t@.len() - n),
{
    slice_chars(t, 0, t.len() - n)
}

/// Whether a word names a file.
fn file_word(p: &Vec<char>) -> (res: bool)
    ensures
        res == is_file_word(p@),
{
    let exts = vec![".txt", ".rs", ".js", ".ts", ".py", ".cpp", ".c", ".h", ".java"];
    assert(str_views(exts@) =~= file_extensions());
    if !has_lit(p, ".") || utf8_len_chars(p) <= 3 {
        return false;
    }
    let mut k: usize = 0;
    while k < exts.len()
        invariant
            k <= exts@.len(),
            str_views(exts@) == file_extensions(),
            has_substring(p@, "."@),
            utf8_len(p@) > 3,
            forall|j: int| 0 <= j < k ==> !has_suffix(p@, #[trigger] file_extensions()[j]),
        decreases exts@.len() - k,
    {
        assert(str_views(exts@)[k as int] == exts@[k as int]@);
        if ends_lit(p, exts[k]) {
            assert(has_suffix(p@, file_extensions()[k as int]));
            return true;
        }
        k = k + 1;
    }
    false
}

/// The first word of `ps` that names a file.
fn find_file_word(ps: &Vec<Vec<char>>) -> (res: Option<Vec<char>>)
    ensures
        match res {
            Some(w) => first_file_word(views(ps@)) == Some(w@),
            None => first_file_word(views(ps@)) is None,
        },
{
    let mut i: usize = 0;
    assert(views(ps@).skip(0) =~= views(ps@));
    while i < ps.len()
        invariant
            i <= ps@.len(),
            first_file_word(views(ps@)) == first_file_word(views(ps@).skip(i as int)),
        decreases ps@.len() - i,
    {
        assert(views(ps@).skip(i as int)[0] == ps@[i as int]@);
        assert(views(ps@).skip(i as int).drop_first() =~= views(ps@).skip(i + 1));
        if file_word(&ps[i]) {
            return Some(ps[i].clone());
        }
        i = i + 1;
    }
    assert(views(ps@).skip(i as int) =~= Seq::<Seq<char>>::empty());
    None
}

/// Whether `b` is present and contains the literal `p`.
fn bundle_contains(bundle_id: &Option<String>, p: &str) -> (res: bool)
    ensures
        res == match opt_view(*bundle_id) {
            Some(b) => has_substring(b, p@),
            None => false,
        },
{
    match bundle_id {
        Some(b) => {
            let bc = chars_of(b.as_str());
            let pc = chars_of(p);
            contains_chars(&bc, &pc)
        },
        None => false,
    }
}

/// Whether the characters of `hay` contain the literal `p`.
fn has_lit(hay: &Vec<char>, p: &str) -> (res: bool)
    ensures
        res == has_substring(hay@, p@),
{
    let pc = chars_of(p);
    contains_chars(hay, &pc)
}

impl ActivityTracker {
    /// Whether the user counts as active.
    pub closed spec fn active(&self) -> bool {
        self.user_activity.is_active
    }

    /// The inactivity threshold in nanoseconds.
    pub closed spec fn threshold(&self) -> u128 {
        self.inactive_threshold_ns
    }

    /// The time of the last input.
    pub closed spec fn last_input(&self) -> SystemTime {
        self.user_activity.last_input_time
    }

    /// A tracker whose last input was at `t`: the user counts as active,
    /// with a thirty-minute inactivity threshold.
    pub fn started_at(t: SystemTime) -> (res: Self)
        ensures
            res.active(),
            res.threshold() == INACTIVE_THRESHOLD_NS,
            res.last_input() == t,
    {
        ActivityTracker {
            user_activity: UserActivity { last_input_time: t, is_active: true },
            inactive_threshold_ns: INACTIVE_THRESHOLD_NS,
        }
    }

    /// A tracker that counts the user as active now, with a thirty-minute
    /// inactivity threshold; its last input is the clock reading
    /// (`SystemTime::now`) it takes.
    pub fn new() -> (res: Self)
        ensures
            res.active(),
            res.threshold() == INACTIVE_THRESHOLD_NS,
    {
        Self::started_at(system_time_now())
    }

    /// Records input at `t`: the user is active and `t` is the last input.
    pub fn record_input_at(&mut self, t: SystemTime)
        ensures
            final(self).active(),
            final(self).last_input() == t,
            final(self).threshold() == old(self).threshold(),
    {
        self.user_activity.last_input_time = t;
        self.user_activity.is_active = true;
    }

    /// The user's activity state.
    pub fn user_activity(&self) -> (res: &UserActivity)
        ensures
            res.is_active == self.active(),
    {
        &self.user_activity
    }

    /// Records input at the present moment: the user is active.
    pub fn update_last_input_time(&mut self)
        ensures
            final(self).active(),
            final(self).threshold() == old(self).threshold(),
    {
        self.record_input_at(system_time_now());
    }

    /// Updates the activity state from the time elapsed since the last
    /// input: once more than the threshold has passed the user is inactive
    /// and the result is false; otherwise the user stays active and the
    /// result is true. `None` (input in the future) counts as no time.
    pub fn settle_activity(&mut self, elapsed: Option<u128>) -> (res: bool)
        requires
            old(self).active(),
        ensures
            res == !(match elapsed {
                Some(e) => e > old(self).threshold(),
                None => false,
            }),
            final(self).active() == res,
            final(self).threshold() == old(self).threshold(),
            final(self).last_input() == old(self).last_input(),
    {
        if let Some(e) = elapsed {
            if e > self.inactive_threshold_ns {
                self.user_activity.is_active = false;
                return false;
            }
        }
        true
    }

    /// Records input now and reports whether the user is active, measuring
    /// the time since that input against the threshold. The measurement
    /// depends on the clock; the result agrees with the activity state.
    pub fn check_user_activity(&mut self) -> (res: bool)
        ensures
            final(self).active() == res,
            final(self).threshold() == old(self).threshold(),
    {
        self.update_last_input_time();
        let elapsed = elapsed_nanos(&self.user_activity.last_input_time);
        self.settle_activity(elapsed)
    }

    /// Whether activity should be tracked now: the user is active.
    pub fn should_track(&mut self) -> (res: bool)
        ensures
            final(self).active() == res,
            final(self).threshold() == old(self).threshold(),
    {
        self.check_user_activity()
    }

    /// The message about accessibility permissions, given whether the
    /// accessibility probe succeeded.
    pub fn test_permissions(&self, accessibility_granted: bool) -> (res: String)
        ensures
            res@ == (if accessibility_granted {
                "✅ Accessibility permissions are working correctly!"@
            } else {
                PERMISSIONS_HELP@
            }),
    {
        if accessibility_granted {
            String::from_str("✅ Accessibility permissions are working correctly!")
        } else {
            String::from_str(PERMISSIONS_HELP)
        }
    }
    /// Whether an application is a browser: its name contains "Chrome",
    /// "Safari", "Firefox" or "Edge", or its bundle is that of one.
    pub fn is_browser_app(&self, app_name: &str, bundle_id: &Option<String>) -> (res: bool)
        ensures
            res == is_browser(app_name@, opt_view(*bundle_id)),
    {
        let name = chars_of(app_name);
        let marks = vec!["Chrome", "Safari", "Firefox", "Edge"];
        assert(str_views(marks@) =~= browser_name_marks());
        if contains_any(&name, &marks) {
            return true;
        }
        match bundle_id {
            Some(b) => {
                let bc = chars_of(b.as_str());
                let ids = vec![
                    "com.google.Chrome",
                    "com.apple.Safari",
                    "org.mozilla.firefox",
                    "com.microsoft.edgemac",
                ];
                assert(ids@.map_values(|x: &str| x@) =~= browser_bundle_ids());
                equals_any(&bc, &ids)
            },
            None => false,
        }
    }

    /// The activity observed in front: the application (already named), its
    /// bundle, the window title read (if any), the address its browser
    /// showed and the time of observation. The address is kept for browsers
    /// only; the segment follows from the rest.
    pub fn assemble_activity(
        &self,
        app_name: String,
        bundle_id: Option<String>,
        window_title: Option<String>,
        url: Option<String>,
        timestamp: i64,
    ) -> (res: CurrentActivity)
        ensures
            res.app_name@ == app_name@,
            opt_view(res.app_bundle_id) == opt_view(bundle_id),
            res.window_title@ == title_or_unknown(opt_view(window_title)),
            opt_view(res.url) == (if is_browser(app_name@, opt_view(bundle_id)) {
                opt_view(url)
            } else {
                None
            }),
            res.timestamp == timestamp,
            opt_segment_view(res.segment_info) == Some(
                segment_of(
                    app_name@,
                    opt_view(bundle_id),
                    res.window_title@,
                    opt_view(res.url),
                ),
            ),
    {
        let title = match window_title {
            Some(t) => t,
            None => String::from_str("Unknown Window"),
        };
        let url = if self.is_browser_app(app_name.as_str(), &bundle_id) {
            url
        } else {
            None
        };
        let segment_info = self.extract_segment_info(app_name.as_str(), &bundle_id, title.as_str(), &url);
        CurrentActivity {
            app_name,
            app_bundle_id: bundle_id,
            window_title: title,
            url,
            timestamp,
            segment_info,
        }
    }

    /// The activity recorded when accessibility permissions are missing.
    pub fn permission_required_activity(&self, timestamp: i64) -> (res: CurrentActivity)
        ensures
            res.app_name@ == "Permission Required"@,
            res.app_bundle_id is None,
            res.window_title@
                == "Accessibility permission needed - check console for instructions"@,
            res.url is None,
            res.timestamp == timestamp,
            res.segment_info is None,
    {
        CurrentActivity {
            app_name: String::from_str("Permission Required"),
            app_bundle_id: None,
            window_title: String::from_str(
                "Accessibility permission needed - check console for instructions",
            ),
            url: None,
            timestamp,
            segment_info: None,
        }
    }

    /// The display name of an application: the name its bundle stands for,
    /// else for Electron the name its window title shows, else the raw name.
    pub fn get_better_app_name(
        &self,
        raw_name: &str,
        bundle_id: &Option<String>,
        window_title: Option<String>,
    ) -> (res: String)
        ensures
            res@ == better_app_name(raw_name@, opt_view(*bundle_id), opt_view(window_title)),
    {
        if let Some(bundle) = bundle_id {
            let b = chars_of(bundle.as_str());
            if chars_are(&b, "com.microsoft.VSCode") {
                return String::from_str("Visual Studio Code");
            } else if chars_are(&b, "com.google.Chrome") {
                return String::from_str("Google Chrome");
            } else if chars_are(&b, "com.apple.Safari") {
                return String::from_str("Safari");
            } else if chars_are(&b, "org.mozilla.firefox") {
                return String::from_str("Firefox");
            } else if chars_are(&b, "com.spotify.client") {
                return String::from_str("Spotify");
            } else if chars_are(&b, "com.apple.finder") {
                return String::from_str("Finder");
            } else if chars_are(&b, "com.apple.Terminal") {
                return String::from_str("Terminal");
            } else if chars_are(&b, "com.figma.Desktop") {
                return String::from_str("Figma");
            } else if chars_are(&b, "com.notion.id") {
                return String::from_str("Notion");
            } else if chars_are(&b, "com.slack.Slack") {
                return String::from_str("Slack");
            } else if chars_are(&b, "us.zoom.xos") {
                return String::from_str("Zoom");
            } else if chars_are(&b, "com.discord.Discord") {
                return String::from_str("Discord");
            }
        }
        let raw = chars_of(raw_name);
        if !chars_are(&raw, "Electron") {
            return String::from_str(raw_name);
        }
        match window_title {
            None => String::from_str("Electron App"),
            Some(title) => {
                let t = chars_of(title.as_str());
                let lower = to_lower(title.as_str());
                let l = chars_of(lower.as_str());
                let marks = vec![
                    ".ts",
                    ".js",
                    ".jsx",
                    ".tsx",
                    ".py",
                    ".rs",
                    ".json",
                    "src/",
                    "velosi-tracker",
                ];
                assert(str_views(marks@) =~= code_title_marks());
                if has_lit(&l, "visual studio code") || has_lit(&l, "vs code") || contains_any(
                    &t,
                    &marks,
                ) {
                    String::from_str("Visual Studio Code")
                } else if has_lit(&l, "notion") {
                    String::from_str("Notion")
                } else if has_lit(&l, "discord") {
                    String::from_str("Discord")
                } else if has_lit(&l, "slack") {
                    String::from_str("Slack")
                } else if has_lit(&l, "figma") {
                    String::from_str("Figma")
                } else if has_lit(&l, "spotify") {
                    String::from_str("Spotify")
                } else {
                    let head = lit_then("Electron App (", &t);
                    let close = chars_of(")");
                    let all = concat_chars(&head, &close);
                    string_of(&all)
                }
            },
        }
    }

    /// The file shown in an editor's window title: the part before the
    /// first " - ", without a leading unsaved marker; the whole title when
    /// there is no " - ".
    pub fn extract_vscode_file_info(&self, window_title: &str) -> (res: Option<String>)
        ensures
            opt_view(res) == Some(vscode_file(window_title@)),
    {
        let t = chars_of(window_title);
        let sep = chars_of(" - ");
        proof {
            reveal_strlit(" - ");
        }
        if contains_chars(&t, &sep) {
            let parts = split_on_seq(&t, &sep);
            assert(views(parts@)[0] == parts@[0]@);
            let first = &parts[0];
            if first.len() > 0 && first[0] == '\u{25CF}' {
                let stripped = strip_leading_chars(first, '\u{25CF}');
                let trimmed = trim_chars(&stripped);
                return Some(string_of(&trimmed));
            }
            return Some(string_of(first));
        }
        Some(String::from_str(window_title))
    }

    /// The segment the user is in, from the application, its bundle, its
    /// window title and the address its browser shows.
    pub fn extract_segment_info(
        &self,
        app_name: &str,
        bundle_id: &Option<String>,
        window_title: &str,
        url: &Option<String>,
    ) -> (res: Option<SegmentInfo>)
        ensures
            opt_segment_view(res) == Some(
                segment_of(app_name@, opt_view(*bundle_id), window_title@, opt_view(*url)),
            ),
    {
        if self.is_browser_app(app_name, bundle_id) {
            if let Some(url_str) = url {
                let u = chars_of(url_str.as_str());
                let title = if starts_with_chars(&u, &chars_of("http")) {
                    match parsed_domain(url_str.as_str()) {
                        Some(Some(d)) => d,
                        Some(None) => String::from_str("Unknown Site"),
                        None => url_str.clone(),
                    }
                } else {
                    url_str.clone()
                };
                return Some(
                    SegmentInfo {
                        segment_type: SegmentType::BrowserTab,
                        title,
                        url: Some(url_str.clone()),
                        file_path: None,
                        metadata: None,
                    },
                );
            }
        }
        let app = chars_of(app_name);
        if has_lit(&app, "Visual Studio Code") || bundle_contains(bundle_id, "com.microsoft.VSCode") {
            let info = self.extract_vscode_file_info(window_title);
            if let Some(file_info) = info {
                return Some(
                    SegmentInfo {
                        segment_type: SegmentType::EditorFile,
                        title: file_info.clone(),
                        url: None,
                        file_path: Some(file_info),
                        metadata: None,
                    },
                );
            }
        }
        if has_lit(&app, "Terminal") || has_lit(&app, "iTerm") {
            return Some(
                SegmentInfo {
                    segment_type: SegmentType::TerminalSession,
                    title: String::from_str(window_title),
                    url: None,
                    file_path: None,
                    metadata: None,
                },
            );
        }
        Some(
            SegmentInfo {
                segment_type: SegmentType::AppWindow,
                title: String::from_str(window_title),
                url: None,
                file_path: None,
                metadata: None,
            },
        )
    }

    /// Which browser to ask for the address of its current tab.
    pub fn browser_query(&self, app_name: &str, bundle_id: &Option<String>) -> (res: BrowserQuery)
        ensures
            res == browser_query_of(app_name@, opt_view(*bundle_id)),
    {
        let app = chars_of(app_name);
        if has_lit(&app, "Chrome") || bundle_contains(bundle_id, "com.google.Chrome") {
            BrowserQuery::Chrome
        } else if has_lit(&app, "Safari") || bundle_contains(bundle_id, "com.apple.Safari") {
            BrowserQuery::Safari
        } else if has_lit(&app, "Firefox") || bundle_contains(bundle_id, "org.mozilla.firefox") {
            BrowserQuery::Firefox
        } else {
            BrowserQuery::Unsupported
        }
    }
    /// The activity observed in front on Windows: the executable's name
    /// (`None` when it could not be read), the process, the window title read
    /// (if any) and the time of observation.
    pub fn assemble_activity_windows(
        &self,
        exe_name: Option<String>,
        process_id: u32,
        window_title: Option<String>,
        timestamp: i64,
    ) -> (res: CurrentActivity)
        ensures
            res.app_name@ == match opt_view(exe_name) {
                Some(n) => windows_app_name(n),
                None => "Unknown Application"@,
            },
            opt_view(res.app_bundle_id) == Some(decimal(process_id as nat)),
            res.window_title@ == title_or_unknown(opt_view(window_title)),
            opt_view(res.url) == (if is_browser_windows(res.app_name@) {
                Some(browser_url_windows(res.app_name@, res.window_title@))
            } else {
                None
            }),
            res.timestamp == timestamp,
            opt_segment_view(res.segment_info) == Some(
                segment_windows(res.app_name@, res.window_title@),
            ),
    {
        let title = match window_title {
            Some(t) => t,
            None => String::from_str("Unknown Window"),
        };
        let app_name = match exe_name {
            Some(n) => self.get_better_app_name_windows(n.as_str()),
            None => String::from_str("Unknown Application"),
        };
        let url = if self.is_browser_app_windows(app_name.as_str()) {
            self.get_browser_url_windows(app_name.as_str(), title.as_str())
        } else {
            None
        };
        let segment_info = self.extract_segment_info_windows(app_name.as_str(), title.as_str());
        CurrentActivity {
            app_name,
            app_bundle_id: Some(decimal_string(process_id as u64)),
            window_title: title,
            url,
            timestamp,
            segment_info,
        }
    }

    /// The display name of a Windows executable.
    pub fn get_better_app_name_windows(&self, raw_name: &str) -> (res: String)
        ensures
            res@ == windows_app_name(raw_name@),
    {
        let lower = to_lower(raw_name);
        let l = chars_of(lower.as_str());
        if chars_are(&l, "chrome") {
            String::from_str("Google Chrome")
        } else if chars_are(&l, "firefox") {
            String::from_str("Mozilla Firefox")
        } else if chars_are(&l, "msedge") {
            String::from_str("Microsoft Edge")
        } else if chars_are(&l, "code") {
            String::from_str("Visual Studio Code")
        } else if chars_are(&l, "notepad++") {
            String::from_str("Notepad++")
        } else if chars_are(&l, "explorer") {
            String::from_str("File Explorer")
        } else if chars_are(&l, "cmd") {
            String::from_str("Command Prompt")
        } else if chars_are(&l, "powershell") {
            String::from_str("PowerShell")
        } else if chars_are(&l, "discord") {
            String::from_str("Discord")
        } else if chars_are(&l, "slack") {
            String::from_str("Slack")
        } else if chars_are(&l, "teams") {
            String::from_str("Microsoft Teams")
        } else if chars_are(&l, "zoom") {
            String::from_str("Zoom")
        } else if chars_are(&l, "spotify") {
            String::from_str("Spotify")
        } else if chars_are(&l, "vlc") {
            String::from_str("VLC Media Player")
        } else {
            String::from_str(raw_name)
        }
    }

    /// Whether a Windows application is a browser.
    pub fn is_browser_app_windows(&self, app_name: &str) -> (res: bool)
        ensures
            res == is_browser_windows(app_name@),
    {
        let lower = to_lower(app_name);
        let l = chars_of(lower.as_str());
        let marks = vec!["chrome", "firefox", "edge", "safari", "opera", "brave"];
        assert(str_views(marks@) =~= windows_browser_marks());
        contains_any(&l, &marks)
    }

    /// What a Windows browser shows, read from its window title.
    pub fn get_browser_url_windows(&self, app_name: &str, window_title: &str) -> (res: Option<
        String,
    >)
        ensures
            opt_view(res) == Some(browser_url_windows(app_name@, window_title@)),
    {
        let t = chars_of(window_title);
        let sep = chars_of(" - ");
        proof {
            reveal_strlit(" - ");
        }
        let parts = split_on_seq(&t, &sep);
        if contains_chars(&t, &sep) && parts.len() >= 2 {
            let cand = &parts[parts.len() - 2];
            assert(views(parts@)[parts@.len() - 2] == parts@[parts@.len() - 2]@);
            if starts_with_chars(cand, &chars_of("http")) {
                return Some(string_of(cand));
            }
        }
        let lower = to_lower(app_name);
        let l = chars_of(lower.as_str());
        proof {
            reveal_strlit("Google Chrome");
            reveal_strlit(" - Google Chrome");
            reveal_strlit("Mozilla Firefox");
            reveal_strlit(" - Mozilla Firefox");
            reveal_strlit("Microsoft Edge");
            reveal_strlit(" - Microsoft Edge");
            assert(" - Google Chrome"@ =~= " - "@ + "Google Chrome"@);
            assert(" - Mozilla Firefox"@ =~= " - "@ + "Mozilla Firefox"@);
            assert(" - Microsoft Edge"@ =~= " - "@ + "Microsoft Edge"@);
        }
        if let Some(rest) = self.tab_title(&l, &t, "chrome", "Google Chrome", " - Google Chrome") {
            return Some(string_of(&lit_then("Chrome Tab: ", &rest)));
        }
        if let Some(rest) = self.tab_title(&l, &t, "firefox", "Mozilla Firefox", " - Mozilla Firefox") {
            return Some(string_of(&lit_then("Firefox Tab: ", &rest)));
        }
        if let Some(rest) = self.tab_title(&l, &t, "edge", "Microsoft Edge", " - Microsoft Edge") {
            return Some(string_of(&lit_then("Edge Tab: ", &rest)));
        }
        let app = chars_of(app_name);
        let head = concat_chars(&app, &chars_of(": "));
        Some(string_of(&concat_chars(&head, &t)))
    }

    /// The tab title in a browser's window title "title - name", when the
    /// lowercased application `l` contains `mark`.
    fn tab_title(&self, l: &Vec<char>, t: &Vec<char>, mark: &str, name: &str, suffix: &str) -> (res:
        Option<Vec<char>>)
        requires
            suffix@ == " - "@ + name@,
        ensures
            match res {
                Some(r) => has_substring(l@, mark@) && has_substring(t@, name@) && has_suffix(
                    t@,
                    suffix@,
                ) && r@ == without_suffix(t@, suffix@),
                None => !(has_substring(l@, mark@) && has_substring(t@, name@) && has_suffix(
                    t@,
                    suffix@,
                )),
            },
    {
        if has_lit(l, mark) && has_lit(t, name) && ends_lit(t, suffix) {
            let sc = chars_of(suffix);
            Some(drop_tail(t, sc.len()))
        } else {
            None
        }
    }

    /// The file that a Windows editor's window title shows, if any.
    pub fn extract_file_path_from_title_windows(&self, window_title: &str) -> (res: Option<String>)
        ensures
            opt_view(res) == file_path_windows(window_title@),
    {
        let t = chars_of(window_title);
        let vs = chars_of(" - Visual Studio Code");
        if contains_chars(&t, &vs) && ends_with_chars(&t, &vs) {
            let tp = drop_tail(&t, vs.len());
            let sep = chars_of(" - ");
            proof {
                reveal_strlit(" - ");
            }
            let parts = split_on_seq(&tp, &sep);
            if contains_chars(&tp, &sep) && parts.len() >= 2 {
                assert(views(parts@)[0] == parts@[0]@);
                assert(views(parts@)[1] == parts@[1]@);
                let head = concat_chars(&parts[1], &chars_of("/"));
                return Some(string_of(&concat_chars(&head, &parts[0])));
            }
            return Some(string_of(&tp));
        }
        let np = chars_of(" - Notepad++");
        if contains_chars(&t, &np) && ends_with_chars(&t, &np) {
            return Some(string_of(&drop_tail(&t, np.len())));
        }
        if has_lit(&t, ".") {
            let words = split_on_char(&t, ' ');
            return match find_file_word(&words) {
                Some(w) => Some(string_of(&w)),
                None => None,
            };
        }
        None
    }

    /// The segment of a Windows application's window.
    pub fn extract_segment_info_windows(&self, app_name: &str, window_title: &str) -> (res: Option<
        SegmentInfo,
    >)
        ensures
            opt_segment_view(res) == Some(segment_windows(app_name@, window_title@)),
    {
        let app = chars_of(app_name);
        if self.is_browser_app_windows(app_name) {
            return Some(
                SegmentInfo {
                    segment_type: SegmentType::BrowserTab,
                    title: String::from_str(window_title),
                    url: self.get_browser_url_windows(app_name, window_title),
                    file_path: None,
                    metadata: Some(string_of(&lit_then("Browser: ", &app))),
                },
            );
        }
        let lower = to_lower(app_name);
        let l = chars_of(lower.as_str());
        let t = chars_of(window_title);
        if has_lit(&l, "code") || has_lit(&l, "notepad") || has_lit(&t, ".") {
            Some(
                SegmentInfo {
                    segment_type: SegmentType::EditorFile,
                    title: String::from_str(window_title),
                    url: None,
                    file_path: self.extract_file_path_from_title_windows(window_title),
                    metadata: Some(string_of(&lit_then("Editor: ", &app))),
                },
            )
        } else {
            Some(
                SegmentInfo {
                    segment_type: SegmentType::AppWindow,
                    title: String::from_str(window_title),
                    url: None,
                    file_path: None,
                    metadata: Some(string_of(&lit_then("Application: ", &app))),
                },
            )
        }
    }
}

/// The window title that the title script printed, trimmed, unless it is
/// empty, "missing value" or an error report.
pub open spec fn accepted_title(out: Seq<char>) -> Option<Seq<char>> {
    let t = trim(out);
    if t.len() > 0 && t != "missing value"@ && !has_prefix(t, "Error:"@) {
        Some(t)
    } else {
        None
    }
}

/// The address that a browser script printed, trimmed, unless it is empty
/// or "missing value".
pub open spec fn accepted_url(out: Seq<char>) -> Option<Seq<char>> {
    let t = trim(out);
    if t.len() > 0 && t != "missing value"@ {
        Some(t)
    } else {
        None
    }
}

/// The application name and bundle identifier in the front-application
/// script's output "name|bundle"; an empty bundle is none.
pub open spec fn front_app_of(out: Seq<char>) -> (Seq<char>, Option<Seq<char>>) {
    let parts = split_char(trim(out), '|');
    (parts[0], if parts.len() > 1 && parts[1].len() > 0 {
        Some(parts[1])
    } else {
        None
    })
}

/// Whether characters equal the literal `lit`.
fn is_lit(v: &Vec<char>, lit: &str) -> (res: bool)
    ensures
        res == (v@ == lit@),
{
    chars_are(v, lit)
}

/// Reads the title script's output.
pub fn accept_window_title(output: &str) -> (res: Option<String>)
    ensures
        opt_view(res) == accepted_title(output@),
{
    let t = trim_chars(&chars_of(output));
    if t.len() > 0 && !is_lit(&t, "missing value") && !starts_with_chars(&t, &chars_of("Error:")) {
        Some(string_of(&t))
    } else {
        None
    }
}

/// Reads a browser script's output.
pub fn accept_browser_url(output: &str) -> (res: Option<String>)
    ensures
        opt_view(res) == accepted_url(output@),
{
    let t = trim_chars(&chars_of(output));
    if t.len() > 0 && !is_lit(&t, "missing value") {
        Some(string_of(&t))
    } else {
        None
    }
}

/// Whether the accessibility probe's output reports success.
pub fn accessibility_granted(output: &str) -> (res: bool)
    ensures
        res == has_prefix(trim(output@), "success:"@),
{
    let t = trim_chars(&chars_of(output));
    starts_with_chars(&t, &chars_of("success:"))
}

/// Reads the front-application script's output.
pub fn parse_front_app(output: &str) -> (res: (String, Option<String>))
    ensures
        (res.0@, opt_view(res.1)) == front_app_of(output@),
{
    let t = trim_chars(&chars_of(output));
    let parts = split_on_char(&t, '|');
    assert(views(parts@)[0] == parts@[0]@);
    let name = string_of(&parts[0]);
    if parts.len() > 1 && parts[1].len() > 0 {
        assert(views(parts@)[1] == parts@[1]@);
        (name, Some(string_of(&parts[1])))
    } else {
        proof {
            if parts@.len() > 1 {
                assert(views(parts@)[1] == parts@[1]@);
            }
        }
        (name, None)
    }
}

/// The window title an activity records: the one read, or "Unknown Window".
pub open spec fn title_or_unknown(t: Option<Seq<char>>) -> Seq<char> {
    match t {
        Some(x) => x,
        None => "Unknown Window"@,
    }
}

/// The instructions shown when accessibility permissions are missing.
pub const PERMISSIONS_HELP: &'static str = "❌ Accessibility permissions needed. Please:\n1. Open System Preferences/Settings\n2. Go to Privacy & Security → Accessibility\n3. Add your terminal/IDE to the list\n4. Restart the application";

} // verus!
