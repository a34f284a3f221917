//! Data model of tracked activity.
//!
//! Points in time are Unix timestamps in milliseconds (`i64`) and record
//! identifiers are the 128-bit values of UUIDs (`u128`).
use vstd::prelude::*;

use crate::text::{chars_eq, chars_of, contains_chars, has_substring, lowercase_of, to_lower};

verus! {

/// The kind of a fine-grained activity segment.
#[derive(Debug, Clone, Copy, PartialEq, Eq, Structural)]
pub enum SegmentType {
    /// An individual browser tab.
    BrowserTab,
    /// A file in a code editor.
    EditorFile,
    /// A document in a word processor.
    DocumentFile,
    /// A terminal session or directory.
    TerminalSession,
    /// A generic application window.
    AppWindow,
    Unknown,
}

/// The category an activity belongs to.
#[derive(Debug)]
pub enum ActivityCategory {
    Productive,
    Social,
    Entertainment,
    Development,
    Communication,
    /// A user-defined category, by its identifier.
    Custom(String),
    Unknown,
}

/// The mathematical value of an [`ActivityCategory`].
pub enum CategoryKind {
    Productive,
    Social,
    Entertainment,
    Development,
    Communication,
    Custom(Seq<char>),
    Unknown,
}

impl View for ActivityCategory {
    type V = CategoryKind;

    open spec fn view(&self) -> CategoryKind {
        match self {
            ActivityCategory::Productive => CategoryKind::Productive,
            ActivityCategory::Social => CategoryKind::Social,
            ActivityCategory::Entertainment => CategoryKind::Entertainment,
            ActivityCategory::Development => CategoryKind::Development,
            ActivityCategory::Communication => CategoryKind::Communication,
            ActivityCategory::Custom(s) => CategoryKind::Custom(s@),
            ActivityCategory::Unknown => CategoryKind::Unknown,
        }
    }
}

impl Clone for ActivityCategory {
    fn clone(&self) -> (res: Self)
        ensures
            res == *self,
    {
        match self {
            ActivityCategory::Productive => ActivityCategory::Productive,
            ActivityCategory::Social => ActivityCategory::Social,
            ActivityCategory::Entertainment => ActivityCategory::Entertainment,
            ActivityCategory::Development => ActivityCategory::Development,
            ActivityCategory::Communication => ActivityCategory::Communication,
            ActivityCategory::Custom(s) => ActivityCategory::Custom(s.clone()),
            ActivityCategory::Unknown => ActivityCategory::Unknown,
        }
    }
}

/// Some needle of `needles` occurs in `hay`.
pub open spec fn has_any_substring(hay: Seq<char>, needles: Seq<Seq<char>>) -> bool {
    exists|k: int| 0 <= k < needles.len() && has_substring(hay, #[trigger] needles[k])
}

/// The views of a sequence of string slices.
pub open spec fn str_views(v: Seq<&str>) -> Seq<Seq<char>> {
    v.map_values(|x: &str| x@)
}

/// Whether one of `needles` occurs in `hay`.
pub fn contains_any(hay: &Vec<char>, needles: &Vec<&str>) -> (res: bool)
    ensures
        res == has_any_substring(hay@, str_views(needles@)),
{
    let mut k: usize = 0;
    while k < needles.len()
        invariant
            k <= needles@.len(),
            forall|j: int| 0 <= j < k ==> !has_substring(hay@, #[trigger] needles@[j]@),
        decreases needles@.len() - k,
    {
        let n = chars_of(needles[k]);
        if contains_chars(hay, &n) {
            assert(str_views(needles@)[k as int] == needles@[k as int]@);
            return true;
        }
        k = k + 1;
    }
    assert forall|j: int| 0 <= j < needles@.len() implies !has_substring(
        hay@,
        #[trigger] str_views(needles@)[j],
    ) by {
        assert(str_views(needles@)[j] == needles@[j]@);
    }
    false
}

/// Built-in keywords of development applications.
pub open spec fn development_app_words() -> Seq<Seq<char>> {
    seq!["xcode"@, "vscode"@, "intellij"@, "terminal"@, "iterm"@]
}

/// Built-in keywords of browsers.
pub open spec fn browser_app_words() -> Seq<Seq<char>> {
    seq!["chrome"@, "safari"@, "firefox"@]
}

/// Built-in keywords of communication applications.
pub open spec fn communication_app_words() -> Seq<Seq<char>> {
    seq!["slack"@, "discord"@, "zoom"@, "teams"@, "mail"@]
}

/// Built-in keywords of social applications.
pub open spec fn social_app_words() -> Seq<Seq<char>> {
    seq!["twitter"@, "facebook"@, "instagram"@, "linkedin"@]
}

/// Built-in keywords of entertainment applications.
pub open spec fn entertainment_app_words() -> Seq<Seq<char>> {
    seq!["youtube"@, "netflix"@, "spotify"@, "music"@, "vlc"@]
}

/// The built-in category of an application whose lowercased name is `lower`:
/// the first group of keywords, in this order, one of which occurs in it.
pub open spec fn category_of_app_name(lower: Seq<char>) -> CategoryKind {
    if has_any_substring(lower, development_app_words()) {
        CategoryKind::Development
    } else if has_any_substring(lower, browser_app_words()) {
        CategoryKind::Productive
    } else if has_any_substring(lower, communication_app_words()) {
        CategoryKind::Communication
    } else if has_any_substring(lower, social_app_words()) {
        CategoryKind::Social
    } else if has_any_substring(lower, entertainment_app_words()) {
        CategoryKind::Entertainment
    } else {
        CategoryKind::Unknown
    }
}

/// The built-in category that a category identifier names, compared
/// after lowercasing; any other identifier is a custom category.
pub open spec fn category_of_mapping_id(id: Seq<char>) -> CategoryKind {
    let l = lowercase_of(id);
    if l == "development"@ {
        CategoryKind::Development
    } else if l == "communication"@ {
        CategoryKind::Communication
    } else if l == "social"@ {
        CategoryKind::Social
    } else if l == "entertainment"@ {
        CategoryKind::Entertainment
    } else if l == "productive"@ {
        CategoryKind::Productive
    } else {
        CategoryKind::Custom(id)
    }
}

/// The category that a category identifier chosen by the user names,
/// compared exactly; any other identifier is a custom category.
pub open spec fn category_of_user_choice(id: Seq<char>) -> CategoryKind {
    if id == "productive"@ {
        CategoryKind::Productive
    } else if id == "social"@ {
        CategoryKind::Social
    } else if id == "entertainment"@ {
        CategoryKind::Entertainment
    } else if id == "development"@ {
        CategoryKind::Development
    } else if id == "communication"@ {
        CategoryKind::Communication
    } else if id == "unknown"@ {
        CategoryKind::Unknown
    } else {
        CategoryKind::Custom(id)
    }
}

/// Whether the characters of `v` are those of the literal `lit`.
pub fn chars_are(v: &Vec<char>, lit: &str) -> (res: bool)
    ensures
        res == (v@ == lit@),
{
    let l = chars_of(lit);
    chars_eq(v, &l)
}

impl ActivityCategory {
    /// The built-in category of an application, from keywords in its
    /// lowercased name.
    pub fn from_app_name(app_name: &str, _bundle_id: Option<&str>) -> (res: Self)
        ensures
            res@ == category_of_app_name(lowercase_of(app_name@)),
    {
        let lower = to_lower(app_name);
        let name = chars_of(lower.as_str());
        let dev = vec!["xcode", "vscode", "intellij", "terminal", "iterm"];
        let browsers = vec!["chrome", "safari", "firefox"];
        let comm = vec!["slack", "discord", "zoom", "teams", "mail"];
        let social = vec!["twitter", "facebook", "instagram", "linkedin"];
        let ent = vec!["youtube", "netflix", "spotify", "music", "vlc"];
        assert(str_views(dev@) =~= development_app_words());
        assert(str_views(browsers@) =~= browser_app_words());
        assert(str_views(comm@) =~= communication_app_words());
        assert(str_views(social@) =~= social_app_words());
        assert(str_views(ent@) =~= entertainment_app_words());
        if contains_any(&name, &dev) {
            ActivityCategory::Development
        } else if contains_any(&name, &browsers) {
            ActivityCategory::Productive
        } else if contains_any(&name, &comm) {
            ActivityCategory::Communication
        } else if contains_any(&name, &social) {
            ActivityCategory::Social
        } else if contains_any(&name, &ent) {
            ActivityCategory::Entertainment
        } else {
            ActivityCategory::Unknown
        }
    }

    /// The category that a mapping's category identifier stands for.
    pub fn from_mapping_id(id: &str) -> (res: Self)
        ensures
            res@ == category_of_mapping_id(id@),
    {
        let lower = to_lower(id);
        let l = chars_of(lower.as_str());
        if chars_are(&l, "development") {
            ActivityCategory::Development
        } else if chars_are(&l, "communication") {
            ActivityCategory::Communication
        } else if chars_are(&l, "social") {
            ActivityCategory::Social
        } else if chars_are(&l, "entertainment") {
            ActivityCategory::Entertainment
        } else if chars_are(&l, "productive") {
            ActivityCategory::Productive
        } else {
            ActivityCategory::Custom(String::from_str(id))
        }
    }

    /// The category that the user picked by identifier.
    pub fn from_user_choice(id: &str) -> (res: Self)
        ensures
            res@ == category_of_user_choice(id@),
    {
        let v = chars_of(id);
        if chars_are(&v, "productive") {
            ActivityCategory::Productive
        } else if chars_are(&v, "social") {
            ActivityCategory::Social
        } else if chars_are(&v, "entertainment") {
            ActivityCategory::Entertainment
        } else if chars_are(&v, "development") {
            ActivityCategory::Development
        } else if chars_are(&v, "communication") {
            ActivityCategory::Communication
        } else if chars_are(&v, "unknown") {
            ActivityCategory::Unknown
        } else {
            ActivityCategory::Custom(String::from_str(id))
        }
    }

    /// Whether two categories are the same.
    pub fn same_as(&self, other: &ActivityCategory) -> (res: bool)
        ensures
            res == (self@ == other@),
    {
        match self {
            ActivityCategory::Productive => matches!(other, ActivityCategory::Productive),
            ActivityCategory::Social => matches!(other, ActivityCategory::Social),
            ActivityCategory::Entertainment => matches!(other, ActivityCategory::Entertainment),
            ActivityCategory::Development => matches!(other, ActivityCategory::Development),
            ActivityCategory::Communication => matches!(other, ActivityCategory::Communication),
            ActivityCategory::Unknown => matches!(other, ActivityCategory::Unknown),
            ActivityCategory::Custom(a) => match other {
                ActivityCategory::Custom(b) => a.eq(b),
                _ => false,
            },
        }
    }
}


/// A user-defined category.
#[derive(Debug, Clone)]
pub struct UserCategory {
    pub id: String,
    pub name: String,
    pub color: String,
    /// The parent category, for subcategories.
    pub parent_id: Option<String>,
    pub created_at: i64,
    pub updated_at: i64,
}

/// Maps application names to a category. `app_pattern` holds one or more
/// alternatives separated by `|`.
#[derive(Debug, Clone)]
pub struct AppMapping {
    pub id: u128,
    pub app_pattern: String,
    /// A built-in or user category identifier.
    pub category_id: String,
    /// Whether the user added this mapping (rather than the bundled data).
    pub is_custom: bool,
    pub created_at: i64,
    pub updated_at: i64,
}

/// Maps URLs (domains, subdomains or full URLs) to a category.
/// `url_pattern` holds one or more alternatives separated by `|`.
#[derive(Debug, Clone)]
pub struct UrlMapping {
    pub id: u128,
    pub url_pattern: String,
    pub category_id: String,
    pub is_custom: bool,
    pub created_at: i64,
    pub updated_at: i64,
}

/// A granular segment of an activity (a tab, a file, ...).
#[derive(Debug, Clone)]
pub struct ActivitySegment {
    pub id: u128,
    /// The activity this segment belongs to.
    pub activity_id: u128,
    pub start_time: i64,
    pub end_time: Option<i64>,
    pub segment_type: SegmentType,
    /// Tab title, file name, ...
    pub title: String,
    pub url: Option<String>,
    pub file_path: Option<String>,
    /// Additional data, as JSON text.
    pub metadata: Option<String>,
}

/// A tracked period in one application; `end_time` is `None` while it is
/// still going on.
#[derive(Debug, Clone)]
pub struct ActivityEntry {
    pub id: u128,
    pub start_time: i64,
    pub end_time: Option<i64>,
    pub app_name: String,
    pub app_bundle_id: Option<String>,
    pub window_title: String,
    /// The page, for browsers.
    pub url: Option<String>,
    pub category: ActivityCategory,
    pub segments: Vec<ActivitySegment>,
}

/// Time spent on one segment, for a detailed summary.
#[derive(Debug, Clone)]
pub struct SegmentSummary {
    pub segment_type: SegmentType,
    pub title: String,
    pub duration_seconds: i64,
    pub url: Option<String>,
    pub file_path: Option<String>,
    /// How many times the segment was accessed.
    pub times_accessed: i32,
}

/// Time spent in one application, with its segments.
#[derive(Debug, Clone)]
pub struct DetailedActivity {
    pub app_name: String,
    pub duration_seconds: i64,
    pub segments: Vec<SegmentSummary>,
}

/// A segment clipped to a timeline window.
#[derive(Debug, Clone)]
pub struct TimelineSegment {
    pub id: u128,
    pub start_time: i64,
    pub end_time: Option<i64>,
    pub duration_seconds: i64,
    pub segment_type: SegmentType,
    pub title: String,
    pub url: Option<String>,
    pub file_path: Option<String>,
    pub metadata: Option<String>,
}

/// An activity clipped to a timeline window.
#[derive(Debug, Clone)]
pub struct TimelineActivity {
    pub id: u128,
    pub start_time: i64,
    pub end_time: Option<i64>,
    pub duration_seconds: i64,
    pub app_name: String,
    pub app_bundle_id: Option<String>,
    pub window_title: String,
    pub url: Option<String>,
    pub category: ActivityCategory,
    pub segments: Vec<TimelineSegment>,
}

/// The activities of a time window.
#[derive(Debug, Clone)]
pub struct TimelineData {
    pub start_time: i64,
    pub end_time: i64,
    pub activities: Vec<TimelineActivity>,
}

} // verus!
