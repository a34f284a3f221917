//! Focus mode: the cache of what is allowed, the decision whether an
//! application may stay in front, and the throttling of block notices.
use vstd::prelude::*;

use crate::categorize::{app_patterns, first_app_mapping, first_match};
use crate::keyed::{age, keep_recent, KeyedList};
use crate::models::AppMapping;
use crate::text::{
    chars_eq, chars_of, contains_chars, has_substring, lower_chars, lowercase_of, string_from_chars,
    views,
};

verus! {

// ---------------------------------------------------------------------------
// Cache
// ---------------------------------------------------------------------------

/// What the allowed-apps cache says about an application.
#[derive(Debug, Clone, Copy, PartialEq, Eq, Structural)]
pub enum CacheLookup {
    /// Allowed indefinitely, or until a time still in the future.
    Allowed,
    /// Cached, but its allowance ran out.
    Expired,
    /// Not cached.
    Missing,
}

/// The cache's verdict for `app` at Unix time `now` (seconds): allowed when
/// cached without expiry or with an expiry later than `now`.
pub open spec fn cache_lookup(m: Map<Seq<char>, Option<i64>>, app: Seq<char>, now: i64) -> CacheLookup {
    if !m.dom().contains(app) {
        CacheLookup::Missing
    } else {
        match m[app] {
            None => CacheLookup::Allowed,
            Some(expiry) => if expiry > now {
                CacheLookup::Allowed
            } else {
                CacheLookup::Expired
            },
        }
    }
}

/// A change announced on the cache invalidation channel.
#[derive(Debug, Clone)]
pub enum CacheEvent {
    /// Focus mode was switched; `None` when the payload held no flag.
    FocusModeEnabledChanged { enabled: Option<bool> },
    /// The allowed categories changed; `None` when the payload held no list.
    AllowedCategoriesChanged { categories: Option<Vec<String>> },
    /// An application was allowed (until `expires_at`) or, when `removed`,
    /// no longer is; `None` when the payload named no application.
    AllowedAppsChanged { app_name: Option<String>, removed: bool, expires_at: Option<i64> },
    /// Any other event type.
    Unknown,
}

/// In-memory state that focus-mode decisions read before the database.
#[derive(Debug)]
pub struct CacheManager {
    focus_mode_enabled: bool,
    allowed_categories: Vec<String>,
    allowed_apps: KeyedList<Option<i64>>,
    app_mappings: Option<Vec<AppMapping>>,
    app_categories: KeyedList<String>,
}

impl CacheManager {
    /// Whether focus mode is on.
    pub closed spec fn enabled(&self) -> bool {
        self.focus_mode_enabled
    }

    /// The category identifiers allowed in focus mode.
    pub closed spec fn categories(&self) -> Seq<Seq<char>> {
        views_of_strings(self.allowed_categories@)
    }

    /// Allowed applications and their expiry (Unix seconds; `None` is
    /// indefinite).
    pub closed spec fn allowed(&self) -> Map<Seq<char>, Option<i64>> {
        self.allowed_apps.as_map()
    }

    /// The cached application mappings, if loaded.
    pub closed spec fn mappings(&self) -> Option<Seq<AppMapping>> {
        match self.app_mappings {
            Some(v) => Some(v@),
            None => None,
        }
    }

    /// Cached category identifiers of applications.
    pub closed spec fn app_category_ids(&self) -> Map<Seq<char>, String> {
        self.app_categories.as_map()
    }

    /// An empty cache with focus mode off.
    pub fn new() -> (res: Self)
        ensures
            !res.enabled(),
            res.categories() == Seq::<Seq<char>>::empty(),
            res.allowed() == Map::<Seq<char>, Option<i64>>::empty(),
            res.mappings() is None,
            res.app_category_ids() == Map::<Seq<char>, String>::empty(),
    {
        let res = CacheManager {
            focus_mode_enabled: false,
            allowed_categories: Vec::new(),
            allowed_apps: KeyedList::new(),
            app_mappings: None,
            app_categories: KeyedList::new(),
        };
        assert(res.categories() =~= Seq::<Seq<char>>::empty());
        res
    }

    /// A cache loaded at start-up: focus mode off, the stored categories and
    /// allowed applications.
    pub fn with_state(categories: Vec<String>, allowed: Vec<(String, Option<i64>)>) -> (res: Self)
        ensures
            !res.enabled(),
            res.categories() == views_of_strings(categories@),
            res.allowed() == fold_allowed(Map::empty(), allowed@),
            res.mappings() is None,
            res.app_category_ids() == Map::<Seq<char>, String>::empty(),
    {
        let mut res = CacheManager::new();
        res.update_allowed_categories_cache(categories);
        res.refresh_allowed_apps(allowed);
        res
    }

    /// Whether focus mode is on.
    pub fn is_focus_mode_enabled(&self) -> (res: bool)
        ensures
            res == self.enabled(),
    {
        self.focus_mode_enabled
    }

    /// The allowed categories.
    pub fn allowed_categories(&self) -> (res: &Vec<String>)
        ensures
            views_of_strings(res@) == self.categories(),
    {
        &self.allowed_categories
    }

    /// What the cache says about `app_name` at Unix time `now` (seconds).
    pub fn is_app_allowed_cached(&self, app_name: &str, now: i64) -> (res: CacheLookup)
        ensures
            res == cache_lookup(self.allowed(), app_name@, now),
    {
        match self.allowed_apps.get(app_name) {
            None => CacheLookup::Missing,
            Some(None) => CacheLookup::Allowed,
            Some(Some(expiry)) => if expiry > now {
                CacheLookup::Allowed
            } else {
                CacheLookup::Expired
            },
        }
    }

    /// Records allowed applications read from the database.
    pub fn refresh_allowed_apps(&mut self, entries: Vec<(String, Option<i64>)>)
        ensures
            final(self).allowed() == fold_allowed(old(self).allowed(), entries@),
            final(self).enabled() == old(self).enabled(),
            final(self).categories() == old(self).categories(),
            final(self).mappings() == old(self).mappings(),
            final(self).app_category_ids() == old(self).app_category_ids(),
    {
        let ghost start = self.allowed();
        let n = entries.len();
        let mut entries = entries;
        let ghost all = entries@;
        let mut done: Vec<(String, Option<i64>)> = Vec::new();
        let mut i: usize = 0;
        assert(all.take(0) =~= Seq::<(String, Option<i64>)>::empty());
        while i < n
            invariant
                n == all.len(),
                i <= n,
                entries@ == all,
                self.allowed() == fold_allowed(start, all.take(i as int)),
                self.enabled() == old(self).enabled(),
                self.categories() == old(self).categories(),
                self.mappings() == old(self).mappings(),
                self.app_category_ids() == old(self).app_category_ids(),
            decreases n - i,
        {
            let name = entries[i].0.clone();
            let expiry = entries[i].1;
            self.allowed_apps.insert(name, expiry);
            assert(all.take(i + 1).drop_last() =~= all.take(i as int));
            i = i + 1;
        }
        assert(all.take(n as int) =~= all);
    }

    /// Sets the expiry of `app_name` in the allowed-apps cache.
    pub fn update_allowed_apps_cache(&mut self, app_name: &str, expires_at: Option<i64>)
        ensures
            final(self).allowed() == old(self).allowed().insert(app_name@, expires_at),
            final(self).enabled() == old(self).enabled(),
            final(self).categories() == old(self).categories(),
            final(self).mappings() == old(self).mappings(),
            final(self).app_category_ids() == old(self).app_category_ids(),
    {
        self.allowed_apps.insert(String::from_str(app_name), expires_at);
    }

    /// Drops `app_name` from the allowed-apps cache.
    pub fn remove_from_allowed_apps_cache(&mut self, app_name: &str)
        ensures
            final(self).allowed() == old(self).allowed().remove(app_name@),
            final(self).enabled() == old(self).enabled(),
            final(self).categories() == old(self).categories(),
            final(self).mappings() == old(self).mappings(),
            final(self).app_category_ids() == old(self).app_category_ids(),
    {
        self.allowed_apps.remove(app_name);
    }

    /// Drops the cached category of `app_name`.
    pub fn clear_app_category_cache(&mut self, app_name: &str)
        ensures
            final(self).app_category_ids() == old(self).app_category_ids().remove(app_name@),
            final(self).allowed() == old(self).allowed(),
            final(self).enabled() == old(self).enabled(),
            final(self).categories() == old(self).categories(),
            final(self).mappings() == old(self).mappings(),
    {
        self.app_categories.remove(app_name);
    }

    /// Forgets the cached application mappings.
    pub fn clear_app_mappings_cache(&mut self)
        ensures
            final(self).mappings() is None,
            final(self).allowed() == old(self).allowed(),
            final(self).enabled() == old(self).enabled(),
            final(self).categories() == old(self).categories(),
            final(self).app_category_ids() == old(self).app_category_ids(),
    {
        self.app_mappings = None;
    }

    /// Sets whether focus mode is on.
    pub fn update_focus_mode_enabled_cache(&mut self, enabled: bool)
        ensures
            final(self).enabled() == enabled,
            final(self).allowed() == old(self).allowed(),
            final(self).categories() == old(self).categories(),
            final(self).mappings() == old(self).mappings(),
            final(self).app_category_ids() == old(self).app_category_ids(),
    {
        self.focus_mode_enabled = enabled;
    }

    /// Replaces the allowed categories.
    pub fn update_allowed_categories_cache(&mut self, categories: Vec<String>)
        ensures
            final(self).categories() == views_of_strings(categories@),
            final(self).enabled() == old(self).enabled(),
            final(self).allowed() == old(self).allowed(),
            final(self).mappings() == old(self).mappings(),
            final(self).app_category_ids() == old(self).app_category_ids(),
    {
        self.allowed_categories = categories;
    }

    /// The cached application mappings, if loaded.
    pub fn get_app_mappings_cached(&self) -> (res: Option<&Vec<AppMapping>>)
        ensures
            match res {
                Some(v) => self.mappings() == Some(v@),
                None => self.mappings() is None,
            },
    {
        match &self.app_mappings {
            Some(v) => Some(v),
            None => None,
        }
    }

    /// Caches the application mappings read from the database.
    pub fn store_app_mappings(&mut self, mappings: Vec<AppMapping>)
        ensures
            final(self).mappings() == Some(mappings@),
            final(self).enabled() == old(self).enabled(),
            final(self).allowed() == old(self).allowed(),
            final(self).categories() == old(self).categories(),
            final(self).app_category_ids() == old(self).app_category_ids(),
    {
        self.app_mappings = Some(mappings);
    }

    /// Applies a change announced on the invalidation channel.
    pub fn apply_invalidation(&mut self, event: CacheEvent)
        ensures
            match event {
                CacheEvent::FocusModeEnabledChanged { enabled } => {
                    &&& final(self).enabled() == match enabled {
                        Some(e) => e,
                        None => old(self).enabled(),
                    }
                    &&& final(self).categories() == old(self).categories()
                    &&& final(self).allowed() == old(self).allowed()
                    &&& final(self).mappings() == old(self).mappings()
                    &&& final(self).app_category_ids() == old(self).app_category_ids()
                },
                CacheEvent::AllowedCategoriesChanged { categories } => {
                    &&& final(self).categories() == match categories {
                        Some(c) => views_of_strings(c@),
                        None => old(self).categories(),
                    }
                    &&& final(self).mappings() is None
                    &&& final(self).enabled() == old(self).enabled()
                    &&& final(self).allowed() == old(self).allowed()
                    &&& final(self).app_category_ids() == old(self).app_category_ids()
                },
                CacheEvent::AllowedAppsChanged { app_name, removed, expires_at } => {
                    &&& final(self).allowed() == match app_name {
                        Some(a) => if removed {
                            old(self).allowed().remove(a@)
                        } else {
                            old(self).allowed().insert(a@, expires_at)
                        },
                        None => old(self).allowed(),
                    }
                    &&& final(self).app_category_ids() == match app_name {
                        Some(a) => old(self).app_category_ids().remove(a@),
                        None => old(self).app_category_ids(),
                    }
                    &&& final(self).enabled() == old(self).enabled()
                    &&& final(self).categories() == old(self).categories()
                    &&& final(self).mappings() == old(self).mappings()
                },
                CacheEvent::Unknown => {
                    &&& final(self).enabled() == old(self).enabled()
                    &&& final(self).categories() == old(self).categories()
                    &&& final(self).allowed() == old(self).allowed()
                    &&& final(self).mappings() == old(self).mappings()
                    &&& final(self).app_category_ids() == old(self).app_category_ids()
                },
            },
    {
        match event {
            CacheEvent::FocusModeEnabledChanged { enabled } => {
                if let Some(e) = enabled {
                    self.update_focus_mode_enabled_cache(e);
                }
            },
            CacheEvent::AllowedCategoriesChanged { categories } => {
                if let Some(c) = categories {
                    self.update_allowed_categories_cache(c);
                }
                self.clear_app_mappings_cache();
            },
            CacheEvent::AllowedAppsChanged { app_name, removed, expires_at } => {
                if let Some(a) = app_name {
                    if removed {
                        self.remove_from_allowed_apps_cache(a.as_str());
                    } else {
                        self.update_allowed_apps_cache(a.as_str(), expires_at);
                    }
                    self.clear_app_category_cache(a.as_str());
                }
            },
            CacheEvent::Unknown => {},
        }
    }
}

/// The views of a sequence of strings.
pub open spec fn views_of_strings(v: Seq<String>) -> Seq<Seq<char>> {
    v.map_values(|s: String| s@)
}

/// `m` with the entries inserted in order.
pub open spec fn fold_allowed(m: Map<Seq<char>, Option<i64>>, entries: Seq<(String, Option<i64>)>) -> Map<
    Seq<char>,
    Option<i64>,
>
    decreases entries.len(),
{
    if entries.len() == 0 {
        m
    } else {
        fold_allowed(m, entries.drop_last()).insert(entries.last().0@, entries.last().1)
    }
}


// ---------------------------------------------------------------------------
// Decisions
// ---------------------------------------------------------------------------

/// How long (ns) a blocked application is remembered.
pub const BLOCK_MEMORY_NS: u64 = 30_000_000_000;

/// Within this time (ns) of a block, the same application is not reported again.
pub const BLOCK_REPEAT_NS: u64 = 10_000_000_000;

/// How long (ns) a hidden application is remembered.
pub const HIDDEN_MEMORY_NS: u64 = 3_000_000_000;

/// Within this time (ns) of hiding it, an application is not tracked.
pub const HIDDEN_SKIP_NS: u64 = 2_000_000_000;

/// The lowercased texts that application patterns are matched against:
/// the application name, and the bundle identifier when there is one.
pub open spec fn focus_targets(app: Seq<char>, bundle: Option<Seq<char>>) -> Seq<Seq<char>> {
    match bundle {
        Some(b) => seq![lowercase_of(app), lowercase_of(b)],
        None => seq![lowercase_of(app)],
    }
}

/// The application is Velosi itself, by name or bundle identifier.
pub open spec fn is_velosi(app: Seq<char>, bundle: Option<Seq<char>>) -> bool {
    has_substring(lowercase_of(app), "velosi"@) || match bundle {
        Some(b) => has_substring(lowercase_of(b), "velosi"@),
        None => false,
    }
}

/// The view of an optional string slice.
pub open spec fn opt_str_view(o: Option<&str>) -> Option<Seq<char>> {
    match o {
        Some(s) => Some(s@),
        None => None,
    }
}

/// The lowercased targets of an application.
pub fn focus_targets_exec(app_name: &str, bundle_id: Option<&str>) -> (res: Vec<Vec<char>>)
    ensures
        views(res@) == focus_targets(app_name@, opt_str_view(bundle_id)),
{
    let mut targets: Vec<Vec<char>> = Vec::new();
    targets.push(lower_chars(&chars_of(app_name)));
    if let Some(b) = bundle_id {
        targets.push(lower_chars(&chars_of(b)));
    }
    assert(views(targets@) =~= focus_targets(app_name@, opt_str_view(bundle_id)));
    targets
}

/// Whether the application is Velosi itself, which focus mode never blocks.
pub fn is_velosi_app(app_name: &str, bundle_id: Option<&str>) -> (res: bool)
    ensures
        res == is_velosi(app_name@, opt_str_view(bundle_id)),
{
    let word = chars_of("velosi");
    if contains_chars(&lower_chars(&chars_of(app_name)), &word) {
        return true;
    }
    match bundle_id {
        Some(b) => contains_chars(&lower_chars(&chars_of(b)), &word),
        None => false,
    }
}

/// Why focus mode blocks an application.
#[derive(Debug, Clone)]
pub enum BlockReason {
    /// No category is allowed.
    NoCategoriesAllowed,
    /// The application's category (by identifier) is not allowed.
    CategoryNotAllowed(String),
    /// No mapping covers the application.
    NotCategorized,
}

/// The decision on an application from its category.
pub enum VerdictKind {
    Allowed,
    NoCategoriesAllowed,
    CategoryNotAllowed(Seq<char>),
    NotCategorized,
}

/// The category decision: with no allowed category everything is blocked;
/// otherwise the first mapping that matches decides, by whether its
/// category is allowed; an application no mapping matches is blocked.
pub open spec fn category_decision(
    targets: Seq<Seq<char>>,
    allowed: Seq<Seq<char>>,
    maps: Seq<AppMapping>,
) -> VerdictKind {
    if allowed.len() == 0 {
        VerdictKind::NoCategoriesAllowed
    } else {
        match first_match(app_patterns(maps), targets) {
            Some(i) => if allowed.contains(maps[i].category_id@) {
                VerdictKind::Allowed
            } else {
                VerdictKind::CategoryNotAllowed(maps[i].category_id@)
            },
            None => VerdictKind::NotCategorized,
        }
    }
}

/// The decision a blocking reason stands for.
pub open spec fn reason_kind(r: BlockReason) -> VerdictKind {
    match r {
        BlockReason::NoCategoriesAllowed => VerdictKind::NoCategoriesAllowed,
        BlockReason::CategoryNotAllowed(c) => VerdictKind::CategoryNotAllowed(c@),
        BlockReason::NotCategorized => VerdictKind::NotCategorized,
    }
}

/// The decision an optional blocking reason stands for (`None` is allowed).
pub open spec fn decision_kind(r: Option<BlockReason>) -> VerdictKind {
    match r {
        None => VerdictKind::Allowed,
        Some(b) => reason_kind(b),
    }
}

/// The text shown to the user for a blocking reason.
pub open spec fn reason_message(r: VerdictKind) -> Seq<char> {
    match r {
        VerdictKind::NoCategoriesAllowed => "No categories allowed in focus mode"@,
        VerdictKind::CategoryNotAllowed(c) => "Category '"@ + c + "' is not allowed in focus mode"@,
        VerdictKind::NotCategorized => "App not categorized - blocked in focus mode"@,
        VerdictKind::Allowed => Seq::empty(),
    }
}

impl BlockReason {
    /// The text shown to the user.
    pub fn message(&self) -> (res: String)
        ensures
            res@ == reason_message(reason_kind(*self)),
    {
        match self {
            BlockReason::NoCategoriesAllowed => String::from_str("No categories allowed in focus mode"),
            BlockReason::CategoryNotAllowed(c) => {
                let mut s = String::from_str("Category '");
                s.append(c.as_str());
                s.append("' is not allowed in focus mode");
                s
            },
            BlockReason::NotCategorized => String::from_str(
                "App not categorized - blocked in focus mode",
            ),
        }
    }
}

/// Whether `v` holds a string equal to `s`.
pub fn contains_string(v: &Vec<String>, s: &String) -> (res: bool)
    ensures
        res == views_of_strings(v@).contains(s@),
{
    let mut i: usize = 0;
    while i < v.len()
        invariant
            i <= v@.len(),
            forall|j: int| 0 <= j < i ==> (#[trigger] v@[j])@ != s@,
        decreases v@.len() - i,
    {
        if v[i].eq(s) {
            assert(views_of_strings(v@)[i as int] == s@);
            return true;
        }
        i = i + 1;
    }
    assert forall|j: int| 0 <= j < v@.len() implies views_of_strings(v@)[j] != s@ by {
        assert(views_of_strings(v@)[j] == v@[j]@);
    }
    false
}

/// Decides from the allowed categories and the application mappings;
/// `None` means allowed.
pub fn category_verdict(
    app_name: &str,
    bundle_id: Option<&str>,
    allowed_categories: &Vec<String>,
    mappings: &Vec<AppMapping>,
) -> (res: Option<BlockReason>)
    ensures
        decision_kind(res) == category_decision(
            focus_targets(app_name@, opt_str_view(bundle_id)),
            views_of_strings(allowed_categories@),
            mappings@,
        ),
{
    if allowed_categories.len() == 0 {
        return Some(BlockReason::NoCategoriesAllowed);
    }
    let targets = focus_targets_exec(app_name, bundle_id);
    match first_app_mapping(mappings, &targets) {
        Some(i) => {
            let id = &mappings[i].category_id;
            if contains_string(allowed_categories, id) {
                None
            } else {
                Some(BlockReason::CategoryNotAllowed(id.clone()))
            }
        },
        None => Some(BlockReason::NotCategorized),
    }
}

/// The first step of a focus-mode check.
#[derive(Debug, Clone, Copy, PartialEq, Eq, Structural)]
pub enum FocusCheck {
    /// Allowed without consulting the database.
    Allowed,
    /// The database must say whether the application is allowed.
    NeedsLookup,
}

/// The outcome of a focus-mode check.
#[derive(Debug, Clone)]
pub enum FocusVerdict {
    Allowed,
    /// Blocked; `notify` is false when the same application was reported
    /// within the last ten seconds.
    Blocked { reason: BlockReason, notify: bool },
}

/// The state of focus mode in a running application.
#[derive(Debug)]
pub struct FocusMode {
    cache_manager: CacheManager,
    recently_blocked: KeyedList<u64>,
    recently_hidden: KeyedList<u64>,
}

/// The blocked-application memory after a block at `now`, and whether the
/// block is reported.
pub open spec fn block_step(m: Map<Seq<char>, u64>, app: Seq<char>, now: u64) -> (
    Map<Seq<char>, u64>,
    bool,
) {
    let kept = keep_recent(m, now, BLOCK_MEMORY_NS);
    if kept.dom().contains(app) && age(now, kept[app]) < BLOCK_REPEAT_NS {
        (kept, false)
    } else {
        (kept.insert(app, now), true)
    }
}

impl FocusMode {
    /// The focus-mode cache.
    pub closed spec fn cache(&self) -> CacheManager {
        self.cache_manager
    }

    /// The focus-mode cache.
    pub fn cache_manager(&self) -> (res: &CacheManager)
        ensures
            *res == self.cache(),
    {
        &self.cache_manager
    }

    /// The focus-mode cache, for updating.
    pub fn cache_manager_mut(&mut self) -> (res: &mut CacheManager)
        ensures
            *res == old(self).cache(),
            final(self).cache() == *final(res),
            final(self).blocked_times() == old(self).blocked_times(),
            final(self).hidden_times() == old(self).hidden_times(),
    {
        &mut self.cache_manager
    }

    /// When applications were last reported as blocked (monotonic ns).
    pub closed spec fn blocked_times(&self) -> Map<Seq<char>, u64> {
        self.recently_blocked.as_map()
    }

    /// When applications were last hidden (monotonic ns).
    pub closed spec fn hidden_times(&self) -> Map<Seq<char>, u64> {
        self.recently_hidden.as_map()
    }

    /// Focus mode over the given cache, with nothing blocked or hidden yet.
    pub fn new(cache_manager: CacheManager) -> (res: Self)
        ensures
            res.cache() == cache_manager,
            res.blocked_times() == Map::<Seq<char>, u64>::empty(),
            res.hidden_times() == Map::<Seq<char>, u64>::empty(),
    {
        FocusMode { cache_manager, recently_blocked: KeyedList::new(), recently_hidden: KeyedList::new() }
    }

    /// First step of a check at Unix time `now` (seconds): allowed when
    /// focus mode is off, for Velosi itself, or when the cache allows the
    /// application; otherwise the database must be asked.
    pub fn begin_check(&self, app_name: &str, bundle_id: Option<&str>, now: i64) -> (res: FocusCheck)
        ensures
            res == (if !self.cache().enabled() || is_velosi(app_name@, opt_str_view(bundle_id))
                || cache_lookup(self.cache().allowed(), app_name@, now) == CacheLookup::Allowed {
                FocusCheck::Allowed
            } else {
                FocusCheck::NeedsLookup
            }),
    {
        if !self.cache_manager.is_focus_mode_enabled() {
            return FocusCheck::Allowed;
        }
        if is_velosi_app(app_name, bundle_id) {
            return FocusCheck::Allowed;
        }
        match self.cache_manager.is_app_allowed_cached(app_name, now) {
            CacheLookup::Allowed => FocusCheck::Allowed,
            _ => FocusCheck::NeedsLookup,
        }
    }

    /// Second step of a check, with the database's answer: an application
    /// the database allows is allowed (and its allowed entries are cached);
    /// otherwise the category decision stands, and a block is reported
    /// unless the same application was reported less than ten seconds ago.
    /// `now` is monotonic time in nanoseconds.
    pub fn check_and_block_app(
        &mut self,
        app_name: &str,
        bundle_id: Option<&str>,
        db_allowed: bool,
        db_entries: Vec<(String, Option<i64>)>,
        mappings: &Vec<AppMapping>,
        now: u64,
    ) -> (res: FocusVerdict)
        ensures
            db_allowed ==> {
                &&& res is Allowed
                &&& final(self).cache().allowed() == fold_allowed(
                    old(self).cache().allowed(),
                    db_entries@,
                )
                &&& final(self).blocked_times() == old(self).blocked_times()
            },
            !db_allowed ==> {
                let d = category_decision(
                    focus_targets(app_name@, opt_str_view(bundle_id)),
                    old(self).cache().categories(),
                    mappings@,
                );
                &&& final(self).cache().allowed() == old(self).cache().allowed()
                &&& match res {
                    FocusVerdict::Allowed => d is Allowed && final(self).blocked_times() == old(
                        self,
                    ).blocked_times(),
                    FocusVerdict::Blocked { reason, notify } => {
                        let step = block_step(old(self).blocked_times(), app_name@, now);
                        &&& !(d is Allowed)
                        &&& reason_kind(reason) == d
                        &&& notify == step.1
                        &&& final(self).blocked_times() == step.0
                    },
                }
            },
            final(self).cache().enabled() == old(self).cache().enabled(),
            final(self).cache().categories() == old(self).cache().categories(),
            final(self).cache().mappings() == old(self).cache().mappings(),
            final(self).hidden_times() == old(self).hidden_times(),
    {
        if db_allowed {
            self.cache_manager.refresh_allowed_apps(db_entries);
            return FocusVerdict::Allowed;
        }
        let verdict = category_verdict(
            app_name,
            bundle_id,
            self.cache_manager.allowed_categories(),
            mappings,
        );
        match verdict {
            None => FocusVerdict::Allowed,
            Some(reason) => {
                let notify = self.record_block(app_name, now);
                FocusVerdict::Blocked { reason, notify }
            },
        }
    }

    /// Records a block of `app_name` at `now` (monotonic ns) and says whether
    /// to report it: entries older than thirty seconds are forgotten, and a
    /// block within ten seconds of the previous report is not reported again.
    pub fn record_block(&mut self, app_name: &str, now: u64) -> (res: bool)
        ensures
            (final(self).blocked_times(), res) == block_step(old(self).blocked_times(), app_name@, now),
            final(self).cache() == old(self).cache(),
            final(self).hidden_times() == old(self).hidden_times(),
    {
        self.recently_blocked.retain_recent(now, BLOCK_MEMORY_NS);
        match self.recently_blocked.get(app_name) {
            Some(t) => {
                let recent = if now >= t {
                    now - t < BLOCK_REPEAT_NS
                } else {
                    true
                };
                if recent {
                    return false;
                }
            },
            None => {},
        }
        self.recently_blocked.insert(String::from_str(app_name), now);
        true
    }

    /// Records that `app_name` was hidden at `now` (monotonic ns).
    pub fn hide_blocked_app(&mut self, app_name: &str, now: u64)
        ensures
            final(self).hidden_times() == old(self).hidden_times().insert(app_name@, now),
            final(self).blocked_times() == old(self).blocked_times(),
            final(self).cache() == old(self).cache(),
    {
        self.recently_hidden.insert(String::from_str(app_name), now);
    }

    /// Whether to skip tracking `app_name` at `now` (monotonic ns) because it
    /// was hidden less than two seconds ago; entries older than three
    /// seconds are forgotten first.
    pub fn was_recently_hidden(&mut self, app_name: &str, now: u64) -> (res: bool)
        ensures
            final(self).hidden_times() == keep_recent(old(self).hidden_times(), now, HIDDEN_MEMORY_NS),
            res == (final(self).hidden_times().dom().contains(app_name@) && age(
                now,
                final(self).hidden_times()[app_name@],
            ) < HIDDEN_SKIP_NS),
            final(self).blocked_times() == old(self).blocked_times(),
            final(self).cache() == old(self).cache(),
    {
        self.recently_hidden.retain_recent(now, HIDDEN_MEMORY_NS);
        match self.recently_hidden.get(app_name) {
            Some(t) => if now >= t {
                now - t < HIDDEN_SKIP_NS
            } else {
                true
            },
            None => false,
        }
    }
}


// ---------------------------------------------------------------------------
// Decisions on plain values
// ---------------------------------------------------------------------------

/// Whether focus mode lets an application stay in front: always when focus
/// mode is off or for Velosi itself, when the database allows it, and
/// otherwise by its category.
pub open spec fn focus_allowed(
    focus_enabled: bool,
    app: Seq<char>,
    bundle: Option<Seq<char>>,
    db_allowed: bool,
    allowed: Seq<Seq<char>>,
    maps: Seq<AppMapping>,
) -> bool {
    !focus_enabled || is_velosi(app, bundle) || db_allowed || category_decision(
        focus_targets(app, bundle),
        allowed,
        maps,
    ) is Allowed
}

/// Whether focus mode lets an application stay in front, given whether
/// focus mode is on, the database's answer for the application, the allowed
/// categories and the application mappings.
pub fn check_app_focus_allowed(
    focus_enabled: bool,
    app_name: &str,
    bundle_id: Option<&str>,
    db_allowed: bool,
    allowed_categories: &Vec<String>,
    mappings: &Vec<AppMapping>,
) -> (res: bool)
    ensures
        res == focus_allowed(
            focus_enabled,
            app_name@,
            opt_str_view(bundle_id),
            db_allowed,
            views_of_strings(allowed_categories@),
            mappings@,
        ),
{
    if !focus_enabled || is_velosi_app(app_name, bundle_id) || db_allowed {
        return true;
    }
    category_verdict(app_name, bundle_id, allowed_categories, mappings).is_none()
}

/// When an allowance of `duration_minutes` given at Unix time `now`
/// (seconds) runs out; `None` allows indefinitely.
pub fn allow_expiry(now: i64, duration_minutes: Option<u32>) -> (res: Option<i64>)
    requires
        match duration_minutes {
            Some(d) => now + d * 60 <= i64::MAX,
            None => true,
        },
    ensures
        res == match duration_minutes {
            Some(d) => Some((now + d * 60) as i64),
            None => None,
        },
{
    match duration_minutes {
        Some(d) => Some(now + (d as i64) * 60),
        None => None,
    }
}

/// An application that focus mode allows, with when its allowance ends.
#[derive(Debug, Clone)]
pub struct AllowedAppInfo {
    pub app_name: String,
    pub expires_at: Option<i64>,
    pub is_indefinite: bool,
    /// Whole minutes left, rounded toward zero.
    pub expires_in_minutes: Option<i64>,
}

/// Whole minutes from `now` until `exp` (seconds), rounded toward zero.
pub open spec fn minutes_left(exp: i64, now: i64) -> int {
    let d = exp - now;
    if d >= 0 {
        d / 60
    } else {
        -((-d) / 60)
    }
}

/// The difference `exp - now` fits in an `i64`.
pub open spec fn expiry_in_range(exp: Option<i64>, now: i64) -> bool {
    match exp {
        Some(e) => i64::MIN <= e - now <= i64::MAX,
        None => true,
    }
}

impl AllowedAppInfo {
    /// The details of an allowed application at Unix time `now` (seconds).
    pub fn new(app_name: String, expires_at: Option<i64>, now: i64) -> (res: Self)
        requires
            expiry_in_range(expires_at, now),
        ensures
            res.app_name@ == app_name@,
            res.expires_at == expires_at,
            res.is_indefinite == expires_at is None,
            res.expires_in_minutes == match expires_at {
                Some(e) => Some(minutes_left(e, now) as i64),
                None => None,
            },
    {
        let expires_in_minutes = match expires_at {
            Some(e) => {
                let d = e - now;
                Some(
                    if d >= 0 {
                        d / 60
                    } else {
                        -((-(d as i128)) / 60) as i64
                    },
                )
            },
            None => None,
        };
        AllowedAppInfo { app_name, expires_at, is_indefinite: expires_at.is_none(), expires_in_minutes }
    }
}

/// The details of each allowed application, in order.
pub fn allowed_apps_detailed(apps: Vec<(String, Option<i64>)>, now: i64) -> (res: Vec<AllowedAppInfo>)
    requires
        forall|i: int| 0 <= i < apps@.len() ==> expiry_in_range(#[trigger] apps@[i].1, now),
    ensures
        res@.len() == apps@.len(),
        forall|i: int|
            0 <= i < res@.len() ==> {
                &&& (#[trigger] res@[i]).app_name@ == apps@[i].0@
                &&& res@[i].expires_at == apps@[i].1
                &&& res@[i].is_indefinite == apps@[i].1 is None
                &&& res@[i].expires_in_minutes == match apps@[i].1 {
                    Some(e) => Some(minutes_left(e, now) as i64),
                    None => None,
                }
            },
{
    let mut res: Vec<AllowedAppInfo> = Vec::new();
    let mut i: usize = 0;
    while i < apps.len()
        invariant
            i <= apps@.len(),
            res@.len() == i,
            forall|k: int| 0 <= k < apps@.len() ==> expiry_in_range(#[trigger] apps@[k].1, now),
            forall|k: int|
                0 <= k < i ==> {
                    &&& (#[trigger] res@[k]).app_name@ == apps@[k].0@
                    &&& res@[k].expires_at == apps@[k].1
                    &&& res@[k].is_indefinite == apps@[k].1 is None
                    &&& res@[k].expires_in_minutes == match apps@[k].1 {
                        Some(e) => Some(minutes_left(e, now) as i64),
                        None => None,
                    }
                },
        decreases apps@.len() - i,
    {
        let info = AllowedAppInfo::new(apps[i].0.clone(), apps[i].1, now);
        res.push(info);
        i = i + 1;
    }
    res
}
} // verus!
