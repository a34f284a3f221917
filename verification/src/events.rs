//! Reading the payloads of cache-invalidation events: the JSON text is read
//! by `serde_json`, and the fields found decide the event.
use vstd::prelude::*;

use crate::focus::{views_of_strings, CacheEvent};
use crate::models::chars_are;
use crate::text::{chars_of, lit_then, string_of};

verus! {

/// Whether `serde_json` reads the text as JSON.
pub uninterp spec fn json_valid(payload: Seq<char>) -> bool;

/// The string under `key` of the JSON object in the text, if there is one.
pub uninterp spec fn json_str(payload: Seq<char>, key: Seq<char>) -> Option<Seq<char>>;

/// The boolean under `key` of the JSON object in the text, if there is one.
pub uninterp spec fn json_bool(payload: Seq<char>, key: Seq<char>) -> Option<bool>;

/// The integer (as `i64`) under `key` of the JSON object in the text, if
/// there is one.
pub uninterp spec fn json_i64(payload: Seq<char>, key: Seq<char>) -> Option<i64>;

/// The array under `key` of the JSON object in the text, if there is one,
/// with each element's string (`None` for an element that is no string).
pub uninterp spec fn json_str_items(payload: Seq<char>, key: Seq<char>) -> Option<Seq<Option<Seq<char>>>>;

/// The elements of the array under `key` of the JSON object in the text, if
/// there is one, each as the JSON text `serde_json` writes for it.
pub uninterp spec fn json_item_texts(payload: Seq<char>, key: Seq<char>) -> Option<Seq<Seq<char>>>;

/// Parses the text with `serde_json::from_str` into a `serde_json::Value`;
/// it succeeds exactly when `json_valid` holds. The error's text is
/// `serde_json`'s and is not stated.
#[verifier::external_body]
pub(crate) fn json_check(payload: &str) -> (res: Result<(), String>)
    ensures
        res is Ok <==> json_valid(payload@),
{
    match serde_json::from_str::<serde_json::Value>(payload) {
        Ok(_) => Ok(()),
        Err(e) => Err(e.to_string()),
    }
}

/// Parses the text with `serde_json` and reads `Value::get(key)` then
/// `Value::as_str`.
#[verifier::external_body]
pub(crate) fn json_str_at(payload: &str, key: &str) -> (res: Option<String>)
    ensures
        match res {
            Some(s) => json_str(payload@, key@) == Some(s@),
            None => json_str(payload@, key@) is None,
        },
{
    let v: serde_json::Value = serde_json::from_str(payload).ok()?;
    v.get(key).and_then(serde_json::Value::as_str).map(String::from)
}

/// Parses the text with `serde_json` and reads `Value::get(key)` then
/// `Value::as_bool`.
#[verifier::external_body]
fn json_bool_at(payload: &str, key: &str) -> (res: Option<bool>)
    ensures
        res == json_bool(payload@, key@),
{
    let v: serde_json::Value = serde_json::from_str(payload).ok()?;
    v.get(key).and_then(serde_json::Value::as_bool)
}

/// Parses the text with `serde_json` and reads `Value::get(key)` then
/// `Value::as_i64`.
#[verifier::external_body]
fn json_i64_at(payload: &str, key: &str) -> (res: Option<i64>)
    ensures
        res == json_i64(payload@, key@),
{
    let v: serde_json::Value = serde_json::from_str(payload).ok()?;
    v.get(key).and_then(serde_json::Value::as_i64)
}

/// The views of optional strings.
pub open spec fn opt_strings_view(v: Seq<Option<String>>) -> Seq<Option<Seq<char>>> {
    v.map_values(|o: Option<String>| match o {
        Some(s) => Some(s@),
        None => None,
    })
}

/// Parses the text with `serde_json` and reads `Value::get(key)`,
/// `Value::as_array`, and `Value::as_str` of each element, in order.
#[verifier::external_body]
pub(crate) fn json_str_items_at(payload: &str, key: &str) -> (res: Option<Vec<Option<String>>>)
    ensures
        match res {
            Some(v) => json_str_items(payload@, key@) == Some(opt_strings_view(v@)),
            None => json_str_items(payload@, key@) is None,
        },
{
    let v: serde_json::Value = serde_json::from_str(payload).ok()?;
    let items = v.get(key).and_then(serde_json::Value::as_array)?;
    Some(items.iter().map(|x| x.as_str().map(String::from)).collect())
}

/// Parses the text with `serde_json` and reads `Value::get(key)`,
/// `Value::as_array`, and writes each element back as JSON text
/// (`Value::to_string`), in order.
#[verifier::external_body]
pub(crate) fn json_item_texts_at(payload: &str, key: &str) -> (res: Option<Vec<String>>)
    ensures
        match res {
            Some(v) => json_item_texts(payload@, key@) == Some(crate::focus::views_of_strings(v@)),
            None => json_item_texts(payload@, key@) is None,
        },
{
    let v: serde_json::Value = serde_json::from_str(payload).ok()?;
    let items = v.get(key).and_then(serde_json::Value::as_array)?;
    Some(items.iter().map(serde_json::Value::to_string).collect())
}

/// The strings among optional strings, in order.
pub open spec fn somes(v: Seq<Option<Seq<char>>>) -> Seq<Seq<char>>
    decreases v.len(),
{
    if v.len() == 0 {
        Seq::empty()
    } else {
        match v.last() {
            Some(s) => somes(v.drop_last()).push(s),
            None => somes(v.drop_last()),
        }
    }
}

/// The abstract form of a cache event.
pub enum EventView {
    FocusModeEnabledChanged(Option<bool>),
    AllowedCategoriesChanged(Option<Seq<Seq<char>>>),
    AllowedAppsChanged(Option<Seq<char>>, bool, Option<i64>),
    Unknown,
}

/// The abstract form of a cache event.
pub open spec fn event_view(e: CacheEvent) -> EventView {
    match e {
        CacheEvent::FocusModeEnabledChanged { enabled } => EventView::FocusModeEnabledChanged(enabled),
        CacheEvent::AllowedCategoriesChanged { categories } => EventView::AllowedCategoriesChanged(
            match categories {
                Some(c) => Some(views_of_strings(c@)),
                None => None,
            },
        ),
        CacheEvent::AllowedAppsChanged { app_name, removed, expires_at } => EventView::AllowedAppsChanged(
            match app_name {
                Some(a) => Some(a@),
                None => None,
            },
            removed,
            expires_at,
        ),
        CacheEvent::Unknown => EventView::Unknown,
    }
}

/// The event that the fields of a payload announce: by its "type", with
/// the flag, the (string) categories, or the application, removal flag
/// (false when absent) and expiry that go with it.
pub open spec fn event_of_fields(
    kind: Option<Seq<char>>,
    enabled: Option<bool>,
    categories: Option<Seq<Option<Seq<char>>>>,
    app_name: Option<Seq<char>>,
    removed: Option<bool>,
    expires_at: Option<i64>,
) -> EventView {
    let k = match kind {
        Some(k) => k,
        None => Seq::empty(),
    };
    if k == "focus_mode_enabled_changed"@ {
        EventView::FocusModeEnabledChanged(enabled)
    } else if k == "allowed_categories_changed"@ {
        EventView::AllowedCategoriesChanged(
            match categories {
                Some(c) => Some(somes(c)),
                None => None,
            },
        )
    } else if k == "allowed_apps_changed"@ {
        EventView::AllowedAppsChanged(
            app_name,
            match removed {
                Some(r) => r,
                None => false,
            },
            expires_at,
        )
    } else {
        EventView::Unknown
    }
}

/// The strings among optional strings.
pub(crate) fn keep_strings(v: Vec<Option<String>>) -> (res: Vec<String>)
    ensures
        views_of_strings(res@) == somes(opt_strings_view(v@)),
{
    let ghost w = opt_strings_view(v@);
    let mut res: Vec<String> = Vec::new();
    let mut i: usize = 0;
    assert(w.take(0) =~= Seq::<Option<Seq<char>>>::empty());
    while i < v.len()
        invariant
            i <= v@.len(),
            w == opt_strings_view(v@),
            w.len() == v@.len(),
            views_of_strings(res@) == somes(w.take(i as int)),
        decreases v@.len() - i,
    {
        assert(w.take(i + 1).drop_last() =~= w.take(i as int));
        assert(w.take(i + 1).last() == w[i as int]);
        match &v[i] {
            Some(s) => {
                let ghost before = views_of_strings(res@);
                res.push(s.clone());
                assert(views_of_strings(res@) =~= before.push(s@));
            },
            None => {},
        }
        i = i + 1;
    }
    assert(w.take(i as int) =~= w);
    res
}

/// The event that the fields read from a payload announce.
pub fn event_from_fields(
    kind: Option<String>,
    enabled: Option<bool>,
    categories: Option<Vec<Option<String>>>,
    app_name: Option<String>,
    removed: Option<bool>,
    expires_at: Option<i64>,
) -> (res: CacheEvent)
    ensures
        event_view(res) == event_of_fields(
            match kind {
                Some(k) => Some(k@),
                None => None,
            },
            enabled,
            match categories {
                Some(c) => Some(opt_strings_view(c@)),
                None => None,
            },
            match app_name {
                Some(a) => Some(a@),
                None => None,
            },
            removed,
            expires_at,
        ),
{
    let k = match &kind {
        Some(k) => chars_of(k.as_str()),
        None => Vec::new(),
    };
    if chars_are(&k, "focus_mode_enabled_changed") {
        CacheEvent::FocusModeEnabledChanged { enabled }
    } else if chars_are(&k, "allowed_categories_changed") {
        let categories = match categories {
            Some(c) => Some(keep_strings(c)),
            None => None,
        };
        CacheEvent::AllowedCategoriesChanged { categories }
    } else if chars_are(&k, "allowed_apps_changed") {
        let removed = match removed {
            Some(r) => r,
            None => false,
        };
        CacheEvent::AllowedAppsChanged { app_name, removed, expires_at }
    } else {
        CacheEvent::Unknown
    }
}

/// Reads a cache-invalidation payload: text that is not JSON is refused
/// with a message that starts "Failed to parse cache invalidation event: ";
/// otherwise the event its fields announce.
pub fn parse_cache_event(payload: &str) -> (res: Result<CacheEvent, String>)
    ensures
        match res {
            Ok(e) => json_valid(payload@) && event_view(e) == event_of_fields(
                json_str(payload@, "type"@),
                json_bool(payload@, "enabled"@),
                json_str_items(payload@, "categories"@),
                json_str(payload@, "app_name"@),
                json_bool(payload@, "removed"@),
                json_i64(payload@, "expires_at"@),
            ),
            Err(m) => !json_valid(payload@) && exists|d: Seq<char>| m@ == "Failed to parse cache invalidation event: "@ + d,
        },
{
    match json_check(payload) {
        Err(e) => {
            let m = lit_then("Failed to parse cache invalidation event: ", &chars_of(e.as_str()));
            Err(string_of(&m))
        },
        Ok(()) => {
            let kind = json_str_at(payload, "type");
            let enabled = json_bool_at(payload, "enabled");
            let categories = json_str_items_at(payload, "categories");
            let app_name = json_str_at(payload, "app_name");
            let removed = json_bool_at(payload, "removed");
            let expires_at = json_i64_at(payload, "expires_at");
            Ok(event_from_fields(kind, enabled, categories, app_name, removed, expires_at))
        },
    }
}

} // verus!
