//! The bundled starting data: categories and the application and URL
//! mappings to them, read from their JSON files.
use vstd::prelude::*;

use crate::events::{
    json_check, json_item_texts, json_item_texts_at, json_str, json_str_at, json_str_items,
    json_str_items_at, json_valid, keep_strings, opt_strings_view, somes,
};
use crate::focus::views_of_strings;
use crate::text::{chars_of, concat_chars, lit_then, string_of};

verus! {

/// A category of the starting data.
#[derive(Debug, Clone)]
pub struct SeedCategory {
    pub id: String,
    pub name: String,
    pub color: String,
    pub parent_id: Option<String>,
}

/// The abstract form of a starting category.
pub open spec fn seed_category_view(c: SeedCategory) -> (Seq<char>, Seq<char>, Seq<char>, Option<Seq<char>>) {
    (c.id@, c.name@, c.color@, match c.parent_id {
        Some(p) => Some(p@),
        None => None,
    })
}

/// The category an entry of the file describes: one with a string `id`,
/// `name` and `color` (and maybe a `parent_id`); others are skipped.
pub open spec fn seed_category_of(item: Seq<char>) -> Option<(Seq<char>, Seq<char>, Seq<char>, Option<Seq<char>>)> {
    match (json_str(item, "id"@), json_str(item, "name"@), json_str(item, "color"@)) {
        (Some(i), Some(n), Some(c)) => Some((i, n, c, json_str(item, "parent_id"@))),
        _ => None,
    }
}

/// The categories the entries describe, in order.
pub open spec fn seed_categories_of(items: Seq<Seq<char>>) -> Seq<(Seq<char>, Seq<char>, Seq<char>, Option<Seq<char>>)>
    decreases items.len(),
{
    if items.len() == 0 {
        Seq::empty()
    } else {
        let p = seed_categories_of(items.drop_last());
        match seed_category_of(items.last()) {
            Some(c) => p.push(c),
            None => p,
        }
    }
}

/// The entries under `key`, or none when there is no such array.
pub open spec fn items_or_empty(json: Seq<char>, key: Seq<char>) -> Seq<Seq<char>> {
    match json_item_texts(json, key) {
        Some(t) => t,
        None => Seq::empty(),
    }
}

/// Reads the categories file: text that is not JSON is refused, with a
/// message that starts "Failed to parse categories.json: ".
pub fn parse_seed_categories(json: &str) -> (res: Result<Vec<SeedCategory>, String>)
    ensures
        match res {
            Ok(v) => json_valid(json@) && v@.map_values(|c: SeedCategory| seed_category_view(c))
                == seed_categories_of(items_or_empty(json@, "categories"@)),
            Err(m) => !json_valid(json@) && exists|d: Seq<char>|
                m@ == "Failed to parse categories.json: "@ + d,
        },
{
    if let Err(e) = json_check(json) {
        return Err(string_of(&lit_then("Failed to parse categories.json: ", &chars_of(e.as_str()))));
    }
    let items = match json_item_texts_at(json, "categories") {
        Some(v) => v,
        None => Vec::new(),
    };
    let ghost its = views_of_strings(items@);
    assert(its == items_or_empty(json@, "categories"@));
    let mut res: Vec<SeedCategory> = Vec::new();
    let mut i: usize = 0;
    assert(its.take(0) =~= Seq::<Seq<char>>::empty());
    while i < items.len()
        invariant
            i <= items@.len(),
            its == views_of_strings(items@),
            its.len() == items@.len(),
            res@.map_values(|c: SeedCategory| seed_category_view(c)) == seed_categories_of(its.take(i as int)),
        decreases items@.len() - i,
    {
        let item = items[i].as_str();
        assert(its[i as int] == item@);
        assert(its.take(i + 1).drop_last() =~= its.take(i as int));
        let ghost before = res@.map_values(|c: SeedCategory| seed_category_view(c));
        let id = json_str_at(item, "id");
        let name = json_str_at(item, "name");
        let color = json_str_at(item, "color");
        match (id, name, color) {
            (Some(id), Some(name), Some(color)) => {
                let parent_id = json_str_at(item, "parent_id");
                res.push(SeedCategory { id, name, color, parent_id });
                assert(res@.map_values(|c: SeedCategory| seed_category_view(c)) =~= before.push(
                    seed_category_of(item@)->0,
                ));
            },
            _ => {},
        }
        i = i + 1;
    }
    assert(its.take(i as int) =~= its);
    Ok(res)
}

/// The (category, pattern) pairs an entry of a mappings file gives: one per
/// string under `list_key`, when the entry names its category.
pub open spec fn seed_pairs_of_item(item: Seq<char>, list_key: Seq<char>) -> Seq<(Seq<char>, Seq<char>)> {
    match (json_str(item, "category"@), json_str_items(item, list_key)) {
        (Some(c), Some(xs)) => somes(xs).map_values(|p: Seq<char>| (c, p)),
        _ => Seq::empty(),
    }
}

/// The pairs of all entries, in order.
pub open spec fn seed_pairs_of(items: Seq<Seq<char>>, list_key: Seq<char>) -> Seq<(Seq<char>, Seq<char>)>
    decreases items.len(),
{
    if items.len() == 0 {
        Seq::empty()
    } else {
        seed_pairs_of(items.drop_last(), list_key) + seed_pairs_of_item(items.last(), list_key)
    }
}

/// Pairs of strings by their characters.
pub open spec fn string_pairs_view(v: Seq<(String, String)>) -> Seq<(Seq<char>, Seq<char>)> {
    v.map_values(|p: (String, String)| (p.0@, p.1@))
}

/// Reads a mappings file (`list_key` is "apps" or "urls"): text that is not
/// JSON is refused, with a message that starts "Failed to parse ",
/// `file_name`, ": ".
pub fn parse_seed_mappings(json: &str, list_key: &str, file_name: &str) -> (res: Result<Vec<(String, String)>, String>)
    ensures
        match res {
            Ok(v) => json_valid(json@) && string_pairs_view(v@) == seed_pairs_of(items_or_empty(json@, "mappings"@), list_key@),
            Err(m) => !json_valid(json@) && exists|d: Seq<char>|
                m@ == "Failed to parse "@ + file_name@ + ": "@ + d,
        },
{
    if let Err(e) = json_check(json) {
        let a = lit_then("Failed to parse ", &chars_of(file_name));
        let b = concat_chars(&a, &chars_of(": "));
        let m = concat_chars(&b, &chars_of(e.as_str()));
        proof {
            assert(m@ == "Failed to parse "@ + file_name@ + ": "@ + e@);
        }
        return Err(string_of(&m));
    }
    let items = match json_item_texts_at(json, "mappings") {
        Some(v) => v,
        None => Vec::new(),
    };
    let ghost its = views_of_strings(items@);
    let mut res: Vec<(String, String)> = Vec::new();
    let mut i: usize = 0;
    assert(its.take(0) =~= Seq::<Seq<char>>::empty());
    while i < items.len()
        invariant
            i <= items@.len(),
            its == views_of_strings(items@),
            its.len() == items@.len(),
            string_pairs_view(res@) == seed_pairs_of(its.take(i as int), list_key@),
        decreases items@.len() - i,
    {
        let item = items[i].as_str();
        assert(its[i as int] == item@);
        assert(its.take(i + 1).drop_last() =~= its.take(i as int));
        let ghost before = string_pairs_view(res@);
        let cat = json_str_at(item, "category");
        let list = json_str_items_at(item, list_key);
        match (cat, list) {
            (Some(c), Some(xs)) => {
                let pats = keep_strings(xs);
                let ghost ps = views_of_strings(pats@);
                let mut k: usize = 0;
                while k < pats.len()
                    invariant
                        k <= pats@.len(),
                        ps == views_of_strings(pats@),
                        string_pairs_view(res@) == before + ps.take(k as int).map_values(|p: Seq<char>| (c@, p)),
                    decreases pats@.len() - k,
                {
                    let ghost mid = string_pairs_view(res@);
                    res.push((c.clone(), pats[k].clone()));
                    assert(ps[k as int] == pats@[k as int]@);
                    assert(string_pairs_view(res@) =~= mid.push((c@, pats@[k as int]@)));
                    assert(ps.take(k + 1).map_values(|p: Seq<char>| (c@, p)) =~= ps.take(k as int).map_values(
                        |p: Seq<char>| (c@, p),
                    ).push((c@, ps[k as int])));
                    k = k + 1;
                }
                assert(ps.take(k as int) =~= ps);
            },
            _ => {},
        }
        assert(seed_pairs_of(its.take(i + 1), list_key@) == seed_pairs_of(its.take(i as int), list_key@)
            + seed_pairs_of_item(item@, list_key@));
        assert(string_pairs_view(res@) =~= before + seed_pairs_of_item(item@, list_key@));
        i = i + 1;
    }
    assert(its.take(i as int) =~= its);
    Ok(res)
}

} // verus!
