//! Mappings grouped by category for display, stored settings, and the
//! rule that protects the "Unknown" category.
use vstd::prelude::*;

use crate::models::{chars_are, AppMapping};
use crate::text::{chars_of, lower_chars, lowercase_of};

verus! {

// ---------------------------------------------------------------------------
// Grouping patterns by category
// ---------------------------------------------------------------------------

/// Pairs of strings by their characters.
pub open spec fn pairs_view(v: Seq<(String, String)>) -> Seq<(Seq<char>, Seq<char>)> {
    v.map_values(|p: (String, String)| (p.0@, p.1@))
}

/// The strings by their characters.
pub open spec fn strings_view(v: Seq<String>) -> Seq<Seq<char>> {
    v.map_values(|s: String| s@)
}

/// The patterns recorded under category `id`, in order.
pub open spec fn patterns_for(pairs: Seq<(Seq<char>, Seq<char>)>, id: Seq<char>) -> Seq<Seq<char>>
    decreases pairs.len(),
{
    if pairs.len() == 0 {
        Seq::empty()
    } else {
        let p = patterns_for(pairs.drop_last(), id);
        if pairs.last().0 == id {
            p.push(pairs.last().1)
        } else {
            p
        }
    }
}

/// Category `id` occurs in `pairs`.
pub open spec fn has_category(pairs: Seq<(Seq<char>, Seq<char>)>, id: Seq<char>) -> bool {
    exists|j: int| 0 <= j < pairs.len() && #[trigger] pairs[j].0 == id
}

/// The name of category `id`: that of the last category with this
/// identifier, or "Unknown".
pub open spec fn name_for(cats: Seq<(Seq<char>, Seq<char>)>, id: Seq<char>) -> Seq<char>
    decreases cats.len(),
{
    if cats.len() == 0 {
        "Unknown"@
    } else if cats.last().0 == id {
        cats.last().1
    } else {
        name_for(cats.drop_last(), id)
    }
}

/// The patterns of one category.
#[derive(Debug, Clone)]
pub struct MappingGroup {
    pub category_id: String,
    pub category_name: String,
    pub patterns: Vec<String>,
}

/// `groups` holds each category of `pairs` once, with its patterns in order.
pub open spec fn groups_ok(groups: Seq<MappingGroup>, pairs: Seq<(Seq<char>, Seq<char>)>) -> bool {
    &&& forall|i: int, j: int|
        0 <= i < j < groups.len() ==> (#[trigger] groups[i]).category_id@ != (#[trigger] groups[j]).category_id@
    &&& forall|i: int|
        0 <= i < groups.len() ==> has_category(pairs, (#[trigger] groups[i]).category_id@)
            && strings_view(groups[i].patterns@) == patterns_for(pairs, groups[i].category_id@)
    &&& forall|j: int|
        0 <= j < pairs.len() ==> exists|i: int|
            0 <= i < groups.len() && (#[trigger] groups[i]).category_id@ == #[trigger] pairs[j].0
}

/// A category absent from `pairs` has no patterns.
proof fn lemma_patterns_absent(pairs: Seq<(Seq<char>, Seq<char>)>, id: Seq<char>)
    requires
        !has_category(pairs, id),
    ensures
        patterns_for(pairs, id) == Seq::<Seq<char>>::empty(),
    decreases pairs.len(),
{
    if pairs.len() > 0 {
        assert(!has_category(pairs.drop_last(), id)) by {
            if has_category(pairs.drop_last(), id) {
                let j = choose|j: int| 0 <= j < pairs.drop_last().len() && #[trigger] pairs.drop_last()[j].0 == id;
                assert(pairs[j].0 == id);
            }
        }
        assert(pairs[pairs.len() - 1].0 != id);
        lemma_patterns_absent(pairs.drop_last(), id);
    }
}

/// A copy of a list of strings.
fn copy_strings(v: &Vec<String>) -> (res: Vec<String>)
    ensures
        strings_view(res@) == strings_view(v@),
{
    let mut res: Vec<String> = Vec::new();
    let mut i: usize = 0;
    while i < v.len()
        invariant
            i <= v@.len(),
            res@.len() == i,
            strings_view(res@) == strings_view(v@).take(i as int),
        decreases v@.len() - i,
    {
        res.push(v[i].clone());
        assert(strings_view(res@)[i as int] == strings_view(v@)[i as int]);
        i = i + 1;
        assert(strings_view(res@) =~= strings_view(v@).take(i as int));
    }
    assert(strings_view(v@).take(i as int) =~= strings_view(v@));
    res
}

/// The name of category `id` among `categories` (identifier, name).
pub fn category_name(categories: &Vec<(String, String)>, id: &String) -> (res: String)
    ensures
        res@ == name_for(pairs_view(categories@), id@),
{
    let ghost c = pairs_view(categories@);
    let mut k: usize = categories.len();
    assert(c.take(k as int) =~= c);
    while k > 0
        invariant
            k <= categories@.len(),
            c == pairs_view(categories@),
            c.len() == categories@.len(),
            name_for(c, id@) == name_for(c.take(k as int), id@),
        decreases k,
    {
        assert(c.take(k as int).drop_last() =~= c.take(k - 1));
        assert(c.take(k as int).last() == c[k - 1]);
        assert(c[k - 1] == (categories@[k - 1].0@, categories@[k - 1].1@));
        if categories[k - 1].0.eq(id) {
            return categories[k - 1].1.clone();
        }
        k = k - 1;
    }
    String::from_str("Unknown")
}

/// Groups (category, pattern) pairs by category, in order of first
/// appearance, each with the name that `categories` gives it.
pub fn group_mappings_by_category(pairs: &Vec<(String, String)>, categories: &Vec<(String, String)>) -> (res:
    Vec<MappingGroup>)
    ensures
        groups_ok(res@, pairs_view(pairs@)),
        forall|i: int|
            0 <= i < res@.len() ==> (#[trigger] res@[i]).category_name@ == name_for(
                pairs_view(categories@),
                res@[i].category_id@,
            ),
{
    let ghost v = pairs_view(pairs@);
    let mut groups: Vec<MappingGroup> = Vec::new();
    let mut n: usize = 0;
    assert(v.take(0) =~= Seq::<(Seq<char>, Seq<char>)>::empty());
    while n < pairs.len()
        invariant
            n <= pairs@.len(),
            v == pairs_view(pairs@),
            v.len() == pairs@.len(),
            groups_ok(groups@, v.take(n as int)),
            forall|i: int|
                0 <= i < groups@.len() ==> (#[trigger] groups@[i]).category_name@ == name_for(
                    pairs_view(categories@),
                    groups@[i].category_id@,
                ),
        decreases pairs@.len() - n,
    {
        let ghost p = v.take(n as int);
        let ghost q = v.take(n + 1);
        let id = &pairs[n].0;
        let pat = &pairs[n].1;
        assert(v[n as int] == (id@, pat@));
        assert(q.drop_last() =~= p);
        assert(q.last() == (id@, pat@));
        let ghost old_groups = groups@;
        let mut at: usize = 0;
        let mut found = false;
        while at < groups.len()
            invariant_except_break
                !found,
            invariant
                at <= groups@.len(),
                groups@ == old_groups,
                forall|i: int| 0 <= i < at ==> (#[trigger] groups@[i]).category_id@ != id@,
            ensures
                found ==> at < groups@.len() && groups@[at as int].category_id@ == id@,
                !found ==> at == groups@.len(),
            decreases groups@.len() - at,
        {
            if groups[at].category_id.eq(id) {
                found = true;
                break;
            }
            at = at + 1;
        }
        if found {
            let mut pats = copy_strings(&groups[at].patterns);
            pats.push(pat.clone());
            let g = MappingGroup {
                category_id: groups[at].category_id.clone(),
                category_name: groups[at].category_name.clone(),
                patterns: pats,
            };
            groups.set(at, g);
            assert(strings_view(groups@[at as int].patterns@) =~= patterns_for(p, id@).push(pat@));
            assert forall|i: int|
                0 <= i < groups@.len() implies has_category(q, (#[trigger] groups@[i]).category_id@)
                && strings_view(groups@[i].patterns@) == patterns_for(q, groups@[i].category_id@) by {
                let j = choose|j: int| 0 <= j < p.len() && #[trigger] p[j].0 == old_groups[i].category_id@;
                assert(q[j] == p[j]);
                if i != at {
                    assert(old_groups[i].category_id@ != old_groups[at as int].category_id@);
                }
            }
            assert forall|j: int| 0 <= j < q.len() implies exists|i: int|
                0 <= i < groups@.len() && (#[trigger] groups@[i]).category_id@ == #[trigger] q[j].0 by {
                if j < n {
                    assert(q[j] == p[j]);
                    let i = choose|i: int| 0 <= i < old_groups.len() && (#[trigger] old_groups[i]).category_id@ == #[trigger] p[j].0;
                    assert(groups@[i].category_id@ == q[j].0);
                } else {
                    assert(groups@[at as int].category_id@ == q[j].0);
                }
            }
            assert forall|a: int, b: int|
                0 <= a < b < groups@.len() implies (#[trigger] groups@[a]).category_id@ != (#[trigger] groups@[b]).category_id@ by {
                assert(old_groups[a].category_id@ != old_groups[b].category_id@);
            }
        } else {
            assert(!has_category(p, id@)) by {
                if has_category(p, id@) {
                    let j = choose|j: int| 0 <= j < p.len() && #[trigger] p[j].0 == id@;
                    let i = choose|i: int| 0 <= i < old_groups.len() && (#[trigger] old_groups[i]).category_id@ == #[trigger] p[j].0;
                }
            }
            proof {
                lemma_patterns_absent(p, id@);
            }
            let mut pats: Vec<String> = Vec::new();
            pats.push(pat.clone());
            let name = category_name(categories, id);
            groups.push(MappingGroup { category_id: id.clone(), category_name: name, patterns: pats });
            assert(strings_view(groups@[old_groups.len() as int].patterns@) =~= patterns_for(p, id@).push(pat@));
            assert forall|i: int|
                0 <= i < groups@.len() implies has_category(q, (#[trigger] groups@[i]).category_id@)
                && strings_view(groups@[i].patterns@) == patterns_for(q, groups@[i].category_id@) by {
                if i < old_groups.len() {
                    let j = choose|j: int| 0 <= j < p.len() && #[trigger] p[j].0 == old_groups[i].category_id@;
                    assert(q[j] == p[j]);
                    assert(groups@[i] == old_groups[i]);
                } else {
                    assert(q[n as int].0 == id@);
                }
            }
            assert forall|j: int| 0 <= j < q.len() implies exists|i: int|
                0 <= i < groups@.len() && (#[trigger] groups@[i]).category_id@ == #[trigger] q[j].0 by {
                if j < n {
                    assert(q[j] == p[j]);
                    let i = choose|i: int| 0 <= i < old_groups.len() && (#[trigger] old_groups[i]).category_id@ == #[trigger] p[j].0;
                    assert(groups@[i] == old_groups[i]);
                } else {
                    assert(groups@[old_groups.len() as int].category_id@ == q[j].0);
                }
            }
            assert forall|a: int, b: int|
                0 <= a < b < groups@.len() implies (#[trigger] groups@[a]).category_id@ != (#[trigger] groups@[b]).category_id@ by {
                if b < old_groups.len() {
                    assert(old_groups[a].category_id@ != old_groups[b].category_id@);
                } else {
                    assert(groups@[a] == old_groups[a]);
                }
            }
        }
        n = n + 1;
    }
    assert(v.take(n as int) =~= v);
    groups
}

// ---------------------------------------------------------------------------
// Settings
// ---------------------------------------------------------------------------

/// A stored switch: on when stored as "1", `default` when not stored.
pub fn setting_flag(value: Option<&str>, default: bool) -> (res: bool)
    ensures
        res == match value {
            Some(v) => v@ == "1"@,
            None => default,
        },
{
    match value {
        Some(v) => chars_are(&chars_of(v), "1"),
        None => default,
    }
}

/// How a switch is stored.
pub fn flag_value(enabled: bool) -> (res: &'static str)
    ensures
        res@ == (if enabled { "1"@ } else { "0"@ }),
{
    if enabled {
        "1"
    } else {
        "0"
    }
}

/// A stored 0/1 column read as a switch: on exactly for 1.
pub fn column_flag(value: i32) -> (res: bool)
    ensures
        res == (value == 1),
{
    value == 1
}

/// Whether a category may be deleted: not the one named "unknown" (in any
/// case).
pub fn may_delete_category(name: &str) -> (res: bool)
    ensures
        res == (lowercase_of(name@) != "unknown"@),
{
    !chars_are(&lower_chars(&chars_of(name)), "unknown")
}


/// The position of the first mapping whose pattern is exactly `pattern`.
pub fn find_app_mapping(maps: &Vec<AppMapping>, pattern: &str) -> (res: Option<usize>)
    ensures
        match res {
            Some(i) => i < maps@.len() && maps@[i as int].app_pattern@ == pattern@ && forall|j: int|
                0 <= j < i ==> (#[trigger] maps@[j]).app_pattern@ != pattern@,
            None => forall|j: int| 0 <= j < maps@.len() ==> (#[trigger] maps@[j]).app_pattern@ != pattern@,
        },
{
    let p = chars_of(pattern);
    let mut i: usize = 0;
    while i < maps.len()
        invariant
            i <= maps@.len(),
            p@ == pattern@,
            forall|j: int| 0 <= j < i ==> (#[trigger] maps@[j]).app_pattern@ != pattern@,
        decreases maps@.len() - i,
    {
        if crate::text::chars_eq(&chars_of(maps[i].app_pattern.as_str()), &p) {
            return Some(i);
        }
        i = i + 1;
    }
    None
}

} // verus!
