//! Matching applications and URLs against `|`-separated pattern lists, and
//! the categorisation of activities built on it.
use vstd::prelude::*;

use crate::models::{
    category_of_mapping_id, ActivityCategory, AppMapping, CategoryKind, UrlMapping,
};
use crate::text::{
    chars_of, contains_chars, has_substring, lower_chars, lowercase_of, split_char, split_on_char,
    trim, trim_chars, views,
};

verus! {

/// One alternative of a pattern list matches when some target contains the
/// alternative, trimmed and lowercased. The targets are lowercased already.
pub open spec fn alternative_matches(targets: Seq<Seq<char>>, alt: Seq<char>) -> bool {
    exists|t: int|
        0 <= t < targets.len() && has_substring(#[trigger] targets[t], lowercase_of(trim(alt)))
}

/// Some `|`-separated alternative of `pattern` matches one of the targets.
pub open spec fn pattern_matches(targets: Seq<Seq<char>>, pattern: Seq<char>) -> bool {
    exists|k: int|
        0 <= k < split_char(pattern, '|').len() && alternative_matches(
            targets,
            #[trigger] split_char(pattern, '|')[k],
        )
}

/// The index of the first pattern that matches one of the targets.
pub open spec fn first_match(patterns: Seq<Seq<char>>, targets: Seq<Seq<char>>) -> Option<int>
    decreases patterns.len(),
{
    if patterns.len() == 0 {
        None
    } else if pattern_matches(targets, patterns[0]) {
        Some(0)
    } else {
        match first_match(patterns.drop_first(), targets) {
            Some(i) => Some(i + 1),
            None => None,
        }
    }
}

/// `first_match` is the first index whose pattern matches.
pub proof fn lemma_first_match(patterns: Seq<Seq<char>>, targets: Seq<Seq<char>>, i: int)
    requires
        0 <= i <= patterns.len(),
        forall|j: int| 0 <= j < i ==> !pattern_matches(targets, #[trigger] patterns[j]),
        i < patterns.len() ==> pattern_matches(targets, patterns[i]),
    ensures
        first_match(patterns, targets) == (if i < patterns.len() {
            Some(i)
        } else {
            None::<int>
        }),
    decreases patterns.len(),
{
    if patterns.len() > 0 && i > 0 {
        let rest = patterns.drop_first();
        assert forall|j: int| 0 <= j < i - 1 implies !pattern_matches(
            targets,
            #[trigger] rest[j],
        ) by {
            assert(rest[j] == patterns[j + 1]);
        }
        lemma_first_match(rest, targets, i - 1);
    }
}

/// Whether one alternative matches one of the (lowercased) targets.
pub fn alternative_matches_exec(targets: &Vec<Vec<char>>, alt: &Vec<char>) -> (res: bool)
    ensures
        res == alternative_matches(views(targets@), alt@),
{
    let trimmed = trim_chars(alt);
    let needle = lower_chars(&trimmed);
    let mut t: usize = 0;
    while t < targets.len()
        invariant
            t <= targets@.len(),
            needle@ == lowercase_of(trim(alt@)),
            forall|j: int| 0 <= j < t ==> !has_substring(#[trigger] views(targets@)[j], needle@),
        decreases targets@.len() - t,
    {
        if contains_chars(&targets[t], &needle) {
            assert(views(targets@)[t as int] == targets@[t as int]@);
            return true;
        }
        assert(views(targets@)[t as int] == targets@[t as int]@);
        t = t + 1;
    }
    false
}

/// Whether some `|`-separated alternative of `pattern` matches one of the
/// (lowercased) targets.
pub fn pattern_matches_exec(targets: &Vec<Vec<char>>, pattern: &str) -> (res: bool)
    ensures
        res == pattern_matches(views(targets@), pattern@),
{
    let p = chars_of(pattern);
    let alts = split_on_char(&p, '|');
    let mut k: usize = 0;
    while k < alts.len()
        invariant
            k <= alts@.len(),
            views(alts@) == split_char(pattern@, '|'),
            forall|j: int|
                0 <= j < k ==> !alternative_matches(
                    views(targets@),
                    #[trigger] split_char(pattern@, '|')[j],
                ),
        decreases alts@.len() - k,
    {
        assert(views(alts@)[k as int] == alts@[k as int]@);
        if alternative_matches_exec(targets, &alts[k]) {
            return true;
        }
        k = k + 1;
    }
    false
}

/// The patterns of a list of application mappings.
pub open spec fn app_patterns(maps: Seq<AppMapping>) -> Seq<Seq<char>> {
    maps.map_values(|m: AppMapping| m.app_pattern@)
}

/// The patterns of a list of URL mappings.
pub open spec fn url_patterns(maps: Seq<UrlMapping>) -> Seq<Seq<char>> {
    maps.map_values(|m: UrlMapping| m.url_pattern@)
}

/// The first application mapping whose pattern matches one of the targets.
pub fn first_app_mapping(maps: &Vec<AppMapping>, targets: &Vec<Vec<char>>) -> (res: Option<usize>)
    ensures
        match res {
            Some(i) => i < maps@.len() && first_match(app_patterns(maps@), views(targets@)) == Some(
                i as int,
            ),
            None => first_match(app_patterns(maps@), views(targets@)) is None,
        },
{
    let mut i: usize = 0;
    while i < maps.len()
        invariant
            i <= maps@.len(),
            forall|j: int|
                0 <= j < i ==> !pattern_matches(views(targets@), #[trigger] app_patterns(maps@)[j]),
        decreases maps@.len() - i,
    {
        assert(app_patterns(maps@)[i as int] == maps@[i as int].app_pattern@);
        if pattern_matches_exec(targets, maps[i].app_pattern.as_str()) {
            proof {
                lemma_first_match(app_patterns(maps@), views(targets@), i as int);
            }
            return Some(i);
        }
        i = i + 1;
    }
    proof {
        lemma_first_match(app_patterns(maps@), views(targets@), i as int);
    }
    None
}

/// The first URL mapping whose pattern matches one of the targets.
pub fn first_url_mapping(maps: &Vec<UrlMapping>, targets: &Vec<Vec<char>>) -> (res: Option<usize>)
    ensures
        match res {
            Some(i) => i < maps@.len() && first_match(url_patterns(maps@), views(targets@)) == Some(
                i as int,
            ),
            None => first_match(url_patterns(maps@), views(targets@)) is None,
        },
{
    let mut i: usize = 0;
    while i < maps.len()
        invariant
            i <= maps@.len(),
            forall|j: int|
                0 <= j < i ==> !pattern_matches(views(targets@), #[trigger] url_patterns(maps@)[j]),
        decreases maps@.len() - i,
    {
        assert(url_patterns(maps@)[i as int] == maps@[i as int].url_pattern@);
        if pattern_matches_exec(targets, maps[i].url_pattern.as_str()) {
            proof {
                lemma_first_match(url_patterns(maps@), views(targets@), i as int);
            }
            return Some(i);
        }
        i = i + 1;
    }
    proof {
        lemma_first_match(url_patterns(maps@), views(targets@), i as int);
    }
    None
}

/// The category an activity gets: the first URL mapping that matches the
/// lowercased URL, if there is a URL; otherwise the first application
/// mapping that matches the lowercased application name; otherwise
/// `Unknown`.
pub open spec fn categorize_spec(
    app_name: Seq<char>,
    url: Option<Seq<char>>,
    url_maps: Seq<UrlMapping>,
    app_maps: Seq<AppMapping>,
) -> CategoryKind {
    let by_url = match url {
        Some(u) => first_match(url_patterns(url_maps), seq![lowercase_of(u)]),
        None => None,
    };
    match by_url {
        Some(i) => category_of_mapping_id(url_maps[i].category_id@),
        None => match first_match(app_patterns(app_maps), seq![lowercase_of(app_name)]) {
            Some(i) => category_of_mapping_id(app_maps[i].category_id@),
            None => CategoryKind::Unknown,
        },
    }
}

/// Categorises an activity from the stored URL and application mappings.
pub fn categorize_activity(
    app_name: &str,
    _bundle_id: Option<&str>,
    url: Option<&str>,
    url_mappings: &Vec<UrlMapping>,
    app_mappings: &Vec<AppMapping>,
) -> (res: ActivityCategory)
    ensures
        res@ == categorize_spec(
            app_name@,
            match url {
                Some(u) => Some(u@),
                None => None,
            },
            url_mappings@,
            app_mappings@,
        ),
{
    if let Some(u) = url {
        let l = lower_chars(&chars_of(u));
        let mut targets: Vec<Vec<char>> = Vec::new();
        targets.push(l);
        assert(views(targets@) =~= seq![lowercase_of(u@)]);
        if let Some(i) = first_url_mapping(url_mappings, &targets) {
            return ActivityCategory::from_mapping_id(url_mappings[i].category_id.as_str());
        }
    }
    let l = lower_chars(&chars_of(app_name));
    let mut targets: Vec<Vec<char>> = Vec::new();
    targets.push(l);
    assert(views(targets@) =~= seq![lowercase_of(app_name@)]);
    match first_app_mapping(app_mappings, &targets) {
        Some(i) => ActivityCategory::from_mapping_id(app_mappings[i].category_id.as_str()),
        None => ActivityCategory::Unknown,
    }
}

} // verus!
