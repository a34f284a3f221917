//! Daily summaries and timelines: how long each activity lasted, the total
//! active time, the time per category and per application, and activities
//! clipped to a recent window.
use vstd::prelude::*;

use crate::models::{ActivityCategory, ActivityEntry, CategoryKind, TimelineActivity, TimelineData};
use crate::tracker::opt_view;

verus! {

// ---------------------------------------------------------------------------
// Durations
// ---------------------------------------------------------------------------

/// Whole seconds from `start` to `end` (milliseconds), rounded toward zero
/// (`chrono::Duration::num_seconds`).
pub open spec fn seconds_between(start: i64, end: i64) -> int {
    let d = end - start;
    if d >= 0 {
        d / 1000
    } else {
        -((-d) / 1000)
    }
}

/// The duration of an activity in seconds: until its end, or until `now`
/// while it is still going on.
pub fn activity_duration(start_time: i64, end_time: Option<i64>, now: i64) -> (res: i64)
    ensures
        res == seconds_between(
            start_time,
            match end_time {
                Some(e) => e,
                None => now,
            },
        ),
{
    let end = match end_time {
        Some(e) => e,
        None => now,
    };
    let d: i128 = (end as i128) - (start_time as i128);
    let s: i128 = if d >= 0 {
        d / 1000
    } else {
        -((-d) / 1000)
    };
    s as i64
}

// ---------------------------------------------------------------------------
// Sums over keyed durations
// ---------------------------------------------------------------------------

/// The sum of the durations.
pub open spec fn total_of<K>(items: Seq<(K, i64)>) -> int
    decreases items.len(),
{
    if items.len() == 0 {
        0
    } else {
        total_of(items.drop_last()) + items.last().1
    }
}

/// The sum of the absolute durations.
pub open spec fn magnitude<K>(items: Seq<(K, i64)>) -> int
    decreases items.len(),
{
    if items.len() == 0 {
        0
    } else {
        magnitude(items.drop_last()) + (if items.last().1 >= 0 {
            items.last().1 as int
        } else {
            -items.last().1
        })
    }
}

/// The sum of the durations recorded under key `k`.
pub open spec fn total_for<K>(items: Seq<(K, i64)>, k: K) -> int
    decreases items.len(),
{
    if items.len() == 0 {
        0
    } else {
        total_for(items.drop_last(), k) + (if items.last().0 == k {
            items.last().1 as int
        } else {
            0
        })
    }
}

/// Some duration is recorded under key `k`.
pub open spec fn has_key<K>(items: Seq<(K, i64)>, k: K) -> bool {
    exists|j: int| 0 <= j < items.len() && #[trigger] items[j].0 == k
}

/// `groups` holds each key of `items` once, with the sum of its durations.
pub open spec fn grouped<K>(groups: Seq<(K, i64)>, items: Seq<(K, i64)>) -> bool {
    &&& forall|i: int, j: int|
        0 <= i < j < groups.len() ==> #[trigger] groups[i].0 != #[trigger] groups[j].0
    &&& forall|i: int|
        0 <= i < groups.len() ==> has_key(items, #[trigger] groups[i].0) && groups[i].1
            == total_for(items, groups[i].0)
    &&& forall|j: int| 0 <= j < items.len() ==> has_key(groups, #[trigger] items[j].0)
}

/// Sums are bounded by the magnitude; magnitudes grow with the prefix.
pub proof fn lemma_sums_bounded<K>(items: Seq<(K, i64)>, k: K, n: int)
    requires
        0 <= n <= items.len(),
    ensures
        -magnitude(items) <= total_of(items) <= magnitude(items),
        -magnitude(items) <= total_for(items, k) <= magnitude(items),
        magnitude(items.take(n)) <= magnitude(items),
        magnitude(items) >= 0,
    decreases items.len(),
{
    if items.len() > 0 {
        let m = if n == items.len() { n - 1 } else { n };
        lemma_sums_bounded(items.drop_last(), k, m);
        if n == items.len() {
            assert(items.take(n) =~= items);
        } else {
            assert(items.drop_last().take(n) =~= items.take(n));
        }
    }
}

/// A key that is never recorded sums to zero.
pub proof fn lemma_total_for_absent<K>(items: Seq<(K, i64)>, k: K)
    requires
        !has_key(items, k),
    ensures
        total_for(items, k) == 0,
    decreases items.len(),
{
    if items.len() > 0 {
        assert(!has_key(items.drop_last(), k)) by {
            if has_key(items.drop_last(), k) {
                let j = choose|j: int| 0 <= j < items.drop_last().len() && #[trigger] items.drop_last()[j].0 == k;
                assert(items[j].0 == k);
            }
        }
        assert(items[items.len() - 1].0 != k);
        lemma_total_for_absent(items.drop_last(), k);
    }
}

/// Replacing one entry changes the sum by the difference.
pub proof fn lemma_total_update<K>(s: Seq<(K, i64)>, i: int, x: (K, i64))
    requires
        0 <= i < s.len(),
    ensures
        total_of(s.update(i, x)) == total_of(s) - s[i].1 + x.1,
    decreases s.len(),
{
    if i == s.len() - 1 {
        assert(s.update(i, x).drop_last() =~= s.drop_last());
    } else {
        lemma_total_update(s.drop_last(), i, x);
        assert(s.update(i, x).drop_last() =~= s.drop_last().update(i, x));
    }
}

/// The total active time: the sum of the durations, which fits when the
/// sum of their magnitudes does.
pub fn total_active_time<K>(items: &Vec<(K, i64)>) -> (res: i64)
    requires
        magnitude(items@) <= i64::MAX,
    ensures
        res == total_of(items@),
{
    let mut acc: i64 = 0;
    let mut n: usize = 0;
    assert(items@.take(0) =~= Seq::<(K, i64)>::empty());
    while n < items.len()
        invariant
            n <= items@.len(),
            magnitude(items@) <= i64::MAX,
            acc == total_of(items@.take(n as int)),
        decreases items@.len() - n,
    {
        assert(items@.take(n + 1).drop_last() =~= items@.take(n as int));
        proof {
            lemma_sums_bounded(items@, items@[0].0, n + 1);
            lemma_sums_bounded(items@.take(n + 1), items@[0].0, 0);
        }
        acc = acc + items[n].1;
        n = n + 1;
    }
    assert(items@.take(n as int) =~= items@);
    acc
}

// ---------------------------------------------------------------------------
// Time per application and per category
// ---------------------------------------------------------------------------

/// The keyed durations with applications by their names' characters.
pub open spec fn app_view(items: Seq<(String, i64)>) -> Seq<(Seq<char>, i64)> {
    items.map_values(|x: (String, i64)| (x.0@, x.1))
}

/// The keyed durations with categories by their views.
pub open spec fn category_view(items: Seq<(ActivityCategory, i64)>) -> Seq<(CategoryKind, i64)> {
    items.map_values(|x: (ActivityCategory, i64)| (x.0@, x.1))
}

/// One step of grouping: adding item `x` to groups of the first `n` items.
proof fn lemma_group_step<K>(groups: Seq<(K, i64)>, items: Seq<(K, i64)>, n: int, at: int)
    requires
        0 <= n < items.len(),
        grouped(groups, items.take(n)),
        at == -1 ==> !has_key(groups, items[n].0),
        at != -1 ==> 0 <= at < groups.len() && groups[at].0 == items[n].0,
    ensures
        at == -1 ==> grouped(groups.push((items[n].0, items[n].1)), items.take(n + 1))
            && items[n].1 == total_for(items.take(n + 1), items[n].0),
        at != -1 ==> groups[at].1 + items[n].1 == total_for(items.take(n + 1), items[n].0),
        forall|i: int|
            0 <= i < groups.len() && i != at ==> #[trigger] total_for(items.take(n + 1), groups[i].0)
                == total_for(items.take(n), groups[i].0),
{
    let p = items.take(n);
    let q = items.take(n + 1);
    let x = items[n];
    assert(q.drop_last() =~= p);
    assert(q.last() == x);
    assert forall|i: int| 0 <= i < groups.len() && i != at implies #[trigger] total_for(
        q,
        groups[i].0,
    ) == total_for(p, groups[i].0) by {
        if groups[i].0 == x.0 {
            if at == -1 {
                assert(has_key(groups, x.0));
            } else {
                assert(groups[at].0 == groups[i].0);
            }
        }
    }
    if at == -1 {
        assert(!has_key(p, x.0)) by {
            if has_key(p, x.0) {
                let j = choose|j: int| 0 <= j < p.len() && #[trigger] p[j].0 == x.0;
                assert(has_key(groups, p[j].0));
            }
        }
        lemma_total_for_absent(p, x.0);
        let g2 = groups.push((x.0, x.1));
        assert forall|i: int| 0 <= i < g2.len() implies has_key(q, #[trigger] g2[i].0) && g2[i].1
            == total_for(q, g2[i].0) by {
            if i < groups.len() {
                let j = choose|j: int| 0 <= j < p.len() && #[trigger] p[j].0 == groups[i].0;
                assert(q[j].0 == groups[i].0);
            } else {
                assert(q[n].0 == x.0);
            }
        }
        assert forall|j: int| 0 <= j < q.len() implies has_key(g2, #[trigger] q[j].0) by {
            if j < n {
                assert(p[j] == q[j]);
                let i = choose|i: int| 0 <= i < groups.len() && #[trigger] groups[i].0 == p[j].0;
                assert(g2[i].0 == q[j].0);
            } else {
                assert(g2[groups.len() as int].0 == q[j].0);
            }
        }
        assert forall|i: int, j: int| 0 <= i < j < g2.len() implies #[trigger] g2[i].0
            != #[trigger] g2[j].0 by {
            if j == groups.len() {
                if g2[i].0 == g2[j].0 {
                    assert(groups[i].0 == x.0);
                    assert(has_key(groups, x.0));
                }
            }
        }
    }
}

/// The time per application, each application once, in order of first
/// appearance.
pub fn group_by_app(items: &Vec<(String, i64)>) -> (res: Vec<(String, i64)>)
    requires
        magnitude(app_view(items@)) <= i64::MAX,
    ensures
        grouped(app_view(res@), app_view(items@)),
        total_of(app_view(res@)) == total_of(app_view(items@)),
{
    let ghost v = app_view(items@);
    let mut groups: Vec<(String, i64)> = Vec::new();
    let mut n: usize = 0;
    assert(v.take(0) =~= Seq::<(Seq<char>, i64)>::empty());
    assert(app_view(groups@) =~= Seq::<(Seq<char>, i64)>::empty());
    while n < items.len()
        invariant
            n <= items@.len(),
            v == app_view(items@),
            v.len() == items@.len(),
            magnitude(v) <= i64::MAX,
            grouped(app_view(groups@), v.take(n as int)),
            total_of(app_view(groups@)) == total_of(v.take(n as int)),
        decreases items@.len() - n,
    {
        let ghost gv = app_view(groups@);
        assert(v.take(n + 1).drop_last() =~= v.take(n as int));
        let key = &items[n].0;
        let d = items[n].1;
        assert(v[n as int] == (key@, d));
        let mut at: usize = 0;
        let mut found = false;
        while at < groups.len()
            invariant_except_break
                !found,
            invariant
                at <= groups@.len(),
                gv == app_view(groups@),
                gv.len() == groups@.len(),
                forall|i: int| 0 <= i < at ==> #[trigger] gv[i].0 != key@,
            ensures
                found ==> at < groups@.len() && gv[at as int].0 == key@,
                !found ==> at == groups@.len() && forall|i: int| 0 <= i < at ==> #[trigger] gv[i].0 != key@,
            decreases groups@.len() - at,
        {
            assert(gv[at as int] == (groups@[at as int].0@, groups@[at as int].1));
            if groups[at].0.eq(key) {
                found = true;
                break;
            }
            at = at + 1;
        }
        proof {
            lemma_sums_bounded(v, key@, n + 1);
            lemma_sums_bounded(v.take(n + 1), key@, 0);
        }
        if found {
            assert(gv[at as int].0 == key@);
            proof {
                lemma_group_step(gv, v, n as int, at as int);
            }
            let total = groups[at].1 + d;
            let name = groups[at].0.clone();
            groups.set(at, (name, total));
            assert(app_view(groups@) =~= gv.update(at as int, (key@, total)));
            proof {
                lemma_total_update(gv, at as int, (key@, total));
            }
            assert forall|j: int| 0 <= j < v.take(n + 1).len() implies has_key(
                app_view(groups@),
                #[trigger] v.take(n + 1)[j].0,
            ) by {
                if j < n {
                    assert(v.take(n as int)[j] == v.take(n + 1)[j]);
                    let i = choose|i: int| 0 <= i < gv.len() && #[trigger] gv[i].0 == v.take(n as int)[j].0;
                    assert(app_view(groups@)[i].0 == gv[i].0);
                } else {
                    assert(app_view(groups@)[at as int].0 == key@);
                }
            }
            assert forall|i: int| 0 <= i < app_view(groups@).len() implies has_key(
                v.take(n + 1),
                #[trigger] app_view(groups@)[i].0,
            ) && app_view(groups@)[i].1 == total_for(v.take(n + 1), app_view(groups@)[i].0) by {
                let j = choose|j: int| 0 <= j < v.take(n as int).len() && #[trigger] v.take(n as int)[j].0 == gv[i].0;
                assert(v.take(n + 1)[j] == v.take(n as int)[j]);
            }
        } else {
            assert(!has_key(gv, key@));
            proof {
                lemma_group_step(gv, v, n as int, -1);
            }
            groups.push((key.clone(), d));
            assert(app_view(groups@) =~= gv.push((key@, d)));
            assert(gv.push((key@, d)).drop_last() =~= gv);
        }
        n = n + 1;
    }
    assert(v.take(n as int) =~= v);
    groups
}

/// The time per category, each category once, in order of first
/// appearance.
pub fn group_by_category(items: &Vec<(ActivityCategory, i64)>) -> (res: Vec<(ActivityCategory, i64)>)
    requires
        magnitude(category_view(items@)) <= i64::MAX,
    ensures
        grouped(category_view(res@), category_view(items@)),
        total_of(category_view(res@)) == total_of(category_view(items@)),
{
    let ghost v = category_view(items@);
    let mut groups: Vec<(ActivityCategory, i64)> = Vec::new();
    let mut n: usize = 0;
    assert(v.take(0) =~= Seq::<(CategoryKind, i64)>::empty());
    assert(category_view(groups@) =~= Seq::<(CategoryKind, i64)>::empty());
    while n < items.len()
        invariant
            n <= items@.len(),
            v == category_view(items@),
            v.len() == items@.len(),
            magnitude(v) <= i64::MAX,
            grouped(category_view(groups@), v.take(n as int)),
            total_of(category_view(groups@)) == total_of(v.take(n as int)),
        decreases items@.len() - n,
    {
        let ghost gv = category_view(groups@);
        assert(v.take(n + 1).drop_last() =~= v.take(n as int));
        let key = &items[n].0;
        let d = items[n].1;
        assert(v[n as int] == (key@, d));
        let mut at: usize = 0;
        let mut found = false;
        while at < groups.len()
            invariant_except_break
                !found,
            invariant
                at <= groups@.len(),
                gv == category_view(groups@),
                gv.len() == groups@.len(),
                forall|i: int| 0 <= i < at ==> #[trigger] gv[i].0 != key@,
            ensures
                found ==> at < groups@.len() && gv[at as int].0 == key@,
                !found ==> at == groups@.len() && forall|i: int| 0 <= i < at ==> #[trigger] gv[i].0 != key@,
            decreases groups@.len() - at,
        {
            assert(gv[at as int] == (groups@[at as int].0@, groups@[at as int].1));
            if groups[at].0.same_as(key) {
                found = true;
                break;
            }
            at = at + 1;
        }
        proof {
            lemma_sums_bounded(v, key@, n + 1);
            lemma_sums_bounded(v.take(n + 1), key@, 0);
        }
        if found {
            assert(gv[at as int].0 == key@);
            proof {
                lemma_group_step(gv, v, n as int, at as int);
            }
            let total = groups[at].1 + d;
            let name = groups[at].0.clone();
            groups.set(at, (name, total));
            assert(category_view(groups@) =~= gv.update(at as int, (key@, total)));
            proof {
                lemma_total_update(gv, at as int, (key@, total));
            }
            assert forall|j: int| 0 <= j < v.take(n + 1).len() implies has_key(
                category_view(groups@),
                #[trigger] v.take(n + 1)[j].0,
            ) by {
                if j < n {
                    assert(v.take(n as int)[j] == v.take(n + 1)[j]);
                    let i = choose|i: int| 0 <= i < gv.len() && #[trigger] gv[i].0 == v.take(n as int)[j].0;
                    assert(category_view(groups@)[i].0 == gv[i].0);
                } else {
                    assert(category_view(groups@)[at as int].0 == key@);
                }
            }
            assert forall|i: int| 0 <= i < category_view(groups@).len() implies has_key(
                v.take(n + 1),
                #[trigger] category_view(groups@)[i].0,
            ) && category_view(groups@)[i].1 == total_for(v.take(n + 1), category_view(groups@)[i].0) by {
                let j = choose|j: int| 0 <= j < v.take(n as int).len() && #[trigger] v.take(n as int)[j].0 == gv[i].0;
                assert(v.take(n + 1)[j] == v.take(n as int)[j]);
            }
        } else {
            assert(!has_key(gv, key@));
            proof {
                lemma_group_step(gv, v, n as int, -1);
            }
            groups.push((key.clone(), d));
            assert(category_view(groups@) =~= gv.push((key@, d)));
            assert(gv.push((key@, d)).drop_last() =~= gv);
        }
        n = n + 1;
    }
    assert(v.take(n as int) =~= v);
    groups
}


/// `res` holds the `limit` longest of `groups` (all of them when there are
/// fewer), longest first: an entry left out lasted no longer than any kept.
pub open spec fn top_of(res: Seq<(Seq<char>, i64)>, groups: Seq<(Seq<char>, i64)>, limit: nat) -> bool {
    &&& res.len() == (if groups.len() < limit {
        groups.len()
    } else {
        limit
    })
    &&& forall|i: int, j: int| 0 <= i < j < res.len() ==> #[trigger] res[i].1 >= #[trigger] res[j].1
    &&& forall|i: int, j: int| 0 <= i < j < res.len() ==> #[trigger] res[i].0 != #[trigger] res[j].0
    &&& forall|i: int| 0 <= i < res.len() ==> groups.contains(#[trigger] res[i])
    &&& forall|j: int, i: int|
        0 <= j < groups.len() && 0 <= i < res.len() && !has_key(res, groups[j].0) ==> #[trigger] groups[j].1
            <= #[trigger] res[i].1
}

/// The keys of `groups` are distinct.
pub open spec fn distinct_keys<K>(groups: Seq<(K, i64)>) -> bool {
    forall|i: int, j: int| 0 <= i < j < groups.len() ==> #[trigger] groups[i].0 != #[trigger] groups[j].0
}

/// The `limit` applications with the most time, most first.
pub fn top_apps(groups: &Vec<(String, i64)>, limit: usize) -> (res: Vec<(String, i64)>)
    requires
        distinct_keys(app_view(groups@)),
    ensures
        top_of(app_view(res@), app_view(groups@), limit as nat),
{
    let ghost g = app_view(groups@);
    let n = groups.len();
    let count = if n < limit {
        n
    } else {
        limit
    };
    let mut taken: Vec<bool> = Vec::new();
    let mut k: usize = 0;
    while k < n
        invariant
            k <= n,
            n == groups@.len(),
            taken@.len() == k,
            forall|j: int| 0 <= j < k ==> !#[trigger] taken@[j],
        decreases n - k,
    {
        taken.push(false);
        k = k + 1;
    }
    let mut res: Vec<(String, i64)> = Vec::new();
    let ghost mut idx: Seq<int> = Seq::empty();
    let mut t: usize = 0;
    while t < count
        invariant
            g == app_view(groups@),
            g.len() == n,
            n == groups@.len(),
            count <= n,
            count <= limit,
            t <= count,
            distinct_keys(g),
            taken@.len() == n,
            res@.len() == t,
            idx.len() == t,
            forall|i: int| 0 <= i < t ==> 0 <= #[trigger] idx[i] < n,
            forall|i: int| 0 <= i < t ==> app_view(res@)[i] == g[#[trigger] idx[i]],
            forall|i: int, j: int| 0 <= i < j < t ==> #[trigger] idx[i] != #[trigger] idx[j],
            forall|j: int| 0 <= j < n ==> (#[trigger] taken@[j] <==> exists|i: int| 0 <= i < t && idx[i] == j),
            forall|i: int, j: int| 0 <= i < j < t ==> #[trigger] app_view(res@)[i].1 >= #[trigger] app_view(res@)[j].1,
            forall|j: int, i: int|
                0 <= j < n && 0 <= i < t && !taken@[j] ==> #[trigger] g[j].1 <= #[trigger] app_view(res@)[i].1,
        decreases count - t,
    {
        // Some entry is not taken yet, as fewer than n are taken.
        assert(exists|j: int| 0 <= j < n && !taken@[j]) by {
            if forall|j: int| 0 <= j < n ==> taken@[j] {
                let f = |j: int| choose|i: int| 0 <= i < t && idx[i] == j;
                assert forall|j: int| 0 <= j < n implies 0 <= #[trigger] f(j) < t && idx[f(j)] == j by {
                    assert(taken@[j]);
                }
                let s = vstd::set_lib::set_int_range(0, n as int);
                let r = vstd::set_lib::set_int_range(0, t as int);
                vstd::set_lib::lemma_int_range(0, n as int);
                vstd::set_lib::lemma_int_range(0, t as int);
                assert forall|a: int, b: int| s.contains(a) && s.contains(b) && #[trigger] f(a) == #[trigger] f(b) implies a == b by {
                    assert(idx[f(a)] == a);
                    assert(idx[f(b)] == b);
                }
                assert(vstd::relations::injective_on(f, s));
                vstd::set_lib::lemma_map_size(s, s.map(f), f);
                assert(s.map(f).subset_of(r)) by {
                    assert forall|y: int| s.map(f).contains(y) implies r.contains(y) by {
                        let a = choose|a: int| s.contains(a) && f(a) == y;
                        assert(0 <= f(a) < t);
                    }
                }
                vstd::set_lib::lemma_len_subset(s.map(f), r);
            }
        }
        let mut best: usize = n;
        let mut j: usize = 0;
        while j < n
            invariant
                j <= n,
                g == app_view(groups@),
                g.len() == n,
                n == groups@.len(),
                taken@.len() == n,
                best == n || (best < j && !taken@[best as int]),
                best == n ==> forall|x: int| 0 <= x < j ==> taken@[x],
                best < n ==> forall|x: int| 0 <= x < j && !taken@[x] ==> #[trigger] g[x].1 <= g[best as int].1,
            decreases n - j,
        {
            assert(g[j as int].1 == groups@[j as int].1);
            if !taken[j] {
                if best == n {
                    best = j;
                } else {
                    assert(g[best as int].1 == groups@[best as int].1);
                    if groups[j].1 > groups[best].1 {
                        best = j;
                    }
                }
            }
            j = j + 1;
        }
        assert(best < n);
        let ghost old_res = app_view(res@);
        let ghost old_taken = taken@;
        let ghost old_idx = idx;
        res.push((groups[best].0.clone(), groups[best].1));
        taken.set(best, true);
        proof {
            idx = idx.push(best as int);
        }
        assert(app_view(res@) =~= old_res.push(g[best as int]));
        assert forall|x: int| 0 <= x < n implies (#[trigger] taken@[x] <==> exists|i: int|
            0 <= i < t + 1 && idx[i] == x) by {
            if x == best {
                assert(idx[t as int] == x);
            } else {
                assert(taken@[x] == old_taken[x]);
                if old_taken[x] {
                    let i = choose|i: int| 0 <= i < t && old_idx[i] == x;
                    assert(idx[i] == x);
                }
                if exists|i: int| 0 <= i < t + 1 && idx[i] == x {
                    let i = choose|i: int| 0 <= i < t + 1 && idx[i] == x;
                    assert(i < t);
                    assert(old_idx[i] == x);
                }
            }
        }
        assert forall|a: int, b: int| 0 <= a < b < t + 1 implies #[trigger] idx[a] != #[trigger] idx[b] by {
            if b == t {
                assert(old_taken[idx[a]]) by {
                    assert(old_idx[a] == idx[a]);
                }
            }
        }
        t = t + 1;
    }
    proof {
        let r = app_view(res@);
        assert forall|i: int| 0 <= i < r.len() implies g.contains(#[trigger] r[i]) by {
            assert(g[idx[i]] == r[i]);
        }
        assert forall|a: int, b: int| 0 <= a < b < r.len() implies #[trigger] r[a].0 != #[trigger] r[b].0 by {
            if idx[a] < idx[b] {
                assert(g[idx[a]].0 != g[idx[b]].0);
            } else {
                assert(g[idx[b]].0 != g[idx[a]].0);
            }
        }
        assert forall|j: int, i: int|
            0 <= j < n && 0 <= i < r.len() && !has_key(r, g[j].0) implies #[trigger] g[j].1 <= #[trigger] r[i].1 by {
            if taken@[j] {
                let x = choose|x: int| 0 <= x < t && idx[x] == j;
                assert(r[x].0 == g[j].0);
            }
        }
    }
    res
}

// ---------------------------------------------------------------------------
// The day's summary
// ---------------------------------------------------------------------------

/// How many applications a summary lists.
pub const TOP_APP_COUNT: usize = 10;

/// The seconds an entry lasted, counting an ongoing one until `now`.
pub open spec fn entry_seconds(e: ActivityEntry, now: i64) -> i64 {
    seconds_between(
        e.start_time,
        match e.end_time {
            Some(x) => x,
            None => now,
        },
    ) as i64
}

/// The entries' durations keyed by application.
pub open spec fn app_items(es: Seq<ActivityEntry>, now: i64) -> Seq<(Seq<char>, i64)> {
    es.map_values(|e: ActivityEntry| (e.app_name@, entry_seconds(e, now)))
}

/// The entries' durations keyed by category.
pub open spec fn category_items(es: Seq<ActivityEntry>, now: i64) -> Seq<(CategoryKind, i64)> {
    es.map_values(|e: ActivityEntry| (e.category@, entry_seconds(e, now)))
}

/// Totals of a day: the active time, the time per category, and the
/// applications with the most time.
pub struct DaySummary {
    pub total_active_time: i64,
    pub categories: Vec<(ActivityCategory, i64)>,
    pub top_apps: Vec<(String, i64)>,
}

/// Sums and magnitudes depend on the durations only.
pub proof fn lemma_same_durations<K, L>(a: Seq<(K, i64)>, b: Seq<(L, i64)>)
    requires
        a.len() == b.len(),
        forall|i: int| 0 <= i < a.len() ==> #[trigger] a[i].1 == b[i].1,
    ensures
        magnitude(a) == magnitude(b),
        total_of(a) == total_of(b),
    decreases a.len(),
{
    if a.len() > 0 {
        lemma_same_durations(a.drop_last(), b.drop_last());
    }
}

/// The totals of a day's entries, ongoing ones counted until `now`.
pub fn summarize_activities(entries: &Vec<ActivityEntry>, now: i64) -> (res: DaySummary)
    requires
        magnitude(app_items(entries@, now)) <= i64::MAX,
    ensures
        res.total_active_time == total_of(app_items(entries@, now)),
        grouped(category_view(res.categories@), category_items(entries@, now)),
        total_of(category_view(res.categories@)) == res.total_active_time,
        exists|g: Seq<(Seq<char>, i64)>|
            #[trigger] grouped(g, app_items(entries@, now)) && top_of(
                app_view(res.top_apps@),
                g,
                TOP_APP_COUNT as nat,
            ),
{
    let mut apps: Vec<(String, i64)> = Vec::new();
    let mut cats: Vec<(ActivityCategory, i64)> = Vec::new();
    let mut i: usize = 0;
    while i < entries.len()
        invariant
            i <= entries@.len(),
            apps@.len() == i,
            cats@.len() == i,
            app_view(apps@) == app_items(entries@, now).take(i as int),
            category_view(cats@) == category_items(entries@, now).take(i as int),
        decreases entries@.len() - i,
    {
        let e = &entries[i];
        let d = activity_duration(e.start_time, e.end_time, now);
        apps.push((e.app_name.clone(), d));
        cats.push((e.category.clone(), d));
        assert(app_view(apps@) =~= app_items(entries@, now).take(i + 1));
        assert(category_view(cats@) =~= category_items(entries@, now).take(i + 1));
        i = i + 1;
    }
    assert(app_items(entries@, now).take(i as int) =~= app_items(entries@, now));
    assert(category_items(entries@, now).take(i as int) =~= category_items(entries@, now));
    proof {
        lemma_same_durations(app_view(apps@), category_view(cats@));
    }
    proof {
        lemma_same_durations(apps@, app_view(apps@));
    }
    let total = total_active_time(&apps);
    let categories = group_by_category(&cats);
    let groups = group_by_app(&apps);
    let top = top_apps(&groups, TOP_APP_COUNT);
    DaySummary { total_active_time: total, categories, top_apps: top }
}

// ---------------------------------------------------------------------------
// Recent timeline
// ---------------------------------------------------------------------------

/// The part of an activity inside the window from `window_start` to `now`
/// (an ongoing activity lasts until `now`), if it is not empty.
pub open spec fn clip_spec(start: i64, end: Option<i64>, window_start: i64, now: i64) -> Option<(i64, i64)> {
    let s = if start > window_start {
        start
    } else {
        window_start
    };
    let e0 = match end {
        Some(x) => x,
        None => now,
    };
    let e = if e0 < now {
        e0
    } else {
        now
    };
    if s < e {
        Some((s, e))
    } else {
        None
    }
}

/// Clips an activity to the window: its start and end inside it and the
/// whole seconds between them, or `None` when it lies outside.
pub fn clip_to_window(start_time: i64, end_time: Option<i64>, window_start: i64, now: i64) -> (res:
    Option<(i64, i64, i64)>)
    ensures
        match clip_spec(start_time, end_time, window_start, now) {
            Some((s, e)) => res == Some((s, e, seconds_between(s, e) as i64)),
            None => res is None,
        },
{
    let s = if start_time > window_start {
        start_time
    } else {
        window_start
    };
    let e0 = match end_time {
        Some(x) => x,
        None => now,
    };
    let e = if e0 < now {
        e0
    } else {
        now
    };
    if s < e {
        let d = activity_duration(s, Some(e), now);
        Some((s, e, d))
    } else {
        None
    }
}

/// The start of the window of the last `minutes` minutes before `now`
/// (milliseconds).
pub fn window_start(now: i64, minutes: i64) -> (res: i64)
    requires
        i64::MIN <= now - minutes * 60_000 <= i64::MAX,
        i64::MIN <= minutes * 60_000 <= i64::MAX,
    ensures
        res == now - minutes * 60_000,
{
    now - minutes * 60_000
}

/// The indices among the first `n` entries whose activity overlaps the
/// window, in order.
pub open spec fn kept_from(es: Seq<ActivityEntry>, window_start: i64, now: i64, n: int) -> Seq<int>
    decreases n,
{
    if n <= 0 {
        Seq::empty()
    } else {
        let p = kept_from(es, window_start, now, n - 1);
        if clip_spec(es[n - 1].start_time, es[n - 1].end_time, window_start, now) is Some {
            p.push(n - 1)
        } else {
            p
        }
    }
}

/// `t` is entry `e` clipped to the window.
pub open spec fn clipped_as(t: TimelineActivity, e: ActivityEntry, window_start: i64, now: i64) -> bool {
    &&& match clip_spec(e.start_time, e.end_time, window_start, now) {
        Some((s, x)) => t.start_time == s && t.end_time == Some(x) && t.duration_seconds
            == seconds_between(s, x),
        None => false,
    }
    &&& t.id == e.id
    &&& t.app_name@ == e.app_name@
    &&& opt_view(t.app_bundle_id) == opt_view(e.app_bundle_id)
    &&& t.window_title@ == e.window_title@
    &&& opt_view(t.url) == opt_view(e.url)
    &&& t.category == e.category
    &&& t.segments@.len() == 0
}

/// The activities of the window from `window_start` to `now`, each clipped
/// to it, in the order of `entries`; those outside the window are left out.
pub fn recent_timeline(entries: &Vec<ActivityEntry>, window_start: i64, now: i64) -> (res: TimelineData)
    ensures
        res.start_time == window_start,
        res.end_time == now,
        res.activities@.len() == kept_from(entries@, window_start, now, entries@.len() as int).len(),
        forall|i: int|
            0 <= i < res.activities@.len() ==> clipped_as(
                #[trigger] res.activities@[i],
                entries@[kept_from(entries@, window_start, now, entries@.len() as int)[i]],
                window_start,
                now,
            ),
{
    let mut acts: Vec<TimelineActivity> = Vec::new();
    let mut n: usize = 0;
    while n < entries.len()
        invariant
            n <= entries@.len(),
            acts@.len() == kept_from(entries@, window_start, now, n as int).len(),
            forall|k: int| 0 <= k < kept_from(entries@, window_start, now, n as int).len() ==> 0
                <= #[trigger] kept_from(entries@, window_start, now, n as int)[k] < n,
            forall|i: int|
                0 <= i < acts@.len() ==> clipped_as(
                    #[trigger] acts@[i],
                    entries@[kept_from(entries@, window_start, now, n as int)[i]],
                    window_start,
                    now,
                ),
        decreases entries@.len() - n,
    {
        let e = &entries[n];
        let ghost before = kept_from(entries@, window_start, now, n as int);
        match clip_to_window(e.start_time, e.end_time, window_start, now) {
            Some((s, t_end, d)) => {
                acts.push(
                    TimelineActivity {
                        id: e.id,
                        start_time: s,
                        end_time: Some(t_end),
                        duration_seconds: d,
                        app_name: e.app_name.clone(),
                        app_bundle_id: e.app_bundle_id.clone(),
                        window_title: e.window_title.clone(),
                        url: e.url.clone(),
                        category: e.category.clone(),
                        segments: Vec::new(),
                    },
                );
                assert(kept_from(entries@, window_start, now, n + 1) == before.push(n as int));
            },
            None => {
                assert(kept_from(entries@, window_start, now, n + 1) == before);
            },
        }
        n = n + 1;
    }
    TimelineData { start_time: window_start, end_time: now, activities: acts }
}
} // verus!
