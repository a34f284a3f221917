//! A list of entries keyed by distinct strings, viewed as a map.
use vstd::prelude::*;

use crate::text::{chars_eq, chars_of};

verus! {

/// No two entries have the same key.
pub open spec fn keys_distinct<V>(s: Seq<(String, V)>) -> bool {
    forall|i: int, j: int|
        0 <= i < s.len() && 0 <= j < s.len() && i != j ==> (#[trigger] s[i]).0@ != (
        #[trigger] s[j]).0@
}

/// Some entry has key `k`.
pub open spec fn has_key<V>(s: Seq<(String, V)>, k: Seq<char>) -> bool {
    exists|i: int| 0 <= i < s.len() && (#[trigger] s[i]).0@ == k
}

/// The position of the entry with key `k`.
pub open spec fn key_index<V>(s: Seq<(String, V)>, k: Seq<char>) -> int {
    choose|i: int| 0 <= i < s.len() && (#[trigger] s[i]).0@ == k
}

/// The entries as a map from key text to value.
pub open spec fn entries_map<V>(s: Seq<(String, V)>) -> Map<Seq<char>, V> {
    Map::new(|k: Seq<char>| has_key(s, k), |k: Seq<char>| s[key_index(s, k)].1)
}

/// With distinct keys, the map holds each entry's value under its key.
pub proof fn lemma_entries_map_at<V>(s: Seq<(String, V)>, i: int)
    requires
        keys_distinct(s),
        0 <= i < s.len(),
    ensures
        entries_map(s).dom().contains(s[i].0@),
        entries_map(s)[s[i].0@] == s[i].1,
{
    let k = s[i].0@;
    assert(has_key(s, k));
    let j = key_index(s, k);
    assert(0 <= j < s.len() && s[j].0@ == k);
    if j != i {
        assert(s[i].0@ != s[j].0@);
    }
}

/// A list of entries keyed by distinct strings.
#[derive(Debug)]
pub struct KeyedList<V> {
    entries: Vec<(String, V)>,
}

impl<V> KeyedList<V> {
    #[verifier::type_invariant]
    spec fn distinct(&self) -> bool {
        keys_distinct(self.entries@)
    }

    /// The entries, in the order they were first inserted.
    pub closed spec fn entries(&self) -> Seq<(String, V)> {
        self.entries@
    }

    /// The map from key text to value.
    pub closed spec fn as_map(&self) -> Map<Seq<char>, V> {
        entries_map(self.entries@)
    }

    /// An empty list.
    pub fn new() -> (res: Self)
        ensures
            res.as_map() == Map::<Seq<char>, V>::empty(),
    {
        let res = KeyedList { entries: Vec::new() };
        assert(res.as_map() =~= Map::<Seq<char>, V>::empty());
        res
    }

    /// The number of entries.
    pub fn len(&self) -> (res: usize)
        ensures
            res == self.as_map().dom().len(),
    {
        proof {
            use_type_invariant(self);
            self.lemma_len();
        }
        self.entries.len()
    }

    /// The number of keys equals the number of entries.
    proof fn lemma_len(&self)
        requires
            keys_distinct(self.entries@),
        ensures
            self.as_map().dom().finite(),
            self.as_map().dom().len() == self.entries@.len(),
    {
        let s = self.entries@;
        let keys = s.map_values(|e: (String, V)| e.0@);
        assert forall|i: int, j: int|
            0 <= i < keys.len() && 0 <= j < keys.len() && i != j implies keys[i] != keys[j] by {
            assert(s[i].0@ != s[j].0@);
        }
        assert(keys.no_duplicates());
        keys.unique_seq_to_set();
        assert forall|k: Seq<char>| self.as_map().dom().contains(k) <==> keys.to_set().contains(
            k,
        ) by {
            if self.as_map().dom().contains(k) {
                let i = key_index(s, k);
                assert(keys[i] == k);
            }
            if keys.to_set().contains(k) {
                let i = choose|i: int| 0 <= i < keys.len() && keys[i] == k;
                assert(s[i].0@ == k);
            }
        }
        assert(self.as_map().dom() =~= keys.to_set());
    }

    /// The position of key `k`, if it is present.
    fn find(&self, k: &str) -> (res: Option<usize>)
        ensures
            match res {
                Some(i) => i < self.entries@.len() && self.entries@[i as int].0@ == k@,
                None => !has_key(self.entries@, k@),
            },
    {
        let kc = chars_of(k);
        let mut i: usize = 0;
        while i < self.entries.len()
            invariant
                i <= self.entries@.len(),
                kc@ == k@,
                forall|j: int| 0 <= j < i ==> (#[trigger] self.entries@[j]).0@ != k@,
            decreases self.entries@.len() - i,
        {
            let ec = chars_of(self.entries[i].0.as_str());
            if chars_eq(&ec, &kc) {
                return Some(i);
            }
            i = i + 1;
        }
        None
    }

    /// Whether key `k` is present.
    pub fn contains_key(&self, k: &str) -> (res: bool)
        ensures
            res == self.as_map().dom().contains(k@),
    {
        self.find(k).is_some()
    }

    /// Sets the value of key `k`, adding the key if it is new.
    pub fn insert(&mut self, k: String, v: V)
        ensures
            final(self).as_map() == old(self).as_map().insert(k@, v),
    {
        proof {
            use_type_invariant(&*self);
        }
        let ghost old_s = self.entries@;
        let ghost kv = k@;
        match self.find(k.as_str()) {
            Some(i) => {
                let mut entries: Vec<(String, V)> = Vec::new();
                std::mem::swap(&mut entries, &mut self.entries);
                entries.set(i, (k, v));
                let ghost s = entries@;
                assert(keys_distinct(s)) by {
                    assert forall|a: int, b: int|
                        0 <= a < s.len() && 0 <= b < s.len() && a != b implies (
                        #[trigger] s[a]).0@ != (#[trigger] s[b]).0@ by {
                        if a != i && b != i {
                            assert(old_s[a].0@ != old_s[b].0@);
                        } else if a == i {
                            assert(old_s[a].0@ != old_s[b].0@);
                        } else {
                            assert(old_s[a].0@ != old_s[b].0@);
                        }
                    }
                }
                self.entries = entries;
                assert forall|kk: Seq<char>| #![trigger entries_map(s).dom().contains(kk)]
                    entries_map(s).dom().contains(kk) == entries_map(old_s).insert(
                        kv,
                        v,
                    ).dom().contains(kk) by {
                    if has_key(old_s, kk) {
                        let j = key_index(old_s, kk);
                        if j == i {
                            assert(s[j].0@ == kk);
                        } else {
                            assert(s[j].0@ == kk);
                        }
                    }
                    if has_key(s, kk) {
                        let j = key_index(s, kk);
                        if j != i {
                            assert(old_s[j].0@ == kk);
                        }
                    }
                }
                assert forall|kk: Seq<char>| #[trigger]
                    entries_map(s).dom().contains(kk) implies entries_map(s)[kk] == entries_map(
                    old_s,
                ).insert(kv, v)[kk] by {
                    let j = key_index(s, kk);
                    lemma_entries_map_at(s, j);
                    if j != i {
                        lemma_entries_map_at(old_s, j);
                    }
                }
                assert(entries_map(s) =~= entries_map(old_s).insert(kv, v));
            },
            None => {
                let mut entries: Vec<(String, V)> = Vec::new();
                std::mem::swap(&mut entries, &mut self.entries);
                entries.push((k, v));
                let ghost s = entries@;
                assert(keys_distinct(s)) by {
                    assert forall|a: int, b: int|
                        0 <= a < s.len() && 0 <= b < s.len() && a != b implies (
                        #[trigger] s[a]).0@ != (#[trigger] s[b]).0@ by {
                        if a < old_s.len() && b < old_s.len() {
                            assert(old_s[a].0@ != old_s[b].0@);
                        } else if a < old_s.len() {
                            assert(old_s[a] == s[a]);
                        } else {
                            assert(old_s[b] == s[b]);
                        }
                    }
                }
                self.entries = entries;
                assert forall|kk: Seq<char>| #![trigger entries_map(s).dom().contains(kk)]
                    entries_map(s).dom().contains(kk) == entries_map(old_s).insert(
                        kv,
                        v,
                    ).dom().contains(kk) by {
                    if has_key(old_s, kk) {
                        let j = key_index(old_s, kk);
                        assert(s[j].0@ == kk);
                    }
                    if kk == kv {
                        assert(s[old_s.len() as int].0@ == kk);
                    }
                    if has_key(s, kk) {
                        let j = key_index(s, kk);
                        if j < old_s.len() {
                            assert(old_s[j].0@ == kk);
                        }
                    }
                }
                assert forall|kk: Seq<char>| #[trigger]
                    entries_map(s).dom().contains(kk) implies entries_map(s)[kk] == entries_map(
                    old_s,
                ).insert(kv, v)[kk] by {
                    let j = key_index(s, kk);
                    lemma_entries_map_at(s, j);
                    if j < old_s.len() {
                        assert(old_s[j] == s[j]);
                        lemma_entries_map_at(old_s, j);
                    }
                }
                assert(entries_map(s) =~= entries_map(old_s).insert(kv, v));
            },
        }
    }

    /// Removes key `k`, if it is present.
    pub fn remove(&mut self, k: &str)
        ensures
            final(self).as_map() == old(self).as_map().remove(k@),
    {
        proof {
            use_type_invariant(&*self);
        }
        let ghost old_s = self.entries@;
        let ghost kv = k@;
        match self.find(k) {
            Some(i) => {
                let mut entries: Vec<(String, V)> = Vec::new();
                std::mem::swap(&mut entries, &mut self.entries);
                let _ = entries.remove(i);
                let ghost s = entries@;
                assert(s =~= old_s.remove(i as int));
                assert(keys_distinct(s)) by {
                    assert forall|a: int, b: int|
                        0 <= a < s.len() && 0 <= b < s.len() && a != b implies (
                        #[trigger] s[a]).0@ != (#[trigger] s[b]).0@ by {
                        let oa = if a < i { a } else { a + 1 };
                        let ob = if b < i { b } else { b + 1 };
                        assert(old_s[oa].0@ != old_s[ob].0@);
                    }
                }
                self.entries = entries;
                assert forall|kk: Seq<char>| #![trigger entries_map(s).dom().contains(kk)]
                    entries_map(s).dom().contains(kk) == entries_map(old_s).remove(
                        kv,
                    ).dom().contains(kk) by {
                    if has_key(old_s, kk) && kk != kv {
                        let j = key_index(old_s, kk);
                        if j < i {
                            assert(s[j].0@ == kk);
                        } else {
                            assert(j != i);
                            assert(s[j - 1].0@ == kk);
                        }
                    }
                    if has_key(s, kk) {
                        let j = key_index(s, kk);
                        let oj = if j < i { j } else { j + 1 };
                        assert(old_s[oj].0@ == kk);
                        assert(old_s[oj].0@ != old_s[i as int].0@);
                    }
                }
                assert forall|kk: Seq<char>| #[trigger]
                    entries_map(s).dom().contains(kk) implies entries_map(s)[kk] == entries_map(
                    old_s,
                ).remove(kv)[kk] by {
                    let j = key_index(s, kk);
                    lemma_entries_map_at(s, j);
                    let oj = if j < i { j } else { j + 1 };
                    lemma_entries_map_at(old_s, oj);
                }
                assert(entries_map(s) =~= entries_map(old_s).remove(kv));
            },
            None => {
                assert(entries_map(old_s) =~= entries_map(old_s).remove(kv));
            },
        }
    }
}

impl<V: Copy> KeyedList<V> {
    /// The value of key `k`, if it is present.
    pub fn get(&self, k: &str) -> (res: Option<V>)
        ensures
            match res {
                Some(v) => self.as_map().dom().contains(k@) && self.as_map()[k@] == v,
                None => !self.as_map().dom().contains(k@),
            },
    {
        proof {
            use_type_invariant(self);
        }
        match self.find(k) {
            Some(i) => {
                proof {
                    lemma_entries_map_at(self.entries@, i as int);
                }
                Some(self.entries[i].1)
            },
            None => None,
        }
    }
}


/// How long ago `then` was at `now`, or zero if `then` is later
/// (`Instant::duration_since` saturates).
pub open spec fn age(now: u64, then: u64) -> u64 {
    if now >= then {
        (now - then) as u64
    } else {
        0
    }
}

/// The entries of `m` whose time is less than `max_age` before `now`.
pub open spec fn keep_recent(m: Map<Seq<char>, u64>, now: u64, max_age: u64) -> Map<
    Seq<char>,
    u64,
> {
    Map::new(|k: Seq<char>| m.dom().contains(k) && age(now, m[k]) < max_age, |k: Seq<char>| m[k])
}

impl KeyedList<u64> {
    /// Drops the entries whose time is `max_age` or more before `now`.
    pub fn retain_recent(&mut self, now: u64, max_age: u64)
        ensures
            final(self).as_map() == keep_recent(old(self).as_map(), now, max_age),
    {
        proof {
            use_type_invariant(&*self);
        }
        let ghost m0 = self.as_map();
        let ghost s0 = self.entries@;
        let mut stale: Vec<String> = Vec::new();
        let n = self.entries.len();
        let mut i: usize = 0;
        while i < n
            invariant
                n == self.entries@.len(),
                i <= n,
                self.entries@ == s0,
                m0 == entries_map(s0),
                keys_distinct(s0),
                forall|t: int|
                    0 <= t < stale@.len() ==> m0.dom().contains((#[trigger] stale@[t])@) && age(
                        now,
                        m0[stale@[t]@],
                    ) >= max_age,
                forall|j: int|
                    0 <= j < i && age(now, (#[trigger] s0[j]).1) >= max_age ==> exists|t: int|
                        0 <= t < stale@.len() && (#[trigger] stale@[t])@ == s0[j].0@,
            decreases n - i,
        {
            let t = self.entries[i].1;
            let fresh = if now >= t {
                now - t < max_age
            } else {
                0 < max_age
            };
            let ghost old_stale = stale@;
            if !fresh {
                proof {
                    lemma_entries_map_at(s0, i as int);
                }
                let key = self.entries[i].0.clone();
                stale.push(key);
                assert(stale@[stale@.len() - 1]@ == s0[i as int].0@);
            }
            assert forall|j: int|
                0 <= j < i + 1 && age(now, (#[trigger] s0[j]).1) >= max_age implies exists|t: int|
                    0 <= t < stale@.len() && (#[trigger] stale@[t])@ == s0[j].0@ by {
                if j < i {
                    let t0 = choose|t: int|
                        0 <= t < old_stale.len() && (#[trigger] old_stale[t])@ == s0[j].0@;
                    assert(stale@[t0] == old_stale[t0]);
                } else {
                    assert(stale@[stale@.len() - 1]@ == s0[j].0@);
                }
            }
            i = i + 1;
        }
        let ghost all_stale = stale@.map_values(|x: String| x@).to_set();
        assert(keep_recent(m0, now, max_age) =~= m0.remove_keys(all_stale)) by {
            assert forall|k: Seq<char>| #[trigger]
                m0.dom().contains(k) && age(now, m0[k]) >= max_age implies all_stale.contains(
                k,
            ) by {
                let j = key_index(s0, k);
                lemma_entries_map_at(s0, j);
                let t = choose|t: int| 0 <= t < stale@.len() && (#[trigger] stale@[t])@ == s0[j].0@;
                assert(stale@.map_values(|x: String| x@)[t] == k);
            }
            assert forall|k: Seq<char>| #[trigger] all_stale.contains(k) implies m0.dom().contains(
                k,
            ) && age(now, m0[k]) >= max_age by {
                let sv = stale@.map_values(|x: String| x@);
                let t = choose|t: int| 0 <= t < sv.len() && #[trigger] sv[t] == k;
                assert(stale@[t]@ == k);
            }
        }
        let mut t: usize = 0;
        while t < stale.len()
            invariant
                t <= stale@.len(),
                self.as_map() == m0.remove_keys(stale@.take(t as int).map_values(|x: String| x@).to_set()),
                all_stale == stale@.map_values(|x: String| x@).to_set(),
            decreases stale@.len() - t,
        {
            self.remove(stale[t].as_str());
            let ghost before = stale@.take(t as int).map_values(|x: String| x@);
            assert(stale@.take(t + 1).map_values(|x: String| x@) =~= before.push(stale@[t as int]@));
            proof {
                before.lemma_push_to_set_commute(stale@[t as int]@);
            }
            assert(m0.remove_keys(before.to_set()).remove(stale@[t as int]@) =~= m0.remove_keys(
                before.to_set().insert(stale@[t as int]@),
            ));
            t = t + 1;
        }
        assert(stale@.take(stale@.len() as int) =~= stale@);
    }
}

} // verus!
