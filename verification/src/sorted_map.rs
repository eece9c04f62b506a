//! A map from text keys to values that keeps its entries in the order of
//! their keys.

use vstd::prelude::*;
use crate::text::{key_lt, lemma_key_lt_is_strict, lemma_key_lt_total, order_of_keys, Order};

verus! {

/// Entries stand in strictly increasing order of their keys.
pub open spec fn sorted_by_key<T>(s: Seq<(Seq<char>, T)>) -> bool {
    forall|i: int, j: int| 0 <= i < j < s.len() ==> key_lt(#[trigger] s[i].0, #[trigger] s[j].0)
}

/// Entries whose keys increase from each one to the next are sorted.
pub proof fn lemma_sorted_by_steps<T>(s: Seq<(Seq<char>, T)>)
    requires
        forall|i: int| 0 <= i < s.len() - 1 ==> key_lt((#[trigger] s[i]).0, s[i + 1].0),
    ensures
        sorted_by_key(s),
    decreases s.len(),
{
    if s.len() > 1 {
        let init = s.drop_last();
        let last = s.len() - 1;
        assert forall|i: int| 0 <= i < init.len() - 1 implies key_lt(
            (#[trigger] init[i]).0,
            init[i + 1].0,
        ) by {
            assert(init[i] == s[i] && init[i + 1] == s[i + 1]);
        }
        lemma_sorted_by_steps(init);
        assert forall|i: int, j: int| 0 <= i < j < s.len() implies key_lt(
            #[trigger] s[i].0,
            #[trigger] s[j].0,
        ) by {
            if j < last {
                assert(init[i] == s[i] && init[j] == s[j]);
                assert(key_lt(init[i].0, init[j].0));
            } else if i < last - 1 {
                assert(init[i] == s[i] && init[last - 1] == s[last - 1]);
                assert(key_lt(init[i].0, init[last - 1].0));
                assert(key_lt(s[last - 1].0, s[last - 1 + 1].0));
                lemma_key_lt_is_strict(s[i].0, s[last - 1].0, s[last].0);
            } else {
                assert(key_lt(s[i].0, s[i + 1].0));
            }
        }
    }
}

/// The value of the first entry with this key.
pub open spec fn find<T>(s: Seq<(Seq<char>, T)>, key: Seq<char>) -> Option<T>
    decreases s.len(),
{
    if s.len() == 0 {
        None
    } else if s[0].0 == key {
        Some(s[0].1)
    } else {
        find(s.drop_first(), key)
    }
}

/// In sorted entries, the number of keys that come before `key`.
pub open spec fn rank<T>(s: Seq<(Seq<char>, T)>, key: Seq<char>) -> int
    decreases s.len(),
{
    if s.len() == 0 {
        0
    } else if key_lt(s.last().0, key) {
        s.len() as int
    } else {
        rank(s.drop_last(), key)
    }
}

/// Sorted entries after `key` is set to `value`: the entry with that key is
/// replaced, or a new one takes its place in the order.
pub open spec fn put<T>(s: Seq<(Seq<char>, T)>, key: Seq<char>, value: T) -> Seq<(Seq<char>, T)> {
    let at = rank(s, key);
    if at < s.len() && s[at].0 == key {
        s.update(at, (key, value))
    } else {
        s.insert(at, (key, value))
    }
}

/// The first entry with a key is found from the entries before it not having it.
pub proof fn lemma_find_at<T>(s: Seq<(Seq<char>, T)>, key: Seq<char>, at: int)
    requires
        0 <= at < s.len(),
        s[at].0 == key,
        forall|j: int| 0 <= j < at ==> (#[trigger] s[j]).0 != key,
    ensures
        find(s, key) == Some(s[at].1),
    decreases at,
{
    if at > 0 {
        assert(s[0].0 != key);
        let rest = s.drop_first();
        assert forall|j: int| 0 <= j < at - 1 implies (#[trigger] rest[j]).0 != key by {
            assert(rest[j] == s[j + 1]);
        }
        lemma_find_at(rest, key, at - 1);
    }
}

/// A key that no entry has is not found.
pub proof fn lemma_find_none<T>(s: Seq<(Seq<char>, T)>, key: Seq<char>)
    requires
        forall|j: int| 0 <= j < s.len() ==> (#[trigger] s[j]).0 != key,
    ensures
        find(s, key) is None,
    decreases s.len(),
{
    if s.len() > 0 {
        assert(s[0].0 != key);
        let rest = s.drop_first();
        assert forall|j: int| 0 <= j < rest.len() implies (#[trigger] rest[j]).0 != key by {
            assert(rest[j] == s[j + 1]);
        }
        lemma_find_none(rest, key);
    }
}

/// In sorted entries each key is found, with the value that stands beside it.
pub proof fn lemma_find_in_sorted<T>(s: Seq<(Seq<char>, T)>, at: int)
    requires
        sorted_by_key(s),
        0 <= at < s.len(),
    ensures
        find(s, s[at].0) == Some(s[at].1),
{
    assert forall|j: int| 0 <= j < at implies (#[trigger] s[j]).0 != s[at].0 by {
        assert(key_lt(s[j].0, s[at].0));
        lemma_key_lt_is_strict(s[at].0, s[at].0, s[at].0);
    }
    lemma_find_at(s, s[at].0, at);
}

/// In sorted entries, the rank of a key is the place before which every key
/// comes before it and at which none does.
pub proof fn lemma_rank_at<T>(s: Seq<(Seq<char>, T)>, key: Seq<char>, at: int)
    requires
        sorted_by_key(s),
        0 <= at <= s.len(),
        forall|j: int| 0 <= j < at ==> key_lt((#[trigger] s[j]).0, key),
        at == s.len() || !key_lt(s[at].0, key),
    ensures
        rank(s, key) == at,
    decreases s.len(),
{
    if s.len() > 0 {
        let last = s.len() - 1;
        if key_lt(s.last().0, key) {
            if at < s.len() {
                if at < last {
                    assert(key_lt(s[at].0, s[last].0));
                    lemma_key_lt_is_strict(s[at].0, s[last].0, key);
                }
            }
        } else {
            if at == s.len() {
                assert(key_lt(s[last].0, key));
            }
            let init = s.drop_last();
            assert forall|i: int, j: int| 0 <= i < j < init.len() implies key_lt(
                #[trigger] init[i].0,
                #[trigger] init[j].0,
            ) by {
                assert(init[i] == s[i] && init[j] == s[j]);
            }
            assert forall|j: int| 0 <= j < at implies key_lt((#[trigger] init[j]).0, key) by {
                assert(init[j] == s[j]);
            }
            lemma_rank_at(init, key, at);
        }
    }
}

/// Setting a key that comes after every key of sorted entries appends an entry.
pub proof fn lemma_put_last<T>(s: Seq<(Seq<char>, T)>, key: Seq<char>, value: T)
    requires
        forall|j: int| 0 <= j < s.len() ==> key_lt((#[trigger] s[j]).0, key),
    ensures
        put(s, key, value) == s.push((key, value)),
{
    if s.len() > 0 {
        assert(key_lt(s[s.len() - 1].0, key));
    }
    assert(rank(s, key) == s.len());
    assert(s.insert(s.len() as int, (key, value)) =~= s.push((key, value)));
}

/// In sorted entries, every key before the rank of `key` comes before it, and
/// the key at the rank does not.
pub proof fn lemma_rank_bounds<T>(s: Seq<(Seq<char>, T)>, key: Seq<char>)
    requires
        sorted_by_key(s),
    ensures
        0 <= rank(s, key) <= s.len(),
        forall|j: int| 0 <= j < rank(s, key) ==> key_lt((#[trigger] s[j]).0, key),
        rank(s, key) < s.len() ==> !key_lt(s[rank(s, key)].0, key),
    decreases s.len(),
{
    if s.len() > 0 {
        let last = s.len() - 1;
        if key_lt(s.last().0, key) {
            assert forall|j: int| 0 <= j < s.len() implies key_lt((#[trigger] s[j]).0, key) by {
                if j < last {
                    assert(key_lt(s[j].0, s[last].0));
                    lemma_key_lt_is_strict(s[j].0, s[last].0, key);
                }
            }
        } else {
            let init = s.drop_last();
            assert forall|i: int, j: int| 0 <= i < j < init.len() implies key_lt(
                #[trigger] init[i].0,
                #[trigger] init[j].0,
            ) by {
                assert(init[i] == s[i] && init[j] == s[j]);
            }
            lemma_rank_bounds(init, key);
            let at = rank(init, key);
            assert forall|j: int| 0 <= j < at implies key_lt((#[trigger] s[j]).0, key) by {
                assert(init[j] == s[j]);
            }
            if at < init.len() {
                assert(init[at] == s[at]);
            }
        }
    }
}

/// A new entry does not change what is found under another key.
pub proof fn lemma_find_after_insert<T>(
    s: Seq<(Seq<char>, T)>,
    at: int,
    entry: (Seq<char>, T),
    key: Seq<char>,
)
    requires
        0 <= at <= s.len(),
        entry.0 != key,
    ensures
        find(s.insert(at, entry), key) == find(s, key),
    decreases s.len(),
{
    let t = s.insert(at, entry);
    if at == 0 {
        assert(t.drop_first() =~= s);
    } else {
        assert(t[0] == s[0]);
        if s[0].0 != key {
            assert(t.drop_first() =~= s.drop_first().insert(at - 1, entry));
            lemma_find_after_insert(s.drop_first(), at - 1, entry, key);
        }
    }
}

/// An entry that takes the place of another does not change what is found
/// under a key that neither of them has.
pub proof fn lemma_find_after_update<T>(
    s: Seq<(Seq<char>, T)>,
    at: int,
    entry: (Seq<char>, T),
    key: Seq<char>,
)
    requires
        0 <= at < s.len(),
        entry.0 != key,
        s[at].0 != key,
    ensures
        find(s.update(at, entry), key) == find(s, key),
    decreases s.len(),
{
    let t = s.update(at, entry);
    if at == 0 {
        assert(t.drop_first() =~= s.drop_first());
    } else {
        assert(t[0] == s[0]);
        if s[0].0 != key {
            assert(t.drop_first() =~= s.drop_first().update(at - 1, entry));
            lemma_find_after_update(s.drop_first(), at - 1, entry, key);
        }
    }
}

/// After a key is set in sorted entries, its value is found under it, and
/// under every other key what was found before.
pub proof fn lemma_find_after_put<T>(
    s: Seq<(Seq<char>, T)>,
    key: Seq<char>,
    value: T,
    other: Seq<char>,
)
    requires
        sorted_by_key(s),
    ensures
        find(put(s, key, value), key) == Some(value),
        other != key ==> find(put(s, key, value), other) == find(s, other),
{
    lemma_rank_bounds(s, key);
    let at = rank(s, key);
    let t = put(s, key, value);
    assert forall|j: int| 0 <= j < at implies (#[trigger] t[j]).0 != key by {
        assert(t[j] == s[j]);
        lemma_key_lt_is_strict(key, key, key);
    }
    lemma_find_at(t, key, at);
    if other != key {
        if at < s.len() && s[at].0 == key {
            lemma_find_after_update(s, at, (key, value), other);
        } else {
            lemma_find_after_insert(s, at, (key, value), other);
        }
    }
}

/// Setting a key in sorted entries adds an entry exactly where the key was
/// not found.
pub proof fn lemma_len_after_put<T>(s: Seq<(Seq<char>, T)>, key: Seq<char>, value: T)
    requires
        sorted_by_key(s),
    ensures
        find(s, key) is Some ==> put(s, key, value).len() == s.len(),
        find(s, key) is None ==> put(s, key, value).len() == s.len() + 1,
{
    lemma_rank_bounds(s, key);
    let at = rank(s, key);
    if at < s.len() && s[at].0 == key {
        assert forall|j: int| 0 <= j < at implies (#[trigger] s[j]).0 != key by {
            lemma_key_lt_is_strict(key, key, key);
        }
        lemma_find_at(s, key, at);
    } else {
        assert forall|j: int| 0 <= j < s.len() implies (#[trigger] s[j]).0 != key by {
            lemma_key_lt_is_strict(key, key, key);
            if j > at {
                assert(key_lt(s[at].0, s[j].0));
            }
        }
        lemma_find_none(s, key);
    }
}

/// Setting a key in sorted entries leaves them sorted.
pub proof fn lemma_put_sorted<T>(s: Seq<(Seq<char>, T)>, key: Seq<char>, value: T)
    requires
        sorted_by_key(s),
    ensures
        sorted_by_key(put(s, key, value)),
{
    lemma_rank_bounds(s, key);
    let at = rank(s, key);
    let t = put(s, key, value);
    if at < s.len() && s[at].0 == key {
        assert forall|i: int, j: int| 0 <= i < j < t.len() implies key_lt(
            #[trigger] t[i].0,
            #[trigger] t[j].0,
        ) by {
            assert(t[i].0 == s[i].0 && t[j].0 == s[j].0);
        }
    } else {
        if at < s.len() {
            lemma_key_lt_total(key, s[at].0);
        }
        assert forall|i: int, j: int| 0 <= i < j < t.len() implies key_lt(
            #[trigger] t[i].0,
            #[trigger] t[j].0,
        ) by {
            if j < at {
                assert(t[i] == s[i] && t[j] == s[j]);
            } else if j == at {
                assert(t[i] == s[i]);
            } else if i < at {
                assert(t[i] == s[i] && t[j] == s[j - 1]);
            } else if i == at {
                assert(t[j] == s[j - 1]);
                if j - 1 > at {
                    assert(key_lt(s[at].0, s[j - 1].0));
                    lemma_key_lt_is_strict(key, s[at].0, s[j - 1].0);
                }
            } else {
                assert(t[i] == s[i - 1] && t[j] == s[j - 1]);
            }
        }
    }
}

/// A map from text keys to values, held in increasing order of the keys.
#[derive(Debug, Clone, PartialEq)]
pub struct SortedMap<V> {
    entries: Vec<(String, V)>,
}

impl<V: DeepView> DeepView for SortedMap<V> {
    type V = Seq<(Seq<char>, V::V)>;

    closed spec fn deep_view(&self) -> Seq<(Seq<char>, V::V)> {
        self.entries.deep_view()
    }
}

impl<V: DeepView> View for SortedMap<V> {
    type V = Seq<(Seq<char>, <V as DeepView>::V)>;

    open spec fn view(&self) -> Seq<(Seq<char>, <V as DeepView>::V)> {
        self.deep_view()
    }
}

impl<V: DeepView> SortedMap<V> {
    /// The keys are in strictly increasing order, so no key occurs twice.
    pub open spec fn wf(&self) -> bool {
        sorted_by_key(self@)
    }

    /// The empty map.
    pub fn new() -> (m: Self)
        ensures
            m@ == Seq::<(Seq<char>, <V as DeepView>::V)>::empty(),
            m.wf(),
    {
        let m = SortedMap { entries: Vec::new() };
        assert(m@ =~= Seq::<(Seq<char>, <V as DeepView>::V)>::empty());
        m
    }

    /// The number of entries.
    pub fn len(&self) -> (n: usize)
        ensures
            n == self@.len(),
    {
        self.entries.len()
    }

    /// Whether the map has no entry.
    pub fn is_empty(&self) -> (b: bool)
        ensures
            b == (self@.len() == 0),
    {
        self.entries.len() == 0
    }

    /// The entries, in the order of their keys.
    pub fn entries(&self) -> (r: &Vec<(String, V)>)
        ensures
            r@.len() == self@.len(),
            r.deep_view() == self@,
    {
        &self.entries
    }

    /// The value under `key`, if there is one.
    pub fn get(&self, key: &str) -> (r: Option<&V>)
        ensures
            match r {
                Some(v) => find(self@, key@) == Some(v.deep_view()),
                None => find(self@, key@) is None,
            },
    {
        let mut i: usize = 0;
        while i < self.entries.len()
            invariant
                i <= self.entries@.len(),
                forall|j: int| 0 <= j < i ==> (#[trigger] self@[j]).0 != key@,
            decreases self.entries@.len() - i,
        {
            if crate::text::same_text(self.entries[i].0.as_str(), key) {
                proof {
                    lemma_find_at(self@, key@, i as int);
                }
                return Some(&self.entries[i].1);
            }
            i = i + 1;
        }
        proof {
            lemma_find_none(self@, key@);
        }
        None
    }

    /// The place of `key` in the order, and whether an entry has it.
    fn position(&self, key: &str) -> (r: (usize, bool))
        requires
            self.wf(),
        ensures
            r.0 == rank(self@, key@),
            r.0 <= self@.len(),
            forall|j: int| 0 <= j < r.0 ==> key_lt((#[trigger] self@[j]).0, key@),
            r.1 ==> r.0 < self@.len() && self@[r.0 as int].0 == key@,
            !r.1 ==> r.0 == self@.len() || key_lt(key@, self@[r.0 as int].0),
    {
        let mut i: usize = 0;
        while i < self.entries.len()
            invariant
                self.wf(),
                i <= self.entries@.len(),
                forall|j: int| 0 <= j < i ==> key_lt((#[trigger] self@[j]).0, key@),
            decreases self.entries@.len() - i,
        {
            match order_of_keys(self.entries[i].0.as_str(), key) {
                Order::Before => {
                    i = i + 1;
                },
                Order::Same => {
                    proof {
                        lemma_key_lt_is_strict(key@, key@, key@);
                        lemma_rank_at(self@, key@, i as int);
                    }
                    return (i, true);
                },
                Order::After => {
                    proof {
                        lemma_key_lt_is_strict(key@, self@[i as int].0, key@);
                        lemma_rank_at(self@, key@, i as int);
                    }
                    return (i, false);
                },
            }
        }
        proof {
            lemma_rank_at(self@, key@, i as int);
        }
        (i, false)
    }

    /// Sets `key` to `value` and returns the value that it replaces, if any.
    pub fn insert(&mut self, key: String, value: V) -> (r: Option<V>)
        requires
            old(self).wf(),
        ensures
            final(self).wf(),
            final(self)@ == put(old(self)@, key@, value.deep_view()),
            match r {
                Some(v) => find(old(self)@, key@) == Some(v.deep_view()),
                None => find(old(self)@, key@) is None,
            },
    {
        let (at, found) = self.position(key.as_str());
        let ghost before = self@;
        proof {
            lemma_put_sorted(before, key@, value.deep_view());
            lemma_key_lt_is_strict(key@, key@, key@);
        }
        if found {
            proof {
                lemma_find_at(before, key@, at as int);
            }
            let old_entry = self.entries.remove(at);
            self.entries.insert(at, (key, value));
            assert(self@ =~= put(before, key@, value.deep_view()));
            Some(old_entry.1)
        } else {
            proof {
                assert forall|j: int| 0 <= j < before.len() implies (#[trigger] before[j]).0
                    != key@ by {
                    if j > at {
                        assert(key_lt(before[at as int].0, before[j].0));
                        lemma_key_lt_is_strict(key@, before[at as int].0, before[j].0);
                    }
                }
                lemma_find_none(before, key@);
            }
            self.entries.insert(at, (key, value));
            assert(self@ =~= put(before, key@, value.deep_view()));
            None
        }
    }
}

} // verus!
