use vstd::prelude::*;

verus! {

/// One cached item: its key, the stored value and the size it was charged for.
pub type EntryView<T> = (Seq<char>, T, u64);

/// Sum of the sizes of the entries of `s`.
pub open spec fn total_size<T>(s: Seq<EntryView<T>>) -> int
    decreases s.len(),
{
    if s.len() == 0 {
        0
    } else {
        s[0].2 + total_size(s.drop_first())
    }
}

/// `key` is held by some entry of `s`.
pub open spec fn has_key<T>(s: Seq<EntryView<T>>, key: Seq<char>) -> bool {
    exists|i: int| 0 <= i < s.len() && s[i].0 == key
}

/// The position of the entry holding `key` (meaningful when `has_key(s, key)`).
pub open spec fn key_index<T>(s: Seq<EntryView<T>>, key: Seq<char>) -> int {
    choose|i: int| 0 <= i < s.len() && s[i].0 == key
}

/// No two entries share a key.
pub open spec fn keys_distinct<T>(s: Seq<EntryView<T>>) -> bool {
    forall|i: int, j: int| 0 <= i < j < s.len() ==> s[i].0 != s[j].0
}

/// What a cache with size budget `max` may hold: distinct keys, a total within the
/// budget, and nothing at all when the budget is zero (the cache is disabled).
pub open spec fn cache_inv<T>(s: Seq<EntryView<T>>, max: u64) -> bool {
    &&& keys_distinct(s)
    &&& total_size(s) <= max
    &&& (max == 0 ==> s.len() == 0)
}

/// `s` without the entry for `key`, if there is one.
pub open spec fn without_key<T>(s: Seq<EntryView<T>>, key: Seq<char>) -> Seq<EntryView<T>> {
    if has_key(s, key) {
        s.remove(key_index(s, key))
    } else {
        s
    }
}

/// How many of the oldest entries of `s` must go for the rest to fit in `max`;
/// the newest entry always stays.
pub open spec fn evict_count<T>(s: Seq<EntryView<T>>, max: u64) -> nat
    decreases s.len(),
{
    if s.len() <= 1 || total_size(s) <= max {
        0
    } else {
        1 + evict_count(s.drop_first(), max)
    }
}

/// The entries before eviction: the old ones without `key`, then the new one,
/// which is the most recently used.
pub open spec fn insert_base<T>(s: Seq<EntryView<T>>, key: Seq<char>, size: u64, value: T) -> Seq<
    EntryView<T>,
> {
    without_key(s, key).push((key, value, size))
}

/// The entries, oldest first, after inserting `key` into a cache with budget `max`.
pub open spec fn after_insert<T>(
    s: Seq<EntryView<T>>,
    max: u64,
    key: Seq<char>,
    size: u64,
    value: T,
) -> Seq<EntryView<T>> {
    if max == 0 || size > max {
        s
    } else {
        let base = insert_base(s, key, size, value);
        base.skip(evict_count(base, max) as int)
    }
}

/// Outcome of an insertion into a bounded cache.
pub enum CacheInsertResult {
    /// The cache has a zero budget; nothing was stored.
    Disabled,
    /// The value alone is larger than the budget; nothing was stored.
    Oversized { max_size_bytes: u64 },
    /// The value was stored, after evicting `evictions` older entries.
    Stored {
        current_size_bytes: u64,
        max_size_bytes: u64,
        entry_count: usize,
        replaced_existing: bool,
        evictions: u64,
    },
}

/// The result that inserting `key` reports.
pub open spec fn insert_result<T>(
    s: Seq<EntryView<T>>,
    max: u64,
    key: Seq<char>,
    size: u64,
    value: T,
) -> CacheInsertResult {
    if max == 0 {
        CacheInsertResult::Disabled
    } else if size > max {
        CacheInsertResult::Oversized { max_size_bytes: max }
    } else {
        let base = insert_base(s, key, size, value);
        let k = evict_count(base, max);
        CacheInsertResult::Stored {
            current_size_bytes: total_size(base.skip(k as int)) as u64,
            max_size_bytes: max,
            entry_count: (base.len() - k) as usize,
            replaced_existing: has_key(s, key),
            evictions: k as u64,
        }
    }
}

/// The entries after a lookup of `key`: a hit makes the entry the most recently used.
pub open spec fn after_touch<T>(s: Seq<EntryView<T>>, key: Seq<char>) -> Seq<EntryView<T>> {
    if has_key(s, key) {
        let i = key_index(s, key);
        s.remove(i).push(s[i])
    } else {
        s
    }
}

// ---------------------------------------------------------------------------
// Lemmas on the model
pub proof fn lemma_total_nonneg<T>(s: Seq<EntryView<T>>)
    ensures
        total_size(s) >= 0,
    decreases s.len(),
{
    if s.len() > 0 {
        lemma_total_nonneg(s.drop_first());
    }
}

pub proof fn lemma_total_push<T>(s: Seq<EntryView<T>>, e: EntryView<T>)
    ensures
        total_size(s.push(e)) == total_size(s) + e.2,
    decreases s.len(),
{
    if s.len() == 0 {
        assert(s.push(e).drop_first() =~= Seq::<EntryView<T>>::empty());
        assert(s.push(e)[0] == e);
        assert(total_size(Seq::<EntryView<T>>::empty()) == 0);
    } else {
        assert(s.push(e).drop_first() =~= s.drop_first().push(e));
        assert(s.push(e)[0] == s[0]);
        lemma_total_push(s.drop_first(), e);
    }
}

pub proof fn lemma_total_remove<T>(s: Seq<EntryView<T>>, i: int)
    requires
        0 <= i < s.len(),
    ensures
        total_size(s.remove(i)) == total_size(s) - s[i].2,
    decreases s.len(),
{
    if i == 0 {
        assert(s.remove(0) =~= s.drop_first());
    } else {
        assert(s.remove(i).drop_first() =~= s.drop_first().remove(i - 1));
        lemma_total_remove(s.drop_first(), i - 1);
    }
}

pub proof fn lemma_evict_count_bound<T>(s: Seq<EntryView<T>>, max: u64)
    requires
        s.len() >= 1,
    ensures
        evict_count(s, max) <= s.len() - 1,
    decreases s.len(),
{
    if !(s.len() <= 1 || total_size(s) <= max) {
        lemma_evict_count_bound(s.drop_first(), max);
    }
}

/// After evicting, either everything fits or only the newest entry is left.
pub proof fn lemma_evict_fits<T>(s: Seq<EntryView<T>>, max: u64)
    requires
        s.len() >= 1,
    ensures
        total_size(s.skip(evict_count(s, max) as int)) <= max || evict_count(s, max) == s.len()
            - 1,
    decreases s.len(),
{
    if s.len() <= 1 || total_size(s) <= max {
        assert(s.skip(0) =~= s);
    } else {
        let t = s.drop_first();
        lemma_evict_fits(t, max);
        lemma_evict_count_bound(t, max);
        let c = evict_count(t, max);
        assert(evict_count(s, max) == 1 + c);
        assert(s.skip(1 + c as int) =~= t.skip(c as int));
    }
}

pub proof fn lemma_key_index<T>(s: Seq<EntryView<T>>, key: Seq<char>, i: int)
    requires
        keys_distinct(s),
        0 <= i < s.len(),
        s[i].0 == key,
    ensures
        has_key(s, key),
        key_index(s, key) == i,
{
    assert(has_key(s, key));
    let j = key_index(s, key);
    if j != i {
        if j < i {
            assert(s[j].0 != s[i].0);
        } else {
            assert(s[i].0 != s[j].0);
        }
    }
}

pub proof fn lemma_distinct_remove<T>(s: Seq<EntryView<T>>, i: int)
    requires
        keys_distinct(s),
        0 <= i < s.len(),
    ensures
        keys_distinct(s.remove(i)),
        !has_key(s.remove(i), s[i].0),
        forall|k: Seq<char>| k != s[i].0 ==> (has_key(s.remove(i), k) <==> has_key(s, k)),
{
    let r = s.remove(i);
    assert forall|a: int, b: int| 0 <= a < b < r.len() implies r[a].0 != r[b].0 by {
        let a2 = if a < i { a } else { a + 1 };
        let b2 = if b < i { b } else { b + 1 };
        assert(r[a] == s[a2]);
        assert(r[b] == s[b2]);
    }
    if has_key(r, s[i].0) {
        let j = choose|j: int| 0 <= j < r.len() && r[j].0 == s[i].0;
        let j2 = if j < i { j } else { j + 1 };
        assert(r[j] == s[j2]);
    }
    assert forall|k: Seq<char>| k != s[i].0 implies (has_key(r, k) <==> has_key(s, k)) by {
        if has_key(s, k) {
            let j = choose|j: int| 0 <= j < s.len() && s[j].0 == k;
            let j2 = if j < i { j } else { j - 1 };
            assert(r[j2] == s[j]);
        }
        if has_key(r, k) {
            let j = choose|j: int| 0 <= j < r.len() && r[j].0 == k;
            let j2 = if j < i { j } else { j + 1 };
            assert(r[j] == s[j2]);
        }
    }
}

pub proof fn lemma_without_key<T>(s: Seq<EntryView<T>>, key: Seq<char>)
    requires
        keys_distinct(s),
    ensures
        keys_distinct(without_key(s, key)),
        !has_key(without_key(s, key), key),
        forall|k: Seq<char>| k != key ==> (has_key(without_key(s, key), k) <==> has_key(s, k)),
        has_key(s, key) ==> total_size(without_key(s, key)) == total_size(s) - s[key_index(
            s,
            key,
        )].2,
        !has_key(s, key) ==> without_key(s, key) == s,
{
    if has_key(s, key) {
        let i = key_index(s, key);
        lemma_distinct_remove(s, i);
        lemma_total_remove(s, i);
    }
}

pub proof fn lemma_distinct_push<T>(s: Seq<EntryView<T>>, e: EntryView<T>)
    requires
        keys_distinct(s),
        !has_key(s, e.0),
    ensures
        keys_distinct(s.push(e)),
{
    let p = s.push(e);
    assert forall|a: int, b: int| 0 <= a < b < p.len() implies p[a].0 != p[b].0 by {
        if b == s.len() {
            assert(p[a] == s[a]);
        } else {
            assert(p[a] == s[a]);
            assert(p[b] == s[b]);
        }
    }
}

pub proof fn lemma_distinct_skip<T>(s: Seq<EntryView<T>>, k: int)
    requires
        keys_distinct(s),
        0 <= k <= s.len(),
    ensures
        keys_distinct(s.skip(k)),
{
    let t = s.skip(k);
    assert forall|a: int, b: int| 0 <= a < b < t.len() implies t[a].0 != t[b].0 by {
        assert(t[a] == s[a + k]);
        assert(t[b] == s[b + k]);
    }
}

/// The base of an insertion holds distinct keys and ends with the new entry.
pub proof fn lemma_insert_base<T>(s: Seq<EntryView<T>>, key: Seq<char>, size: u64, value: T)
    requires
        keys_distinct(s),
    ensures
        keys_distinct(insert_base(s, key, size, value)),
        insert_base(s, key, size, value).last() == (key, value, size),
        insert_base(s, key, size, value).len() >= 1,
{
    lemma_without_key(s, key);
    lemma_distinct_push(without_key(s, key), (key, value, size));
}

/// What an insertion leaves satisfies the cache invariant again.
pub proof fn lemma_after_insert_inv<T>(
    s: Seq<EntryView<T>>,
    max: u64,
    key: Seq<char>,
    size: u64,
    value: T,
)
    requires
        cache_inv(s, max),
    ensures
        cache_inv(after_insert(s, max, key, size, value), max),
{
    if !(max == 0 || size > max) {
        let base = insert_base(s, key, size, value);
        lemma_insert_base(s, key, size, value);
        let k = evict_count(base, max);
        lemma_evict_count_bound(base, max);
        lemma_evict_fits(base, max);
        lemma_distinct_skip(base, k as int);
        let t = base.skip(k as int);
        if !(total_size(t) <= max) {
            assert(t.len() == 1);
            assert(t[0] == base.last());
            assert(t.drop_first() =~= Seq::<EntryView<T>>::empty());
            assert(total_size(t.drop_first()) == 0);
        }
        assert(after_insert(s, max, key, size, value) == t);
    }
}

// ---------------------------------------------------------------------------
// Laws of the cache
/// Every insertion, stored or refused, keeps the cache within its budget, with
/// distinct keys, and empty when it is disabled.
pub proof fn law_insert_keeps_invariant<T>(
    s: Seq<EntryView<T>>,
    max: u64,
    key: Seq<char>,
    size: u64,
    value: T,
)
    requires
        cache_inv(s, max),
    ensures
        cache_inv(after_insert(s, max, key, size, value), max),
{
    lemma_after_insert_inv(s, max, key, size, value);
}

/// A write that the budget admits is readable right after: the key is held, with
/// the value and size just written, as the most recently used entry (a rewrite of
/// a key replaces its old value).
pub proof fn law_read_after_write<T>(
    s: Seq<EntryView<T>>,
    max: u64,
    key: Seq<char>,
    size: u64,
    value: T,
)
    requires
        cache_inv(s, max),
        0 < max,
        size <= max,
    ensures
        has_key(after_insert(s, max, key, size, value), key),
        after_insert(s, max, key, size, value)[key_index(
            after_insert(s, max, key, size, value),
            key,
        )] == (key, value, size),
        after_insert(s, max, key, size, value).last() == (key, value, size),
{
    let base = insert_base(s, key, size, value);
    lemma_insert_base(s, key, size, value);
    let k = evict_count(base, max);
    lemma_evict_count_bound(base, max);
    lemma_distinct_skip(base, k as int);
    let t = base.skip(k as int);
    assert(t.last() == base.last());
    lemma_key_index(t, key, t.len() - 1);
}

/// A write into a disabled cache, or of a value larger than the whole budget,
/// changes nothing.
pub proof fn law_refused_write_changes_nothing<T>(
    s: Seq<EntryView<T>>,
    max: u64,
    key: Seq<char>,
    size: u64,
    value: T,
)
    requires
        max == 0 || size > max,
    ensures
        after_insert(s, max, key, size, value) == s,
        !(insert_result(s, max, key, size, value) is Stored),
{
}

/// A disabled cache never holds anything, so every lookup misses.
pub proof fn law_disabled_cache_always_misses<T>(s: Seq<EntryView<T>>, key: Seq<char>)
    requires
        cache_inv(s, 0),
    ensures
        !has_key(s, key),
{
}

/// Eviction removes the least recently used entries first, and no more of them
/// than needed: the survivors are the newest entries, and keeping one more of the
/// evicted ones would exceed the budget.
pub proof fn law_evicts_least_recently_used_first<T>(
    s: Seq<EntryView<T>>,
    max: u64,
    key: Seq<char>,
    size: u64,
    value: T,
)
    requires
        cache_inv(s, max),
        0 < max,
        size <= max,
    ensures
        ({
            let base = insert_base(s, key, size, value);
            let k = evict_count(base, max);
            &&& k < base.len()
            &&& after_insert(s, max, key, size, value) == base.subrange(k as int, base.len() as int)
            &&& (k > 0 ==> total_size(base.subrange(k - 1, base.len() as int)) > max)
        }),
{
    let base = insert_base(s, key, size, value);
    lemma_insert_base(s, key, size, value);
    lemma_evict_count_bound(base, max);
    lemma_evict_prefix_needed(base, max);
    assert(base.skip(evict_count(base, max) as int) =~= base.subrange(
        evict_count(base, max) as int,
        base.len() as int,
    ));
}

/// If `evict_count(s, max) = k > 0`, keeping entry `k - 1` would not fit.
pub proof fn lemma_evict_prefix_needed<T>(s: Seq<EntryView<T>>, max: u64)
    requires
        s.len() >= 1,
    ensures
        evict_count(s, max) > 0 ==> total_size(
            s.subrange(evict_count(s, max) - 1, s.len() as int),
        ) > max,
    decreases s.len(),
{
    if !(s.len() <= 1 || total_size(s) <= max) {
        let t = s.drop_first();
        lemma_evict_prefix_needed(t, max);
        lemma_evict_count_bound(t, max);
        let ci = evict_count(t, max) as int;
        if ci == 0 {
            assert(s.subrange(0, s.len() as int) =~= s);
        } else {
            assert(s.subrange(ci, s.len() as int) =~= t.subrange(ci - 1, t.len() as int));
        }
    }
}

/// An insertion adds no key but the written one.
pub proof fn law_insert_adds_only_the_written_key<T>(
    s: Seq<EntryView<T>>,
    max: u64,
    key: Seq<char>,
    size: u64,
    value: T,
    other: Seq<char>,
)
    requires
        cache_inv(s, max),
        other != key,
        has_key(after_insert(s, max, key, size, value), other),
    ensures
        has_key(s, other),
{
    if !(max == 0 || size > max) {
        let base = insert_base(s, key, size, value);
        lemma_without_key(s, key);
        let k = evict_count(base, max);
        lemma_insert_base(s, key, size, value);
        lemma_evict_count_bound(base, max);
        let t = base.skip(k as int);
        let j = choose|j: int| 0 <= j < t.len() && t[j].0 == other;
        assert(t[j] == base[j + k]);
        let w = without_key(s, key);
        assert(j + k < w.len());
        assert(base[j + k] == w[j + k]);
        assert(has_key(w, other));
    }
}

/// A hit makes the entry the most recently used, so it is evicted last; the held
/// keys, values and total size stay the same.
pub proof fn law_hit_becomes_most_recently_used<T>(s: Seq<EntryView<T>>, max: u64, key: Seq<char>)
    requires
        cache_inv(s, max),
        has_key(s, key),
    ensures
        cache_inv(after_touch(s, key), max),
        after_touch(s, key).last() == s[key_index(s, key)],
        after_touch(s, key).len() == s.len(),
        total_size(after_touch(s, key)) == total_size(s),
        forall|k: Seq<char>| has_key(after_touch(s, key), k) <==> has_key(s, k),
{
    let i = key_index(s, key);
    lemma_distinct_remove(s, i);
    lemma_distinct_push(s.remove(i), s[i]);
    lemma_total_remove(s, i);
    lemma_total_push(s.remove(i), s[i]);
    let t = after_touch(s, key);
    assert forall|k: Seq<char>| has_key(t, k) <==> has_key(s, k) by {
        if k == key {
            assert(t[t.len() - 1].0 == key);
        } else {
            if has_key(t, k) {
                let j = choose|j: int| 0 <= j < t.len() && t[j].0 == k;
                assert(j < s.remove(i).len());
                assert(t[j] == s.remove(i)[j]);
                assert(has_key(s.remove(i), k));
            }
            if has_key(s, k) {
                assert(has_key(s.remove(i), k));
                let j = choose|j: int| 0 <= j < s.remove(i).len() && s.remove(i)[j].0 == k;
                assert(t[j] == s.remove(i)[j]);
            }
        }
    }
}

// ---------------------------------------------------------------------------
// The executable cache
/// A stored entry.
pub struct CacheEntry<T> {
    pub key: String,
    pub value: T,
    pub size_bytes: u64,
}

pub open spec fn entry_view<T>(e: CacheEntry<T>) -> EntryView<T> {
    (e.key@, e.value, e.size_bytes)
}

/// A size-bounded key-value cache that evicts the least recently used entries.
/// Entries are kept oldest first: a hit or a write moves an entry to the end.
pub struct BoundedCache<T> {
    entries: Vec<CacheEntry<T>>,
    current_size_bytes: u64,
    max_size_bytes: u64,
}

impl<T> View for BoundedCache<T> {
    type V = Seq<EntryView<T>>;

    closed spec fn view(&self) -> Seq<EntryView<T>> {
        self.entries@.map_values(|e: CacheEntry<T>| entry_view(e))
    }
}

impl<T> BoundedCache<T> {
    /// The size budget the cache was made with.
    pub closed spec fn max_size(&self) -> u64 {
        self.max_size_bytes
    }

    /// The cache's internal invariant.
    pub closed spec fn wf(&self) -> bool {
        &&& cache_inv(self@, self.max_size_bytes)
        &&& self.current_size_bytes == total_size(self@)
    }

    /// A well-formed cache satisfies the cache invariant.
    pub proof fn lemma_wf_inv(&self)
        requires
            self.wf(),
        ensures
            cache_inv(self@, self.max_size()),
    {
    }

    /// An empty cache with the given size budget (zero disables it).
    pub fn new(max_size_bytes: u64) -> (c: Self)
        ensures
            c.wf(),
            c@ == Seq::<EntryView<T>>::empty(),
            c.max_size() == max_size_bytes,
    {
        let c = BoundedCache { entries: Vec::new(), current_size_bytes: 0, max_size_bytes };
        assert(c@ =~= Seq::<EntryView<T>>::empty());
        c
    }

    /// The sum of the sizes of the held entries.
    pub fn current_size_bytes(&self) -> (n: u64)
        requires
            self.wf(),
        ensures
            n == total_size(self@),
    {
        self.current_size_bytes
    }

    /// The size budget.
    pub fn max_size_bytes(&self) -> (n: u64)
        ensures
            n == self.max_size(),
    {
        self.max_size_bytes
    }

    /// The number of held entries.
    pub fn len(&self) -> (n: usize)
        ensures
            n == self@.len(),
    {
        self.entries.len()
    }

    fn find(&self, key: &String) -> (r: Option<usize>)
        requires
            self.wf(),
        ensures
            match r {
                Some(i) => i < self@.len() && self@[i as int].0 == key@ && has_key(self@, key@)
                    && key_index(self@, key@) == i,
                None => !has_key(self@, key@),
            },
    {
        let n = self.entries.len();
        for i in 0..n
            invariant
                n == self.entries@.len(),
                self.wf(),
                forall|j: int| 0 <= j < i ==> self@[j].0 != key@,
        {
            assert(self@[i as int] == entry_view(self.entries@[i as int]));
            if self.entries[i].key == *key {
                proof {
                    lemma_key_index(self@, key@, i as int);
                }
                return Some(i);
            }
        }
        None
    }

    /// Whether an entry for `key` is held.
    pub fn contains_key(&self, key: &str) -> (b: bool)
        requires
            self.wf(),
        ensures
            b == has_key(self@, key@),
    {
        let k = key.to_owned();
        self.find(&k).is_some()
    }

    /// Records a hit on `key`: the entry, if held, becomes the most recently used.
    /// Returns whether it was held.
    pub fn touch(&mut self, key: &str) -> (found: bool)
        requires
            old(self).wf(),
        ensures
            final(self).wf(),
            found == has_key(old(self)@, key@),
            final(self)@ == after_touch(old(self)@, key@),
            final(self).max_size() == old(self).max_size(),
    {
        let k = key.to_owned();
        match self.find(&k) {
            None => false,
            Some(i) => {
                let ghost s = self@;
                let e = self.entries.remove(i);
                assert(self@ =~= s.remove(i as int));
                self.entries.push(e);
                assert(self@ =~= s.remove(i as int).push(s[i as int]));
                proof {
                    lemma_distinct_remove(s, i as int);
                    lemma_distinct_push(s.remove(i as int), s[i as int]);
                    lemma_total_remove(s, i as int);
                    lemma_total_push(s.remove(i as int), s[i as int]);
                }
                true
            },
        }
    }

    /// The value held for `key`, without counting it as a use.
    pub fn peek(&self, key: &str) -> (r: Option<&T>)
        requires
            self.wf(),
        ensures
            match r {
                Some(v) => has_key(self@, key@) && *v == self@[key_index(self@, key@)].1,
                None => !has_key(self@, key@),
            },
    {
        let k = key.to_owned();
        match self.find(&k) {
            None => None,
            Some(i) => {
                assert(self@[i as int] == entry_view(self.entries@[i as int]));
                Some(&self.entries[i].value)
            },
        }
    }

    /// Stores `value` under `key`, charged `size_bytes`, and evicts the least
    /// recently used other entries until the total fits the budget.
    pub fn insert(&mut self, key: String, size_bytes: u64, value: T) -> (r: CacheInsertResult)
        requires
            old(self).wf(),
        ensures
            final(self).wf(),
            final(self).max_size() == old(self).max_size(),
            final(self)@ == after_insert(old(self)@, old(self).max_size(), key@, size_bytes, value),
            r == insert_result(old(self)@, old(self).max_size(), key@, size_bytes, value),
    {
        let max = self.max_size_bytes;
        if max == 0 {
            return CacheInsertResult::Disabled;
        }
        if size_bytes > max {
            return CacheInsertResult::Oversized { max_size_bytes: max };
        }
        let ghost s = self@;
        let ghost kv = key@;
        proof {
            lemma_without_key(s, kv);
            lemma_insert_base(s, kv, size_bytes, value);
            lemma_total_nonneg(s);
        }
        let mut replaced_existing = false;
        match self.find(&key) {
            None => {},
            Some(i) => {
                let previous = self.entries.remove(i);
                assert(self@ =~= s.remove(i as int));
                proof {
                    lemma_total_nonneg(self@);
                }
                self.current_size_bytes = self.current_size_bytes - previous.size_bytes;
                replaced_existing = true;
            },
        }
        assert(self@ == without_key(s, kv));
        self.entries.push(CacheEntry { key, value, size_bytes });
        let ghost base = insert_base(s, kv, size_bytes, value);
        assert(self@ =~= base);
        proof {
            lemma_total_push(without_key(s, kv), (kv, value, size_bytes));
            lemma_evict_count_bound(base, max);
        }
        let base_len = self.entries.len();
        assert(base.len() == base_len);
        let mut total: u128 = self.current_size_bytes as u128 + size_bytes as u128;
        let mut evictions: u64 = 0;
        assert(base.skip(0) =~= base);
        while total > max as u128 && self.entries.len() > 1
            invariant
                self.max_size_bytes == max,
                max > 0,
                self@ == base.skip(evictions as int),
                total == total_size(self@),
                evictions + self@.len() == base.len(),
                base.len() <= usize::MAX,
                evict_count(base, max) == evictions + evict_count(self@, max),
            decreases self@.len(),
        {
            let ghost before = self@;
            proof {
                lemma_total_nonneg(before.drop_first());
            }
            let removed = self.entries.remove(0);
            assert(self@ =~= before.drop_first());
            assert(before.drop_first() =~= base.skip(evictions as int + 1));
            total = total - removed.size_bytes as u128;
            evictions = evictions + 1;
        }
        proof {
            lemma_evict_fits(base, max);
            lemma_distinct_skip(base, evictions as int);
        }
        assert(evict_count(self@, max) == 0);
        assert(total <= max) by {
            let t = base.skip(evictions as int);
            if !(total_size(t) <= max) {
                assert(t.len() == 1);
                assert(t[0] == base.last());
                assert(t.drop_first() =~= Seq::<EntryView<T>>::empty());
                assert(total_size(t.drop_first()) == 0);
            }
        }
        self.current_size_bytes = total as u64;
        let entry_count = self.entries.len();
        CacheInsertResult::Stored {
            current_size_bytes: self.current_size_bytes,
            max_size_bytes: max,
            entry_count,
            replaced_existing,
            evictions,
        }
    }
}

} // verus!
