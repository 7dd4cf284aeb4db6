//! In-memory cache with per-entry TTL and LRU eviction.
//!
//! The entries live in an [`lru::LruCache`]; the library's model of it is
//! the sequence of `(key, value, inserted_at)` triples from the most to
//! the least recently used. Entries are evicted lazily when they are read
//! after their TTL has elapsed, and the least recently used entry is
//! dropped when a new key arrives at capacity.

use vstd::prelude::*;

use lru::LruCache;
use std::collections::hash_map::RandomState;
use std::time::Instant;
use crate::text::opt_view;

verus! {

// ---------------------------------------------------------------------------
// The lru crate
// ---------------------------------------------------------------------------

/// The `lru` crate's cache (`lru::LruCache`), opaque here; its contents
/// are named by [`lru_entries`].
#[verifier::external_type_specification]
#[verifier::external_body]
#[verifier::reject_recursive_types(K)]
#[verifier::reject_recursive_types(V)]
#[verifier::reject_recursive_types(S)]
pub struct ExLruCache<K, V, S>(LruCache<K, V, S>);

/// A point in time of the monotonic clock (`std::time::Instant`), opaque
/// here.
#[verifier::external_type_specification]
#[verifier::external_body]
pub struct ExInstant(Instant);

/// The LRU store behind a [`MemoryCache`]: keys, values and their
/// insertion times, hashed with std's `RandomState`.
pub type Store = LruCache<String, (String, u64), RandomState>;

/// The entries of an LRU store, most recently used first:
/// `(key, value, inserted_at)`.
pub uninterp spec fn lru_entries(c: Store) -> Seq<(Seq<char>, Seq<char>, u64)>;

/// The capacity an LRU store was created with.
pub uninterp spec fn lru_capacity(c: Store) -> nat;

/// One model entry: key, value, insertion time in nanoseconds.
pub type Entry = (Seq<char>, Seq<char>, u64);

/// No key occurs twice.
pub open spec fn keys_distinct(e: Seq<Entry>) -> bool {
    forall|i: int, j: int| 0 <= i < j < e.len() ==> #[trigger] e[i].0 != #[trigger] e[j].0
}

/// `k` is a key of some entry.
pub open spec fn has_key(e: Seq<Entry>, k: Seq<char>) -> bool {
    exists|i: int| 0 <= i < e.len() && #[trigger] e[i].0 == k
}

/// Position of the entry with key `k`, or -1.
pub open spec fn key_index(e: Seq<Entry>, k: Seq<char>) -> int {
    if has_key(e, k) {
        choose|i: int| 0 <= i < e.len() && #[trigger] e[i].0 == k
    } else {
        -1
    }
}

/// `LruCache::put`: an existing key is updated and becomes the most
/// recently used; a new key is put in front, after dropping the least
/// recently used entry when the store is full.
pub open spec fn lru_put(e: Seq<Entry>, cap: nat, x: Entry) -> Seq<Entry> {
    let i = key_index(e, x.0);
    if i >= 0 {
        seq![x] + e.remove(i)
    } else if e.len() >= cap {
        seq![x] + e.drop_last()
    } else {
        seq![x] + e
    }
}

/// The entry at `i` becomes the most recently used.
pub open spec fn lru_touch(e: Seq<Entry>, i: int) -> Seq<Entry> {
    seq![e[i]] + e.remove(i)
}

/// Creates an empty LRU store (`LruCache::new`).
/// Trusted: it holds no entries and has capacity `cap`.
#[verifier::external_body]
fn lru_new(cap: usize) -> (c: Store)
    requires
        cap > 0,
    ensures
        lru_entries(c) == Seq::<Entry>::empty(),
        lru_capacity(c) == cap,
{
    LruCache::with_hasher(std::num::NonZeroUsize::new(cap).unwrap(), RandomState::new())
}

/// Inserts or updates an entry (`LruCache::put`).
/// Trusted: the entries change as [`lru_put`] says; the capacity stays.
#[verifier::external_body]
fn lru_put_entry(c: &mut Store, key: String, value: String, at: u64)
    requires
        keys_distinct(lru_entries(*old(c))),
    ensures
        lru_entries(*final(c)) == lru_put(lru_entries(*old(c)), lru_capacity(*old(c)), (key@, value@, at)),
        lru_capacity(*final(c)) == lru_capacity(*old(c)),
{
    c.put(key, (value, at));
}

/// Looks a key up and marks it most recently used (`LruCache::get`,
/// value cloned).
/// Trusted: on a hit the entry moves to the front and is returned;
/// on a miss nothing changes.
#[verifier::external_body]
fn lru_get_entry(c: &mut Store, key: &String) -> (r: Option<(String, u64)>)
    requires
        keys_distinct(lru_entries(*old(c))),
    ensures
        lru_capacity(*final(c)) == lru_capacity(*old(c)),
        ({
            let e = lru_entries(*old(c));
            let i = key_index(e, key@);
            if i >= 0 {
                &&& lru_entries(*final(c)) == lru_touch(e, i)
                &&& r matches Some(v) && v.0@ == e[i].1 && v.1 == e[i].2
            } else {
                &&& lru_entries(*final(c)) == e
                &&& r is None
            }
        }),
{
    c.get(key).cloned()
}

/// Removes a key (`LruCache::pop`).
/// Trusted: on a hit the entry is removed and its value returned; on a
/// miss nothing changes.
#[verifier::external_body]
fn lru_pop_entry(c: &mut Store, key: &String) -> (r: Option<(String, u64)>)
    requires
        keys_distinct(lru_entries(*old(c))),
    ensures
        lru_capacity(*final(c)) == lru_capacity(*old(c)),
        ({
            let e = lru_entries(*old(c));
            let i = key_index(e, key@);
            if i >= 0 {
                &&& lru_entries(*final(c)) == e.remove(i)
                &&& r matches Some(v) && v.0@ == e[i].1 && v.1 == e[i].2
            } else {
                &&& lru_entries(*final(c)) == e
                &&& r is None
            }
        }),
{
    c.pop(key)
}

/// Number of entries (`LruCache::len`).
#[verifier::external_body]
fn lru_len(c: &Store) -> (n: usize)
    ensures
        n == lru_entries(*c).len(),
{
    c.len()
}

/// Keys and insertion times of all entries, most recently used first
/// (`LruCache::iter`, each item mapped to a key clone and its timestamp).
#[verifier::external_body]
fn lru_stamps(c: &Store) -> (v: Vec<(String, u64)>)
    ensures
        v@.len() == lru_entries(*c).len(),
        forall|i: int| 0 <= i < v@.len() ==> (#[trigger] v@[i]).0@ == lru_entries(*c)[i].0
            && v@[i].1 == lru_entries(*c)[i].2,
{
    c.iter().map(|(k, e)| (k.clone(), e.1)).collect()
}

/// The current instant (`Instant::now`). Depends on the clock: nothing is
/// stated of it.
#[verifier::external_body]
fn instant_now() -> Instant {
    Instant::now()
}

/// Nanoseconds elapsed since `origin` (`Instant::elapsed`, as whole
/// nanoseconds). Depends on the clock: nothing is stated of it.
#[verifier::external_body]
fn nanos_since(origin: &Instant) -> u64 {
    origin.elapsed().as_nanos() as u64
}

// ---------------------------------------------------------------------------
// Cache model
// ---------------------------------------------------------------------------

/// An entry inserted at `at` has expired at `now` (elapsed time, never
/// negative, has reached the TTL).
pub open spec fn expired(at: u64, now: u64, ttl: u64) -> bool {
    (if now >= at { now - at } else { 0 }) >= ttl
}

/// What a lookup at `now` does: a fresh hit is returned and becomes most
/// recently used; an expired hit is dropped and reads as absent.
pub open spec fn cache_get(e: Seq<Entry>, k: Seq<char>, now: u64, ttl: u64) -> (Seq<Entry>, Option<Seq<char>>) {
    let i = key_index(e, k);
    if i < 0 {
        (e, None)
    } else if expired(e[i].2, now, ttl) {
        (e.remove(i), None)
    } else {
        (lru_touch(e, i), Some(e[i].1))
    }
}

/// What a removal does.
pub open spec fn cache_remove(e: Seq<Entry>, k: Seq<char>) -> (Seq<Entry>, Option<Seq<char>>) {
    let i = key_index(e, k);
    if i < 0 {
        (e, None)
    } else {
        (e.remove(i), Some(e[i].1))
    }
}

/// The entries still fresh at `now`, in order.
pub open spec fn fresh_entries(e: Seq<Entry>, now: u64, ttl: u64) -> Seq<Entry>
    decreases e.len(),
{
    if e.len() == 0 {
        e
    } else if expired(e.last().2, now, ttl) {
        fresh_entries(e.drop_last(), now, ttl)
    } else {
        fresh_entries(e.drop_last(), now, ttl).push(e.last())
    }
}

/// A well-formed store: distinct keys, at most `cap` entries, `cap > 0`.
pub open spec fn store_wf(e: Seq<Entry>, cap: nat) -> bool {
    &&& keys_distinct(e)
    &&& e.len() <= cap
    &&& cap > 0
}

/// The later of two times.
pub open spec fn later(a: u64, b: u64) -> u64 {
    if a >= b { a } else { b }
}

/// Every entry was stamped at `t` or earlier.
pub open spec fn stamped_by(e: Seq<Entry>, t: u64) -> bool {
    forall|i: int| 0 <= i < e.len() ==> #[trigger] e[i].2 <= t
}

// ---------------------------------------------------------------------------
// Lemmas on the model
// ---------------------------------------------------------------------------

proof fn lemma_remove_stamped(e: Seq<Entry>, i: int, t: u64)
    requires
        0 <= i < e.len(),
        stamped_by(e, t),
    ensures
        stamped_by(e.remove(i), t),
{
    let r = e.remove(i);
    assert forall|j: int| 0 <= j < r.len() implies #[trigger] r[j].2 <= t by {
        if j < i {
            assert(r[j] == e[j]);
        } else {
            assert(r[j] == e[j + 1]);
        }
    }
}

/// Every operation on the model keeps the stamps at or before a time
/// that is at least the new entry's stamp.
proof fn lemma_ops_stamped(e: Seq<Entry>, cap: nat, x: Entry, k: Seq<char>, now: u64, ttl: u64, t: u64)
    requires
        store_wf(e, cap),
        stamped_by(e, t),
    ensures
        x.2 <= t ==> stamped_by(lru_put(e, cap, x), t),
        stamped_by(cache_get(e, k, now, ttl).0, t),
        stamped_by(cache_remove(e, k).0, t),
        stamped_by(fresh_entries(e, now, ttl), t),
{
    lemma_key_index(e, x.0);
    let i = key_index(e, x.0);
    if i >= 0 {
        lemma_remove_stamped(e, i, t);
        let r = seq![x] + e.remove(i);
        assert(x.2 <= t ==> forall|j: int| 0 <= j < r.len() ==> #[trigger] r[j].2 <= t) by {
            if x.2 <= t {
                assert forall|j: int| 0 <= j < r.len() implies #[trigger] r[j].2 <= t by {
                    if j > 0 {
                        assert(r[j] == e.remove(i)[j - 1]);
                    }
                }
            }
        }
    } else {
        let d = if e.len() >= cap { e.drop_last() } else { e };
        let r = seq![x] + d;
        assert(x.2 <= t ==> forall|j: int| 0 <= j < r.len() ==> #[trigger] r[j].2 <= t) by {
            if x.2 <= t {
                assert forall|j: int| 0 <= j < r.len() implies #[trigger] r[j].2 <= t by {
                    if j > 0 {
                        assert(r[j] == d[j - 1]);
                        assert(d[j - 1] == e[j - 1]);
                    }
                }
            }
        }
    }
    lemma_key_index(e, k);
    let g = key_index(e, k);
    if g >= 0 {
        lemma_remove_stamped(e, g, t);
        let r = seq![e[g]] + e.remove(g);
        assert forall|j: int| 0 <= j < r.len() implies #[trigger] r[j].2 <= t by {
            if j > 0 {
                assert(r[j] == e.remove(g)[j - 1]);
            }
        }
    }
    lemma_fresh_len(e, now, ttl);
    let f = fresh_entries(e, now, ttl);
    assert forall|j: int| 0 <= j < f.len() implies #[trigger] f[j].2 <= t by {
        let m = choose|m: int| 0 <= m < e.len() && f[j] == e[m];
        assert(e[m].2 <= t);
    }
}

proof fn lemma_key_index(e: Seq<Entry>, k: Seq<char>)
    requires
        keys_distinct(e),
    ensures
        -1 <= key_index(e, k) < e.len(),
        key_index(e, k) >= 0 <==> has_key(e, k),
        key_index(e, k) >= 0 ==> e[key_index(e, k)].0 == k,
        forall|j: int| 0 <= j < e.len() && e[j].0 == k ==> key_index(e, k) == j,
{
    if has_key(e, k) {
        let i = key_index(e, k);
        assert(e[i].0 == k);
        assert forall|j: int| 0 <= j < e.len() && e[j].0 == k implies i == j by {
            if i < j {
                assert(e[i].0 != e[j].0);
            } else if j < i {
                assert(e[j].0 != e[i].0);
            }
        }
    }
}

proof fn lemma_put_wf(e: Seq<Entry>, cap: nat, x: Entry)
    requires
        store_wf(e, cap),
    ensures
        store_wf(lru_put(e, cap, x), cap),
        lru_put(e, cap, x)[0] == x,
{
    lemma_key_index(e, x.0);
    let i = key_index(e, x.0);
    let r = lru_put(e, cap, x);
    if i >= 0 {
        let rest = e.remove(i);
        assert forall|a: int, b: int| 0 <= a < b < r.len() implies #[trigger] r[a].0 != #[trigger] r[b].0 by {
            if a == 0 {
                assert(r[b] == rest[b - 1]);
                if b - 1 < i { assert(rest[b - 1] == e[b - 1]); } else { assert(rest[b - 1] == e[b]); }
            } else {
                assert(r[a] == rest[a - 1] && r[b] == rest[b - 1]);
            }
        }
    } else if e.len() >= cap {
        let rest = e.drop_last();
        assert forall|a: int, b: int| 0 <= a < b < r.len() implies #[trigger] r[a].0 != #[trigger] r[b].0 by {
            if a == 0 {
                assert(r[b] == e[b - 1]);
            } else {
                assert(r[a] == e[a - 1] && r[b] == e[b - 1]);
            }
        }
    } else {
        assert forall|a: int, b: int| 0 <= a < b < r.len() implies #[trigger] r[a].0 != #[trigger] r[b].0 by {
            if a == 0 {
                assert(r[b] == e[b - 1]);
            } else {
                assert(r[a] == e[a - 1] && r[b] == e[b - 1]);
            }
        }
    }
}

proof fn lemma_remove_wf(e: Seq<Entry>, cap: nat, i: int)
    requires
        store_wf(e, cap),
        0 <= i < e.len(),
    ensures
        store_wf(e.remove(i), cap),
{
    let r = e.remove(i);
    assert forall|a: int, b: int| 0 <= a < b < r.len() implies #[trigger] r[a].0 != #[trigger] r[b].0 by {
        let a2 = if a < i { a } else { a + 1 };
        let b2 = if b < i { b } else { b + 1 };
        assert(r[a] == e[a2] && r[b] == e[b2]);
    }
}

proof fn lemma_touch_wf(e: Seq<Entry>, cap: nat, i: int)
    requires
        store_wf(e, cap),
        0 <= i < e.len(),
    ensures
        store_wf(lru_touch(e, i), cap),
{
    lemma_remove_wf(e, cap, i);
    let rest = e.remove(i);
    let r = lru_touch(e, i);
    assert forall|a: int, b: int| 0 <= a < b < r.len() implies #[trigger] r[a].0 != #[trigger] r[b].0 by {
        if a == 0 {
            assert(r[b] == rest[b - 1]);
            if b - 1 < i { assert(rest[b - 1] == e[b - 1]); } else { assert(rest[b - 1] == e[b]); }
        } else {
            assert(r[a] == rest[a - 1] && r[b] == rest[b - 1]);
        }
    }
}

proof fn lemma_fresh_len(e: Seq<Entry>, now: u64, ttl: u64)
    ensures
        fresh_entries(e, now, ttl).len() <= e.len(),
        forall|j: int| 0 <= j < fresh_entries(e, now, ttl).len() ==>
            exists|m: int| 0 <= m < e.len() && #[trigger] fresh_entries(e, now, ttl)[j] == e[m],
    decreases e.len(),
{
    if e.len() > 0 {
        lemma_fresh_len(e.drop_last(), now, ttl);
        let f = fresh_entries(e, now, ttl);
        let g = fresh_entries(e.drop_last(), now, ttl);
        assert forall|j: int| 0 <= j < f.len() implies exists|m: int| 0 <= m < e.len() && #[trigger] f[j] == e[m] by {
            if j < g.len() {
                assert(f[j] == g[j]);
                let m = choose|m: int| 0 <= m < e.drop_last().len() && g[j] == e.drop_last()[m];
                assert(f[j] == e[m]);
            } else {
                assert(f[j] == e[e.len() - 1]);
            }
        }
    }
}

// ---------------------------------------------------------------------------
// MemoryCache
// ---------------------------------------------------------------------------

/// An in-memory cache from `String` keys to `String` values with LRU
/// eviction and a per-entry time-to-live in nanoseconds.
pub struct MemoryCache {
    inner: Store,
    ttl_ns: u64,
    origin: Instant,
    /// The latest time read from the clock or given to an operation.
    last_ns: u64,
}

impl MemoryCache {
    /// The entries, most recently used first.
    pub closed spec fn entries(&self) -> Seq<Entry> {
        lru_entries(self.inner)
    }

    /// The maximum number of entries.
    pub closed spec fn capacity(&self) -> nat {
        lru_capacity(self.inner)
    }

    /// The time-to-live of an entry, in nanoseconds.
    pub closed spec fn ttl(&self) -> u64 {
        self.ttl_ns
    }

    /// The latest time, in nanoseconds since the cache was created, that
    /// the cache has read from its clock or been given: its clock never
    /// reads earlier than this.
    pub closed spec fn clock(&self) -> u64 {
        self.last_ns
    }

    /// The cache's invariant: distinct keys, at most `capacity` entries,
    /// no entry stamped later than the clock.
    pub open spec fn wf(&self) -> bool {
        &&& store_wf(self.entries(), self.capacity())
        &&& stamped_by(self.entries(), self.clock())
    }

    /// Creates an empty cache with the given TTL and maximum entry count.
    pub fn new(ttl_ns: u64, max_entries: usize) -> (c: Self)
        requires
            max_entries > 0,
        ensures
            c.wf(),
            c.entries() == Seq::<Entry>::empty(),
            c.capacity() == max_entries,
            c.ttl() == ttl_ns,
            c.clock() == 0,
    {
        MemoryCache { inner: lru_new(max_entries), ttl_ns, origin: instant_now(), last_ns: 0 }
    }

    /// Reads the clock: the nanoseconds elapsed since the cache was
    /// created, never less than an earlier reading or a time given to an
    /// operation. The entries are not changed.
    pub fn clock_ns(&mut self) -> (t: u64)
        requires
            old(self).wf(),
        ensures
            final(self).wf(),
            t >= old(self).clock(),
            final(self).clock() == t,
            final(self).entries() == old(self).entries(),
            final(self).capacity() == old(self).capacity(),
            final(self).ttl() == old(self).ttl(),
    {
        let elapsed = nanos_since(&self.origin);
        if elapsed > self.last_ns {
            self.last_ns = elapsed;
        }
        self.last_ns
    }

    /// Moves the clock's floor up to `now`, if `now` is later.
    fn advance_to(&mut self, now: u64)
        requires
            old(self).wf(),
        ensures
            final(self).wf(),
            final(self).clock() == later(old(self).clock(), now),
            final(self).entries() == old(self).entries(),
            final(self).capacity() == old(self).capacity(),
            final(self).ttl() == old(self).ttl(),
    {
        if now > self.last_ns {
            self.last_ns = now;
        }
    }

    /// Inserts `value` under `key` as of time `now` (nanoseconds since
    /// the cache was created). An existing key is overwritten; at capacity
    /// a new key evicts the least recently used entry.
    pub fn insert_at(&mut self, key: String, value: String, now: u64)
        requires
            old(self).wf(),
        ensures
            final(self).wf(),
            final(self).entries() == lru_put(old(self).entries(), old(self).capacity(), (key@, value@, now)),
            final(self).capacity() == old(self).capacity(),
            final(self).ttl() == old(self).ttl(),
            final(self).clock() == later(old(self).clock(), now),
    {
        self.advance_to(now);
        proof {
            lemma_put_wf(self.entries(), self.capacity(), (key@, value@, now));
            lemma_ops_stamped(self.entries(), self.capacity(), (key@, value@, now), key@, now, 0, self.clock());
        }
        lru_put_entry(&mut self.inner, key, value, now);
    }

    /// Inserts `value` under `key`, stamped with the current time: the
    /// clock reading, which is never earlier than the cache's last one.
    pub fn insert(&mut self, key: String, value: String)
        requires
            old(self).wf(),
        ensures
            final(self).wf(),
            final(self).clock() >= old(self).clock(),
            final(self).entries() == lru_put(old(self).entries(), old(self).capacity(), (key@, value@, final(self).clock())),
            final(self).capacity() == old(self).capacity(),
            final(self).ttl() == old(self).ttl(),
    {
        let now = self.clock_ns();
        self.insert_at(key, value, now);
    }

    /// Looks `key` up as of time `now`. A fresh entry is returned and
    /// becomes the most recently used; an expired one is removed and the
    /// key reads as absent.
    pub fn get_at(&mut self, key: &String, now: u64) -> (r: Option<String>)
        requires
            old(self).wf(),
        ensures
            final(self).wf(),
            (final(self).entries(), opt_view(r)) == cache_get(old(self).entries(), key@, now, old(self).ttl()),
            final(self).capacity() == old(self).capacity(),
            final(self).ttl() == old(self).ttl(),
            final(self).clock() == later(old(self).clock(), now),
    {
        self.advance_to(now);
        let ghost e = self.entries();
        proof {
            lemma_ops_stamped(e, self.capacity(), (key@, Seq::empty(), 0), key@, now, self.ttl_ns, self.clock());
        }
        proof { lemma_key_index(e, key@); }
        match lru_get_entry(&mut self.inner, key) {
            None => None,
            Some((value, at)) => {
                let elapsed: u64 = if now >= at { now - at } else { 0 };
                if elapsed >= self.ttl_ns {
                    let ghost i = key_index(e, key@);
                    proof {
                        lemma_touch_wf(e, self.capacity(), i);
                        lemma_key_index(lru_touch(e, i), key@);
                        assert(lru_touch(e, i)[0].0 == key@);
                        assert(lru_touch(e, i).remove(0) =~= e.remove(i));
                    }
                    let _ = lru_pop_entry(&mut self.inner, key);
                    proof { lemma_remove_wf(e, self.capacity(), i); }
                    None
                } else {
                    proof { lemma_touch_wf(e, self.capacity(), key_index(e, key@)); }
                    Some(value)
                }
            },
        }
    }

    /// Looks `key` up at the current time: the clock reading, which is
    /// never earlier than the cache's last one.
    pub fn get(&mut self, key: &String) -> (r: Option<String>)
        requires
            old(self).wf(),
        ensures
            final(self).wf(),
            final(self).clock() >= old(self).clock(),
            (final(self).entries(), opt_view(r)) == cache_get(old(self).entries(), key@, final(self).clock(), old(self).ttl()),
            final(self).capacity() == old(self).capacity(),
            final(self).ttl() == old(self).ttl(),
    {
        let now = self.clock_ns();
        self.get_at(key, now)
    }

    /// Removes `key`, returning its value if it was present (expired or not).
    pub fn remove(&mut self, key: &String) -> (r: Option<String>)
        requires
            old(self).wf(),
        ensures
            final(self).wf(),
            (final(self).entries(), opt_view(r)) == cache_remove(old(self).entries(), key@),
            final(self).capacity() == old(self).capacity(),
            final(self).ttl() == old(self).ttl(),
            final(self).clock() == old(self).clock(),
    {
        let ghost e = self.entries();
        proof {
            lemma_key_index(e, key@);
            lemma_ops_stamped(e, self.capacity(), (key@, Seq::empty(), 0), key@, 0, 0, self.clock());
        }
        let r = lru_pop_entry(&mut self.inner, key);
        proof {
            if key_index(e, key@) >= 0 {
                lemma_remove_wf(e, self.capacity(), key_index(e, key@));
            }
        }
        match r {
            Some((value, _)) => Some(value),
            None => None,
        }
    }

    /// Number of entries, including expired ones not yet evicted.
    pub fn len(&self) -> (n: usize)
        ensures
            n == self.entries().len(),
    {
        lru_len(&self.inner)
    }

    /// Whether the cache holds no entry.
    pub fn is_empty(&self) -> (b: bool)
        ensures
            b == (self.entries().len() == 0),
    {
        self.len() == 0
    }

    /// Removes every entry that has expired at time `now`; the others keep
    /// their order.
    pub fn evict_expired_at(&mut self, now: u64)
        requires
            old(self).wf(),
        ensures
            final(self).wf(),
            final(self).entries() == fresh_entries(old(self).entries(), now, old(self).ttl()),
            final(self).capacity() == old(self).capacity(),
            final(self).ttl() == old(self).ttl(),
            final(self).clock() == later(old(self).clock(), now),
    {
        self.advance_to(now);
        proof {
            lemma_ops_stamped(self.entries(), self.capacity(), (Seq::empty(), Seq::empty(), 0), Seq::empty(), now, self.ttl_ns, self.clock());
        }
        let ghost clock = self.clock();
        let ghost orig = self.entries();
        let ghost cap = self.capacity();
        let stamps = lru_stamps(&self.inner);
        let ttl = self.ttl_ns;
        let mut i: usize = 0;
        assert(orig.take(0) =~= Seq::<Entry>::empty());
        assert(orig.skip(0) == orig);
        while i < stamps.len()
            invariant
                store_wf(orig, cap),
                ttl == self.ttl_ns,
                stamps@.len() == orig.len(),
                forall|j: int| 0 <= j < stamps@.len() ==> (#[trigger] stamps@[j]).0@ == orig[j].0
                    && stamps@[j].1 == orig[j].2,
                i <= stamps@.len(),
                self.capacity() == cap,
                self.clock() == clock,
                self.entries() == fresh_entries(orig.take(i as int), now, ttl) + orig.skip(i as int),
                store_wf(self.entries(), cap),
            decreases stamps@.len() - i,
        {
            let ghost cur = self.entries();
            let ghost f = fresh_entries(orig.take(i as int), now, ttl);
            let (key, at) = (&stamps[i].0, stamps[i].1);
            proof {
                assert(orig.take(i + 1).drop_last() == orig.take(i as int));
                assert(orig.take(i + 1).last() == orig[i as int]);
                lemma_skip_first(orig, i as int);
            }
            let elapsed: u64 = if now >= at { now - at } else { 0 };
            if elapsed >= ttl {
                proof {
                    assert(cur[f.len() as int] == orig[i as int]);
                    lemma_key_index(cur, key@);
                    assert(cur.remove(f.len() as int) =~= f + orig.skip(i + 1));
                    lemma_remove_wf(cur, cap, f.len() as int);
                }
                let _ = lru_pop_entry(&mut self.inner, key);
            } else {
                proof {
                    assert(f.push(orig[i as int]) + orig.skip(i + 1) =~= f + orig.skip(i as int));
                }
            }
            i = i + 1;
        }
        proof {
            assert(orig.take(orig.len() as int) == orig);
            assert(orig.skip(orig.len() as int) =~= Seq::<Entry>::empty());
            assert(self.entries() =~= fresh_entries(orig, now, ttl));
        }
    }

    /// Removes every entry that has expired at the current time: the clock
    /// reading, which is never earlier than the cache's last one (nor than
    /// any entry's stamp).
    pub fn evict_expired(&mut self)
        requires
            old(self).wf(),
        ensures
            final(self).wf(),
            final(self).clock() >= old(self).clock(),
            final(self).entries() == fresh_entries(old(self).entries(), final(self).clock(), old(self).ttl()),
            final(self).capacity() == old(self).capacity(),
            final(self).ttl() == old(self).ttl(),
    {
        let now = self.clock_ns();
        self.evict_expired_at(now);
    }
}

// ---------------------------------------------------------------------------
// Laws of the cache
// ---------------------------------------------------------------------------

/// A read gives back what a write wrote: after inserting `v` under `k` at
/// time `t`, a lookup of `k` at any time `t2` with `t <= t2 < t + ttl`
/// returns `v`, and `k` becomes the most recently used key.
pub proof fn law_get_after_insert(e: Seq<Entry>, cap: nat, k: Seq<char>, v: Seq<char>, t: u64, t2: u64, ttl: u64)
    requires
        store_wf(e, cap),
        t <= t2,
        t2 - t < ttl,
    ensures
        cache_get(lru_put(e, cap, (k, v, t)), k, t2, ttl).1 == Some(v),
        cache_get(lru_put(e, cap, (k, v, t)), k, t2, ttl).0[0].0 == k,
{
    lemma_put_wf(e, cap, (k, v, t));
    let r = lru_put(e, cap, (k, v, t));
    lemma_key_index(r, k);
    assert(key_index(r, k) == 0);
}

/// Once its time-to-live has elapsed, an inserted entry reads as absent
/// and the read drops it.
pub proof fn law_expired_entry_is_absent(e: Seq<Entry>, cap: nat, k: Seq<char>, v: Seq<char>, t: u64, t2: u64, ttl: u64)
    requires
        store_wf(e, cap),
        t <= t2,
        t2 - t >= ttl,
    ensures
        cache_get(lru_put(e, cap, (k, v, t)), k, t2, ttl).1 is None,
        !has_key(cache_get(lru_put(e, cap, (k, v, t)), k, t2, ttl).0, k),
{
    lemma_put_wf(e, cap, (k, v, t));
    let r = lru_put(e, cap, (k, v, t));
    lemma_key_index(r, k);
    assert(key_index(r, k) == 0);
    let after = r.remove(0);
    if has_key(after, k) {
        let j = choose|j: int| 0 <= j < after.len() && #[trigger] after[j].0 == k;
        assert(r[j + 1].0 == k);
        assert(r[0].0 != r[j + 1].0);
    }
}

/// Removing an inserted key returns the inserted value and leaves the key
/// absent.
pub proof fn law_remove_after_insert(e: Seq<Entry>, cap: nat, k: Seq<char>, v: Seq<char>, t: u64)
    requires
        store_wf(e, cap),
    ensures
        cache_remove(lru_put(e, cap, (k, v, t)), k).1 == Some(v),
        !has_key(cache_remove(lru_put(e, cap, (k, v, t)), k).0, k),
{
    lemma_put_wf(e, cap, (k, v, t));
    let r = lru_put(e, cap, (k, v, t));
    lemma_key_index(r, k);
    assert(key_index(r, k) == 0);
    let after = r.remove(0);
    if has_key(after, k) {
        let j = choose|j: int| 0 <= j < after.len() && #[trigger] after[j].0 == k;
        assert(r[j + 1].0 == k);
        assert(r[0].0 != r[j + 1].0);
    }
}

/// A key that is absent reads as absent and the read changes nothing.
pub proof fn law_get_absent(e: Seq<Entry>, k: Seq<char>, now: u64, ttl: u64)
    requires
        keys_distinct(e),
        !has_key(e, k),
    ensures
        cache_get(e, k, now, ttl) == (e, Option::<Seq<char>>::None),
{
    lemma_key_index(e, k);
}

/// A lookup that misses leaves no entry under the key: it was absent, or
/// it had expired and was dropped.
pub proof fn law_missed_get_leaves_key_absent(e: Seq<Entry>, cap: nat, k: Seq<char>, now: u64, ttl: u64)
    requires
        store_wf(e, cap),
        cache_get(e, k, now, ttl).1 is None,
    ensures
        !has_key(cache_get(e, k, now, ttl).0, k),
{
    lemma_key_index(e, k);
    let i = key_index(e, k);
    if i >= 0 {
        let r = e.remove(i);
        assert forall|j: int| 0 <= j < r.len() implies #[trigger] r[j].0 != k by {
            let j2 = if j < i { j } else { j + 1 };
            assert(r[j] == e[j2]);
        }
    }
}

/// Every operation keeps the cache within its capacity with distinct keys.
pub proof fn law_operations_keep_invariant(e: Seq<Entry>, cap: nat, k: Seq<char>, v: Seq<char>, now: u64, ttl: u64)
    requires
        store_wf(e, cap),
    ensures
        store_wf(lru_put(e, cap, (k, v, now)), cap),
        store_wf(cache_get(e, k, now, ttl).0, cap),
        store_wf(cache_remove(e, k).0, cap),
{
    lemma_put_wf(e, cap, (k, v, now));
    lemma_key_index(e, k);
    let i = key_index(e, k);
    if i >= 0 {
        lemma_remove_wf(e, cap, i);
        lemma_touch_wf(e, cap, i);
    }
}

/// On the cache's own clock, a read gives back what a write wrote until
/// the time-to-live has elapsed, and nothing after: `c1` is `c0` after
/// [`MemoryCache::insert`] of `v` under `k`, and `c2` is `c1` after a
/// [`MemoryCache::get`] of `k` that returned `r` (the clock never runs
/// backwards between the two).
pub proof fn law_clock_read_after_write(
    c0: MemoryCache,
    c1: MemoryCache,
    c2: MemoryCache,
    k: Seq<char>,
    v: Seq<char>,
    r: Option<Seq<char>>,
)
    requires
        c0.wf(),
        c1.entries() == lru_put(c0.entries(), c0.capacity(), (k, v, c1.clock())),
        c1.ttl() == c0.ttl(),
        c2.clock() >= c1.clock(),
        (c2.entries(), r) == cache_get(c1.entries(), k, c2.clock(), c1.ttl()),
    ensures
        c2.clock() - c1.clock() < c0.ttl() ==> r == Some(v),
        c2.clock() - c1.clock() >= c0.ttl() ==> r is None && !has_key(c2.entries(), k),
{
    if c2.clock() - c1.clock() < c0.ttl() {
        law_get_after_insert(c0.entries(), c0.capacity(), k, v, c1.clock(), c2.clock(), c0.ttl());
    } else {
        law_expired_entry_is_absent(c0.entries(), c0.capacity(), k, v, c1.clock(), c2.clock(), c0.ttl());
    }
}

/// A cache holds at most as many entries as the capacity it was made with,
/// whatever operations it has been through.
pub proof fn law_cache_never_exceeds_capacity(c: MemoryCache)
    requires
        c.wf(),
    ensures
        c.entries().len() <= c.capacity(),
        c.capacity() > 0,
{
}

/// LRU eviction: inserting a new key into a full cache drops exactly the
/// least recently used entry; every other key stays, and the size stays at
/// capacity.
pub proof fn law_full_insert_evicts_least_recent(e: Seq<Entry>, cap: nat, k: Seq<char>, v: Seq<char>, t: u64)
    requires
        store_wf(e, cap),
        e.len() == cap,
        !has_key(e, k),
    ensures
        lru_put(e, cap, (k, v, t)).len() == cap,
        !has_key(lru_put(e, cap, (k, v, t)), e.last().0),
        forall|j: int| 0 <= j < e.len() - 1 ==> has_key(lru_put(e, cap, (k, v, t)), #[trigger] e[j].0),
        has_key(lru_put(e, cap, (k, v, t)), k),
{
    lemma_key_index(e, k);
    let r = lru_put(e, cap, (k, v, t));
    assert(r =~= seq![(k, v, t)] + e.drop_last());
    let last = e.last().0;
    if has_key(r, last) {
        let j = choose|j: int| 0 <= j < r.len() && #[trigger] r[j].0 == last;
        if j == 0 {
            assert(e[e.len() - 1].0 == k);
        } else {
            assert(r[j] == e[j - 1]);
            assert(e[j - 1].0 != e[e.len() - 1].0);
        }
    }
    assert forall|j: int| 0 <= j < e.len() - 1 implies has_key(r, #[trigger] e[j].0) by {
        assert(r[j + 1] == e[j]);
    }
    assert(r[0].0 == k);
}

/// A fresh hit moves the key to the front and keeps every other entry in
/// its relative order.
pub proof fn law_hit_promotes(e: Seq<Entry>, cap: nat, k: Seq<char>, now: u64, ttl: u64)
    requires
        store_wf(e, cap),
        has_key(e, k),
        !expired(e[key_index(e, k)].2, now, ttl),
    ensures
        cache_get(e, k, now, ttl).0 == seq![e[key_index(e, k)]] + e.remove(key_index(e, k)),
        cache_get(e, k, now, ttl).1 == Some(e[key_index(e, k)].1),
{
    lemma_key_index(e, k);
}

proof fn lemma_skip_first(s: Seq<Entry>, i: int)
    requires
        0 <= i < s.len(),
    ensures
        s.skip(i) == seq![s[i]] + s.skip(i + 1),
{
    assert(s.skip(i) =~= seq![s[i]] + s.skip(i + 1));
}

} // verus!
