//! A time-bounded store of raw responses, keyed by an opaque string.
//!
//! Time is counted in nanoseconds on a clock that starts with the cache. Every
//! operation that depends on the time exists twice: once taking the reading as
//! an argument, and once reading the clock itself.

use std::time::Instant;
use vstd::hash_map::StringHashMap;
use vstd::prelude::*;
use vstd::set_lib::lemma_set_disjoint_lens;
use vstd::string::StringExecFns;
use crate::config::types::option_view;

verus! {

#[verifier::external_type_specification]
#[verifier::external_body]
pub struct MonotonicInstant(std::time::Instant);

/// `Instant::now`: the present reading of the monotonic clock. Nothing is
/// known of it.
#[verifier::external_body]
fn clock_start() -> Instant {
    Instant::now()
}

/// `Instant::elapsed`: the nanoseconds that have passed since `start`. Nothing
/// is known of them.
#[verifier::external_body]
fn nanos_since(start: &Instant) -> u128 {
    start.elapsed().as_nanos()
}

/// A stored response.
#[derive(Debug, Clone)]
pub struct CacheEntry {
    pub content: String,
    /// The clock reading at which the response was stored.
    pub created_at: u128,
}

/// The mathematical content of a [`CacheEntry`].
pub struct CacheRecord {
    pub content: Seq<char>,
    pub created_at: nat,
}

impl View for CacheEntry {
    type V = CacheRecord;

    open spec fn view(&self) -> CacheRecord {
        CacheRecord { content: self.content@, created_at: self.created_at as nat }
    }
}

/// The nanoseconds from `earlier` to `now`; none when `now` is not later.
pub open spec fn elapsed(earlier: nat, now: nat) -> nat {
    if now >= earlier {
        (now - earlier) as nat
    } else {
        0
    }
}

/// Whether a record stored at `record.created_at` is still usable at `now`:
/// its age must be less than `ttl_secs` seconds.
pub open spec fn is_fresh(record: CacheRecord, now: nat, ttl_secs: nat) -> bool {
    elapsed(record.created_at, now) < ttl_secs * 1_000_000_000
}

/// What a read of `key` at `now` returns: the content stored under `key` when
/// there is one and it is fresh.
pub open spec fn lookup(
    entries: Map<Seq<char>, CacheRecord>,
    key: Seq<char>,
    now: nat,
    ttl_secs: nat,
) -> Option<Seq<char>> {
    if entries.contains_key(key) && is_fresh(entries[key], now, ttl_secs) {
        Some(entries[key].content)
    } else {
        None
    }
}

/// The entries left by storing `content` under `key` at `now`.
pub open spec fn stored(
    entries: Map<Seq<char>, CacheRecord>,
    key: Seq<char>,
    content: Seq<char>,
    now: nat,
) -> Map<Seq<char>, CacheRecord> {
    entries.insert(key, CacheRecord { content, created_at: now })
}

/// The keys whose entries are no longer fresh at `now`.
pub open spec fn expired_keys(entries: Map<Seq<char>, CacheRecord>, now: nat, ttl_secs: nat) -> Set<
    Seq<char>,
> {
    Set::new(|key: Seq<char>| entries.contains_key(key) && !is_fresh(entries[key], now, ttl_secs))
}

/// The entries that are still fresh at `now`, each as it was.
pub open spec fn without_expired(
    entries: Map<Seq<char>, CacheRecord>,
    now: nat,
    ttl_secs: nat,
) -> Map<Seq<char>, CacheRecord> {
    Map::new(
        |key: Seq<char>| entries.contains_key(key) && is_fresh(entries[key], now, ttl_secs),
        |key: Seq<char>| entries[key],
    )
}

/// The entries by key, and beside them the keys, each once: the map finds an
/// entry, the list lets a clean-up walk them.
struct Store {
    entries: StringHashMap<CacheEntry>,
    keys: Vec<String>,
}

spec fn listed(keys: Seq<String>, key: Seq<char>) -> bool {
    exists|i: int| 0 <= i < keys.len() && (#[trigger] keys[i])@ == key
}

spec fn distinct(keys: Seq<String>) -> bool {
    forall|i: int, j: int|
        0 <= i < keys.len() && 0 <= j < keys.len() && i != j ==> (#[trigger] keys[i])@ != (
        #[trigger] keys[j])@
}

spec fn consistent(entries: Map<Seq<char>, CacheEntry>, keys: Seq<String>) -> bool {
    &&& distinct(keys)
    &&& forall|key: Seq<char>|
        #![trigger entries.contains_key(key)]
        #![trigger listed(keys, key)]
        entries.contains_key(key) <==> listed(keys, key)
}

spec fn records(entries: Map<Seq<char>, CacheEntry>) -> Map<Seq<char>, CacheRecord> {
    Map::new(|key: Seq<char>| entries.contains_key(key), |key: Seq<char>| entries[key]@)
}

spec fn listed_keys(keys: Seq<String>) -> Set<Seq<char>> {
    Set::new(|key: Seq<char>| listed(keys, key))
}

proof fn lemma_push_key(keys: Seq<String>, key: String)
    requires
        distinct(keys),
        !listed(keys, key@),
    ensures
        distinct(keys.push(key)),
        forall|other: Seq<char>| #[trigger]
            listed(keys.push(key), other) <==> listed(keys, other) || other == key@,
{
    let after = keys.push(key);
    let n = keys.len() as int;
    assert forall|i: int, j: int| 0 <= i < after.len() && 0 <= j < after.len() && i != j implies (
    #[trigger] after[i])@ != (#[trigger] after[j])@ by {
        if i < n && j < n {
            assert(keys[i]@ != keys[j]@);
        } else if i < n {
            assert(keys[i]@ != key@);
        } else {
            assert(keys[j]@ != key@);
        }
    }
    assert forall|other: Seq<char>| #[trigger]
        listed(after, other) <==> listed(keys, other) || other == key@ by {
        if listed(after, other) {
            let i = choose|i: int| 0 <= i < after.len() && (#[trigger] after[i])@ == other;
            if i < n {
                assert(keys[i]@ == other);
            }
        }
        if listed(keys, other) {
            let i = choose|i: int| 0 <= i < keys.len() && (#[trigger] keys[i])@ == other;
            assert(after[i]@ == other);
        }
        if other == key@ {
            assert(after[n]@ == other);
        }
    }
}

proof fn lemma_swap_remove_key(keys: Seq<String>, i: int)
    requires
        distinct(keys),
        0 <= i < keys.len(),
    ensures
        distinct(keys.update(i, keys.last()).drop_last()),
        forall|other: Seq<char>| #[trigger]
            listed(keys.update(i, keys.last()).drop_last(), other) <==> listed(keys, other)
                && other != keys[i]@,
{
    let after = keys.update(i, keys.last()).drop_last();
    let last = keys.len() - 1;
    assert forall|a: int, b: int| 0 <= a < after.len() && 0 <= b < after.len() && a != b implies (
    #[trigger] after[a])@ != (#[trigger] after[b])@ by {
        let a0 = if a == i {
            last
        } else {
            a
        };
        let b0 = if b == i {
            last
        } else {
            b
        };
        assert(after[a] == keys[a0]);
        assert(after[b] == keys[b0]);
        assert(keys[a0]@ != keys[b0]@);
    }
    assert forall|other: Seq<char>| #[trigger]
        listed(after, other) <==> listed(keys, other) && other != keys[i]@ by {
        if listed(after, other) {
            let a = choose|a: int| 0 <= a < after.len() && (#[trigger] after[a])@ == other;
            let a0 = if a == i {
                last
            } else {
                a
            };
            assert(after[a] == keys[a0]);
            assert(keys[a0]@ == other);
            assert(keys[a0]@ != keys[i]@);
        }
        if listed(keys, other) && other != keys[i]@ {
            let a0 = choose|a: int| 0 <= a < keys.len() && (#[trigger] keys[a])@ == other;
            let a = if a0 == last {
                i
            } else {
                a0
            };
            assert(after[a] == keys[a0]);
            assert(after[a]@ == other);
        }
    }
}

proof fn lemma_size(keys: Seq<String>)
    requires
        distinct(keys),
    ensures
        listed_keys(keys).finite(),
        listed_keys(keys).len() == keys.len(),
    decreases keys.len(),
{
    if keys.len() == 0 {
        assert(listed_keys(keys) =~= Set::empty());
    } else {
        let earlier = keys.drop_last();
        let last = keys.last();
        assert(distinct(earlier)) by {
            assert forall|i: int, j: int|
                0 <= i < earlier.len() && 0 <= j < earlier.len() && i != j implies (
            #[trigger] earlier[i])@ != (#[trigger] earlier[j])@ by {
                assert(keys[i]@ != keys[j]@);
            }
        }
        assert(!listed(earlier, last@)) by {
            if listed(earlier, last@) {
                let i = choose|i: int| 0 <= i < earlier.len() && (#[trigger] earlier[i])@ == last@;
                assert(keys[i]@ != keys[keys.len() - 1]@);
            }
        }
        lemma_size(earlier);
        lemma_push_key(earlier, last);
        assert(earlier.push(last) =~= keys);
        assert(listed_keys(keys) =~= listed_keys(earlier).insert(last@));
    }
}

proof fn lemma_records_size(entries: Map<Seq<char>, CacheEntry>, keys: Seq<String>)
    requires
        consistent(entries, keys),
    ensures
        records(entries).dom().finite(),
        records(entries).len() == keys.len(),
{
    lemma_size(keys);
    assert(records(entries).dom() =~= listed_keys(keys));
}

/// The position of `key` among `keys`, if it is there.
fn position(keys: &Vec<String>, key: &str) -> (found: Option<usize>)
    ensures
        match found {
            Some(i) => i < keys.len() && keys[i as int]@ == key@,
            None => !listed(keys@, key@),
        },
{
    let wanted = String::from_str(key);
    let mut index: usize = 0;
    while index < keys.len()
        invariant
            index <= keys.len(),
            wanted@ == key@,
            forall|i: int| 0 <= i < index ==> (#[trigger] keys[i])@ != key@,
        decreases keys.len() - index,
    {
        if keys[index] == wanted {
            return Some(index);
        }
        index += 1;
    }
    None
}

/// Whether an entry stored at `created_at` is still usable at `now`.
fn fresh_at(created_at: u128, now: u128, ttl_secs: u64) -> (fresh: bool)
    ensures
        fresh == (elapsed(created_at as nat, now as nat) < ttl_secs * 1_000_000_000),
{
    let age: u128 = if now >= created_at {
        now - created_at
    } else {
        0
    };
    let ttl: u128 = ttl_secs as u128;
    age < ttl * 1_000_000_000
}

/// A cache of raw responses. An entry older than the time to live is no longer
/// returned, but stays stored until it is overwritten, invalidated or cleaned up.
pub struct MemoryCache {
    store: Store,
    ttl_secs: u64,
    started: Instant,
}

impl View for MemoryCache {
    type V = Map<Seq<char>, CacheRecord>;

    closed spec fn view(&self) -> Map<Seq<char>, CacheRecord> {
        records(self.store.entries@)
    }
}

impl MemoryCache {
    #[verifier::type_invariant]
    spec fn keys_match_entries(&self) -> bool {
        consistent(self.store.entries@, self.store.keys@)
    }

    /// The seconds for which an entry stays fresh.
    pub closed spec fn ttl(&self) -> nat {
        self.ttl_secs as nat
    }

    /// An empty cache whose entries stay fresh for `ttl_secs` seconds.
    pub fn new(ttl_secs: u64) -> (cache: Self)
        ensures
            cache@ == Map::<Seq<char>, CacheRecord>::empty(),
            cache.ttl() == ttl_secs,
    {
        let store = Store { entries: StringHashMap::new(), keys: Vec::new() };
        let cache = Self { store, ttl_secs, started: clock_start() };
        proof {
            assert(cache@ =~= Map::<Seq<char>, CacheRecord>::empty());
        }
        cache
    }

    /// The present reading of the cache's clock, in nanoseconds.
    pub fn clock(&self) -> (now: u128) {
        nanos_since(&self.started)
    }

    /// The content stored under `key`, if it is fresh at the clock reading
    /// `now`. A stale entry is not returned and not removed.
    pub fn get_at(&self, key: &str, now: u128) -> (content: Option<String>)
        ensures
            option_view(content) == lookup(self@, key@, now as nat, self.ttl()),
    {
        match self.store.entries.get(key) {
            Some(entry) => {
                if fresh_at(entry.created_at, now, self.ttl_secs) {
                    Some(entry.content.clone())
                } else {
                    None
                }
            },
            None => None,
        }
    }

    /// The content stored under `key`, if it is fresh now.
    pub fn get(&self, key: &str) -> (content: Option<String>)
        ensures
            exists|now: nat| option_view(content) == lookup(self@, key@, now, self.ttl()),
    {
        let now = self.clock();
        self.get_at(key, now)
    }

    /// Stores `content` under `key` as of the clock reading `now`, in place of
    /// whatever was stored under `key`.
    pub fn set_at(&mut self, key: String, content: String, now: u128)
        ensures
            final(self)@ == stored(old(self)@, key@, content@, now as nat),
            final(self).ttl() == old(self).ttl(),
    {
        proof {
            use_type_invariant(&*self);
        }
        let mut store = Store { entries: StringHashMap::new(), keys: Vec::new() };
        std::mem::swap(&mut store, &mut self.store);
        let Store { mut entries, mut keys } = store;
        let ghost before = entries@;
        let entry = CacheEntry { content, created_at: now };
        if !entries.contains_key(key.as_str()) {
            proof {
                lemma_push_key(keys@, key);
            }
            keys.push(key.clone());
        }
        entries.insert(key, entry);
        proof {
            assert(records(entries@) =~= stored(records(before), key@, content@, now as nat));
        }
        self.store = Store { entries, keys };
    }

    /// Stores `content` under `key` as of now.
    pub fn set(&mut self, key: String, content: String)
        ensures
            exists|now: nat| final(self)@ == stored(old(self)@, key@, content@, now),
            final(self).ttl() == old(self).ttl(),
    {
        let now = self.clock();
        self.set_at(key, content, now)
    }

    /// Removes every entry that is no longer fresh at the clock reading `now`.
    /// Fresh entries stay as they are.
    pub fn cleanup_at(&mut self, now: u128)
        ensures
            final(self)@ == without_expired(old(self)@, now as nat, old(self).ttl()),
            final(self)@.len() == old(self)@.len() - expired_keys(
                old(self)@,
                now as nat,
                old(self).ttl(),
            ).len(),
            final(self).ttl() == old(self).ttl(),
    {
        proof {
            use_type_invariant(&*self);
            lemma_records_size(self.store.entries@, self.store.keys@);
        }
        let ghost ttl = self.ttl();
        let ttl_secs = self.ttl_secs;
        let mut store = Store { entries: StringHashMap::new(), keys: Vec::new() };
        std::mem::swap(&mut store, &mut self.store);
        let Store { mut entries, mut keys } = store;
        let ghost before = entries@;
        let mut index: usize = keys.len();
        while index > 0
            invariant
                index <= keys.len(),
                consistent(entries@, keys@),
                ttl == ttl_secs as nat,
                forall|j: int|
                    index <= j < keys.len() ==> is_fresh(
                        entries@[(#[trigger] keys[j])@]@,
                        now as nat,
                        ttl,
                    ),
                forall|key: Seq<char>| #[trigger]
                    entries@.contains_key(key) ==> before.contains_key(key) && before[key]
                        == entries@[key],
                forall|key: Seq<char>|
                    before.contains_key(key) && !(#[trigger] entries@.contains_key(key))
                        ==> !is_fresh(before[key]@, now as nat, ttl),
            decreases index,
        {
            index -= 1;
            proof {
                assert(listed(keys@, keys[index as int]@));
            }
            let stale = match entries.get(keys[index].as_str()) {
                Some(entry) => !fresh_at(entry.created_at, now, ttl_secs),
                None => false,
            };
            if stale {
                proof {
                    lemma_swap_remove_key(keys@, index as int);
                }
                entries.remove(keys[index].as_str());
                keys.swap_remove(index);
            }
        }
        proof {
            assert forall|key: Seq<char>| entries@.contains_key(key) implies is_fresh(
                entries@[key]@,
                now as nat,
                ttl,
            ) by {
                let i = choose|i: int| 0 <= i < keys.len() && (#[trigger] keys[i])@ == key;
                assert(is_fresh(entries@[keys[i]@]@, now as nat, ttl));
            }
            assert(records(entries@) =~= without_expired(records(before), now as nat, ttl));
            lemma_records_size(entries@, keys@);
            lemma_cleanup_counts(records(before), now as nat, ttl);
        }
        self.store = Store { entries, keys };
    }

    /// Removes every entry that is no longer fresh now.
    pub fn cleanup(&mut self)
        ensures
            exists|now: nat| final(self)@ == without_expired(old(self)@, now, old(self).ttl()),
            final(self).ttl() == old(self).ttl(),
    {
        let now = self.clock();
        self.cleanup_at(now)
    }

    /// Removes the entry stored under `key`, if there is one.
    pub fn invalidate(&mut self, key: &str)
        ensures
            final(self)@ == old(self)@.remove(key@),
            final(self).ttl() == old(self).ttl(),
    {
        proof {
            use_type_invariant(&*self);
        }
        let mut store = Store { entries: StringHashMap::new(), keys: Vec::new() };
        std::mem::swap(&mut store, &mut self.store);
        let Store { mut entries, mut keys } = store;
        let ghost before = entries@;
        match position(&keys, key) {
            Some(i) => {
                proof {
                    lemma_swap_remove_key(keys@, i as int);
                }
                entries.remove(key);
                keys.swap_remove(i);
            },
            None => {},
        }
        proof {
            assert(records(entries@) =~= records(before).remove(key@));
        }
        self.store = Store { entries, keys };
    }

    /// Removes every entry.
    pub fn clear(&mut self)
        ensures
            final(self)@ == Map::<Seq<char>, CacheRecord>::empty(),
            final(self).ttl() == old(self).ttl(),
    {
        self.store = Store { entries: StringHashMap::new(), keys: Vec::new() };
        proof {
            assert(self@ =~= Map::<Seq<char>, CacheRecord>::empty());
        }
    }

    /// The number of stored entries, stale ones included.
    pub fn len(&self) -> (count: usize)
        ensures
            self@.dom().finite(),
            count == self@.len(),
    {
        proof {
            use_type_invariant(&*self);
            lemma_records_size(self.store.entries@, self.store.keys@);
        }
        self.store.keys.len()
    }

    /// Whether nothing is stored.
    pub fn is_empty(&self) -> (empty: bool)
        ensures
            self@.dom().finite(),
            empty == (self@.len() == 0),
    {
        proof {
            use_type_invariant(&*self);
            lemma_records_size(self.store.entries@, self.store.keys@);
        }
        self.store.keys.len() == 0
    }
}

/// A value that was stored is returned for as long as it is fresh: a read of
/// `key` less than the time to live after `content` was stored under it
/// returns `content`.
pub proof fn lemma_set_then_get(
    entries: Map<Seq<char>, CacheRecord>,
    key: Seq<char>,
    content: Seq<char>,
    stored_at: nat,
    read_at: nat,
    ttl_secs: nat,
)
    requires
        elapsed(stored_at, read_at) < ttl_secs * 1_000_000_000,
    ensures
        lookup(stored(entries, key, content, stored_at), key, read_at, ttl_secs) == Some(content),
{
}

/// A value that was stored is absent once its time to live has passed, and
/// the read that finds it stale leaves it stored.
pub proof fn lemma_get_after_expiry(
    entries: Map<Seq<char>, CacheRecord>,
    key: Seq<char>,
    content: Seq<char>,
    stored_at: nat,
    read_at: nat,
    ttl_secs: nat,
)
    requires
        elapsed(stored_at, read_at) >= ttl_secs * 1_000_000_000,
    ensures
        lookup(stored(entries, key, content, stored_at), key, read_at, ttl_secs) is None,
        stored(entries, key, content, stored_at).contains_key(key),
{
}

/// A clean-up removes exactly the expired entries: the size shrinks by their
/// number, every fresh entry stays as it was, and no expired entry stays.
pub proof fn lemma_cleanup_counts(entries: Map<Seq<char>, CacheRecord>, now: nat, ttl_secs: nat)
    requires
        entries.dom().finite(),
    ensures
        expired_keys(entries, now, ttl_secs).finite(),
        without_expired(entries, now, ttl_secs).dom().finite(),
        without_expired(entries, now, ttl_secs).len() == entries.len() - expired_keys(
            entries,
            now,
            ttl_secs,
        ).len(),
        forall|key: Seq<char>|
            entries.contains_key(key) && is_fresh(entries[key], now, ttl_secs) ==> (
            #[trigger] without_expired(entries, now, ttl_secs).contains_key(key))
                && without_expired(entries, now, ttl_secs)[key] == entries[key],
        forall|key: Seq<char>|
            entries.contains_key(key) && !is_fresh(entries[key], now, ttl_secs) ==> !(
            #[trigger] without_expired(entries, now, ttl_secs).contains_key(key)),
{
    let gone = expired_keys(entries, now, ttl_secs);
    let kept = without_expired(entries, now, ttl_secs).dom();
    assert(gone.subset_of(entries.dom()));
    assert(kept.subset_of(entries.dom()));
    vstd::set_lib::lemma_len_subset(gone, entries.dom());
    vstd::set_lib::lemma_len_subset(kept, entries.dom());
    assert(kept.disjoint(gone));
    assert(kept + gone =~= entries.dom());
    lemma_set_disjoint_lens(kept, gone);
}

} // verus!
