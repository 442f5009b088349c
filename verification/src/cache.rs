//! A keyed read cache whose entries go stale after a fixed time to live.
//!
//! Staleness is a function of the time at which the cache is asked: a stale
//! entry stays stored until it is overwritten or purged, and is never served.

use crate::clock::Clock;
use vstd::prelude::*;

verus! {

/// A cached value and the time at which it was stored.
pub struct EntryState<V> {
    pub value: V,
    pub stored_at: nat,
}

/// What a cache is, mathematically.
pub struct CacheState<V> {
    pub ttl_ms: nat,
    pub entries: Map<Seq<char>, EntryState<V>>,
}

/// The age at `now` of something stored at `stored_at`. A clock that reads
/// earlier than the time of storing counts as no time passed.
pub open spec fn age(stored_at: nat, now: nat) -> nat {
    if now >= stored_at {
        (now - stored_at) as nat
    } else {
        0
    }
}

/// Where an entry stands in its life.
pub enum Phase {
    /// Nothing is stored under the key.
    Absent,
    /// What is stored under the key is served.
    Fresh,
    /// What is stored under the key is too old to be served.
    Stale,
}

impl<V> CacheState<V> {
    /// Where the entry of `key` stands at `now`.
    pub open spec fn phase(self, key: Seq<char>, now: nat) -> Phase {
        if !self.entries.dom().contains(key) {
            Phase::Absent
        } else if age(self.entries[key].stored_at, now) < self.ttl_ms {
            Phase::Fresh
        } else {
            Phase::Stale
        }
    }

    /// Whether `key` has an entry that is still fresh at `now`.
    pub open spec fn is_fresh(self, key: Seq<char>, now: nat) -> bool {
        self.entries.dom().contains(key) && age(self.entries[key].stored_at, now) < self.ttl_ms
    }

    /// What the cache serves for `key` at `now`.
    pub open spec fn lookup(self, key: Seq<char>, now: nat) -> Option<V> {
        if self.is_fresh(key, now) {
            Some(self.entries[key].value)
        } else {
            None
        }
    }

    /// The cache after `value` is stored under `key` at `now`.
    pub open spec fn after_put(self, key: Seq<char>, value: V, now: nat) -> CacheState<V> {
        CacheState {
            ttl_ms: self.ttl_ms,
            entries: self.entries.insert(key, EntryState { value, stored_at: now }),
        }
    }

    /// The cache without the entries that are stale at `now`.
    pub open spec fn after_purge(self, now: nat) -> CacheState<V> {
        CacheState {
            ttl_ms: self.ttl_ms,
            entries: self.entries.restrict(Set::new(|k: Seq<char>| self.is_fresh(k, now))),
        }
    }
}

/// A value that was just stored is served: a get at any time at which less
/// than the time to live has passed since the put returns that value. With a
/// time to live of zero there is no such time, and nothing is ever served.
pub proof fn lemma_put_then_get<V>(
    s: CacheState<V>,
    key: Seq<char>,
    value: V,
    now: nat,
    later: nat,
)
    requires
        age(now, later) < s.ttl_ms,
    ensures
        s.after_put(key, value, now).lookup(key, later) == Some(value),
        s.after_put(key, value, now).lookup(key, now) == Some(value),
{
}

/// A stored value is stale once the time to live has passed: a get at or
/// after `now + ttl` returns nothing.
pub proof fn lemma_put_then_expired<V>(
    s: CacheState<V>,
    key: Seq<char>,
    value: V,
    now: nat,
    later: nat,
)
    requires
        later >= now + s.ttl_ms,
    ensures
        s.after_put(key, value, now).lookup(key, later) is None,
{
}

/// The last write wins: of two puts under one key only the second is left,
/// as if the first had never been made.
pub proof fn lemma_last_write_wins<V>(
    s: CacheState<V>,
    key: Seq<char>,
    first: V,
    t1: nat,
    second: V,
    t2: nat,
    later: nat,
)
    ensures
        s.after_put(key, first, t1).after_put(key, second, t2) == s.after_put(key, second, t2),
        age(t2, later) < s.ttl_ms ==> s.after_put(key, first, t1).after_put(
            key,
            second,
            t2,
        ).lookup(key, later) == Some(second),
        age(t2, later) >= s.ttl_ms ==> s.after_put(key, first, t1).after_put(
            key,
            second,
            t2,
        ).lookup(key, later) is None,
{
    assert(s.after_put(key, first, t1).after_put(key, second, t2).entries =~= s.after_put(
        key,
        second,
        t2,
    ).entries);
}

/// A put under one key changes nothing that is served under another.
pub proof fn lemma_put_leaves_others<V>(
    s: CacheState<V>,
    key: Seq<char>,
    value: V,
    now: nat,
    other: Seq<char>,
    later: nat,
)
    requires
        other != key,
    ensures
        s.after_put(key, value, now).lookup(other, later) == s.lookup(other, later),
{
}

/// Freshness only ever ends: an entry that is stale at one time is stale at
/// every later time, until it is written again.
pub proof fn lemma_stale_stays_stale<V>(s: CacheState<V>, key: Seq<char>, now: nat, later: nat)
    requires
        now <= later,
        s.lookup(key, now) is None,
    ensures
        s.lookup(key, later) is None,
{
}

/// The life of an entry. It is served exactly while it is fresh. A put
/// makes it fresh, from absent, fresh or stale, for as long as the time to
/// live lasts, and stale from then on. Time alone never brings an entry
/// into being, nor makes a stale one fresh, nor takes one away. A purge
/// takes the stale entries away and leaves the others as they are.
pub proof fn lemma_entry_life<V>(
    s: CacheState<V>,
    key: Seq<char>,
    value: V,
    now: nat,
    later: nat,
)
    requires
        now <= later,
    ensures
        s.lookup(key, now) is Some <==> s.phase(key, now) is Fresh,
        s.after_put(key, value, now).phase(key, later) == if later - now < s.ttl_ms {
            Phase::Fresh
        } else {
            Phase::Stale
        },
        s.phase(key, now) is Absent <==> s.phase(key, later) is Absent,
        s.phase(key, now) is Stale ==> s.phase(key, later) is Stale,
        s.after_purge(now).phase(key, now) == if s.phase(key, now) is Stale {
            Phase::Absent
        } else {
            s.phase(key, now)
        },
{
}

/// A purge takes nothing away that would still be served: at the time of
/// the purge and at any later time, the purged cache serves what the cache
/// served.
pub proof fn lemma_purge_serves_the_same<V>(
    s: CacheState<V>,
    now: nat,
    key: Seq<char>,
    later: nat,
)
    requires
        now <= later,
    ensures
        s.after_purge(now).lookup(key, later) == s.lookup(key, later),
        forall|k: Seq<char>|
            s.after_purge(now).entries.dom().contains(k) ==> #[trigger] s.after_purge(
                now,
            ).is_fresh(k, now),
{
}

struct Slot<V> {
    key: String,
    value: V,
    stored_at: u64,
}

/// A cache from string keys to values of type `V`.
pub struct TTLCache<V> {
    ttl_ms: u64,
    clock: Clock,
    slots: Vec<Slot<V>>,
}

spec fn has_key<V>(slots: Seq<Slot<V>>, key: Seq<char>) -> bool {
    exists|i: int| 0 <= i < slots.len() && (#[trigger] slots[i]).key@ == key
}

spec fn index_of<V>(slots: Seq<Slot<V>>, key: Seq<char>) -> int {
    choose|i: int| 0 <= i < slots.len() && (#[trigger] slots[i]).key@ == key
}

spec fn distinct_keys<V>(slots: Seq<Slot<V>>) -> bool {
    forall|i: int, j: int|
        0 <= i < slots.len() && 0 <= j < slots.len() && i != j ==> (#[trigger] slots[i]).key@ != (
        #[trigger] slots[j]).key@
}

spec fn slot_is_fresh<V>(slot: Slot<V>, ttl_ms: u64, now_ms: u64) -> bool {
    age(slot.stored_at as nat, now_ms as nat) < ttl_ms
}

spec fn entry_of<V>(slot: Slot<V>) -> EntryState<V> {
    EntryState { value: slot.value, stored_at: slot.stored_at as nat }
}

spec fn entries_of<V>(slots: Seq<Slot<V>>) -> Map<Seq<char>, EntryState<V>> {
    Map::new(|k: Seq<char>| has_key(slots, k), |k: Seq<char>| entry_of(slots[index_of(slots, k)]))
}

proof fn lemma_entry_at<V>(slots: Seq<Slot<V>>, i: int)
    requires
        distinct_keys(slots),
        0 <= i < slots.len(),
    ensures
        has_key(slots, slots[i].key@),
        index_of(slots, slots[i].key@) == i,
        entries_of(slots).dom().contains(slots[i].key@),
        entries_of(slots)[slots[i].key@] == entry_of(slots[i]),
{
}

proof fn lemma_replace_slot<V>(before: Seq<Slot<V>>, i: int, slot: Slot<V>)
    requires
        distinct_keys(before),
        0 <= i < before.len(),
        slot.key@ == before[i].key@,
    ensures
        distinct_keys(before.update(i, slot)),
        entries_of(before.update(i, slot)) == entries_of(before).insert(
            slot.key@,
            entry_of(slot),
        ),
{
    let after = before.update(i, slot);
    assert forall|q: Seq<char>| has_key(after, q) == has_key(before, q) by {
        if has_key(after, q) {
            let j = index_of(after, q);
            assert(before[j].key@ == q);
        }
        if has_key(before, q) {
            let j = index_of(before, q);
            assert(after[j].key@ == q);
        }
    }
    assert forall|q: Seq<char>| has_key(after, q) implies entries_of(after)[q] == entries_of(
        before,
    ).insert(slot.key@, entry_of(slot))[q] by {
        let j = index_of(after, q);
        lemma_entry_at(after, j);
        if j != i {
            lemma_entry_at(before, j);
        }
    }
    lemma_entry_at(before, i);
    assert(entries_of(after) =~= entries_of(before).insert(slot.key@, entry_of(slot)));
}

proof fn lemma_add_slot<V>(before: Seq<Slot<V>>, slot: Slot<V>)
    requires
        distinct_keys(before),
        !has_key(before, slot.key@),
    ensures
        distinct_keys(before.push(slot)),
        entries_of(before.push(slot)) == entries_of(before).insert(slot.key@, entry_of(slot)),
{
    let after = before.push(slot);
    let last = before.len() as int;
    assert(after[last].key@ == slot.key@);
    assert forall|q: Seq<char>| has_key(after, q) == (has_key(before, q) || q == slot.key@) by {
        if has_key(after, q) {
            let j = index_of(after, q);
            if j < last {
                assert(before[j].key@ == q);
            }
        }
        if has_key(before, q) {
            let j = index_of(before, q);
            assert(after[j].key@ == q);
        }
    }
    assert forall|q: Seq<char>| has_key(after, q) implies entries_of(after)[q] == entries_of(
        before,
    ).insert(slot.key@, entry_of(slot))[q] by {
        let j = index_of(after, q);
        lemma_entry_at(after, j);
        if j < last {
            lemma_entry_at(before, j);
        }
    }
    assert(entries_of(after) =~= entries_of(before).insert(slot.key@, entry_of(slot)));
}

/// `kept` holds the slots of `before` from `from` on that are fresh, each
/// once, and nothing else.
spec fn holds_fresh_tail<V>(
    kept: Seq<Slot<V>>,
    before: Seq<Slot<V>>,
    from: int,
    ttl_ms: u64,
    now_ms: u64,
) -> bool {
    &&& distinct_keys(kept)
    &&& forall|i: int|
        0 <= i < kept.len() ==> {
            &&& slot_is_fresh(#[trigger] kept[i], ttl_ms, now_ms)
            &&& exists|j: int| from <= j < before.len() && #[trigger] before[j] == kept[i]
        }
    &&& forall|j: int|
        from <= j < before.len() && slot_is_fresh(#[trigger] before[j], ttl_ms, now_ms)
            ==> exists|i: int| 0 <= i < kept.len() && #[trigger] kept[i] == before[j]
}

proof fn lemma_keep_fresh_slot<V>(
    kept: Seq<Slot<V>>,
    before: Seq<Slot<V>>,
    n: int,
    ttl_ms: u64,
    now_ms: u64,
)
    requires
        distinct_keys(before),
        0 <= n < before.len(),
        holds_fresh_tail(kept, before, n + 1, ttl_ms, now_ms),
    ensures
        slot_is_fresh(before[n], ttl_ms, now_ms) ==> holds_fresh_tail(
            kept.push(before[n]),
            before,
            n,
            ttl_ms,
            now_ms,
        ),
        !slot_is_fresh(before[n], ttl_ms, now_ms) ==> holds_fresh_tail(
            kept,
            before,
            n,
            ttl_ms,
            now_ms,
        ),
{
    if slot_is_fresh(before[n], ttl_ms, now_ms) {
        let more = kept.push(before[n]);
        let last = kept.len() as int;
        assert forall|a: int, b: int|
            0 <= a < more.len() && 0 <= b < more.len() && a != b implies (#[trigger] more[a]).key@
            != (#[trigger] more[b]).key@ by {
            if a < last && b == last {
                let j = choose|j: int| n + 1 <= j < before.len() && #[trigger] before[j] == kept[a];
            } else if b < last && a == last {
                let j = choose|j: int| n + 1 <= j < before.len() && #[trigger] before[j] == kept[b];
            }
        }
        assert forall|i: int| 0 <= i < more.len() implies {
            &&& slot_is_fresh(#[trigger] more[i], ttl_ms, now_ms)
            &&& exists|j: int| n <= j < before.len() && #[trigger] before[j] == more[i]
        } by {
            if i < last {
                let j = choose|j: int| n + 1 <= j < before.len() && #[trigger] before[j] == kept[i];
                assert(before[j] == more[i]);
            } else {
                assert(before[n] == more[i]);
            }
        }
        assert forall|j: int|
            n <= j < before.len() && slot_is_fresh(
                #[trigger] before[j],
                ttl_ms,
                now_ms,
            ) implies exists|i: int| 0 <= i < more.len() && #[trigger] more[i] == before[j] by {
            if j == n {
                assert(more[last] == before[j]);
            } else {
                let i = choose|i: int| 0 <= i < kept.len() && #[trigger] kept[i] == before[j];
                assert(more[i] == before[j]);
            }
        }
    }
}

proof fn lemma_fresh_slots_are_the_purge<V>(
    kept: Seq<Slot<V>>,
    before: Seq<Slot<V>>,
    ttl_ms: u64,
    now_ms: u64,
)
    requires
        distinct_keys(before),
        holds_fresh_tail(kept, before, 0, ttl_ms, now_ms),
    ensures
        entries_of(kept) == (CacheState {
            ttl_ms: ttl_ms as nat,
            entries: entries_of(before),
        }).after_purge(now_ms as nat).entries,
{
    let target = (CacheState {
        ttl_ms: ttl_ms as nat,
        entries: entries_of(before),
    }).after_purge(now_ms as nat).entries;
    assert forall|q: Seq<char>| has_key(kept, q) <==> target.dom().contains(q) by {
        if has_key(kept, q) {
            let i = index_of(kept, q);
            let j = choose|j: int| 0 <= j < before.len() && #[trigger] before[j] == kept[i];
            lemma_entry_at(before, j);
        }
        if target.dom().contains(q) {
            let j = index_of(before, q);
            lemma_entry_at(before, j);
            let i = choose|i: int| 0 <= i < kept.len() && #[trigger] kept[i] == before[j];
            assert(kept[i].key@ == q);
        }
    }
    assert forall|q: Seq<char>| has_key(kept, q) implies entries_of(kept)[q] == target[q] by {
        let i = index_of(kept, q);
        lemma_entry_at(kept, i);
        let j = choose|j: int| 0 <= j < before.len() && #[trigger] before[j] == kept[i];
        lemma_entry_at(before, j);
    }
    assert(entries_of(kept) =~= target);
}

impl<V> View for TTLCache<V> {
    type V = CacheState<V>;

    closed spec fn view(&self) -> CacheState<V> {
        CacheState { ttl_ms: self.ttl_ms as nat, entries: entries_of(self.slots@) }
    }
}

impl<V> TTLCache<V> {
    /// The cache's invariant: no key is stored twice.
    pub closed spec fn wf(&self) -> bool {
        distinct_keys(self.slots@)
    }

    /// An empty cache whose entries live for `ttl_ms` milliseconds.
    pub fn new(ttl_ms: u64) -> (cache: TTLCache<V>)
        ensures
            cache.wf(),
            cache@.ttl_ms == ttl_ms,
            cache@.entries == Map::<Seq<char>, EntryState<V>>::empty(),
    {
        let cache = TTLCache { ttl_ms, clock: Clock::start(), slots: Vec::new() };
        cache
    }

    /// The time to live, in milliseconds.
    pub fn ttl_ms(&self) -> (ttl: u64)
        ensures
            ttl == self@.ttl_ms,
    {
        self.ttl_ms
    }

    fn find(&self, key: &String) -> (found: Option<usize>)
        ensures
            match found {
                Some(i) => i < self.slots.len() && self.slots[i as int].key@ == key@,
                None => !has_key(self.slots@, key@),
            },
    {
        let mut i: usize = 0;
        while i < self.slots.len()
            invariant
                i <= self.slots.len(),
                forall|j: int| 0 <= j < i ==> (#[trigger] self.slots[j]).key@ != key@,
            decreases self.slots.len() - i,
        {
            if self.slots[i].key == *key {
                return Some(i);
            }
            i = i + 1;
        }
        None
    }

    /// A reading of the cache's own clock, in milliseconds since the cache
    /// was made. Nothing is claimed of it.
    pub fn now_ms(&self) -> (now_ms: u64) {
        self.clock.elapsed_ms()
    }

    /// The value stored under `key`, if it is still fresh at `now_ms`, a
    /// reading of the clock that the entries are stamped with. Nothing is
    /// removed.
    pub fn get_at(&self, key: &str, now_ms: u64) -> (res: Option<&V>)
        requires
            self.wf(),
        ensures
            match res {
                Some(v) => self@.lookup(key@, now_ms as nat) == Some(*v),
                None => self@.lookup(key@, now_ms as nat) is None,
            },
    {
        let owned = key.to_owned();
        match self.find(&owned) {
            Some(i) => {
                proof {
                    lemma_entry_at(self.slots@, i as int);
                }
                let slot = &self.slots[i];
                let elapsed = if now_ms >= slot.stored_at {
                    now_ms - slot.stored_at
                } else {
                    0
                };
                if elapsed < self.ttl_ms {
                    Some(&slot.value)
                } else {
                    None
                }
            },
            None => None,
        }
    }

    /// Stores `value` under `key` as of `now_ms`, replacing whatever was
    /// stored under that key, fresh or stale.
    pub fn put_at(&mut self, key: String, value: V, now_ms: u64)
        requires
            old(self).wf(),
        ensures
            final(self).wf(),
            final(self)@ == old(self)@.after_put(key@, value, now_ms as nat),
    {
        let found = self.find(&key);
        let slot = Slot { key, value, stored_at: now_ms };
        match found {
            Some(i) => {
                proof {
                    lemma_replace_slot(self.slots@, i as int, slot);
                }
                self.slots.set(i, slot);
            },
            None => {
                proof {
                    lemma_add_slot(self.slots@, slot);
                }
                self.slots.push(slot);
            },
        }
    }

    /// The value stored under `key`, if it is still fresh by the cache's own
    /// clock. Whatever the clock reads, what is returned is what `get_at`
    /// returns for that reading.
    pub fn get(&self, key: &str) -> (res: Option<&V>)
        requires
            self.wf(),
        ensures
            exists|now_ms: u64|
                match res {
                    Some(v) => #[trigger] self@.lookup(key@, now_ms as nat) == Some(*v),
                    None => self@.lookup(key@, now_ms as nat) is None,
                },
            res matches Some(v) ==> self@.entries.dom().contains(key@) && self@.entries[key@].value
                == *v,
    {
        let now_ms = self.now_ms();
        self.get_at(key, now_ms)
    }

    /// Stores `value` under `key` as of the cache's own clock, replacing
    /// whatever was stored under that key.
    pub fn put(&mut self, key: String, value: V)
        requires
            old(self).wf(),
        ensures
            final(self).wf(),
            exists|now_ms: u64|
                final(self)@ == #[trigger] old(self)@.after_put(key@, value, now_ms as nat),
            final(self)@.ttl_ms == old(self)@.ttl_ms,
            final(self)@.entries.dom() == old(self)@.entries.dom().insert(key@),
            final(self)@.entries[key@].value == value,
    {
        let now_ms = self.now_ms();
        self.put_at(key, value, now_ms);
    }

    /// Whether anything is stored under `key`, fresh or stale.
    pub fn is_stored(&self, key: &str) -> (stored: bool)
        ensures
            stored == self@.entries.dom().contains(key@),
    {
        let owned = key.to_owned();
        self.find(&owned).is_some()
    }

    /// Drops the entries that are stale at `now_ms`. What the cache serves
    /// is not changed by it.
    pub fn purge_expired(&mut self, now_ms: u64)
        requires
            old(self).wf(),
        ensures
            final(self).wf(),
            final(self)@ == old(self)@.after_purge(now_ms as nat),
    {
        let ghost before = self.slots@;
        let ttl_ms = self.ttl_ms;
        let mut kept: Vec<Slot<V>> = Vec::new();
        while self.slots.len() > 0
            invariant
                self.ttl_ms == ttl_ms,
                distinct_keys(before),
                self.slots.len() <= before.len(),
                self.slots@ == before.take(self.slots.len() as int),
                holds_fresh_tail(kept@, before, self.slots.len() as int, ttl_ms, now_ms),
            decreases self.slots.len(),
        {
            proof {
                lemma_keep_fresh_slot(kept@, before, self.slots.len() - 1, ttl_ms, now_ms);
            }
            let slot = self.slots.pop().unwrap();
            let elapsed = if now_ms >= slot.stored_at {
                now_ms - slot.stored_at
            } else {
                0
            };
            if elapsed < ttl_ms {
                kept.push(slot);
            }
        }
        proof {
            lemma_fresh_slots_are_the_purge(kept@, before, ttl_ms, now_ms);
        }
        self.slots = kept;
    }
}

} // verus!
