//! The response cache: a value per key that lives for a fixed time after it
//! was stored, with at most one fetch in flight per key. The caller runs the
//! fetch and reports how it ended; other callers for the same key wait for
//! that outcome instead of fetching again.
use vstd::prelude::*;

verus! {

/// How many entries the service's response caches keep.
pub const RESPONSE_CACHE_CAPACITY: usize = 100;

/// What the cache holds for a key.
pub enum Slot<V> {
    /// A fetch for the key is in flight.
    Pending,
    /// The value fetched, and the second at which it was stored.
    Ready { value: V, inserted_at: i64 },
}

/// What a caller asking for a key must do.
#[derive(PartialEq, Eq, Structural, Clone, Copy, Debug)]
pub enum CacheStep {
    /// A live value is stored: use it.
    Hit,
    /// Nothing usable is stored and no fetch is in flight: this caller fetches.
    Fetch,
    /// A fetch is in flight: wait for its outcome.
    Join,
}

/// Whether `slot` holds a value that is still live at `now`.
pub open spec fn live<V>(slot: Slot<V>, now: int, ttl: int) -> bool {
    match slot {
        Slot::Ready { inserted_at, .. } => now < inserted_at + ttl,
        Slot::Pending => false,
    }
}

/// What a caller asking for `k` at `now` must do.
pub open spec fn begin_step<V>(m: Map<Seq<char>, Slot<V>>, k: Seq<char>, now: int, ttl: int) -> CacheStep {
    if m.contains_key(k) && m[k] is Pending {
        CacheStep::Join
    } else if m.contains_key(k) && live(m[k], now, ttl) {
        CacheStep::Hit
    } else {
        CacheStep::Fetch
    }
}

/// The cache's contents after that request: a caller told to fetch leaves
/// the key marked as in flight.
pub open spec fn begin_next<V>(m: Map<Seq<char>, Slot<V>>, k: Seq<char>, now: int, ttl: int) -> Map<
    Seq<char>,
    Slot<V>,
> {
    if begin_step(m, k, now, ttl) == CacheStep::Fetch {
        m.insert(k, Slot::Pending)
    } else {
        m
    }
}

struct CacheEntry<V> {
    key: String,
    slot: Slot<V>,
}

/// A time-to-live cache keyed by strings, with single-flight fetching.
pub struct ResponseCache<V> {
    entries: Vec<CacheEntry<V>>,
    ttl_secs: u64,
    capacity: usize,
    contents: Ghost<Map<Seq<char>, Slot<V>>>,
}

impl<V> View for ResponseCache<V> {
    type V = Map<Seq<char>, Slot<V>>;

    closed spec fn view(&self) -> Map<Seq<char>, Slot<V>> {
        self.contents@
    }
}

impl<V> ResponseCache<V> {
    /// Seconds a stored value stays live.
    pub closed spec fn ttl(&self) -> int {
        self.ttl_secs as int
    }

    /// How many entries the cache keeps before it drops stored values.
    pub closed spec fn capacity(&self) -> int {
        self.capacity as int
    }

    /// How many keys the cache holds.
    pub closed spec fn size(&self) -> int {
        self.entries@.len() as int
    }

    /// The entries' keys are distinct, and the entries are the contents.
    pub closed spec fn wf(&self) -> bool {
        &&& forall|i: int, j: int|
            0 <= i < j < self.entries@.len() ==> (#[trigger] self.entries@[i]).key@
                != (#[trigger] self.entries@[j]).key@
        &&& forall|i: int|
            0 <= i < self.entries@.len() ==> self.contents@.contains_key(
                (#[trigger] self.entries@[i]).key@,
            ) && self.contents@[self.entries@[i].key@] == self.entries@[i].slot
        &&& forall|k: Seq<char>|
            #[trigger] self.contents@.contains_key(k) ==> exists|i: int|
                0 <= i < self.entries@.len() && (#[trigger] self.entries@[i]).key@ == k
    }

    /// An empty cache whose values live `ttl_secs` seconds, keeping about
    /// `capacity` entries.
    pub fn new(ttl_secs: u64, capacity: usize) -> (r: Self)
        ensures
            r.wf(),
            r@ == Map::<Seq<char>, Slot<V>>::empty(),
            r.ttl() == ttl_secs,
            r.capacity() == capacity,
            r.size() == 0,
    {
        ResponseCache { entries: Vec::new(), ttl_secs, capacity, contents: Ghost(Map::empty()) }
    }

    fn find(&self, key: &str) -> (r: Option<usize>)
        requires
            self.wf(),
        ensures
            r matches Some(i) ==> i < self.entries@.len() && self.entries@[i as int].key@ == key@,
            r is None ==> !self@.contains_key(key@),
    {
        let n = self.entries.len();
        let mut i: usize = 0;
        while i < n
            invariant
                n == self.entries@.len(),
                i <= n,
                forall|j: int| 0 <= j < i ==> (#[trigger] self.entries@[j]).key@ != key@,
            decreases n - i,
        {
            if crate::text::str_eq(self.entries[i].key.as_str(), key) {
                return Some(i);
            }
            i = i + 1;
        }
        None
    }

    /// Drops the entry at `i`.
    fn remove_at(&mut self, i: usize)
        requires
            old(self).wf(),
            i < old(self).entries@.len(),
        ensures
            final(self).wf(),
            final(self)@ == old(self)@.remove(old(self).entries@[i as int].key@),
            final(self).entries@.len() == old(self).entries@.len() - 1,
            final(self).ttl_secs == old(self).ttl_secs,
            final(self).capacity == old(self).capacity,
    {
        let ghost k = self.entries@[i as int].key@;
        let ghost old_entries = self.entries@;
        let _ = self.entries.remove(i);
        self.contents = Ghost(self.contents@.remove(k));
        proof {
            assert forall|a: int| 0 <= a < self.entries@.len() implies #[trigger] self.entries@[a]
                == (if a < i { old_entries[a] } else { old_entries[a + 1] }) by {}
            assert forall|kk: Seq<char>| #[trigger] self.contents@.contains_key(kk) implies exists|a: int|
                0 <= a < self.entries@.len() && (#[trigger] self.entries@[a]).key@ == kk by {
                let b = choose|b: int| 0 <= b < old_entries.len() && (#[trigger] old_entries[b]).key@ == kk;
                assert(b != i);
                if b < i {
                    assert(self.entries@[b].key@ == kk);
                } else {
                    assert(self.entries@[b - 1].key@ == kk);
                }
            }
            assert forall|a: int, b: int| 0 <= a < b < self.entries@.len() implies (#[trigger] self.entries@[a]).key@
                != (#[trigger] self.entries@[b]).key@ by {
                let oa = if a < i { a } else { a + 1 };
                let ob = if b < i { b } else { b + 1 };
                assert(old_entries[oa].key@ != old_entries[ob].key@);
            }
            assert forall|a: int| 0 <= a < self.entries@.len() implies self.contents@.contains_key(
                (#[trigger] self.entries@[a]).key@,
            ) && self.contents@[self.entries@[a].key@] == self.entries@[a].slot by {
                let oa = if a < i { a } else { a + 1 };
                assert(old_entries[oa].key@ != old_entries[i as int].key@);
            }
        }
    }

    /// Adds an entry for a key the cache does not hold.
    fn push_new(&mut self, key: &str, slot: Slot<V>)
        requires
            old(self).wf(),
            !old(self)@.contains_key(key@),
        ensures
            final(self).wf(),
            final(self)@ == old(self)@.insert(key@, slot),
            final(self).entries@.len() == old(self).entries@.len() + 1,
            final(self).entries@.last().slot == slot,
            final(self).entries@.last().key@ == key@,
            final(self).ttl_secs == old(self).ttl_secs,
            final(self).capacity == old(self).capacity,
    {
        let ghost old_entries = self.entries@;
        let ghost s = slot;
        self.entries.push(CacheEntry { key: String::from_str(key), slot });
        self.contents = Ghost(self.contents@.insert(key@, s));
        proof {
            let n = old_entries.len() as int;
            assert forall|a: int| 0 <= a < n implies (#[trigger] old_entries[a]).key@ != key@ by {
                if old_entries[a].key@ == key@ {
                    assert(old(self)@.contains_key(old_entries[a].key@));
                }
            }
            assert forall|a: int, b: int| 0 <= a < b < self.entries@.len() implies (#[trigger] self.entries@[a]).key@
                != (#[trigger] self.entries@[b]).key@ by {
                assert(self.entries@[a] == old_entries[a]);
                if b < n {
                    assert(self.entries@[b] == old_entries[b]);
                }
            }
            assert forall|a: int| 0 <= a < self.entries@.len() implies self.contents@.contains_key(
                (#[trigger] self.entries@[a]).key@,
            ) && self.contents@[self.entries@[a].key@] == self.entries@[a].slot by {
                if a < n {
                    assert(self.entries@[a] == old_entries[a]);
                }
            }
            assert forall|kk: Seq<char>| #[trigger] self.contents@.contains_key(kk) implies exists|a: int|
                0 <= a < self.entries@.len() && (#[trigger] self.entries@[a]).key@ == kk by {
                if kk == key@ {
                    assert(self.entries@[n].key@ == kk);
                } else {
                    let b = choose|b: int| 0 <= b < old_entries.len() && (#[trigger] old_entries[b]).key@ == kk;
                    assert(self.entries@[b] == old_entries[b]);
                }
            }
        }
    }

    /// A caller asks for `key` at `now`. A live value is a `Hit`; a fetch in
    /// flight is a `Join`; otherwise this caller must `Fetch`, and the key is
    /// marked as in flight until `finish_ok` or `finish_err`.
    pub fn begin(&mut self, key: &str, now: i64) -> (r: CacheStep)
        requires
            old(self).wf(),
        ensures
            final(self).wf(),
            r == begin_step(old(self)@, key@, now as int, old(self).ttl()),
            final(self)@ == begin_next(old(self)@, key@, now as int, old(self).ttl()),
            final(self).ttl() == old(self).ttl(),
            final(self).capacity() == old(self).capacity(),
            final(self).size() <= old(self).size() + 1,
    {
        match self.find(key) {
            Some(i) => {
                let step = match &self.entries[i].slot {
                    Slot::Pending => CacheStep::Join,
                    Slot::Ready { inserted_at, .. } => {
                        if (now as i128) < (*inserted_at as i128) + (self.ttl_secs as i128) {
                            CacheStep::Hit
                        } else {
                            CacheStep::Fetch
                        }
                    },
                };
                if step == CacheStep::Fetch {
                    let ghost before = self@;
                    self.remove_at(i);
                    self.push_new(key, Slot::Pending);
                    assert(self@ =~= before.insert(key@, Slot::Pending));
                }
                step
            },
            None => {
                self.push_new(key, Slot::Pending);
                CacheStep::Fetch
            },
        }
    }

    /// Drops one stored value other than the entry at `keep`, if there is one.
    fn evict_one_ready(&mut self, keep: usize)
        requires
            old(self).wf(),
            keep < old(self).entries@.len(),
        ensures
            final(self).wf(),
            final(self).ttl_secs == old(self).ttl_secs,
            final(self).capacity == old(self).capacity,
            final(self).entries@.len() <= old(self).entries@.len(),
            final(self)@ == old(self)@ || exists|k2: Seq<char>|
                #![trigger old(self)@.remove(k2)]
                old(self)@.contains_key(k2) && old(self)@[k2] is Ready && k2
                    != old(self).entries@[keep as int].key@ && final(self)@ == old(self)@.remove(k2),
    {
        let n = self.entries.len();
        let mut j: usize = 0;
        while j < n
            invariant
                n == self.entries@.len(),
                j <= n,
                keep < n,
                self.wf(),
                self.entries@ == old(self).entries@,
                self.contents@ == old(self).contents@,
                self.ttl_secs == old(self).ttl_secs,
                self.capacity == old(self).capacity,
            decreases n - j,
        {
            if j != keep {
                if let Slot::Ready { .. } = &self.entries[j].slot {
                    let ghost k2 = self.entries@[j as int].key@;
                    proof {
                        assert(self.entries@[j as int].key@ != self.entries@[keep as int].key@) by {
                            if j < keep {
                                assert(self.entries@[j as int].key@ != self.entries@[keep as int].key@);
                            } else {
                                assert(self.entries@[keep as int].key@ != self.entries@[j as int].key@);
                            }
                        }
                        assert(self@[k2] == self.entries@[j as int].slot);
                    }
                    self.remove_at(j);
                    return;
                }
            }
            j = j + 1;
        }
    }

    /// The fetch for `key` succeeded at `now` with `value`: it is stored,
    /// live for the time-to-live from `now`. When the cache is then over its
    /// capacity, one other stored value is dropped; keys in flight are never
    /// dropped.
    pub fn finish_ok(&mut self, key: &str, value: V, now: i64)
        requires
            old(self).wf(),
        ensures
            final(self).wf(),
            final(self)@.contains_key(key@),
            final(self)@[key@] == (Slot::Ready { value, inserted_at: now }),
            forall|k2: Seq<char>|
                k2 != key@ && #[trigger] final(self)@.contains_key(k2) ==> old(self)@.contains_key(k2)
                    && final(self)@[k2] == old(self)@[k2],
            forall|k2: Seq<char>|
                k2 != key@ && #[trigger] old(self)@.contains_key(k2) && old(self)@[k2] is Pending
                    ==> final(self)@.contains_key(k2),
            old(self).size() < old(self).capacity() ==> final(self)@ == old(self)@.insert(
                key@,
                Slot::Ready { value, inserted_at: now },
            ),
            final(self).ttl() == old(self).ttl(),
            final(self).capacity() == old(self).capacity(),
    {
        let ghost slot = Slot::Ready { value, inserted_at: now };
        let ghost before = self@;
        if let Some(i) = self.find(key) {
            self.remove_at(i);
        }
        assert(self@ == before.remove(key@));
        self.push_new(key, Slot::Ready { value, inserted_at: now });
        let ghost mid = self@;
        assert(mid =~= before.insert(key@, slot));
        if self.entries.len() > self.capacity {
            let last = self.entries.len() - 1;
            self.evict_one_ready(last);
        }
    }

    /// The fetch for `key` failed: the key is forgotten, so that the next
    /// caller fetches afresh.
    pub fn finish_err(&mut self, key: &str)
        requires
            old(self).wf(),
        ensures
            final(self).wf(),
            final(self)@ == old(self)@.remove(key@),
            final(self).ttl() == old(self).ttl(),
            final(self).capacity() == old(self).capacity(),
    {
        match self.find(key) {
            Some(i) => self.remove_at(i),
            None => {
                assert(self@ =~= self@.remove(key@));
            },
        }
    }

    /// The value stored for `key`, live or not.
    pub fn ready_value(&self, key: &str) -> (r: Option<&V>)
        requires
            self.wf(),
        ensures
            r is Some == (self@.contains_key(key@) && self@[key@] is Ready),
            r matches Some(v) ==> (self@[key@] matches Slot::Ready { value, .. } && value == *v),
    {
        match self.find(key) {
            Some(i) => match &self.entries[i].slot {
                Slot::Ready { value, .. } => Some(value),
                Slot::Pending => None,
            },
            None => None,
        }
    }
}

/// Single flight: once a caller has been told to fetch a key, a second caller
/// for the same key, at any later time, is told to wait for that fetch
/// rather than fetch again.
pub proof fn lemma_single_flight<V>(m: Map<Seq<char>, Slot<V>>, k: Seq<char>, now1: int, now2: int, ttl: int)
    requires
        begin_step(m, k, now1, ttl) == CacheStep::Fetch,
    ensures
        begin_step(begin_next(m, k, now1, ttl), k, now2, ttl) == CacheStep::Join,
{
}

/// Requests for other keys leave a fetch in flight in place: the key stays
/// marked, and its next caller still waits.
pub proof fn lemma_flight_survives_other_keys<V>(
    m: Map<Seq<char>, Slot<V>>,
    k: Seq<char>,
    other: Seq<char>,
    now1: int,
    now2: int,
    ttl: int,
)
    requires
        m.contains_key(k),
        m[k] is Pending,
        other != k,
    ensures
        begin_step(begin_next(m, other, now1, ttl), k, now2, ttl) == CacheStep::Join,
{
}

/// A value stored at `t` is served without a fetch to every request before
/// `t` plus the time-to-live, and every request from then on fetches again.
pub proof fn lemma_value_lives_for_ttl<V>(
    m: Map<Seq<char>, Slot<V>>,
    k: Seq<char>,
    value: V,
    t: i64,
    now: int,
    ttl: int,
)
    requires
        m.contains_key(k),
        m[k] == (Slot::Ready { value, inserted_at: t }),
    ensures
        now < t + ttl ==> begin_step(m, k, now, ttl) == CacheStep::Hit,
        now >= t + ttl ==> begin_step(m, k, now, ttl) == CacheStep::Fetch,
{
}

} // verus!