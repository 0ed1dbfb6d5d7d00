//! The latest top-of-book snapshot of each instrument, keyed by token id.

use crate::fixed::Fixed;
use vstd::prelude::*;

verus! {

/// A book level: price and size.
pub type Level = (Fixed, Fixed);

/// The latest book of one instrument: bids best first, asks best first,
/// and when it was stored.
#[derive(Clone, Debug)]
pub struct CachedOrderbook {
    pub bids: Vec<Level>,
    pub asks: Vec<Level>,
    pub last_update_ms: u128,
}

impl View for CachedOrderbook {
    type V = (Seq<Level>, Seq<Level>, u128);

    open spec fn view(&self) -> Self::V {
        (self.bids@, self.asks@, self.last_update_ms)
    }
}

/// The stamp that an update at clock reading `now` gives to key `k`:
/// the reading itself, unless an earlier update of `k` was stamped later.
pub open spec fn stamp_after(
    m: Map<Seq<char>, (Seq<Level>, Seq<Level>, u128)>,
    k: Seq<char>,
    now: u128,
) -> u128 {
    if m.contains_key(k) && m[k].2 > now {
        m[k].2
    } else {
        now
    }
}

/// The cache contents after storing bids `b` and asks `a` for key `k`.
pub open spec fn after_update(
    m: Map<Seq<char>, (Seq<Level>, Seq<Level>, u128)>,
    k: Seq<char>,
    b: Seq<Level>,
    a: Seq<Level>,
    now: u128,
) -> Map<Seq<char>, (Seq<Level>, Seq<Level>, u128)> {
    m.insert(k, (b, a, stamp_after(m, k, now)))
}

/// Storing bids `b` and asks `a` for key `k` and then reading `k` gives back
/// exactly `b` and `a`; the stamp of `k` is at least the clock reading and
/// never below its previous stamp, so successive stamps of one key never
/// decrease; every other key keeps its book.
pub proof fn lemma_update_then_get(
    m: Map<Seq<char>, (Seq<Level>, Seq<Level>, u128)>,
    k: Seq<char>,
    b: Seq<Level>,
    a: Seq<Level>,
    now: u128,
)
    ensures
        after_update(m, k, b, a, now).contains_key(k),
        after_update(m, k, b, a, now)[k].0 == b,
        after_update(m, k, b, a, now)[k].1 == a,
        after_update(m, k, b, a, now)[k].2 >= now,
        m.contains_key(k) ==> after_update(m, k, b, a, now)[k].2 >= m[k].2,
        forall|k2: Seq<char>|
            k2 != k ==> (#[trigger] after_update(m, k, b, a, now).contains_key(k2) == m.contains_key(k2))
                && (m.contains_key(k2) ==> after_update(m, k, b, a, now)[k2] == m[k2]),
{
}

/// Mapping from token id to its most recent book; each update replaces the
/// whole book of its token.
///
/// The entries are pairs with distinct ids, not a `HashMap`: vstd specifies
/// a hash map's contents only for keys whose hashing it models, and a
/// `String` key is not one of them.
#[derive(Clone, Debug)]
pub struct PriceCache {
    entries: Vec<(String, CachedOrderbook)>,
}

impl PriceCache {
    /// No token id is stored twice.
    pub closed spec fn wf(self) -> bool {
        forall|i: int, j: int|
            0 <= i < j < self.entries.len() ==> #[trigger] self.entries[i].0@
                != #[trigger] self.entries[j].0@
    }

    pub closed spec fn has(self, k: Seq<char>) -> bool {
        exists|i: int| 0 <= i < self.entries.len() && #[trigger] self.entries[i].0@ == k
    }

    pub closed spec fn index_of(self, k: Seq<char>) -> int {
        choose|i: int| 0 <= i < self.entries.len() && #[trigger] self.entries[i].0@ == k
    }

    /// The stored books, by token id.
    pub closed spec fn view(self) -> Map<Seq<char>, (Seq<Level>, Seq<Level>, u128)> {
        Map::new(|k: Seq<char>| self.has(k), |k: Seq<char>| self.entries[self.index_of(k)].1@)
    }

    proof fn lemma_index_of(self, i: int)
        requires
            self.wf(),
            0 <= i < self.entries.len(),
        ensures
            self.has(self.entries[i].0@),
            self.index_of(self.entries[i].0@) == i,
    {
        let k = self.entries[i].0@;
        assert(self.has(k));
        let j = self.index_of(k);
        if j < i {
            assert(self.entries[j].0@ != self.entries[i].0@);
        } else if i < j {
            assert(self.entries[i].0@ != self.entries[j].0@);
        }
    }

    /// An empty cache.
    pub fn new() -> (r: Self)
        ensures
            r.wf(),
            r@ == Map::<Seq<char>, (Seq<Level>, Seq<Level>, u128)>::empty(),
    {
        let r = PriceCache { entries: Vec::new() };
        assert(r@ =~= Map::<Seq<char>, (Seq<Level>, Seq<Level>, u128)>::empty());
        r
    }

    /// Replaces the book of `token_id` with `bids` and `asks`, stamped with
    /// the clock reading `now_ms`; a stamp never moves backwards.
    pub fn update(&mut self, token_id: &str, bids: Vec<Level>, asks: Vec<Level>, now_ms: u128)
        requires
            old(self).wf(),
        ensures
            final(self).wf(),
            final(self)@ == after_update(old(self)@, token_id@, bids@, asks@, now_ms),
    {
        let key = token_id.to_owned();
        let ghost old_self = *self;
        let mut i: usize = 0;
        while i < self.entries.len()
            invariant
                *self == old_self,
                old_self == *old(self),
                self.wf(),
                key@ == token_id@,
                0 <= i <= self.entries.len(),
                forall|j: int| 0 <= j < i ==> #[trigger] self.entries[j].0@ != key@,
            decreases self.entries.len() - i,
        {
            if self.entries[i].0 == key {
                proof {
                    self.lemma_index_of(i as int);
                }
                let prev = self.entries[i].1.last_update_ms;
                let stamp: u128 = if prev > now_ms { prev } else { now_ms };
                let book = CachedOrderbook { bids, asks, last_update_ms: stamp };
                self.entries.set(i, (key, book));
                proof {
                    let m = after_update(old_self@, token_id@, bids@, asks@, now_ms);
                    assert(self.wf()) by {
                        assert forall|a: int, b: int|
                            0 <= a < b < self.entries.len() implies #[trigger] self.entries[a].0@
                            != #[trigger] self.entries[b].0@ by {
                            assert(old_self.entries[a].0@ != old_self.entries[b].0@);
                        }
                    }
                    assert forall|k: Seq<char>| #[trigger] m.contains_key(k) implies self.has(k) && self@[k] == m[k] by {
                        if k == token_id@ {
                            self.lemma_index_of(i as int);
                        } else {
                            let j = old_self.index_of(k);
                            old_self.lemma_index_of(j);
                            self.lemma_index_of(j);
                        }
                    }
                    assert forall|k: Seq<char>| #[trigger] self.has(k) implies m.contains_key(k) by {
                        let j = self.index_of(k);
                        if j != i {
                            assert(old_self.entries[j].0@ == k);
                        }
                    }
                    assert(self@ =~= m);
                }
                return;
            }
            i = i + 1;
        }
        let book = CachedOrderbook { bids, asks, last_update_ms: now_ms };
        proof {
            assert(!old_self.has(token_id@));
        }
        self.entries.push((key, book));
        proof {
            let m = after_update(old_self@, token_id@, bids@, asks@, now_ms);
            let n = old_self.entries.len() as int;
            assert(self.wf()) by {
                assert forall|a: int, b: int|
                    0 <= a < b < self.entries.len() implies #[trigger] self.entries[a].0@
                    != #[trigger] self.entries[b].0@ by {
                    if b < n {
                        assert(old_self.entries[a].0@ != old_self.entries[b].0@);
                    } else {
                        assert(old_self.entries[a].0@ != key@);
                    }
                }
            }
            assert forall|k: Seq<char>| #[trigger] m.contains_key(k) implies self.has(k) && self@[k] == m[k] by {
                if k == token_id@ {
                    self.lemma_index_of(n);
                } else {
                    let j = old_self.index_of(k);
                    old_self.lemma_index_of(j);
                    self.lemma_index_of(j);
                }
            }
            assert forall|k: Seq<char>| #[trigger] self.has(k) implies m.contains_key(k) by {
                let j = self.index_of(k);
                if j != n {
                    assert(old_self.entries[j].0@ == k);
                }
            }
            assert(self@ =~= m);
        }
    }

    /// A copy of the latest book of `token_id`, or `None` if it was never stored.
    pub fn get(&self, token_id: &str) -> (r: Option<CachedOrderbook>)
        requires
            self.wf(),
        ensures
            r is Some <==> self@.contains_key(token_id@),
            r is Some ==> r->0@ == self@[token_id@],
    {
        let key = token_id.to_owned();
        let mut i: usize = 0;
        while i < self.entries.len()
            invariant
                self.wf(),
                key@ == token_id@,
                0 <= i <= self.entries.len(),
                forall|j: int| 0 <= j < i ==> #[trigger] self.entries[j].0@ != key@,
            decreases self.entries.len() - i,
        {
            if self.entries[i].0 == key {
                proof {
                    self.lemma_index_of(i as int);
                }
                let book = &self.entries[i].1;
                return Some(
                    CachedOrderbook {
                        bids: copy_levels(&book.bids),
                        asks: copy_levels(&book.asks),
                        last_update_ms: book.last_update_ms,
                    },
                );
            }
            i = i + 1;
        }
        None
    }
}

/// A fresh vector holding the same levels.
pub fn copy_levels(v: &Vec<Level>) -> (r: Vec<Level>)
    ensures
        r@ == v@,
{
    let mut r: Vec<Level> = Vec::new();
    let mut i: usize = 0;
    while i < v.len()
        invariant
            0 <= i <= v.len(),
            r@ == v@.subrange(0, i as int),
        decreases v.len() - i,
    {
        r.push(v[i]);
        i = i + 1;
        assert(r@ =~= v@.subrange(0, i as int));
    }
    assert(r@ =~= v@);
    r
}

/// Relies on `std::time::SystemTime::now` and `duration_since`: milliseconds
/// since the Unix epoch, or `None` when the clock reads earlier than the
/// epoch. Nothing is promised of the reading, which may even go backwards.
#[verifier::external_body]
fn unix_millis() -> Option<u128> {
    std::time::SystemTime::now().duration_since(std::time::UNIX_EPOCH).ok().map(|d| d.as_millis())
}

/// Milliseconds since the Unix epoch on the system clock, or zero when the
/// clock reads earlier than the epoch.
pub fn now_ms() -> u128 {
    match unix_millis() {
        Some(ms) => ms,
        None => 0,
    }
}

} // verus!
