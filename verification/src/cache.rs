//! The cache of history lookups: the outcome of each fetch, kept by its key
//! for a fixed time.

use vstd::prelude::*;
use vstd::string::*;

use crate::error::{HistoryError, HistoryErrorView};
use crate::history::{Category, OnThisDayResponse, ResponseView};

verus! {

/// The time for which an entry is served, in seconds: 24 hours.
pub const TTL_SECONDS: u64 = 86_400;

/// What a lookup is kept under: the language, the category, the month and
/// the day.
#[derive(Clone, Debug, PartialEq, Eq)]
pub struct CacheKey {
    pub language: String,
    pub category: Category,
    pub month: u32,
    pub day: u32,
}

/// A `CacheKey` as mathematical values.
pub struct CacheKeyView {
    pub language: Seq<char>,
    pub category: Category,
    pub month: int,
    pub day: int,
}

impl View for CacheKey {
    type V = CacheKeyView;

    open spec fn view(&self) -> CacheKeyView {
        CacheKeyView {
            language: self.language@,
            category: self.category,
            month: self.month as int,
            day: self.day as int,
        }
    }
}

/// How a fetch ended: with the decoded response, or with the failure.
pub type FetchOutcome = Result<OnThisDayResponse, HistoryError>;

/// A `FetchOutcome` as mathematical values.
pub type OutcomeView = Result<ResponseView, HistoryErrorView>;

/// The mathematical value of an outcome.
pub open spec fn outcome_view(outcome: FetchOutcome) -> OutcomeView {
    match outcome {
        Ok(response) => Ok(response@),
        Err(error) => Err(error@),
    }
}

/// What the cache holds under a key: an outcome, and the time at which it
/// was stored, in seconds of the clock that the caller reads.
pub struct CachedView {
    pub stored_at: int,
    pub outcome: OutcomeView,
}

/// Whether an entry stored at `stored_at` is still served at `now`: its age
/// is below the time to live. A clock that has not advanced leaves it live.
pub open spec fn is_live(stored_at: int, now: int) -> bool {
    now - stored_at < TTL_SECONDS
}

/// What a cache serves for `key` at `now`: the outcome of the entry under
/// that key while it is live, and nothing otherwise.
pub open spec fn served(cache: Map<CacheKeyView, CachedView>, key: CacheKeyView, now: int)
    -> Option<OutcomeView> {
    if cache.contains_key(key) && is_live(cache[key].stored_at, now) {
        Some(cache[key].outcome)
    } else {
        None
    }
}

struct CacheEntry {
    key: CacheKey,
    stored_at: u64,
    outcome: FetchOutcome,
}

impl CacheEntry {
    spec fn cached(self) -> CachedView {
        CachedView { stored_at: self.stored_at as int, outcome: outcome_view(self.outcome) }
    }
}

spec fn holds(entries: Seq<CacheEntry>, key: CacheKeyView) -> bool {
    exists|i: int| 0 <= i < entries.len() && (#[trigger] entries[i]).key@ == key
}

spec fn index_of(entries: Seq<CacheEntry>, key: CacheKeyView) -> int {
    choose|i: int| 0 <= i < entries.len() && (#[trigger] entries[i]).key@ == key
}

spec fn keys_distinct(entries: Seq<CacheEntry>) -> bool {
    forall|i: int, j: int|
        0 <= i < j < entries.len() ==> (#[trigger] entries[i]).key@ != (#[trigger] entries[j]).key@
}

spec fn model(entries: Seq<CacheEntry>) -> Map<CacheKeyView, CachedView> {
    Map::new(
        |key: CacheKeyView| holds(entries, key),
        |key: CacheKeyView| entries[index_of(entries, key)].cached(),
    )
}

/// Each entry is what the model holds under its key.
proof fn lemma_model_at(entries: Seq<CacheEntry>, i: int)
    requires
        keys_distinct(entries),
        0 <= i < entries.len(),
    ensures
        model(entries).contains_key(entries[i].key@),
        model(entries)[entries[i].key@] == entries[i].cached(),
{
    let key = entries[i].key@;
    assert(holds(entries, key));
    assert(index_of(entries, key) == i);
}

/// Putting an entry where its key stood, or at the end where the key was
/// absent, keeps the keys distinct and inserts the entry into the model.
proof fn lemma_model_put(
    before: Seq<CacheEntry>,
    after: Seq<CacheEntry>,
    at: int,
    entry: CacheEntry,
)
    requires
        keys_distinct(before),
        0 <= at <= before.len(),
        at < before.len() ==> before[at].key@ == entry.key@ && after == before.update(at, entry),
        at == before.len() ==> !holds(before, entry.key@) && after == before.push(entry),
    ensures
        keys_distinct(after),
        model(after) == model(before).insert(entry.key@, entry.cached()),
{
    let key = entry.key@;
    assert forall|j: int| 0 <= j < after.len() && j != at implies (#[trigger] after[j])
        == before[j] && before[j].key@ != key by {
        if at < before.len() {
            if j < at {
                assert(before[j].key@ != before[at].key@);
            } else {
                assert(before[at].key@ != before[j].key@);
            }
        }
    }
    assert(after[at] == entry);
    assert(keys_distinct(after));
    assert forall|k: CacheKeyView| holds(after, k) <==> (k == key || holds(before, k)) by {
        if holds(after, k) && k != key {
            assert(before[index_of(after, k)].key@ == k);
        }
        if holds(before, k) && k != key {
            assert(after[index_of(before, k)].key@ == k);
        }
    }
    assert forall|k: CacheKeyView| holds(after, k) implies #[trigger] model(after)[k] == model(
        before,
    ).insert(key, entry.cached())[k] by {
        let j = index_of(after, k);
        lemma_model_at(after, j);
        if k != key {
            lemma_model_at(before, j);
        }
    }
    assert(model(after) =~= model(before).insert(key, entry.cached()));
}

/// Distinct keys are as many as the entries.
proof fn lemma_model_size(entries: Seq<CacheEntry>)
    requires
        keys_distinct(entries),
    ensures
        model(entries).dom().finite(),
        model(entries).dom().len() == entries.len(),
    decreases entries.len(),
{
    if entries.len() == 0 {
        assert(model(entries).dom() =~= Set::<CacheKeyView>::empty());
    } else {
        let front = entries.drop_last();
        let last = entries.last();
        lemma_model_size(front);
        if holds(front, last.key@) {
            assert(entries[index_of(front, last.key@)].key@ == entries[entries.len() - 1].key@);
        }
        assert(entries =~= front.push(last));
        lemma_model_put(front, entries, front.len() as int, last);
        assert(model(entries).dom() =~= model(front).dom().insert(last.key@));
    }
}

/// The outcomes of past fetches, at most one under each key.
///
/// The cache belongs to one process and does not lock itself. Where
/// fetches run side by side, the caller keeps at most one fetch per key
/// under way: it holds the cache from the lookup to the `store` of that
/// key, so that a second fetch of the key waits and is then served what
/// the first stored.
pub struct HistoryCache {
    entries: Vec<CacheEntry>,
}

impl View for HistoryCache {
    type V = Map<CacheKeyView, CachedView>;

    /// The entries of the cache, each under its key.
    closed spec fn view(&self) -> Map<CacheKeyView, CachedView> {
        model(self.entries@)
    }
}

fn same_key(a: &CacheKey, b: &CacheKey) -> (r: bool)
    ensures
        r == (a@ == b@),
{
    a.language == b.language && a.category == b.category && a.month == b.month && a.day == b.day
}

impl HistoryCache {
    /// No two entries have the same key.
    #[verifier::type_invariant]
    spec fn is_valid(self) -> bool {
        keys_distinct(self.entries@)
    }

    /// A cache that holds nothing.
    pub fn new() -> (r: HistoryCache)
        ensures
            r@ == Map::<CacheKeyView, CachedView>::empty(),
    {
        let r = HistoryCache { entries: Vec::new() };
        assert(r@ =~= Map::<CacheKeyView, CachedView>::empty());
        r
    }

    fn find(&self, key: &CacheKey) -> (r: Option<usize>)
        ensures
            match r {
                Some(i) => i < self.entries.len() && self.entries[i as int].key@ == key@,
                None => !holds(self.entries@, key@),
            },
    {
        let mut i: usize = 0;
        while i < self.entries.len()
            invariant
                i <= self.entries.len(),
                forall|j: int| 0 <= j < i ==> (#[trigger] self.entries[j]).key@ != key@,
            decreases self.entries.len() - i,
        {
            if same_key(&self.entries[i].key, key) {
                return Some(i);
            }
            i += 1;
        }
        None
    }

    /// The outcome that the cache serves for `key` at `now`: that of the
    /// entry under the key, failure or not, while the entry is live.
    pub fn lookup(&self, key: &CacheKey, now: u64) -> (r: Option<&FetchOutcome>)
        ensures
            r is Some <==> served(self@, key@, now as int) is Some,
            r matches Some(outcome) ==> Some(outcome_view(*outcome)) == served(
                self@,
                key@,
                now as int,
            ),
    {
        proof {
            use_type_invariant(self);
        }
        match self.find(key) {
            Some(i) => {
                proof {
                    lemma_model_at(self.entries@, i as int);
                }
                let entry = &self.entries[i];
                if now < entry.stored_at || now - entry.stored_at < TTL_SECONDS {
                    Some(&entry.outcome)
                } else {
                    None
                }
            },
            None => None,
        }
    }

    /// Keeps `outcome` under `key` as stored at `now`, in place of what was
    /// kept under that key before. Entries under other keys stay.
    pub fn store(&mut self, key: CacheKey, now: u64, outcome: FetchOutcome)
        ensures
            final(self)@ == old(self)@.insert(
                key@,
                CachedView { stored_at: now as int, outcome: outcome_view(outcome) },
            ),
    {
        proof {
            use_type_invariant(&*self);
        }
        let found = self.find(&key);
        let entry = CacheEntry { key, stored_at: now, outcome };
        let ghost before = self.entries@;
        let mut entries: Vec<CacheEntry> = Vec::new();
        core::mem::swap(&mut self.entries, &mut entries);
        match found {
            Some(i) => {
                entries.set(i, entry);
                proof {
                    lemma_model_put(before, entries@, i as int, entry);
                }
            },
            None => {
                entries.push(entry);
                proof {
                    lemma_model_put(before, entries@, before.len() as int, entry);
                }
            },
        }
        core::mem::swap(&mut self.entries, &mut entries);
    }

    /// The number of keys under which something is kept, live or not.
    pub fn len(&self) -> (r: usize)
        ensures
            self@.dom().finite(),
            r == self@.dom().len(),
    {
        proof {
            use_type_invariant(self);
            lemma_model_size(self.entries@);
        }
        self.entries.len()
    }
}

} // verus!
