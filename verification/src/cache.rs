//! A cache of responses by request key, each fresh for a fixed span after it
//! was created.
//!
//! Fetching a response is outside work: a caller asks the cache first
//! (`cached_at`), fetches on a miss, and hands the result back (`record`).
use vstd::prelude::*;
use crate::aggregate::{bind, lookup, lemma_lookup_bind};
use crate::datetime::{DateTime, Duration};

verus! {

/// How a request uses the cache.
#[derive(Clone, Copy, Debug, PartialEq, Eq, Structural)]
pub enum CacheBehavior {
    /// Use the cached response, or write the fetched one.
    UseOrWrite,
    /// Neither read nor write the cache.
    Skip,
}

impl CacheBehavior {
    /// The cache is used by default.
    pub fn default() -> (res: CacheBehavior)
        ensures
            res == CacheBehavior::UseOrWrite,
    {
        CacheBehavior::UseOrWrite
    }
}

/// A cached response and when it was created.
#[derive(Debug)]
pub struct CacheEntry {
    pub creation: DateTime,
    pub entry: String,
}

/// Responses by key.
#[derive(Debug)]
pub struct Cache {
    cache: Vec<(String, CacheEntry)>,
    duration: Duration,
}

/// What a cache holds: (key, (creation, response)) in an association list,
/// and how long a response stays fresh.
pub open spec fn entries_view(v: Seq<(String, CacheEntry)>) -> Seq<(Seq<char>, (int, Seq<char>))> {
    v.map_values(|p: (String, CacheEntry)| (p.0@, (p.1.creation@, p.1.entry@)))
}

/// The fresh response under a key at `now`: created less than `duration` ago.
pub open spec fn fresh(store: Seq<(Seq<char>, (int, Seq<char>))>, duration: int, key: Seq<char>, now: int) -> Option<Seq<char>> {
    match lookup(store, key) {
        Some(c) => if c.0 + duration > now { Some(c.1) } else { None },
        None => None,
    }
}

impl View for Cache {
    type V = (Seq<(Seq<char>, (int, Seq<char>))>, int);

    closed spec fn view(&self) -> Self::V {
        (entries_view(self.cache@), self.duration@)
    }
}

impl Cache {
    /// An empty cache whose responses stay fresh for `duration`.
    pub fn new(duration: Duration) -> (res: Cache)
        ensures
            res@.0.len() == 0,
            res@.1 == duration@,
    {
        let c = Cache { cache: Vec::new(), duration };
        assert(entries_view(c.cache@) =~= Seq::empty());
        c
    }

    /// The cached response under `uri`, if it is fresh at `now`.
    pub fn lookup_at(&self, uri: &str, now: &DateTime) -> (res: Option<String>)
        ensures
            match res {
                Some(s) => fresh(self@.0, self@.1, uri@, now@) == Some(s@),
                None => fresh(self@.0, self@.1, uri@, now@) is None,
            },
    {
        let ghost v = entries_view(self.cache@);
        let key = crate::text::owned(uri);
        assert(v.skip(0) =~= v);
        let mut i: usize = 0;
        while i < self.cache.len()
            invariant
                i <= self.cache.len(),
                v == entries_view(self.cache@),
                key@ == uri@,
                lookup(v, uri@) == lookup(v.skip(i as int), uri@),
            decreases self.cache.len() - i,
        {
            assert(v.skip(i as int).drop_first() =~= v.skip(i + 1));
            assert(v.skip(i as int)[0] == v[i as int]);
            if self.cache[i].0 == key {
                let e = &self.cache[i].1;
                if e.creation.has_passed_at(&self.duration, now) || e.creation.plus_reaches(&self.duration, now) {
                    return None;
                }
                return Some(e.entry.clone());
            }
            i += 1;
        }
        assert(v.skip(i as int) =~= Seq::<(Seq<char>, (int, Seq<char>))>::empty());
        None
    }

    /// The response for `uri` when the request uses the cache and it holds
    /// a fresh one at `now`.
    pub fn cached_at(&self, uri: &str, now: &DateTime, behavior: CacheBehavior) -> (res: Option<String>)
        ensures
            behavior == CacheBehavior::Skip ==> res is None,
            behavior == CacheBehavior::UseOrWrite ==> match res {
                Some(s) => fresh(self@.0, self@.1, uri@, now@) == Some(s@),
                None => fresh(self@.0, self@.1, uri@, now@) is None,
            },
    {
        match behavior {
            CacheBehavior::Skip => None,
            CacheBehavior::UseOrWrite => self.lookup_at(uri, now),
        }
    }

    /// Stores `entry` under `uri`, created at `now`, replacing what was there.
    pub fn store(&mut self, uri: &str, now: DateTime, entry: String)
        ensures
            final(self)@.0 == bind(old(self)@.0, uri@, (now@, entry@)),
            final(self)@.1 == old(self)@.1,
    {
        let ghost before = entries_view(self.cache@);
        let key = crate::text::owned(uri);
        let mut i: usize = 0;
        while i < self.cache.len()
            invariant
                i <= self.cache.len(),
                key@ == uri@,
                before == entries_view(self.cache@),
                self.cache@ == old(self).cache@,
                self.duration == old(self).duration,
                forall|k: int| 0 <= k < i ==> (#[trigger] before[k]).0 != uri@,
            decreases self.cache.len() - i,
        {
            assert(before[i as int] == (self.cache@[i as int].0@, (self.cache@[i as int].1.creation@, self.cache@[i as int].1.entry@)));
            if self.cache[i].0 == key {
                proof {
                    lemma_bind_first(before, uri@, (now@, entry@), i as int);
                }
                self.cache.set(i, (key, CacheEntry { creation: now, entry }));
                assert(entries_view(self.cache@) =~= before.update(i as int, (uri@, (now@, entry@))));
                return;
            }
            i += 1;
        }
        proof {
            lemma_bind_none(before, uri@, (now@, entry@));
        }
        self.cache.push((key, CacheEntry { creation: now, entry }));
        assert(entries_view(self.cache@) =~= before.push((uri@, (now@, entry@))));
    }

    /// Records a fetched response, when the request uses the cache.
    pub fn record(&mut self, uri: &str, now: DateTime, entry: String, behavior: CacheBehavior)
        ensures
            behavior == CacheBehavior::Skip ==> final(self)@ == old(self)@,
            behavior == CacheBehavior::UseOrWrite ==> final(self)@.0 == bind(old(self)@.0, uri@, (now@, entry@)),
            final(self)@.1 == old(self)@.1,
    {
        match behavior {
            CacheBehavior::Skip => {},
            CacheBehavior::UseOrWrite => self.store(uri, now, entry),
        }
    }
}

impl DateTime {
    /// `self + span` is exactly `now`.
    pub fn plus_reaches(&self, span: &Duration, now: &DateTime) -> (res: bool)
        ensures
            res == (self@ + span@ == now@),
    {
        let s = self.nanos() + span.nanos();
        s == now.nanos()
    }
}

/// Binding a key first found at `i` replaces that pair.
proof fn lemma_bind_first<K, V>(v: Seq<(K, V)>, key: K, val: V, i: int)
    requires
        0 <= i < v.len(),
        v[i].0 == key,
        forall|k: int| 0 <= k < i ==> (#[trigger] v[k]).0 != key,
    ensures
        bind(v, key, val) == v.update(i, (key, val)),
    decreases i,
{
    if i > 0 {
        lemma_bind_first(v.drop_first(), key, val, i - 1);
        assert(v.drop_first().update(i - 1, (key, val)) =~= v.update(i, (key, val)).drop_first());
        assert(seq![v[0]] + v.update(i, (key, val)).drop_first() =~= v.update(i, (key, val)));
    }
}

/// Binding an absent key appends the pair.
proof fn lemma_bind_none<K, V>(v: Seq<(K, V)>, key: K, val: V)
    requires
        forall|k: int| 0 <= k < v.len() ==> (#[trigger] v[k]).0 != key,
    ensures
        bind(v, key, val) == v.push((key, val)),
    decreases v.len(),
{
    if v.len() == 0 {
        assert(seq![(key, val)] =~= v.push((key, val)));
    } else {
        assert(v[0].0 != key);
        assert forall|k: int| 0 <= k < v.drop_first().len() implies (#[trigger] v.drop_first()[k]).0 != key by {
            assert(v.drop_first()[k] == v[k + 1]);
        }
        lemma_bind_none(v.drop_first(), key, val);
        assert(seq![v[0]] + v.drop_first().push((key, val)) =~= v.push((key, val)));
    }
}

/// A response recorded at `now` is what the cache gives for its key until
/// the cache duration has passed; other keys are unaffected.
pub proof fn lemma_cache_read_after_write(
    store: Seq<(Seq<char>, (int, Seq<char>))>,
    duration: int,
    key: Seq<char>,
    created: int,
    entry: Seq<char>,
    other: Seq<char>,
    later: int,
)
    ensures
        later < created + duration ==> fresh(bind(store, key, (created, entry)), duration, key, later) == Some(entry),
        later >= created + duration ==> fresh(bind(store, key, (created, entry)), duration, key, later) is None,
        other != key ==> fresh(bind(store, key, (created, entry)), duration, other, later) == fresh(store, duration, other, later),
{
    lemma_lookup_bind(store, key, (created, entry), other);
}

} // verus!
