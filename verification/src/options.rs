//! Per-feed options: limits, update frequency, age, headers and retries,
//! and how a feed's own options override the global ones.
use vstd::prelude::*;
use crate::aggregate::{bind, lookup};
use crate::datetime::{std_nanos, DateTime, Duration, StdDuration, MAX_SPAN_NANOS, NANOS_PER_SEC};

verus! {

/// Entries kept from a feed when nothing is configured.
pub const DEFAULT_MAX: usize = 1024;
/// Seconds between updates of a feed when nothing is configured (2 hours).
pub const DEFAULT_FREQ_SECS: u64 = 7200;
/// Age in seconds beyond which entries are dropped by default (8 weeks + 2 days).
pub const DEFAULT_OLDEST_SECS: u64 = 5040000;
/// Seconds before a failed fetch is retried.
pub const RETRY_AFTER_SECS: u64 = 30;

/// Options of a feed.
#[derive(Debug)]
pub struct FeedOptions {
    /// Entries kept from the feed.
    pub max: Option<usize>,
    /// Update frequency.
    pub freq: Option<StdDuration>,
    /// Age beyond which entries are dropped.
    pub oldest: Option<StdDuration>,
    /// Whether to keep entries without a title.
    pub keep_empty: bool,
    /// Whether to apply the tags the source gives.
    pub apply_tags: bool,
    /// Custom request headers, name to value; each name at most once.
    pub headers: Vec<(String, String)>,
    /// Update step (lower steps update first).
    pub step: Option<u8>,
    /// Retry count.
    pub retry_count: Option<u32>,
}

/// The texts of name/value pairs.
pub open spec fn pairs_view(v: Seq<(String, String)>) -> Seq<(Seq<char>, Seq<char>)> {
    v.map_values(|p: (String, String)| (p.0@, p.1@))
}

/// A `std::time::Duration` as a span (`Duration::from_std`).
pub open spec fn span_of_std(d: StdDuration) -> int {
    if std_nanos(d) <= MAX_SPAN_NANOS && d.subsec_nanos < NANOS_PER_SEC { std_nanos(d) } else { 0 }
}

/// The association list after binding each pair of `others`, in order.
pub open spec fn bind_all(v: Seq<(Seq<char>, Seq<char>)>, others: Seq<(Seq<char>, Seq<char>)>) -> Seq<(Seq<char>, Seq<char>)>
    decreases others.len(),
{
    if others.len() == 0 {
        v
    } else {
        bind(bind_all(v, others.drop_last()), others.last().0, others.last().1)
    }
}

/// The later of two options: `b` where it is set, else `a`.
pub open spec fn override_opt<T>(a: Option<T>, b: Option<T>) -> Option<T> {
    match b {
        Some(x) => Some(x),
        None => a,
    }
}

/// The options after `other` is merged over `base`.
pub open spec fn merged(base: FeedOptions, other: FeedOptions) -> (
    Option<usize>,
    Option<StdDuration>,
    Option<StdDuration>,
    bool,
    bool,
    Seq<(Seq<char>, Seq<char>)>,
    Option<u8>,
    Option<u32>,
) {
    (
        override_opt(base.max, other.max),
        override_opt(base.freq, other.freq),
        override_opt(base.oldest, other.oldest),
        other.keep_empty,
        other.apply_tags,
        bind_all(pairs_view(base.headers@), pairs_view(other.headers@)),
        override_opt(base.step, other.step),
        override_opt(base.retry_count, other.retry_count),
    )
}

impl FeedOptions {
    /// The fields of the options, headers by their texts.
    pub open spec fn parts(self) -> (
        Option<usize>,
        Option<StdDuration>,
        Option<StdDuration>,
        bool,
        bool,
        Seq<(Seq<char>, Seq<char>)>,
        Option<u8>,
        Option<u32>,
    ) {
        (
            self.max,
            self.freq,
            self.oldest,
            self.keep_empty,
            self.apply_tags,
            pairs_view(self.headers@),
            self.step,
            self.retry_count,
        )
    }

    /// Nothing configured: entries without a title dropped, source tags applied.
    pub fn default() -> (res: FeedOptions)
        ensures
            res.max is None,
            res.freq is None,
            res.oldest is None,
            !res.keep_empty,
            res.apply_tags,
            res.headers@.len() == 0,
            res.step is None,
            res.retry_count is None,
    {
        FeedOptions {
            max: None,
            freq: None,
            oldest: None,
            keep_empty: false,
            apply_tags: true,
            headers: Vec::new(),
            step: None,
            retry_count: None,
        }
    }

    /// Entries kept from the feed (1024 by default).
    pub fn max(&self) -> (res: usize)
        ensures
            res == match self.max {
                Some(m) => m,
                None => DEFAULT_MAX,
            },
    {
        match self.max {
            Some(m) => m,
            None => DEFAULT_MAX,
        }
    }

    /// The configured update frequency.
    pub fn freq(&self) -> (res: Option<Duration>)
        ensures
            res is Some <==> self.freq is Some,
            res matches Some(d) ==> d@ == span_of_std(self.freq->0),
    {
        match self.freq {
            Some(f) => Some(Duration::from_std(f)),
            None => None,
        }
    }

    /// The update frequency, 2 hours when unconfigured.
    pub fn freq_or_default(&self) -> (res: Duration)
        ensures
            res@ == match self.freq {
                Some(f) => span_of_std(f),
                None => DEFAULT_FREQ_SECS * NANOS_PER_SEC,
            },
    {
        match self.freq {
            Some(f) => Duration::from_std(f),
            None => Duration::from_seconds(DEFAULT_FREQ_SECS),
        }
    }

    /// The age beyond which entries are dropped, 5040000 seconds when unconfigured.
    pub fn oldest(&self) -> (res: Duration)
        ensures
            res@ == match self.oldest {
                Some(f) => span_of_std(f),
                None => DEFAULT_OLDEST_SECS * NANOS_PER_SEC,
            },
    {
        match self.oldest {
            Some(f) => Duration::from_std(f),
            None => Duration::from_seconds(DEFAULT_OLDEST_SECS),
        }
    }

    /// The update step, `default` when unconfigured.
    pub fn step(&self, default: u8) -> (res: u8)
        ensures
            res == match self.step {
                Some(s) => s,
                None => default,
            },
    {
        match self.step {
            Some(s) => s,
            None => default,
        }
    }

    /// How often a failed fetch is retried (none by default).
    pub fn retry_count(&self) -> (res: usize)
        ensures
            res == match self.retry_count {
                Some(c) => c as int,
                None => 0,
            },
    {
        match self.retry_count {
            Some(c) => c as usize,
            None => 0,
        }
    }

    /// How long to wait before retrying: 30 seconds.
    pub fn retry_after(&self) -> (res: Duration)
        ensures
            res@ == RETRY_AFTER_SECS * NANOS_PER_SEC,
    {
        Duration::from_seconds(RETRY_AFTER_SECS)
    }

    /// Whether entries without a title are kept.
    pub fn keep_empty(&self) -> (res: bool)
        ensures
            res == self.keep_empty,
    {
        self.keep_empty
    }

    /// Whether the source's tags are applied.
    pub fn apply_tags(&self) -> (res: bool)
        ensures
            res == self.apply_tags,
    {
        self.apply_tags
    }

    /// The custom headers.
    pub fn headers(&self) -> (res: &Vec<(String, String)>)
        ensures
            pairs_view(res@) == pairs_view(self.headers@),
    {
        &self.headers
    }

    /// Whether an entry dated `dt` is older than allowed at `now`: more than
    /// the oldest age has passed since it.
    pub fn too_old_at(&self, dt: &DateTime, now: &DateTime) -> (res: bool)
        ensures
            res == (now@ > dt@ + self.oldest_span()),
    {
        let oldest = self.oldest();
        dt.has_passed_at(&oldest, now)
    }

    /// The age beyond which entries are dropped, in nanoseconds.
    pub open spec fn oldest_span(self) -> int {
        match self.oldest {
            Some(f) => span_of_std(f),
            None => DEFAULT_OLDEST_SECS * NANOS_PER_SEC,
        }
    }

    /// An entry dated `dt` is past the oldest age at `now`.
    pub open spec fn aged_out(&self, dt: int, now: int) -> bool {
        now > dt + self.oldest_span()
    }

    /// Whether an entry dated `dt` is older than allowed now, by the clock:
    /// `too_old_at` at some instant the clock gave.
    pub fn too_old(&self, dt: &DateTime) -> (res: bool)
        ensures
            exists|now: int| now >= 0 && res == #[trigger] self.aged_out(dt@, now),
    {
        let now = DateTime::now();
        let r = self.too_old_at(dt, &now);
        assert(now@ >= 0 && r == self.aged_out(dt@, now@));
        r
    }

    /// Overrides these options by `other`: each option `other` sets replaces
    /// this one, the two flags are taken from `other`, and its headers are
    /// added, replacing those of the same name.
    pub fn merge(&mut self, other: &FeedOptions)
        ensures
            final(self).parts() == merged(*old(self), *other),
    {
        if let Some(m) = other.max {
            self.max = Some(m);
        }
        if let Some(f) = other.freq {
            self.freq = Some(f);
        }
        if let Some(o) = other.oldest {
            self.oldest = Some(o);
        }
        self.keep_empty = other.keep_empty;
        self.apply_tags = other.apply_tags;
        let ghost base = pairs_view(self.headers@);
        let ghost ov = pairs_view(other.headers@);
        let mut i: usize = 0;
        while i < other.headers.len()
            invariant
                i <= other.headers.len(),
                ov == pairs_view(other.headers@),
                base == pairs_view(old(self).headers@),
                pairs_view(self.headers@) == bind_all(base, ov.take(i as int)),
                self.max == override_opt(old(self).max, other.max),
                self.freq == override_opt(old(self).freq, other.freq),
                self.oldest == override_opt(old(self).oldest, other.oldest),
                self.keep_empty == other.keep_empty,
                self.apply_tags == other.apply_tags,
                self.step == old(self).step,
                self.retry_count == old(self).retry_count,
            decreases other.headers.len() - i,
        {
            let (name, value) = (&other.headers[i].0, &other.headers[i].1);
            insert_header(&mut self.headers, name, value);
            assert(ov.take(i + 1).drop_last() =~= ov.take(i as int));
            i += 1;
        }
        assert(ov.take(other.headers.len() as int) =~= ov);
        if let Some(s) = other.step {
            self.step = Some(s);
        }
        if let Some(c) = other.retry_count {
            self.retry_count = Some(c);
        }
    }
}

/// Sets header `name` to `value`: replaces the first header of that name,
/// or appends one.
pub fn insert_header(headers: &mut Vec<(String, String)>, name: &String, value: &String)
    ensures
        pairs_view(final(headers)@) == bind(pairs_view(old(headers)@), name@, value@),
{
    let ghost before = pairs_view(headers@);
    let mut i: usize = 0;
    while i < headers.len()
        invariant
            i <= headers.len(),
            before == pairs_view(headers@),
            headers@ == old(headers)@,
            forall|k: int| 0 <= k < i ==> (#[trigger] headers@[k]).0@ != name@,
        decreases headers.len() - i,
    {
        if headers[i].0 == *name {
            proof {
                assert forall|k: int| 0 <= k < i implies (#[trigger] before[k]).0 != name@ by {
                    assert(before[k] == (headers@[k].0@, headers@[k].1@));
                }
                assert(before[i as int].0 == name@);
                lemma_bind_at(before, name@, value@, i as int);
            }
            headers.set(i, (name.clone(), value.clone()));
            assert(pairs_view(headers@) =~= before.update(i as int, (name@, value@)));
            return;
        }
        i += 1;
    }
    proof {
        assert forall|k: int| 0 <= k < before.len() implies (#[trigger] before[k]).0 != name@ by {
            assert(before[k] == (headers@[k].0@, headers@[k].1@));
        }
        lemma_bind_absent(before, name@, value@);
    }
    headers.push((name.clone(), value.clone()));
    assert(pairs_view(headers@) =~= before.push((name@, value@)));
}

/// Binding a key first found at `i` replaces that pair.
proof fn lemma_bind_at<K, V>(v: Seq<(K, V)>, key: K, val: V, i: int)
    requires
        0 <= i < v.len(),
        v[i].0 == key,
        forall|k: int| 0 <= k < i ==> (#[trigger] v[k]).0 != key,
    ensures
        bind(v, key, val) == v.update(i, (key, val)),
    decreases i,
{
    if i == 0 {
    } else {
        lemma_bind_at(v.drop_first(), key, val, i - 1);
        assert(v.drop_first().update(i - 1, (key, val)) =~= v.update(i, (key, val)).drop_first());
        assert(seq![v[0]] + v.update(i, (key, val)).drop_first() =~= v.update(i, (key, val)));
    }
}

/// Binding an absent key appends the pair.
proof fn lemma_bind_absent<K, V>(v: Seq<(K, V)>, key: K, val: V)
    requires
        forall|k: int| 0 <= k < v.len() ==> (#[trigger] v[k]).0 != key,
    ensures
        bind(v, key, val) == v.push((key, val)),
    decreases v.len(),
{
    if v.len() == 0 {
        assert(seq![(key, val)] =~= v.push((key, val)));
    } else {
        assert(v[0].0 != key);
        assert forall|k: int| 0 <= k < v.drop_first().len() implies (#[trigger] v.drop_first()[k]).0 != key by {
            assert(v.drop_first()[k] == v[k + 1]);
        }
        lemma_bind_absent(v.drop_first(), key, val);
        assert(seq![v[0]] + v.drop_first().push((key, val)) =~= v.push((key, val)));
    }
}

/// What a header lookup finds after merging: the merged-in value where
/// `others` has the name, else the base value.
pub proof fn lemma_lookup_bind_all(
    v: Seq<(Seq<char>, Seq<char>)>,
    others: Seq<(Seq<char>, Seq<char>)>,
    key: Seq<char>,
)
    ensures
        lookup(bind_all(v, others), key) == match last_value(others, key) {
            Some(x) => Some(x),
            None => lookup(v, key),
        },
    decreases others.len(),
{
    if others.len() > 0 {
        lemma_lookup_bind_all(v, others.drop_last(), key);
        crate::aggregate::lemma_lookup_bind(bind_all(v, others.drop_last()), others.last().0, others.last().1, key);
    }
}

/// The value of the last pair named `key`, if any.
pub open spec fn last_value(v: Seq<(Seq<char>, Seq<char>)>, key: Seq<char>) -> Option<Seq<char>>
    decreases v.len(),
{
    if v.len() == 0 {
        None
    } else if v.last().0 == key {
        Some(v.last().1)
    } else {
        last_value(v.drop_last(), key)
    }
}

} // verus!
