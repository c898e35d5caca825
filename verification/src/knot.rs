//! The options of the standalone feed server: its per-feed limits, word
//! filters and response cache.
use vstd::prelude::*;
use crate::datetime::{instant_in_strict_range, std_nanos, DateTime, Duration, StdDuration, MAX_SPAN_NANOS, NANOS_PER_SEC};
use crate::filters::{copy_strings, filters_view, opt_items, strings_view, EntryFilter, EntryFilterView, FilterRule, MatchField};

verus! {

/// Entries served from a feed when nothing is configured.
pub const DEFAULT_MAX: usize = 1024;
/// Seconds between updates when nothing is configured (2 hours).
pub const DEFAULT_FREQ_SECS: u64 = 7200;

/// Options of a served feed.
#[derive(Debug)]
pub struct FeedOptions {
    /// Entries served from the feed.
    pub max: Option<usize>,
    /// Update frequency.
    pub freq: Option<StdDuration>,
    /// Age beyond which entries are not served.
    pub oldest: Option<StdDuration>,
}

/// `chrono::Duration::from_std` accepts the span.
pub open spec fn std_fits(d: StdDuration) -> bool {
    std_nanos(d) <= MAX_SPAN_NANOS && d.subsec_nanos < NANOS_PER_SEC
}

impl FeedOptions {
    /// Nothing configured.
    pub fn default() -> (res: FeedOptions)
        ensures
            res.max is None,
            res.freq is None,
            res.oldest is None,
    {
        FeedOptions { max: None, freq: None, oldest: None }
    }

    /// Entries served from the feed (1024 by default).
    pub fn max(&self) -> (res: usize)
        ensures
            res == match self.max {
                Some(m) => m,
                None => DEFAULT_MAX,
            },
    {
        match self.max {
            Some(m) => m,
            None => DEFAULT_MAX,
        }
    }

    /// The update frequency: the configured one where `chrono` can hold it,
    /// else 2 hours.
    pub open spec fn freq_span(self) -> int {
        match self.freq {
            Some(f) => if std_fits(f) { std_nanos(f) } else { DEFAULT_FREQ_SECS * NANOS_PER_SEC },
            None => DEFAULT_FREQ_SECS * NANOS_PER_SEC,
        }
    }

    /// The update frequency.
    pub fn freq(&self) -> (res: Duration)
        ensures
            res@ == self.freq_span(),
    {
        match self.freq {
            Some(f) => {
                if (f.subsec_nanos as i128) < NANOS_PER_SEC {
                    let n = (f.secs as i128) * NANOS_PER_SEC + (f.subsec_nanos as i128);
                    if n <= MAX_SPAN_NANOS {
                        if let Some(d) = Duration::from_nanos(n) {
                            return d;
                        }
                    }
                }
                Duration::from_seconds(DEFAULT_FREQ_SECS)
            },
            None => Duration::from_seconds(DEFAULT_FREQ_SECS),
        }
    }

    /// The earliest date served at `now`: `now` less the oldest age, or the
    /// epoch when no age is configured.
    pub fn oldest_at(&self, now: &DateTime) -> (res: DateTime)
        requires
            self.oldest matches Some(o) ==> std_fits(o) && instant_in_strict_range(now@ - std_nanos(o)),
        ensures
            res@ == match self.oldest {
                Some(o) => now@ - std_nanos(o),
                None => 0,
            },
    {
        match self.oldest {
            Some(o) => {
                let span = Duration::from_std(o);
                now.minus(&span)
            },
            None => DateTime::epoch(),
        }
    }

    /// Whether a feed last updated at `last_update` is due at `now`.
    pub fn should_update_at(&self, last_update: &DateTime, now: &DateTime) -> (res: bool)
        requires
            instant_in_strict_range(last_update@ + self.freq_span()),
        ensures
            res == (now@ >= last_update@ + self.freq_span()),
    {
        let f = self.freq();
        let due = last_update.plus(&f);
        !now.before(&due)
    }
}

/// Limits of a served feed.
#[derive(Debug)]
pub struct Limits {
    /// Entries served from the feed.
    pub max: Option<usize>,
    /// Age in seconds beyond which entries are not served.
    pub oldest_sec: Option<usize>,
}

impl Limits {
    /// Nothing configured.
    pub fn default() -> (res: Limits)
        ensures
            res.max is None,
            res.oldest_sec is None,
    {
        Limits { max: None, oldest_sec: None }
    }

    /// Entries served from the feed (1024 by default).
    pub fn max(&self) -> (res: usize)
        ensures
            res == match self.max {
                Some(m) => m,
                None => DEFAULT_MAX,
            },
    {
        match self.max {
            Some(m) => m,
            None => DEFAULT_MAX,
        }
    }

    /// The earliest date served at `now`: `now` less the oldest age, or the
    /// epoch when no age is configured.
    pub fn oldest_at(&self, now: &DateTime) -> (res: DateTime)
        requires
            self.oldest_sec matches Some(s) ==> s <= 9_223_372_036_854_775 && instant_in_strict_range(now@ - s * NANOS_PER_SEC),
        ensures
            res@ == match self.oldest_sec {
                Some(s) => now@ - s * NANOS_PER_SEC,
                None => 0,
            },
    {
        match self.oldest_sec {
            Some(s) => {
                let span = Duration::from_seconds(s as u64);
                now.minus(&span)
            },
            None => DateTime::epoch(),
        }
    }
}

/// Word filters of a served feed.
#[derive(Debug)]
pub struct Filters {
    /// Entries with any of these words in the title are dropped.
    pub exclude_title_words: Option<Vec<String>>,
    /// Entries with any of these words in the content are dropped.
    pub exclude_content_words: Option<Vec<String>>,
}

/// The word filter for configured words: none when unconfigured.
pub open spec fn word_filter(items: Option<Seq<Seq<char>>>, field: MatchField) -> Option<EntryFilterView> {
    match items {
        Some(v) => Some(EntryFilterView { rule: FilterRule::ExcludeAny, field, items: v }),
        None => None,
    }
}

fn word_filter_exec(items: &Option<Vec<String>>, field: MatchField) -> (res: Option<EntryFilter>)
    ensures
        match res {
            Some(f) => word_filter(opt_items(*items), field) == Some(f@),
            None => word_filter(opt_items(*items), field) is None,
        },
{
    match items {
        Some(v) => Some(EntryFilter { rule: FilterRule::ExcludeAny, field, items: copy_strings(v) }),
        None => None,
    }
}

impl Filters {
    /// No words configured.
    pub fn default() -> (res: Filters)
        ensures
            res.exclude_title_words is None,
            res.exclude_content_words is None,
    {
        Filters { exclude_title_words: None, exclude_content_words: None }
    }

    /// The filters: the title-word filter, then the content-word filter,
    /// each where configured. A word filter drops an entry when some word
    /// (split at spaces) equals some configured word, ignoring case.
    pub fn get_filters(&self) -> (res: Vec<EntryFilter>)
        ensures
            filters_view(res@) == crate::filters::configured(seq![
                word_filter(opt_items(self.exclude_title_words), MatchField::TitleWords),
                word_filter(opt_items(self.exclude_content_words), MatchField::ContentWords),
            ]),
    {
        let mut out: Vec<EntryFilter> = Vec::new();
        let ghost s = seq![
            word_filter(opt_items(self.exclude_title_words), MatchField::TitleWords),
            word_filter(opt_items(self.exclude_content_words), MatchField::ContentWords),
        ];
        assert(s.drop_last().drop_last() =~= Seq::<Option<EntryFilterView>>::empty());
        assert(s.drop_last().last() == s[0]);
        assert(s.last() == s[1]);
        proof {
            reveal_with_fuel(crate::filters::configured, 3);
        }
        if let Some(f) = word_filter_exec(&self.exclude_title_words, MatchField::TitleWords) {
            out.push(f);
            assert(filters_view(out@) =~= seq![f@]);
        } else {
            assert(filters_view(out@) =~= Seq::<EntryFilterView>::empty());
        }
        let ghost mid = out@;
        assert(filters_view(mid) =~= crate::filters::configured(s.drop_last()));
        if let Some(f) = word_filter_exec(&self.exclude_content_words, MatchField::ContentWords) {
            out.push(f);
            assert(filters_view(out@) =~= filters_view(mid).push(f@));
        }
        out
    }
}

/// Global configuration of the feed server.
#[derive(Debug)]
pub struct Global {
    pub filters: Filters,
    pub limits: FeedOptions,
}

impl Global {
    /// Nothing configured.
    pub fn default() -> (res: Global)
        ensures
            res.filters.exclude_title_words is None,
            res.filters.exclude_content_words is None,
            res.limits.max is None,
            res.limits.freq is None,
            res.limits.oldest is None,
    {
        Global { filters: Filters::default(), limits: FeedOptions::default() }
    }
}

/// The feed server's response cache.
#[derive(Debug)]
pub struct Cache {
    inner: crate::cache::Cache,
}

impl View for Cache {
    type V = (Seq<(Seq<char>, (int, Seq<char>))>, int);

    closed spec fn view(&self) -> Self::V {
        self.inner@
    }
}

impl Cache {
    /// An empty cache whose responses stay fresh for `duration`.
    pub fn new(duration: Duration) -> (res: Cache)
        ensures
            res@.0.len() == 0,
            res@.1 == duration@,
    {
        Cache { inner: crate::cache::Cache::new(duration) }
    }

    /// The cached response under `uri`, if it is fresh at `now`.
    pub fn lookup_at(&self, uri: &str, now: &DateTime) -> (res: Option<String>)
        ensures
            match res {
                Some(s) => crate::cache::fresh(self@.0, self@.1, uri@, now@) == Some(s@),
                None => crate::cache::fresh(self@.0, self@.1, uri@, now@) is None,
            },
    {
        self.inner.lookup_at(uri, now)
    }

    /// Stores `entry` under `uri`, created at `now`.
    pub fn store(&mut self, uri: &str, now: DateTime, entry: String)
        ensures
            final(self)@.0 == crate::aggregate::bind(old(self)@.0, uri@, (now@, entry@)),
            final(self)@.1 == old(self)@.1,
    {
        self.inner.store(uri, now, entry)
    }
}

} // verus!

verus! {

/// A feed of the feed server.
#[derive(Debug)]
pub enum Feed {
    /// An Atom or RSS feed at a url.
    Raw { url: String, tags: Option<Vec<String>>, filters: Filters, limits: Limits },
    /// The entries of other feeds, by name.
    Aggregate { feeds: Vec<String>, tags: Option<Vec<String>>, filters: Filters, limits: Limits },
}

impl Feed {
    /// The feed's filters.
    pub fn filters(&self) -> (res: &Filters)
        ensures
            match self {
                Feed::Raw { filters, .. } => res == filters,
                Feed::Aggregate { filters, .. } => res == filters,
            },
    {
        match self {
            Feed::Raw { filters, .. } => filters,
            Feed::Aggregate { filters, .. } => filters,
        }
    }

    /// The feed's limits.
    pub fn limits(&self) -> (res: &Limits)
        ensures
            match self {
                Feed::Raw { limits, .. } => res == limits,
                Feed::Aggregate { limits, .. } => res == limits,
            },
    {
        match self {
            Feed::Raw { limits, .. } => limits,
            Feed::Aggregate { limits, .. } => limits,
        }
    }
}

/// Whether a served feed takes an entry: not older than the earliest date
/// (nor the feed's own, if any), and passing the global filters.
pub open spec fn served_ok(e: crate::entry::EntryView, oldest: int, feed_oldest: Option<int>, filters: Seq<EntryFilterView>) -> bool {
    &&& crate::entry::date_instant(e.date) >= oldest
    &&& match feed_oldest {
        Some(f) => crate::entry::date_instant(e.date) >= f,
        None => true,
    }
    &&& crate::filters::passes_all(filters, e)
}

/// The taken entries of `s`, in order, up to `limit` of them.
pub open spec fn served(s: Seq<crate::entry::EntryView>, limit: int, oldest: int, feed_oldest: Option<int>, filters: Seq<EntryFilterView>) -> Seq<crate::entry::EntryView>
    decreases s.len(),
{
    if s.len() == 0 {
        Seq::empty()
    } else {
        let prev = served(s.drop_last(), limit, oldest, feed_oldest, filters);
        if prev.len() < limit && served_ok(s.last(), oldest, feed_oldest, filters) { prev.push(s.last()) } else { prev }
    }
}

/// The entries a served feed carries, from the candidates in the updater's
/// order: those taken, up to `limit`. (The all-feed stops only once it has
/// more than its maximum, so its limit is one more than the maximum; a feed
/// or tag stops at the smaller of the global and its own maximum.)
pub fn select_served(
    candidates: &Vec<crate::entry::Entry>,
    limit: usize,
    oldest: &DateTime,
    feed_oldest: Option<&DateTime>,
    filters: &Vec<EntryFilter>,
) -> (res: Vec<crate::entry::Entry>)
    ensures
        crate::tasks::entries_view(res@) == served(
            crate::tasks::entries_view(candidates@),
            limit as int,
            oldest@,
            match feed_oldest { Some(d) => Some(d@), None => None },
            filters_view(filters@),
        ),
{
    let ghost fo = match feed_oldest { Some(d) => Some(d@), None => None::<int> };
    let ghost src = crate::tasks::entries_view(candidates@);
    let ghost fv = filters_view(filters@);
    let mut out: Vec<crate::entry::Entry> = Vec::new();
    let mut i: usize = 0;
    while i < candidates.len()
        invariant
            i <= candidates.len(),
            src == crate::tasks::entries_view(candidates@),
            fo == match feed_oldest { Some(d) => Some(d@), None => None::<int> },
            fv == filters_view(filters@),
            crate::tasks::entries_view(out@) == served(src.take(i as int), limit as int, oldest@, fo, fv),
        decreases candidates.len() - i,
    {
        let e = &candidates[i];
        assert(src.take(i + 1).drop_last() =~= src.take(i as int));
        assert(src.take(i + 1).last() == e@);
        if out.len() < limit {
            let d = e.date();
            let mut ok = !d.before(oldest);
            if ok {
                if let Some(f) = feed_oldest {
                    ok = !d.before(f);
                }
            }
            if ok {
                ok = crate::filters::passes_filters(filters, e);
            }
            if ok {
                let ghost o0 = crate::tasks::entries_view(out@);
                out.push(e.clone());
                assert(crate::tasks::entries_view(out@) =~= o0.push(e@));
            }
        }
        i += 1;
    }
    assert(src.take(candidates.len() as int) =~= src);
    out
}

/// The limit of the all-feed: one more than its maximum (it stops once it
/// has more than the maximum).
pub fn all_feed_limit(max: usize) -> (res: usize)
    ensures
        res == if max < usize::MAX { max + 1 } else { max as int },
{
    if max < usize::MAX { max + 1 } else { max }
}

/// The limit of a feed or tag: the smaller of the two maxima.
pub fn feed_limit(global_max: usize, feed_max: usize) -> (res: usize)
    ensures
        res == if global_max < feed_max { global_max } else { feed_max },
{
    if global_max < feed_max { global_max } else { feed_max }
}

} // verus!
