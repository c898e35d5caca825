//! The configuration: feed definitions, global options, time zone, serving,
//! custom commands, and how an updater is set up from it.
use vstd::prelude::*;
use crate::aggregate::{bind, lookup, AggregateFeed, AggregateTagFeed, AggregateWorld, NoopFeed};
use crate::commands::{texts, Commandish, CommandishView, CustomCommand, ReadCommandLiteral};
use crate::datetime::{Duration, StdDuration, NANOS_PER_SEC};
use crate::entry::{FeedId, Tag};
use crate::feed::{FeedAttributes, FeedKind, StandardSyndication};
use crate::filters::{filters_view, strings_view, Filters};
use crate::options::{merged, FeedOptions};
use crate::read_config::ReadConfig;
use crate::tasks::Hook;
use crate::text::{lowercase, to_lower, to_upper, trim, trimmed, uppercase};
use crate::transforms::TransformsConfig;
use crate::updater::Updater;

verus! {

/// Seconds between update checks when nothing is configured.
pub const DEFAULT_UPDATE_SEC: u64 = 120;
/// Entries kept when no storage size is configured.
pub const DEFAULT_STORAGE: usize = 1024;
/// Update step of a standard feed, when not configured.
pub const DEFAULT_FEED_STEP: u8 = 3;
/// Update step of an aggregate feed, when not configured.
pub const DEFAULT_FEED_AGG_STEP: u8 = 5;
/// Update step of a tag aggregate feed, when not configured.
pub const DEFAULT_FEED_TAG_STEP: u8 = 7;

/// The timelines of a Mastodon instance.
#[derive(Clone, Copy, Debug, PartialEq, Eq, Structural)]
pub enum MastodonFeedType {
    PublicTimeline,
    HomeTimeline,
}

/// What a feed is.
#[derive(Debug)]
pub enum RawFeed {
    /// An Atom or RSS feed at a url.
    Raw { url: String },
    /// The entries of other feeds, by name.
    Aggregate { feeds: Vec<String> },
    /// The entries carrying allowed tags and no blocked tags.
    AggregateTag { tag_allowlist: Vec<String>, tag_blocklist: Vec<String> },
    /// The statuses of a Mastodon timeline.
    MastodonStatuses { mastodon: String, feed_type: MastodonFeedType, token: Option<String> },
    /// The statuses of a Mastodon user.
    MastodonUserStatuses { mastodon: String, user: String, token: Option<String> },
}

/// A configured feed.
#[derive(Debug)]
pub struct FeedDefinition {
    pub feed: RawFeed,
    pub tags: Option<Vec<String>>,
    pub filters: Filters,
    pub options: FeedOptions,
}

impl FeedDefinition {
    /// A feed with no tags, filters or options.
    pub fn from_feed(feed: RawFeed) -> (res: FeedDefinition)
        ensures
            res.feed == feed,
            res.tags is None,
            res.filters.each_filter() == Seq::new(16, |i: int| None::<crate::filters::EntryFilterView>),
            res.options.parts() == FeedOptions::default_parts(),
    {
        FeedDefinition { feed, tags: None, filters: Filters::default(), options: FeedOptions::default() }
    }

    /// What the feed is.
    pub fn feed(&self) -> (res: &RawFeed)
        ensures
            *res == self.feed,
    {
        &self.feed
    }

    /// The feed's tags.
    pub fn tags(&self) -> (res: &Option<Vec<String>>)
        ensures
            *res == self.tags,
    {
        &self.tags
    }

    /// The feed's filters.
    pub fn filters(&self) -> (res: &Filters)
        ensures
            *res == self.filters,
    {
        &self.filters
    }

    /// The feed's options.
    pub fn options(&self) -> (res: &FeedOptions)
        ensures
            *res == self.options,
    {
        &self.options
    }
}

impl FeedOptions {
    /// The parts of options with nothing configured.
    pub open spec fn default_parts() -> (
        Option<usize>,
        Option<StdDuration>,
        Option<StdDuration>,
        bool,
        bool,
        Seq<(Seq<char>, Seq<char>)>,
        Option<u8>,
        Option<u32>,
    ) {
        (None, None, None, false, true, Seq::empty(), None, None)
    }
}

/// Global feed configuration.
#[derive(Debug)]
pub struct GlobalConfig {
    /// Filters for every feed.
    pub filters: Filters,
    /// Options every feed starts from.
    pub limits: FeedOptions,
    pub transforms: TransformsConfig,
    /// The user agent of feed requests.
    pub user_agent: Option<String>,
}

impl GlobalConfig {
    /// Nothing configured.
    pub fn default() -> (res: GlobalConfig)
        ensures
            res.limits.parts() == FeedOptions::default_parts(),
            res.user_agent is None,
            res.transforms.tag_derivations is None,
            res.transforms.tag_aliases is None,
            res.transforms.author is None,
    {
        let l = FeedOptions::default();
        assert(l.parts() =~= FeedOptions::default_parts());
        GlobalConfig { filters: Filters::default(), limits: l, transforms: TransformsConfig::default(), user_agent: None }
    }
}

/// The format served content is exported in.
#[derive(Clone, Copy, Debug, PartialEq, Eq, Structural)]
pub enum ExportFormat {
    HTML,
    Markdown,
}

impl ExportFormat {
    /// HTML by default.
    pub fn default() -> (res: ExportFormat)
        ensures
            res == ExportFormat::HTML,
    {
        ExportFormat::HTML
    }
}

/// Serving configuration.
#[derive(Debug)]
pub struct ServeConfig {
    pub port: Option<u16>,
    /// Filters of the all-feed.
    pub all: Option<GlobalConfig>,
    /// How long responses are cached.
    pub cache: Option<StdDuration>,
    /// Whether served titles name their sources.
    pub show_source_in_title: bool,
    pub export_format: ExportFormat,
}

impl ServeConfig {
    /// Nothing configured: no sources in titles, HTML.
    pub fn default() -> (res: ServeConfig)
        ensures
            res.port is None,
            res.all is None,
            res.cache is None,
            !res.show_source_in_title,
            res.export_format == ExportFormat::HTML,
    {
        ServeConfig { port: None, all: None, cache: None, show_source_in_title: false, export_format: ExportFormat::HTML }
    }
}

/// How dates are shown.
#[derive(Debug)]
pub enum TimeZoneKind {
    Utc,
    /// The machine's time zone.
    Local,
    /// A named time zone, by the name that resolved it.
    Named(String),
}

/// A configured time zone: its configured text (trimmed, lower-cased) and kind.
#[derive(Debug)]
pub struct TimeZone {
    pub timezone: String,
    pub kind: TimeZoneKind,
}

impl TimeZone {
    /// The machine's time zone.
    pub fn default() -> (res: TimeZone)
        ensures
            res.timezone@ == "local"@,
            res.kind == TimeZoneKind::Local,
    {
        TimeZone { timezone: crate::text::owned("local"), kind: TimeZoneKind::Local }
    }
}

/// Whether `chrono_tz` knows a time zone by this name (`str::parse::<Tz>`).
pub uninterp spec fn tz_known(name: Seq<char>) -> bool;

/// `name.parse::<chrono_tz::Tz>()` succeeds: the name is one of the IANA
/// time zone names `chrono_tz` was built with. Named by `tz_known`.
#[verifier::external_body]
pub(crate) fn tz_exists(name: &str) -> (res: bool)
    ensures
        res == tz_known(name@),
{
    name.parse::<chrono_tz::Tz>().is_ok()
}

/// What a configured time zone text reads as: `utc`, `zulu` or `universal`
/// is UTC; `local` or nothing is the machine's; anything else names a time
/// zone by its upper-cased text (as a TOML string), if one is known. The
/// kept text is the trimmed, lower-cased configuration.
pub open spec fn time_zone_spec(text: Seq<char>) -> Option<(Seq<char>, Option<Seq<char>>, bool)> {
    let lower = lowercase(trimmed(text));
    if lower == "utc"@ || lower == "zulu"@ || lower == "universal"@ {
        Some((lower, None, true))
    } else if lower == "local"@ || lower.len() == 0 {
        Some((lower, None, false))
    } else {
        match crate::commands::toml_quoted(uppercase(trimmed(text))) {
            Some(name) => if tz_known(name) { Some((lower, Some(name), false)) } else { None },
            None => None,
        }
    }
}

/// The view of a time zone: its text, its name if named, and whether it is UTC.
pub open spec fn time_zone_view(t: TimeZone) -> (Seq<char>, Option<Seq<char>>, bool) {
    (t.timezone@, match t.kind { TimeZoneKind::Named(n) => Some(n@), _ => None }, t.kind == TimeZoneKind::Utc)
}

impl TimeZone {
    /// Reads a configured time zone.
    pub fn parse(text: &str) -> (res: Result<TimeZone, ()>)
        ensures
            match res {
                Ok(t) => time_zone_spec(text@) == Some(time_zone_view(t))
                    && (t.kind == TimeZoneKind::Local <==> !time_zone_view(t).2 && time_zone_view(t).1 is None),
                Err(_) => time_zone_spec(text@) is None,
            },
    {
        let t = trim(text);
        let lower = to_lower(t.as_str());
        if crate::commands::same_text(&lower, "utc") || crate::commands::same_text(&lower, "zulu")
            || crate::commands::same_text(&lower, "universal") {
            return Ok(TimeZone { timezone: lower, kind: TimeZoneKind::Utc });
        }
        if crate::commands::same_text(&lower, "local") || lower.as_str().is_empty() {
            return Ok(TimeZone { timezone: lower, kind: TimeZoneKind::Local });
        }
        let upper = to_upper(t.as_str());
        match crate::commands::toml_string(upper.as_str()) {
            Some(name) => {
                if tz_exists(name.as_str()) {
                    Ok(TimeZone { timezone: lower, kind: TimeZoneKind::Named(name) })
                } else {
                    Err(())
                }
            },
            None => Err(()),
        }
    }
}

/// The configuration.
#[derive(Debug)]
pub struct Config {
    /// Time between update checks.
    pub freq: Option<StdDuration>,
    pub workers: Option<usize>,
    pub timezone: TimeZone,
    /// Log file.
    pub log: Option<String>,
    /// Entries kept.
    pub storage: Option<u16>,
    /// Database file.
    pub database: Option<String>,
    pub global: GlobalConfig,
    pub commands: Vec<CustomCommand>,
    pub hooks: Vec<(Hook, Vec<Commandish>)>,
    /// Feeds by name, in the order of their names (see `names_sorted`),
    /// as `add_feed` keeps them.
    pub feeds: Option<Vec<(String, FeedDefinition)>>,
    pub serve: ServeConfig,
    pub read: ReadConfig,
}

/// The names of configured feeds.
pub open spec fn feed_names(v: Seq<(String, FeedDefinition)>) -> Seq<Seq<char>> {
    v.map_values(|p: (String, FeedDefinition)| p.0@)
}

/// The feed at `i` is the first with this name.
pub open spec fn first_named(v: Seq<(String, FeedDefinition)>, name: Seq<char>, i: int) -> bool {
    &&& 0 <= i < v.len()
    &&& v[i].0@ == name
    &&& forall|j: int| 0 <= j < i ==> (#[trigger] v[j]).0@ != name
}

/// The names of the feeds are in strictly increasing order, as the keys of
/// a `BTreeMap` are, so that each occurs once.
pub open spec fn names_sorted(v: Seq<(String, FeedDefinition)>) -> bool {
    forall|i: int, j: int| 0 <= i < j < v.len() ==> crate::text::text_lt(#[trigger] v[i].0@, #[trigger] v[j].0@)
}

/// Where a name goes among names: before the first that does not come
/// before it.
pub open spec fn insert_point(ns: Seq<Seq<char>>, n: Seq<char>) -> int
    decreases ns.len(),
{
    if ns.len() == 0 {
        0
    } else if !crate::text::text_lt(ns[0], n) {
        0
    } else {
        1 + insert_point(ns.drop_first(), n)
    }
}

/// The names after adding a name: unchanged when it is there, else with it
/// at its insertion point.
pub open spec fn added_names(ns: Seq<Seq<char>>, n: Seq<char>) -> Seq<Seq<char>> {
    if ns.contains(n) { ns } else { ns.insert(insert_point(ns, n), n) }
}

/// The feeds after adding `(n, d)`: it replaces the first feed of that
/// name, or goes in at the insertion point of its name.
pub open spec fn added(w: Seq<(String, FeedDefinition)>, v: Seq<(String, FeedDefinition)>, n: String, d: FeedDefinition) -> bool {
    if feed_names(w).contains(n@) {
        exists|i: int| #[trigger] first_named(w, n@, i) && v == w.update(i, (n, d))
    } else {
        v == w.insert(insert_point(feed_names(w), n@), (n, d))
    }
}

/// The insertion point of a name is the count of names before it that come
/// before it.
pub proof fn lemma_insert_point(ns: Seq<Seq<char>>, n: Seq<char>, p: int)
    requires
        0 <= p <= ns.len(),
        forall|j: int| 0 <= j < p ==> crate::text::text_lt(#[trigger] ns[j], n),
        p < ns.len() ==> !crate::text::text_lt(ns[p], n),
    ensures
        insert_point(ns, n) == p,
    decreases p,
{
    if p > 0 {
        assert(crate::text::text_lt(ns[0], n));
        let rest = ns.drop_first();
        assert forall|j: int| 0 <= j < p - 1 implies crate::text::text_lt(#[trigger] rest[j], n) by {
            assert(rest[j] == ns[j + 1]);
        }
        if p - 1 < rest.len() {
            assert(rest[p - 1] == ns[p]);
        }
        lemma_insert_point(rest, n, p - 1);
    }
}

/// What the insertion point is: every name before it comes before the
/// name, the one at it does not.
pub proof fn lemma_insert_point_bounds(ns: Seq<Seq<char>>, n: Seq<char>)
    ensures
        0 <= insert_point(ns, n) <= ns.len(),
        forall|j: int| 0 <= j < insert_point(ns, n) ==> crate::text::text_lt(#[trigger] ns[j], n),
        insert_point(ns, n) < ns.len() ==> !crate::text::text_lt(ns[insert_point(ns, n)], n),
    decreases ns.len(),
{
    if ns.len() > 0 && crate::text::text_lt(ns[0], n) {
        let rest = ns.drop_first();
        lemma_insert_point_bounds(rest, n);
        assert forall|j: int| 0 <= j < insert_point(ns, n) implies crate::text::text_lt(#[trigger] ns[j], n) by {
            if j > 0 {
                assert(ns[j] == rest[j - 1]);
            }
        }
        if insert_point(ns, n) < ns.len() {
            assert(ns[insert_point(ns, n)] == rest[insert_point(rest, n)]);
        }
    }
}

/// Adding a feed: its name finds it, the other names still find their
/// definitions, the names are as `added_names` says, and names in order
/// stay in order.
pub proof fn lemma_added(w: Seq<(String, FeedDefinition)>, v: Seq<(String, FeedDefinition)>, n: String, d: FeedDefinition)
    requires
        added(w, v, n, d),
    ensures
        feed_names(v) == added_names(feed_names(w), n@),
        exists|i: int| #[trigger] first_named(v, n@, i) && v[i].1 == d,
        forall|m: Seq<char>, k: int| m != n@ && #[trigger] first_named(w, m, k)
            ==> exists|k2: int| #[trigger] first_named(v, m, k2) && v[k2].1 == w[k].1,
        names_sorted(w) ==> names_sorted(v),
{
    let ns = feed_names(w);
    if ns.contains(n@) {
        let i = choose|i: int| #[trigger] first_named(w, n@, i) && v == w.update(i, (n, d));
        assert(feed_names(v) =~= ns);
        assert(first_named(v, n@, i));
        assert forall|m: Seq<char>, k: int| m != n@ && #[trigger] first_named(w, m, k)
            implies exists|k2: int| #[trigger] first_named(v, m, k2) && v[k2].1 == w[k].1 by {
            assert forall|j: int| 0 <= j < k implies (#[trigger] v[j]).0@ != m by {
                if j != i {
                    assert(v[j] == w[j]);
                }
            }
            assert(first_named(v, m, k));
        }
        if names_sorted(w) {
            assert forall|a: int, b: int| 0 <= a < b < v.len() implies crate::text::text_lt(#[trigger] v[a].0@, #[trigger] v[b].0@) by {
                assert(v[a].0@ == w[a].0@);
                assert(v[b].0@ == w[b].0@);
            }
        }
    } else {
        lemma_insert_point_bounds(ns, n@);
        let p = insert_point(ns, n@);
        assert(feed_names(v) =~= ns.insert(p, n@));
        assert forall|j: int| 0 <= j < p implies (#[trigger] v[j]).0@ != n@ by {
            assert(v[j] == w[j]);
            assert(ns[j] == w[j].0@);
            assert(crate::text::text_lt(ns[j], n@));
            crate::text::lemma_text_lt_irreflexive(n@);
        }
        assert(first_named(v, n@, p));
        assert forall|m: Seq<char>, k: int| m != n@ && #[trigger] first_named(w, m, k)
            implies exists|k2: int| #[trigger] first_named(v, m, k2) && v[k2].1 == w[k].1 by {
            if k < p {
                assert forall|j: int| 0 <= j < k implies (#[trigger] v[j]).0@ != m by {
                    assert(v[j] == w[j]);
                }
                assert(v[k] == w[k]);
                assert(first_named(v, m, k));
            } else {
                assert forall|j: int| 0 <= j < k + 1 implies (#[trigger] v[j]).0@ != m by {
                    if j < p {
                        assert(v[j] == w[j]);
                    } else if j > p {
                        assert(v[j] == w[j - 1]);
                    }
                }
                assert(v[k + 1] == w[k]);
                assert(first_named(v, m, k + 1));
            }
        }
        if names_sorted(w) {
            assert forall|a: int, b: int| 0 <= a < b < v.len() implies crate::text::text_lt(#[trigger] v[a].0@, #[trigger] v[b].0@) by {
                if p < w.len() {
                    assert(ns[p] == w[p].0@);
                    assert(w[p].0@ != n@) by {
                        if w[p].0@ == n@ {
                            assert(ns[p] == n@);
                        }
                    }
                    crate::text::lemma_text_lt_total(w[p].0@, n@);
                }
                if b < p {
                    assert(v[a] == w[a] && v[b] == w[b]);
                } else if b == p {
                    assert(v[a] == w[a]);
                    assert(ns[a] == w[a].0@);
                } else if a < p {
                    assert(v[a] == w[a] && v[b] == w[b - 1]);
                } else if a == p {
                    assert(v[b] == w[b - 1]);
                    if b - 1 > p {
                        crate::text::lemma_text_lt_transitive(n@, w[p].0@, w[b - 1].0@);
                    }
                } else {
                    assert(v[a] == w[a - 1] && v[b] == w[b - 1]);
                }
            }
        }
    }
}

impl Config {
    /// The definition of the feed with this name.
    pub fn feed(&self, name: &str) -> (res: Option<&FeedDefinition>)
        ensures
            match self.feeds {
                Some(v) => match res {
                    Some(d) => exists|i: int| #[trigger] first_named(v@, name@, i) && v@[i].1 == *d,
                    None => forall|i: int| 0 <= i < v@.len() ==> (#[trigger] v@[i]).0@ != name@,
                },
                None => res is None,
            },
    {
        match &self.feeds {
            Some(v) => {
                let key = crate::text::owned(name);
                let mut i: usize = 0;
                while i < v.len()
                    invariant
                        i <= v.len(),
                        key@ == name@,
                        self.feeds == Some(*v),
                        forall|j: int| 0 <= j < i ==> (#[trigger] v@[j]).0@ != name@,
                    decreases v.len() - i,
                {
                    if v[i].0 == key {
                        assert(v@[i as int].0@ == name@);
                        let r = &v[i].1;
                        assert(first_named(v@, name@, i as int) && v@[i as int].1 == *r);
                        assert(self.feeds matches Some(w) && w@ == v@);
                        assert(exists|k: int| #[trigger] first_named(v@, name@, k) && v@[k].1 == *r);
                        return Some(r);
                    }
                    i += 1;
                }
                None
            },
            None => None,
        }
    }

    /// Adds a feed under a name (`BTreeMap::insert`): it replaces the
    /// definition of that name, or goes in where its name keeps the names in
    /// order.
    pub fn add_feed(&mut self, name: String, def: FeedDefinition)
        ensures
            final(self).feeds matches Some(v) && added(feed_list(old(self).feeds), v@, name, def),
            final(self).feeds matches Some(v) && feed_names(v@) == added_names(feed_names(feed_list(old(self).feeds)), name@),
            *final(self) == (Config { feeds: final(self).feeds, ..*old(self) }),
            final(self).feeds matches Some(v) && exists|i: int| #[trigger] first_named(v@, name@, i) && v@[i].1 == def,
            forall|m: Seq<char>, k: int| m != name@ && #[trigger] first_named(feed_list(old(self).feeds), m, k)
                ==> exists|k2: int| #[trigger] first_named(feed_list(final(self).feeds), m, k2)
                    && feed_list(final(self).feeds)[k2].1 == feed_list(old(self).feeds)[k].1,
            names_sorted(feed_list(old(self).feeds)) ==> (final(self).feeds matches Some(v) && names_sorted(v@)),
    {
        let ghost w = feed_list(self.feeds);
        let ghost nm = name;
        let ghost d0 = def;
        let mut taken: Option<Vec<(String, FeedDefinition)>> = None;
        std::mem::swap(&mut taken, &mut self.feeds);
        let mut v = match taken {
            Some(v) => v,
            None => Vec::new(),
        };
        assert(v@ == w);
        let mut i: usize = 0;
        while i < v.len()
            invariant
                i <= v.len(),
                v@ == w,
                self.feeds is None,
                *old(self) == (Config { feeds: old(self).feeds, ..*self }),
                nm == name,
                d0 == def,
                w == feed_list(old(self).feeds),
                forall|j: int| 0 <= j < i ==> (#[trigger] w[j]).0@ != name@,
            decreases v.len() - i,
        {
            if v[i].0 == name {
                assert(first_named(w, name@, i as int));
                assert(feed_names(w)[i as int] == name@);
                v.set(i, (name, def));
                proof {
                    assert(v@ == w.update(i as int, (nm, d0)));
                    assert(feed_names(w).contains(nm@));
                    assert(added(w, v@, nm, d0));
                    lemma_added(w, v@, nm, d0);
                }
                let ghost vv = v@;
                self.feeds = Some(v);
                assert(feed_list(self.feeds) == vv);
                return;
            }
            i += 1;
        }
        assert(!feed_names(w).contains(name@)) by {
            if feed_names(w).contains(name@) {
                let k = choose|k: int| 0 <= k < feed_names(w).len() && feed_names(w)[k] == name@;
                assert(w[k].0@ == name@);
            }
        }
        let mut p: usize = 0;
        while p < v.len() && crate::text::text_less(v[p].0.as_str(), name.as_str())
            invariant
                p <= v.len(),
                v@ == w,
                nm == name,
                d0 == def,
                forall|j: int| 0 <= j < p ==> crate::text::text_lt(#[trigger] feed_names(w)[j], name@),
            decreases v.len() - p,
        {
            p += 1;
        }
        proof {
            lemma_insert_point(feed_names(w), name@, p as int);
        }
        v.insert(p, (name, def));
        proof {
            assert(added(w, v@, nm, d0));
            lemma_added(w, v@, nm, d0);
        }
        let ghost vv = v@;
        self.feeds = Some(v);
        assert(feed_list(self.feeds) == vv);
    }

    /// The configured command for a custom command name: the first custom
    /// command of that name, or the built-in no-op when there is none.
    pub fn get_custom_command(&self, name: &str) -> (res: Commandish)
        ensures
            match res {
                Commandish::CustomCommandFull(c) => exists|i: int| 0 <= i < self.commands@.len()
                    && self.commands@[i].name@ == name@ && c.name@ == name@
                    && texts(c.command@) == texts(self.commands@[i].command@) && c.save == self.commands@[i].save
                    && forall|j: int| 0 <= j < i ==> (#[trigger] self.commands@[j]).name@ != name@,
                Commandish::Literal(ReadCommandLiteral::Noop) => forall|i: int| 0 <= i < self.commands@.len() ==> (#[trigger] self.commands@[i]).name@ != name@,
                _ => false,
            },
    {
        let key = crate::text::owned(name);
        let mut i: usize = 0;
        while i < self.commands.len()
            invariant
                i <= self.commands.len(),
                key@ == name@,
                forall|j: int| 0 <= j < i ==> (#[trigger] self.commands@[j]).name@ != name@,
            decreases self.commands.len() - i,
        {
            if self.commands[i].name == key {
                return self.commands[i].to_commandish();
            }
            i += 1;
        }
        Commandish::Literal(ReadCommandLiteral::Noop)
    }
}

/// The default update step of a kind of feed.
pub open spec fn default_step(f: RawFeed) -> u8 {
    match f {
        RawFeed::Aggregate { .. } => DEFAULT_FEED_AGG_STEP,
        RawFeed::AggregateTag { .. } => DEFAULT_FEED_TAG_STEP,
        _ => DEFAULT_FEED_STEP,
    }
}

/// A feed as the updater runs it.
#[derive(Debug)]
pub struct FeedSetup {
    pub name: String,
    pub kind: FeedKind,
    pub attr: FeedAttributes,
    /// The options it runs with.
    pub options: FeedOptions,
    /// Its update step.
    pub step: u8,
}

/// The kind of feed a definition runs as. A Mastodon timeline or user runs
/// as a feed that fetches nothing: the Mastodon feed it would be built from
/// is not part of the feed library this crate builds on.
pub open spec fn kind_matches(k: FeedKind, f: RawFeed) -> bool {
    match f {
        RawFeed::Raw { url } => k matches FeedKind::Standard(s) && s.url@ == url@,
        RawFeed::Aggregate { .. } => k is Aggregate,
        RawFeed::AggregateTag { tag_allowlist, tag_blocklist } => k matches FeedKind::AggregateTag(t)
            && crate::aggregate::tag_texts(t.allowlist@) == strings_view(tag_allowlist@)
            && crate::aggregate::tag_texts(t.blocklist@) == strings_view(tag_blocklist@),
        _ => k is Noop,
    }
}

fn tags_from(v: &Vec<String>) -> (res: Vec<Tag>)
    ensures
        crate::aggregate::tag_texts(res@) == strings_view(v@),
{
    let mut out: Vec<Tag> = Vec::new();
    let mut i: usize = 0;
    while i < v.len()
        invariant
            i <= v.len(),
            crate::aggregate::tag_texts(out@) == strings_view(v@.take(i as int)),
        decreases v.len() - i,
    {
        let ghost o0 = crate::aggregate::tag_texts(out@);
        out.push(Tag(v[i].clone()));
        assert(crate::aggregate::tag_texts(out@) =~= o0.push(v@[i as int]@));
        assert(strings_view(v@.take(i + 1)) =~= strings_view(v@.take(i as int)).push(v@[i as int]@));
        i += 1;
    }
    assert(v@.take(v.len() as int) =~= v@);
    out
}

fn copy_options(o: &FeedOptions) -> (res: FeedOptions)
    ensures
        res.parts() == o.parts(),
{
    let mut r = FeedOptions::default();
    r.max = o.max;
    r.freq = o.freq;
    r.oldest = o.oldest;
    r.keep_empty = o.keep_empty;
    r.apply_tags = o.apply_tags;
    r.step = o.step;
    r.retry_count = o.retry_count;
    let mut i: usize = 0;
    r.headers = Vec::new();
    while i < o.headers.len()
        invariant
            i <= o.headers.len(),
            r.max == o.max,
            r.freq == o.freq,
            r.oldest == o.oldest,
            r.keep_empty == o.keep_empty,
            r.apply_tags == o.apply_tags,
            r.step == o.step,
            r.retry_count == o.retry_count,
            crate::options::pairs_view(r.headers@) == crate::options::pairs_view(o.headers@.take(i as int)),
        decreases o.headers.len() - i,
    {
        let ghost h0 = crate::options::pairs_view(r.headers@);
        r.headers.push((o.headers[i].0.clone(), o.headers[i].1.clone()));
        assert(crate::options::pairs_view(r.headers@) =~= h0.push((o.headers@[i as int].0@, o.headers@[i as int].1@)));
        assert(crate::options::pairs_view(o.headers@.take(i + 1)) =~= crate::options::pairs_view(o.headers@.take(i as int)).push((o.headers@[i as int].0@, o.headers@[i as int].1@)));
        i += 1;
    }
    assert(o.headers@.take(o.headers.len() as int) =~= o.headers@);
    r
}

/// Sets up one configured feed: its options are the global ones overridden
/// by its own; its attributes carry its name, its update frequency (2 hours
/// by default), its oldest age as the timeout, its tags and its filters
/// (a definition holds no transforms of its own, so the attributes get none;
/// the global transforms run in the updater); its step is the configured one
/// or the default of its kind.
pub fn feed_setup(name: &String, def: &FeedDefinition, global: &FeedOptions) -> (res: FeedSetup)
    ensures
        res.name@ == name@,
        res.options.parts() == merged(*global, def.options),
        res.attr.display_name@ == name@,
        res.attr.freq matches Some(f) && f@ == res.options.freq_span_or_default(),
        res.attr.timeout@ == res.options.oldest_span(),
        crate::entry::tags_view(res.attr.tags@) == match def.tags {
            Some(v) => crate::entry::insert_tags_seq(Seq::empty(), strings_view(v@)),
            None => Seq::empty(),
        },
        filters_view(res.attr.filters@) == crate::filters::configured(def.filters.each_filter()),
        res.attr.transforms@.len() == 0,
        res.step == match res.options.step {
            Some(s) => s,
            None => default_step(def.feed),
        },
        kind_matches(res.kind, def.feed),
{
    let mut options = copy_options(global);
    options.merge(&def.options);
    let mut attr = FeedAttributes::new();
    attr.display_name = name.clone();
    attr.freq = Some(options.freq_or_default());
    attr.timeout = options.oldest();
    assert(filters_view(attr.filters@) =~= Seq::<crate::filters::EntryFilterView>::empty());
    match &def.tags {
        Some(v) => {
            assert(crate::entry::tags_view(attr.tags@) =~= Seq::<Seq<char>>::empty());
            assert(strings_view(v@.take(0)) =~= Seq::<Seq<char>>::empty());
            let mut i: usize = 0;
            while i < v.len()
                invariant
                    i <= v.len(),
                    attr.display_name@ == name@,
                    attr.transforms@.len() == 0,
                    filters_view(attr.filters@) == Seq::<crate::filters::EntryFilterView>::empty(),
                    attr.freq matches Some(f) && f@ == options.freq_span_or_default(),
                    attr.timeout@ == options.oldest_span(),
                    crate::entry::tags_view(attr.tags@) == crate::entry::insert_tags_seq(Seq::empty(), strings_view(v@.take(i as int))),
                decreases v.len() - i,
            {
                attr.add_tag(Tag(v[i].clone()));
                assert(strings_view(v@.take(i + 1)).drop_last() =~= strings_view(v@.take(i as int)));
                assert(strings_view(v@.take(i + 1)).last() == v@[i as int]@);
                i += 1;
            }
            assert(v@.take(v.len() as int) =~= v@);
        },
        None => {
            assert(crate::entry::tags_view(attr.tags@) =~= Seq::<Seq<char>>::empty());
        },
    }
    let filters = def.filters.get_filters();
    let mut k: usize = 0;
    let ghost tags_after = crate::entry::tags_view(attr.tags@);
    assert(filters_view(attr.filters@) =~= Seq::<crate::filters::EntryFilterView>::empty());
    while k < filters.len()
        invariant
            k <= filters.len(),
            attr.display_name@ == name@,
            attr.transforms@.len() == 0,
            attr.freq matches Some(f) && f@ == options.freq_span_or_default(),
            attr.timeout@ == options.oldest_span(),
            crate::entry::tags_view(attr.tags@) == tags_after,
            filters_view(attr.filters@) == filters_view(filters@).take(k as int),
        decreases filters.len() - k,
    {
        attr.add_filter(filters[k].clone());
        assert(filters_view(filters@).take(k + 1) =~= filters_view(filters@).take(k as int).push(filters@[k as int]@));
        k += 1;
    }
    assert(filters_view(filters@).take(filters.len() as int) =~= filters_view(filters@));
    let kind = match &def.feed {
        RawFeed::Raw { url } => FeedKind::Standard(StandardSyndication::new(url.as_str())),
        RawFeed::Aggregate { .. } => FeedKind::Aggregate(AggregateFeed::new()),
        RawFeed::AggregateTag { tag_allowlist, tag_blocklist } => {
            let mut t = AggregateTagFeed::new();
            t.allowlist = tags_from(tag_allowlist);
            t.blocklist = tags_from(tag_blocklist);
            FeedKind::AggregateTag(t)
        },
        _ => FeedKind::Noop(NoopFeed),
    };
    let default = match &def.feed {
        RawFeed::Aggregate { .. } => DEFAULT_FEED_AGG_STEP,
        RawFeed::AggregateTag { .. } => DEFAULT_FEED_TAG_STEP,
        _ => DEFAULT_FEED_STEP,
    };
    let step = options.step(default);
    FeedSetup { name: name.clone(), kind, attr, options, step }
}

impl FeedOptions {
    /// The update frequency, 2 hours when unconfigured.
    pub open spec fn freq_span_or_default(self) -> int {
        match self.freq {
            Some(f) => crate::options::span_of_std(f),
            None => crate::options::DEFAULT_FREQ_SECS * NANOS_PER_SEC,
        }
    }
}

} // verus!

verus! {

/// The attributes a configured feed runs with, as `feed_setup` gives them.
pub open spec fn attr_matches(attr: FeedAttributes, name: Seq<char>, def: FeedDefinition, global: FeedOptions) -> bool {
    let parts = merged(global, def.options);
    &&& attr.display_name@ == name
    &&& attr.freq matches Some(f) && f@ == match parts.1 {
        Some(s) => crate::options::span_of_std(s),
        None => crate::options::DEFAULT_FREQ_SECS * NANOS_PER_SEC,
    }
    &&& attr.timeout@ == match parts.2 {
        Some(s) => crate::options::span_of_std(s),
        None => crate::options::DEFAULT_OLDEST_SECS * NANOS_PER_SEC,
    }
    &&& crate::entry::tags_view(attr.tags@) == match def.tags {
        Some(v) => crate::entry::insert_tags_seq(Seq::empty(), strings_view(v@)),
        None => Seq::empty(),
    }
    &&& filters_view(attr.filters@) == crate::filters::configured(def.filters.each_filter())
    &&& attr.transforms@.len() == 0
}

/// The names a configured aggregate feed aggregates (none for other feeds).
pub open spec fn aggregated(f: RawFeed) -> Seq<Seq<char>> {
    match f {
        RawFeed::Aggregate { feeds } => strings_view(feeds@),
        _ => Seq::empty(),
    }
}

/// The configured feeds, in order.
pub open spec fn feed_list(feeds: Option<Vec<(String, FeedDefinition)>>) -> Seq<(String, FeedDefinition)> {
    match feeds {
        Some(v) => v@,
        None => Seq::empty(),
    }
}

/// The update frequency of the updater: the configured whole seconds, or 120.
pub open spec fn update_freq(freq: Option<StdDuration>) -> int {
    match freq {
        Some(f) => f.secs * NANOS_PER_SEC,
        None => DEFAULT_UPDATE_SEC * NANOS_PER_SEC,
    }
}

impl Config {
    /// Sets up the feed updater (`build_task_manager`): an updater checking
    /// at the configured frequency and keeping the configured number of
    /// entries, with every configured feed added in order under ids 0, 1, ...
    /// (each set up by `feed_setup` from the global options) and recorded in
    /// the aggregate world by name, id and the names it aggregates, and with
    /// the global transforms applied to every gathered entry. Returns the
    /// updater, the feeds' names with their ids, the global filters (which
    /// every fetch applies) and the filters of the all-feed.
    pub fn build_updater(&self) -> (res: (Updater, Vec<(String, FeedId)>, Vec<crate::filters::EntryFilter>, Vec<crate::filters::EntryFilter>))
        requires
            self.freq matches Some(f) ==> f.secs <= 9_223_372_036_854_775,
            self.feeds matches Some(v) ==> v@.len() < usize::MAX,
        ensures
            res.0.freq()@ == update_freq(self.freq),
            res.0.entries()@.1 == match self.storage {
                Some(s) => s as nat,
                None => DEFAULT_STORAGE as nat,
            },
            res.0.entries()@.0.len() == 0,
            res.0.last_check() is None,
            ({
                let defs = feed_list(self.feeds);
                &&& res.0.feeds().len() == defs.len()
                &&& res.0.next_id() == defs.len()
                &&& res.1@.len() == defs.len()
                &&& forall|k: int| 0 <= k < defs.len() ==> {
                    &&& (#[trigger] res.0.feeds()[k]).id.0 == k
                    &&& res.0.feeds()[k].last_update is None
                    &&& kind_matches(res.0.feeds()[k].feed, defs[k].1.feed)
                    &&& attr_matches(res.0.feeds()[k].attr, defs[k].0@, defs[k].1, self.global.limits)
                    &&& res.1@[k].0@ == defs[k].0@
                    &&& res.1@[k].1.0 == k
                }
                &&& res.0.world() == world_after(crate::aggregate::WorldView { ids: Seq::empty(), names: Seq::empty(), feeds: Seq::empty() }, defs)
            }),
            crate::transforms::transform_keys(res.0.transforms()) == crate::transforms::configured_transforms(self.global.transforms),
            filters_view(res.2@) == crate::filters::configured(self.global.filters.each_filter()),
            filters_view(res.3@) == match self.serve.all {
                Some(g) => crate::filters::configured(g.filters.each_filter()),
                None => Seq::empty(),
            },
    {
        let secs: u64 = match self.freq {
            Some(f) => f.secs,
            None => DEFAULT_UPDATE_SEC,
        };
        let storage: usize = match self.storage {
            Some(s) => s as usize,
            None => DEFAULT_STORAGE,
        };
        let mut updater = Updater::new(Duration::from_seconds(secs), storage);
        let mut names: Vec<(String, FeedId)> = Vec::new();
        let ghost defs = feed_list(self.feeds);
        let ghost w0 = updater.world();
        assert(w0.ids =~= Seq::empty());
        assert(w0.names =~= Seq::empty());
        assert(w0.feeds =~= Seq::empty());
        match &self.feeds {
            Some(v) => {
                let mut i: usize = 0;
                while i < v.len()
                    invariant
                        i <= v.len(),
                        defs == v@,
                        v@.len() < usize::MAX,
                        updater.freq()@ == secs * NANOS_PER_SEC,
                        updater.entries()@.1 == storage,
                        updater.entries()@.0.len() == 0,
                        updater.last_check() is None,
                        updater.transforms().len() == 0,
                        updater.next_id() == i,
                        updater.feeds().len() == i,
                        names@.len() == i,
                        forall|k: int| 0 <= k < i ==> {
                            &&& (#[trigger] updater.feeds()[k]).id.0 == k
                            &&& updater.feeds()[k].last_update is None
                            &&& kind_matches(updater.feeds()[k].feed, defs[k].1.feed)
                            &&& attr_matches(updater.feeds()[k].attr, defs[k].0@, defs[k].1, self.global.limits)
                            &&& names@[k].0@ == defs[k].0@
                            &&& names@[k].1.0 == k
                        },
                        updater.world() == world_after(w0, defs.take(i as int)),
                    decreases v.len() - i,
                {
                    let name = &v[i].0;
                    let def = &v[i].1;
                    let setup = feed_setup(name, def, &self.global.limits);
                    let aggs: Option<Vec<String>> = match &def.feed {
                        RawFeed::Aggregate { feeds } => Some(crate::filters::copy_strings(feeds)),
                        _ => None,
                    };
                    let ghost before = updater.world();
                    let id = updater.add_feed(setup.kind, setup.attr);
                    updater.world_mut().insert(name.clone(), id, aggs);
                    names.push((name.clone(), id));
                    proof {
                        assert(defs.take(i + 1).drop_last() =~= defs.take(i as int));
                        assert(defs.take(i + 1).last() == v@[i as int]);
                        assert(match aggs { Some(a) => strings_view(a@), None => Seq::<Seq<char>>::empty() } == aggregated(def.feed));
                    }
                    i += 1;
                }
                assert(defs.take(v.len() as int) =~= defs);
            },
            None => {},
        }
        let transforms = self.global.transforms.get_transforms();
        let mut t: usize = 0;
        let ghost built = updater.feeds();
        let ghost world = updater.world();
        let ghost next = updater.next_id();
        assert(crate::transforms::transform_keys(updater.transforms()) =~= crate::transforms::transform_keys(transforms@.take(0)));
        while t < transforms.len()
            invariant
                t <= transforms.len(),
                updater.freq()@ == secs * NANOS_PER_SEC,
                updater.entries()@.1 == storage,
                updater.entries()@.0.len() == 0,
                updater.last_check() is None,
                updater.feeds() == built,
                updater.world() == world,
                updater.next_id() == next,
                crate::transforms::transform_keys(updater.transforms()) == crate::transforms::transform_keys(transforms@.take(t as int)),
            decreases transforms.len() - t,
        {
            let ghost before = updater.transforms();
            updater.add_transform(transforms[t].copy());
            assert(crate::transforms::transform_keys(transforms@.take(t + 1))
                =~= crate::transforms::transform_keys(transforms@.take(t as int)).push(crate::transforms::transform_key(transforms@[t as int])));
            assert(crate::transforms::transform_keys(updater.transforms())
                =~= crate::transforms::transform_keys(before).push(crate::transforms::transform_key(transforms@[t as int])));
            t += 1;
        }
        assert(transforms@.take(transforms.len() as int) =~= transforms@);
        let global_filters = self.global.filters.get_filters();
        let all = match &self.serve.all {
            Some(g) => g.filters.get_filters(),
            None => Vec::new(),
        };
        (updater, names, global_filters, all)
    }
}

/// The aggregate world after each configured feed, in order, is recorded
/// by its name, its id (its position) and the names it aggregates.
pub open spec fn world_after(w: crate::aggregate::WorldView, defs: Seq<(String, FeedDefinition)>) -> crate::aggregate::WorldView
    decreases defs.len(),
{
    if defs.len() == 0 {
        w
    } else {
        let prev = world_after(w, defs.drop_last());
        let id = (defs.len() - 1) as nat;
        let d = defs.last();
        crate::aggregate::WorldView {
            ids: bind(prev.ids, d.0@, id),
            names: bind(prev.names, id, d.0@),
            feeds: bind(prev.feeds, id, aggregated(d.1.feed)),
        }
    }
}

} // verus!

verus! {

impl Config {
    /// Nothing configured.
    pub fn default() -> (res: Config)
        ensures
            res.freq is None,
            res.workers is None,
            res.timezone.kind == TimeZoneKind::Local,
            res.log is None,
            res.storage is None,
            res.database is None,
            res.commands@.len() == 0,
            res.hooks@.len() == 0,
            res.feeds is None,
            !res.serve.show_source_in_title,
            res.serve.export_format == ExportFormat::HTML,
            res.global.limits.parts() == FeedOptions::default_parts(),
    {
        Config {
            freq: None,
            workers: None,
            timezone: TimeZone::default(),
            log: None,
            storage: None,
            database: None,
            global: GlobalConfig::default(),
            commands: Vec::new(),
            hooks: Vec::new(),
            feeds: None,
            serve: ServeConfig::default(),
            read: ReadConfig::default(),
        }
    }

    /// The command bound to a key: the first binding of the key, a custom
    /// command by name resolved by `get_custom_command`; the no-op when the
    /// key has no binding.
    pub fn get_key_command(&self, key: &str) -> (res: Commandish)
        ensures
            (exists|i: int| 0 <= i < self.read.bindings@.len() && (#[trigger] self.read.bindings@[i]).0@ == key@) || res matches Commandish::Literal(ReadCommandLiteral::Noop),
            forall|i: int| 0 <= i < self.read.bindings@.len() && (#[trigger] self.read.bindings@[i]).0@ == key@
                && (forall|j: int| 0 <= j < i ==> (#[trigger] self.read.bindings@[j]).0@ != key@)
                ==> match self.read.bindings@[i].1 {
                    Commandish::CustomCommandRef(n) => match res {
                        Commandish::CustomCommandFull(c) => exists|k: int| 0 <= k < self.commands@.len()
                            && self.commands@[k].name@ == n@ && c.name@ == n@,
                        Commandish::Literal(ReadCommandLiteral::Noop) => forall|k: int| 0 <= k < self.commands@.len() ==> (#[trigger] self.commands@[k]).name@ != n@,
                        _ => false,
                    },
                    c => crate::commands::commandish_view(res) == crate::commands::commandish_view(c),
                },
    {
        let k = crate::text::owned(key);
        let mut i: usize = 0;
        while i < self.read.bindings.len()
            invariant
                i <= self.read.bindings.len(),
                k@ == key@,
                forall|j: int| 0 <= j < i ==> (#[trigger] self.read.bindings@[j]).0@ != key@,
            decreases self.read.bindings.len() - i,
        {
            if self.read.bindings[i].0 == k {
                let c = &self.read.bindings[i].1;
                let r = match c {
                    Commandish::CustomCommandRef(name) => self.get_custom_command(name.as_str()),
                    _ => c.copy(),
                };
                assert(self.read.bindings@[i as int].0@ == key@);
                return r;
            }
            i += 1;
        }
        Commandish::Literal(ReadCommandLiteral::Noop)
    }
}

} // verus!
