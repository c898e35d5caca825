//! Aggregate feeds: feeds that claim the entries of other feeds, directly,
//! through other aggregates, or by their tags.
use vstd::prelude::*;
use crate::entry::{from_feed_spec, has_tag_spec, Entry, EntryView, FeedId, Tag};
use crate::filters::strings_view;

verus! {

/// The value first stored under `key` in an association list, if any.
pub open spec fn lookup<K, V>(v: Seq<(K, V)>, key: K) -> Option<V>
    decreases v.len(),
{
    if v.len() == 0 {
        None
    } else if v[0].0 == key {
        Some(v[0].1)
    } else {
        lookup(v.drop_first(), key)
    }
}

/// An association list with `key` bound to `val`: the first binding of the
/// key replaced, or a new binding appended (the rule of a map's `insert`).
pub open spec fn bind<K, V>(v: Seq<(K, V)>, key: K, val: V) -> Seq<(K, V)>
    decreases v.len(),
{
    if v.len() == 0 {
        seq![(key, val)]
    } else if v[0].0 == key {
        v.update(0, (key, val))
    } else {
        seq![v[0]] + bind(v.drop_first(), key, val)
    }
}

/// A binding, once made, is what a lookup of its key finds; other keys are
/// unaffected.
pub proof fn lemma_lookup_bind<K, V>(v: Seq<(K, V)>, key: K, val: V, other: K)
    ensures
        lookup(bind(v, key, val), key) == Some(val),
        other != key ==> lookup(bind(v, key, val), other) == lookup(v, other),
    decreases v.len(),
{
    let b = bind(v, key, val);
    if v.len() == 0 {
        assert(b.drop_first() =~= Seq::<(K, V)>::empty());
        assert(b[0] == (key, val));
        assert(lookup(b.drop_first(), other) == None::<V>);
    } else if v[0].0 == key {
        assert(b.drop_first() =~= v.drop_first());
        assert(b[0] == (key, val));
        if other != key {
            assert(lookup(b, other) == lookup(b.drop_first(), other));
            assert(lookup(v, other) == lookup(v.drop_first(), other));
        }
    } else {
        lemma_lookup_bind(v.drop_first(), key, val, other);
        assert(b.drop_first() =~= bind(v.drop_first(), key, val));
        assert(b[0] == v[0]);
        if other != key && v[0].0 != other {
            assert(lookup(b, other) == lookup(b.drop_first(), other));
            assert(lookup(v, other) == lookup(v.drop_first(), other));
        }
    }
}

/// The world of aggregate feeds: feed names to ids, ids to names, and each
/// feed's aggregated feed names.
#[derive(Debug)]
pub struct AggregateWorld {
    feed_ids: Vec<(String, FeedId)>,
    feed_names: Vec<(FeedId, String)>,
    feed_feeds: Vec<(FeedId, Vec<String>)>,
}

/// What an aggregate world is.
pub struct WorldView {
    pub ids: Seq<(Seq<char>, nat)>,
    pub names: Seq<(nat, Seq<char>)>,
    pub feeds: Seq<(nat, Seq<Seq<char>>)>,
}

impl View for AggregateWorld {
    type V = WorldView;

    closed spec fn view(&self) -> WorldView {
        WorldView {
            ids: self.feed_ids@.map_values(|p: (String, FeedId)| (p.0@, p.1.0 as nat)),
            names: self.feed_names@.map_values(|p: (FeedId, String)| (p.0.0 as nat, p.1@)),
            feeds: self.feed_feeds@.map_values(|p: (FeedId, Vec<String>)| (p.0.0 as nat, strings_view(p.1@))),
        }
    }
}

/// Whether `feed`, within `limit` steps of aggregation, owns the entry: the
/// entry is from it, or from a feed that one of its aggregated feeds owns
/// within one step fewer. An aggregated name without an id owns nothing.
pub open spec fn owns(w: WorldView, feed: nat, e: EntryView, limit: nat) -> bool
    decreases limit,
{
    if limit == 0 {
        false
    } else if from_feed_spec(e, feed) {
        true
    } else {
        match lookup(w.feeds, feed) {
            None => false,
            Some(names) => exists|i: int|
                0 <= i < names.len() && match lookup(w.ids, #[trigger] names[i]) {
                    Some(id) => owns(w, id, e, (limit - 1) as nat),
                    None => false,
                },
        }
    }
}

fn lookup_id(v: &Vec<(String, FeedId)>, key: &String) -> (res: Option<FeedId>)
    ensures
        match lookup(v@.map_values(|p: (String, FeedId)| (p.0@, p.1.0 as nat)), key@) {
            Some(n) => res matches Some(id) && id.0 == n,
            None => res is None,
        },
{
    let ghost m = v@.map_values(|p: (String, FeedId)| (p.0@, p.1.0 as nat));
    let mut i: usize = 0;
    assert(m.skip(0) =~= m);
    while i < v.len()
        invariant
            i <= v.len(),
            m == v@.map_values(|p: (String, FeedId)| (p.0@, p.1.0 as nat)),
            lookup(m.skip(i as int), key@) == lookup(m, key@),
        decreases v.len() - i,
    {
        assert(m.skip(i as int)[0] == m[i as int]);
        assert(m.skip(i as int).drop_first() =~= m.skip(i + 1));
        if v[i].0 == *key {
            return Some(v[i].1);
        }
        i += 1;
    }
    assert(m.skip(v.len() as int) =~= Seq::<(Seq<char>, nat)>::empty());
    None
}

fn lookup_feeds(v: &Vec<(FeedId, Vec<String>)>, key: FeedId) -> (res: Option<usize>)
    ensures
        match lookup(v@.map_values(|p: (FeedId, Vec<String>)| (p.0.0 as nat, strings_view(p.1@))), key.0 as nat) {
            Some(names) => res matches Some(i) && i < v@.len() && strings_view(v@[i as int].1@) == names,
            None => res is None,
        },
{
    let ghost m = v@.map_values(|p: (FeedId, Vec<String>)| (p.0.0 as nat, strings_view(p.1@)));
    let mut i: usize = 0;
    assert(m.skip(0) =~= m);
    while i < v.len()
        invariant
            i <= v.len(),
            m == v@.map_values(|p: (FeedId, Vec<String>)| (p.0.0 as nat, strings_view(p.1@))),
            lookup(m.skip(i as int), key.0 as nat) == lookup(m, key.0 as nat),
        decreases v.len() - i,
    {
        assert(m.skip(i as int)[0] == m[i as int]);
        assert(m.skip(i as int).drop_first() =~= m.skip(i + 1));
        if v[i].0.0 == key.0 {
            return Some(i);
        }
        i += 1;
    }
    assert(m.skip(v.len() as int) =~= Seq::<(nat, Seq<Seq<char>>)>::empty());
    None
}

proof fn lemma_bind_map<A, K, V>(v: Seq<A>, f: spec_fn(A) -> (K, V), i: int, a: A)
    requires
        0 <= i <= v.len(),
        forall|k: int| 0 <= k < i ==> (#[trigger] f(v[k])).0 != f(a).0,
        i < v.len() ==> f(v[i]).0 == f(a).0,
    ensures
        (if i < v.len() { v.update(i, a) } else { v.push(a) }).map_values(f) == bind(v.map_values(f), f(a).0, f(a).1),
    decreases v.len(),
{
    let m = v.map_values(f);
    if v.len() == 0 {
        assert(v.push(a).map_values(f) =~= seq![f(a)]);
    } else if i == 0 {
        assert(m[0].0 == f(a).0);
        assert(v.update(0, a).map_values(f) =~= m.update(0, (f(a).0, f(a).1)));
    } else {
        let t = v.drop_first();
        assert forall|k: int| 0 <= k < i - 1 implies (#[trigger] f(t[k])).0 != f(a).0 by {
            assert(t[k] == v[k + 1]);
        }
        if i - 1 < t.len() {
            assert(t[i - 1] == v[i]);
        }
        lemma_bind_map(t, f, i - 1, a);
        assert(m.drop_first() =~= t.map_values(f));
        assert(m[0] == f(v[0]));
        let r = if i < v.len() { v.update(i, a) } else { v.push(a) };
        let rt = if i - 1 < t.len() { t.update(i - 1, a) } else { t.push(a) };
        assert(r.map_values(f) =~= seq![m[0]] + rt.map_values(f));
    }
}

impl AggregateWorld {
    /// An empty world.
    pub fn new() -> (res: AggregateWorld)
        ensures
            res@.ids.len() == 0,
            res@.names.len() == 0,
            res@.feeds.len() == 0,
    {
        AggregateWorld { feed_ids: Vec::new(), feed_names: Vec::new(), feed_feeds: Vec::new() }
    }

    /// Records a feed: its name, its id and the names it aggregates (none
    /// when not given).
    pub fn insert(&mut self, name: String, id: FeedId, aggs: Option<Vec<String>>)
        ensures
            final(self)@.ids == bind(old(self)@.ids, name@, id.0 as nat),
            final(self)@.names == bind(old(self)@.names, id.0 as nat, name@),
            final(self)@.feeds == bind(old(self)@.feeds, id.0 as nat, match aggs {
                Some(v) => strings_view(v@),
                None => Seq::empty(),
            }),
    {
        let ghost fi = |p: (String, FeedId)| (p.0@, p.1.0 as nat);
        let ghost fn_ = |p: (FeedId, String)| (p.0.0 as nat, p.1@);
        let ghost ff = |p: (FeedId, Vec<String>)| (p.0.0 as nat, strings_view(p.1@));
        // Names to ids.
        let mut i: usize = 0;
        while i < self.feed_ids.len() && !(self.feed_ids[i].0 == name)
            invariant
                fi == (|p: (String, FeedId)| (p.0@, p.1.0 as nat)),
                i <= self.feed_ids.len(),
                self.feed_ids@ == old(self).feed_ids@,
                self.feed_names@ == old(self).feed_names@,
                self.feed_feeds@ == old(self).feed_feeds@,
                forall|k: int| 0 <= k < i ==> (#[trigger] fi(self.feed_ids@[k])).0 != name@,
            decreases self.feed_ids.len() - i,
        {
            i += 1;
        }
        proof {
            lemma_bind_map(self.feed_ids@, fi, i as int, (name, id));
            assert(self@.ids =~= self.feed_ids@.map_values(fi));
        }
        if i < self.feed_ids.len() {
            self.feed_ids.set(i, (name.clone(), id));
        } else {
            self.feed_ids.push((name.clone(), id));
        }
        // Ids to names.
        let mut j: usize = 0;
        while j < self.feed_names.len() && self.feed_names[j].0.0 != id.0
            invariant
                fn_ == (|p: (FeedId, String)| (p.0.0 as nat, p.1@)),
                j <= self.feed_names.len(),
                self.feed_names@ == old(self).feed_names@,
                self.feed_feeds@ == old(self).feed_feeds@,
                forall|k: int| 0 <= k < j ==> (#[trigger] fn_(self.feed_names@[k])).0 != id.0 as nat,
            decreases self.feed_names.len() - j,
        {
            j += 1;
        }
        proof {
            lemma_bind_map(self.feed_names@, fn_, j as int, (id, name));
        }
        if j < self.feed_names.len() {
            self.feed_names.set(j, (id, name));
        } else {
            self.feed_names.push((id, name));
        }
        // Ids to aggregated names.
        let names = match aggs {
            Some(v) => v,
            None => Vec::new(),
        };
        assert(strings_view(names@) == match aggs {
            Some(v) => strings_view(v@),
            None => Seq::<Seq<char>>::empty(),
        }) by {
            if aggs is None {
                assert(strings_view(names@) =~= Seq::<Seq<char>>::empty());
            }
        }
        let mut k: usize = 0;
        while k < self.feed_feeds.len() && self.feed_feeds[k].0.0 != id.0
            invariant
                ff == (|p: (FeedId, Vec<String>)| (p.0.0 as nat, strings_view(p.1@))),
                k <= self.feed_feeds.len(),
                self.feed_feeds@ == old(self).feed_feeds@,
                forall|q: int| 0 <= q < k ==> (#[trigger] ff(self.feed_feeds@[q])).0 != id.0 as nat,
            decreases self.feed_feeds.len() - k,
        {
            k += 1;
        }
        proof {
            lemma_bind_map(self.feed_feeds@, ff, k as int, (id, names));
        }
        if k < self.feed_feeds.len() {
            self.feed_feeds.set(k, (id, names));
        } else {
            self.feed_feeds.push((id, names));
        }
        proof {
            assert(self@.ids =~= self.feed_ids@.map_values(fi));
            assert(self@.names =~= self.feed_names@.map_values(fn_));
            assert(self@.feeds =~= self.feed_feeds@.map_values(ff));
        }
    }

    /// Whether `feed` owns the entry, within six steps of aggregation.
    pub fn feed_owns_entry(&self, feed: FeedId, entry: &Entry) -> (res: bool)
        ensures
            res == owns(self@, feed.0 as nat, entry@, 6),
    {
        self.feed_owns_entry_lim(feed, entry, 6)
    }

    /// Whether `feed` owns the entry within `limit` steps of aggregation.
    pub fn feed_owns_entry_lim(&self, feed: FeedId, entry: &Entry, limit: u8) -> (res: bool)
        ensures
            res == owns(self@, feed.0 as nat, entry@, limit as nat),
        decreases limit,
    {
        if limit == 0 {
            return false;
        }
        if entry.is_from_feed(feed) {
            return true;
        }
        let found = lookup_feeds(&self.feed_feeds, feed);
        let idx = match found {
            Some(i) => i,
            None => {
                return false;
            },
        };
        let names = &self.feed_feeds[idx].1;
        let ghost nv = strings_view(names@);
        let mut i: usize = 0;
        while i < names.len()
            invariant
                i <= names.len(),
                nv == strings_view(names@),
                lookup(self@.feeds, feed.0 as nat) == Some(nv),
                limit > 0,
                forall|k: int| 0 <= k < i ==> !(match lookup(self@.ids, #[trigger] nv[k]) {
                    Some(id) => owns(self@, id, entry@, (limit - 1) as nat),
                    None => false,
                }),
            decreases names.len() - i,
        {
            assert(nv[i as int] == names@[i as int]@);
            match lookup_id(&self.feed_ids, &names[i]) {
                Some(child) => {
                    if self.feed_owns_entry_lim(child, entry, limit - 1) {
                        return true;
                    }
                },
                None => {},
            }
            i += 1;
        }
        false
    }
}

/// A feed whose entries are those that the feeds it aggregates own.
#[derive(Clone, Copy, Debug)]
pub struct AggregateFeed;

impl AggregateFeed {
    /// An aggregate feed.
    pub fn new() -> (res: AggregateFeed)
        ensures
            res == AggregateFeed,
    {
        AggregateFeed
    }

    /// Whether this feed, under the id `id`, owns the entry.
    pub fn owns_entry(&self, world: &AggregateWorld, id: FeedId, entry: &Entry) -> (res: bool)
        ensures
            res == owns(world@, id.0 as nat, entry@, 6),
    {
        world.feed_owns_entry(id, entry)
    }
}

/// A feed that takes the entries carrying a tag on its allowlist and none on
/// its blocklist; an empty allowlist allows every entry.
#[derive(Debug)]
pub struct AggregateTagFeed {
    pub allowlist: Vec<Tag>,
    pub blocklist: Vec<Tag>,
}

/// The texts of tags.
pub open spec fn tag_texts(v: Seq<Tag>) -> Seq<Seq<char>> {
    v.map_values(|t: Tag| t@)
}

/// The entry carries some tag of the list (ignoring case).
pub open spec fn carries_any(e: EntryView, list: Seq<Seq<char>>) -> bool {
    exists|i: int| 0 <= i < list.len() && has_tag_spec(e, #[trigger] list[i])
}

/// Whether an aggregate tag feed takes an entry.
pub open spec fn tag_feed_matches(allow: Seq<Seq<char>>, block: Seq<Seq<char>>, e: EntryView) -> bool {
    (allow.len() == 0 || carries_any(e, allow)) && !carries_any(e, block)
}

fn carries_any_exec(e: &Entry, list: &Vec<Tag>) -> (res: bool)
    ensures
        res == carries_any(e@, tag_texts(list@)),
{
    let mut i: usize = 0;
    while i < list.len()
        invariant
            i <= list.len(),
            forall|k: int| 0 <= k < i ==> !has_tag_spec(e@, #[trigger] tag_texts(list@)[k]),
        decreases list.len() - i,
    {
        assert(tag_texts(list@)[i as int] == list@[i as int]@);
        if e.has_tag(list[i].0.as_str()) {
            return true;
        }
        i += 1;
    }
    false
}

impl AggregateTagFeed {
    /// A feed with empty lists: it takes every entry.
    pub fn new() -> (res: AggregateTagFeed)
        ensures
            res.allowlist@.len() == 0,
            res.blocklist@.len() == 0,
    {
        AggregateTagFeed { allowlist: Vec::new(), blocklist: Vec::new() }
    }

    /// The entry carries an allowed tag, or nothing is on the allowlist.
    pub fn in_allowlist(&self, entry: &Entry) -> (res: bool)
        ensures
            res == (self.allowlist@.len() == 0 || carries_any(entry@, tag_texts(self.allowlist@))),
    {
        if self.allowlist.len() == 0 {
            return true;
        }
        carries_any_exec(entry, &self.allowlist)
    }

    /// The entry carries a blocked tag.
    pub fn in_blocklist(&self, entry: &Entry) -> (res: bool)
        ensures
            res == carries_any(entry@, tag_texts(self.blocklist@)),
    {
        carries_any_exec(entry, &self.blocklist)
    }

    /// Whether this feed takes the entry.
    pub fn matches(&self, entry: &Entry) -> (res: bool)
        ensures
            res == tag_feed_matches(tag_texts(self.allowlist@), tag_texts(self.blocklist@), entry@),
    {
        self.in_allowlist(entry) && !self.in_blocklist(entry)
    }
}

/// A feed that takes nothing and tags nothing.
#[derive(Clone, Copy, Debug, Default)]
pub struct NoopFeed;

} // verus!
