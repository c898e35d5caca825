//! The feed updater: the feeds it holds, when it updates, and how fetched
//! entries are tagged and gathered into its entry set.
use vstd::prelude::*;
use crate::aggregate::{AggregateWorld, WorldView};
use crate::datetime::{DateTime, Duration};
use crate::entry::{insert_feed_seq, Entry, EntryView, FeedId, FeedRef, Tag};
use crate::entry_set::{add_spec, sort_spec, EntrySet, EntrySetIter, IterKind};
use crate::feed::{tag_spec, FeedAttributes, FeedKind, UpdaterContext};
use crate::transforms::{apply_transforms, transform_all, Transform};

verus! {

/// What the updater keeps about a feed.
#[derive(Debug)]
pub struct FeedInfo {
    pub id: FeedId,
    pub feed: FeedKind,
    pub attr: FeedAttributes,
    pub last_update: Option<DateTime>,
}

/// Updater for feeds.
pub struct Updater {
    feeds: Vec<FeedInfo>,
    last_update_check: Option<DateTime>,
    freq: Duration,
    entries: EntrySet,
    next_feed_id: usize,
    world: AggregateWorld,
    /// Transforms applied to every gathered entry.
    transforms: Vec<Transform>,
}

/// An entry after every feed, in order, has tagged it.
pub open spec fn tag_by_all(infos: Seq<FeedInfo>, w: WorldView, e: EntryView) -> EntryView
    decreases infos.len(),
{
    if infos.len() == 0 {
        e
    } else {
        let last = infos.last();
        tag_spec(last.feed, w, tag_by_all(infos.drop_last(), w, e), last.id, last.attr)
    }
}

/// The entry set after gathering received entries: each is recorded as from
/// its feed, tagged by every feed, transformed by the updater's transforms
/// in order, and added to the set.
pub open spec fn gather_spec(
    s: Seq<EntryView>,
    received: Seq<(EntryView, crate::entry::FeedRefView)>,
    infos: Seq<FeedInfo>,
    w: WorldView,
    ts: Seq<Transform>,
) -> Seq<EntryView>
    decreases received.len(),
{
    if received.len() == 0 {
        s
    } else {
        let prev = gather_spec(s, received.drop_last(), infos, w, ts);
        let (e, f) = received.last();
        add_spec(prev, transform_all(ts, tag_by_all(infos, w, EntryView { feeds: insert_feed_seq(e.feeds, f), ..e })))
    }
}

/// The views of received pairs.
pub open spec fn received_view(v: Seq<(Entry, FeedRef)>) -> Seq<(EntryView, crate::entry::FeedRefView)> {
    v.map_values(|p: (Entry, FeedRef)| (p.0@, p.1@))
}

impl Updater {
    /// An updater checking every `freq`, keeping at most `maximum` entries.
    pub fn new(freq: Duration, maximum: usize) -> (res: Updater)
        ensures
            res.feeds().len() == 0,
            res.next_id() == 0,
            res.entries()@.0.len() == 0,
            res.entries()@.1 == maximum,
            res.last_check() is None,
            res.freq()@ == freq@,
            res.world().ids.len() == 0,
            res.world().names.len() == 0,
            res.world().feeds.len() == 0,
            res.transforms().len() == 0,
    {
        Updater {
            feeds: Vec::new(),
            last_update_check: None,
            freq,
            entries: EntrySet::new(maximum),
            next_feed_id: 0,
            world: AggregateWorld::new(),
            transforms: Vec::new(),
        }
    }

    /// The feeds, in the order they were added.
    pub closed spec fn feeds(&self) -> Seq<FeedInfo> {
        self.feeds@
    }

    /// The id the next added feed gets.
    pub closed spec fn next_id(&self) -> nat {
        self.next_feed_id as nat
    }

    /// The entry set.
    pub closed spec fn entries(&self) -> EntrySet {
        self.entries
    }

    /// When updates were last checked.
    pub closed spec fn last_check(&self) -> Option<DateTime> {
        self.last_update_check
    }

    /// How often updates are checked.
    pub closed spec fn freq(&self) -> Duration {
        self.freq
    }

    /// The aggregate world.
    pub closed spec fn world(&self) -> WorldView {
        self.world@
    }

    /// The transforms applied to every gathered entry, in order.
    pub closed spec fn transforms(&self) -> Seq<Transform> {
        self.transforms@
    }

    /// Adds a transform applied to every gathered entry after the ones
    /// before it.
    pub fn add_transform(&mut self, t: Transform)
        ensures
            final(self).transforms() == old(self).transforms().push(t),
            final(self).feeds() == old(self).feeds(),
            final(self).next_id() == old(self).next_id(),
            final(self).entries() == old(self).entries(),
            final(self).last_check() == old(self).last_check(),
            final(self).freq() == old(self).freq(),
            final(self).world() == old(self).world(),
    {
        self.transforms.push(t);
    }

    /// The world of aggregate feeds, to fill in.
    pub fn world_mut(&mut self) -> (res: &mut AggregateWorld)
        ensures
            res@ == old(self).world(),
            final(self).feeds() == old(self).feeds(),
            final(self).next_id() == old(self).next_id(),
            final(self).entries() == old(self).entries(),
            final(self).last_check() == old(self).last_check(),
            final(self).freq() == old(self).freq(),
            final(self).transforms() == old(self).transforms(),
            final(self).world() == final(res)@,
    {
        &mut self.world
    }

    /// Adds a feed under the next id, and returns that id.
    pub fn add_feed(&mut self, feed: FeedKind, attr: FeedAttributes) -> (res: FeedId)
        requires
            old(self).next_id() < usize::MAX,
        ensures
            res.0 == old(self).next_id(),
            final(self).next_id() == old(self).next_id() + 1,
            final(self).feeds() == old(self).feeds().push(FeedInfo { id: res, feed, attr, last_update: None }),
            final(self).entries() == old(self).entries(),
            final(self).world() == old(self).world(),
            final(self).last_check() == old(self).last_check(),
            final(self).freq() == old(self).freq(),
            final(self).transforms() == old(self).transforms(),
    {
        let feed_id = FeedId(self.next_feed_id);
        self.next_feed_id = self.next_feed_id + 1;
        self.feeds.push(FeedInfo { id: feed_id, feed, attr, last_update: None });
        feed_id
    }

    /// The feed with this id, if the updater has it.
    pub fn get_feed(&self, id: FeedId) -> (res: Option<&FeedInfo>)
        ensures
            res matches Some(f) ==> f.id == id && self.feeds().contains(*f),
            res is None ==> forall|k: int| 0 <= k < self.feeds().len() ==> (#[trigger] self.feeds()[k]).id != id,
    {
        let mut i: usize = 0;
        while i < self.feeds.len()
            invariant
                i <= self.feeds.len(),
                forall|k: int| 0 <= k < i ==> (#[trigger] self.feeds@[k]).id != id,
            decreases self.feeds.len() - i,
        {
            if self.feeds[i].id.0 == id.0 {
                assert(self.feeds@[i as int].id == id);
                return Some(&self.feeds[i]);
            }
            i += 1;
        }
        None
    }

    /// Whether an update is due at `now`: the update frequency has passed
    /// since the last check (or since the epoch, before the first).
    pub fn should_update_at(&self, now: &DateTime) -> (res: bool)
        ensures
            res == self.should_update_at_spec(*now),
    {
        let last = match self.last_update_check {
            Some(d) => d,
            None => DateTime::epoch(),
        };
        last.has_passed_at(&self.freq, now)
    }

    /// Starts an update at `now`, if one is due: records the check and the
    /// update time of every feed, and returns each feed's context (its id,
    /// `now` and its previous update time). When none is due, nothing changes.
    pub fn begin_update(&mut self, now: DateTime) -> (res: Option<Vec<UpdaterContext>>)
        ensures
            res is None <==> !old(self).should_update_at_spec(now),
            res is None ==> *final(self) == *old(self),
            res matches Some(ctxs) ==> {
                &&& final(self).last_check() == Some(now)
                &&& ctxs@.len() == old(self).feeds().len()
                &&& final(self).feeds().len() == old(self).feeds().len()
                &&& forall|k: int| 0 <= k < ctxs@.len() ==> {
                    &&& (#[trigger] ctxs@[k]).feed_id == old(self).feeds()[k].id
                    &&& ctxs@[k].parse_time == now
                    &&& ctxs@[k].last_update == old(self).feeds()[k].last_update
                    &&& final(self).feeds()[k].last_update == Some(now)
                    &&& final(self).feeds()[k].id == old(self).feeds()[k].id
                }
                &&& final(self).entries() == old(self).entries()
                &&& final(self).world() == old(self).world()
                &&& final(self).next_id() == old(self).next_id()
                &&& final(self).transforms() == old(self).transforms()
            },
    {
        if !self.should_update_at(&now) {
            return None;
        }
        self.last_update_check = Some(now);
        let mut ctxs: Vec<UpdaterContext> = Vec::new();
        let n = self.feeds.len();
        let mut feeds = Vec::new();
        std::mem::swap(&mut feeds, &mut self.feeds);
        let ghost orig = feeds@;
        let mut rebuilt: Vec<FeedInfo> = Vec::new();
        let mut i: usize = 0;
        while feeds.len() > 0
            invariant
                orig.len() == n,
                i + feeds.len() == n,
                feeds@ == orig.subrange(i as int, n as int),
                rebuilt@.len() == i,
                ctxs@.len() == i,
                forall|k: int| 0 <= k < i ==> {
                    &&& (#[trigger] ctxs@[k]).feed_id == orig[k].id
                    &&& ctxs@[k].parse_time == now
                    &&& ctxs@[k].last_update == orig[k].last_update
                    &&& rebuilt@[k].last_update == Some(now)
                    &&& rebuilt@[k].id == orig[k].id
                },
            decreases feeds.len(),
        {
            let info = feeds.remove(0);
            assert(info == orig[i as int]);
            ctxs.push(UpdaterContext { feed_id: info.id, parse_time: now, last_update: info.last_update });
            rebuilt.push(FeedInfo { id: info.id, feed: info.feed, attr: info.attr, last_update: Some(now) });
            i += 1;
            assert(feeds@ =~= orig.subrange(i as int, n as int));
        }
        self.feeds = rebuilt;
        Some(ctxs)
    }

    /// Whether an update is due at `now`.
    pub open spec fn should_update_at_spec(&self, now: DateTime) -> bool {
        let last: int = match self.last_check() {
            Some(d) => d@,
            None => 0,
        };
        last + self.freq()@ < now@
    }

    /// Tags an entry by every feed, in the order they were added.
    pub fn tag_entry(&self, entry: &mut Entry)
        ensures
            final(entry)@ == tag_by_all(self.feeds(), self.world(), old(entry)@),
    {
        let mut i: usize = 0;
        while i < self.feeds.len()
            invariant
                i <= self.feeds.len(),
                entry@ == tag_by_all(self.feeds@.take(i as int), self.world@, old(entry)@),
            decreases self.feeds.len() - i,
        {
            assert(self.feeds@.take(i + 1).drop_last() =~= self.feeds@.take(i as int));
            let info = &self.feeds[i];
            info.feed.tag(&self.world, entry, info.id, &info.attr);
            i += 1;
        }
        assert(self.feeds@.take(self.feeds.len() as int) =~= self.feeds@);
    }

    /// Gathers received entries (the end of `update`): each is recorded as
    /// from its feed, tagged by every feed, transformed and added to the set;
    /// the set is then sorted newest first and cut to its maximum.
    pub fn gather(&mut self, received: Vec<(Entry, FeedRef)>)
        ensures
            final(self).entries()@.0 == sort_spec(
                gather_spec(old(self).entries()@.0, received_view(received@), old(self).feeds(), old(self).world(), old(self).transforms()),
                old(self).entries()@.1,
            ),
            final(self).entries()@.1 == old(self).entries()@.1,
            final(self).feeds() == old(self).feeds(),
            final(self).world() == old(self).world(),
            final(self).next_id() == old(self).next_id(),
            final(self).last_check() == old(self).last_check(),
            final(self).transforms() == old(self).transforms(),
    {
        let ghost rv = received_view(received@);
        let ghost s0 = self.entries@.0;
        let mut received = received;
        let n = received.len();
        let mut i: usize = 0;
        let ghost orig = received@;
        while received.len() > 0
            invariant
                orig.len() == n,
                i + received.len() == n,
                received@ == orig.subrange(i as int, n as int),
                rv == received_view(orig),
                self.feeds@ == old(self).feeds@,
                self.world == old(self).world,
                self.transforms@ == old(self).transforms@,
                self.next_feed_id == old(self).next_feed_id,
                self.last_update_check == old(self).last_update_check,
                self.entries@.1 == old(self).entries@.1,
                s0 == old(self).entries@.0,
                self.entries@.0 == gather_spec(s0, rv.take(i as int), self.feeds@, self.world@, self.transforms@),
            decreases received.len(),
        {
            let (mut entry, feed) = received.remove(0);
            assert((entry, feed) == orig[i as int]);
            assert(rv.take(i + 1).drop_last() =~= rv.take(i as int));
            assert(rv.take(i + 1).last() == (entry@, feed@));
            entry.add_feed(feed);
            self.tag_entry(&mut entry);
            apply_transforms(&self.transforms, &mut entry);
            self.entries.add(entry);
            i += 1;
            assert(received@ =~= orig.subrange(i as int, n as int));
        }
        assert(rv.take(n as int) =~= rv);
        self.entries.sort();
    }

    /// Iterates all entries.
    pub fn iter<'a>(&'a self) -> (res: EntrySetIter<'a>)
        ensures
            *res.set == self.entries(),
            res.kind == IterKind::All,
            res.next == 0,
    {
        self.entries.iter()
    }

    /// Iterates the entries carrying `tag`.
    pub fn with_tags<'a>(&'a self, tag: Tag) -> (res: EntrySetIter<'a>)
        ensures
            *res.set == self.entries(),
            res.kind == IterKind::Tag(tag),
            res.next == 0,
    {
        self.entries.with_tag(tag)
    }

    /// Iterates the entries from `feed`.
    pub fn from_feed<'a>(&'a self, feed: FeedId) -> (res: EntrySetIter<'a>)
        ensures
            *res.set == self.entries(),
            res.kind == IterKind::Feed(feed),
            res.next == 0,
    {
        self.entries.from_feed(feed)
    }
}

} // verus!
