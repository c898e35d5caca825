//! A bounded set of entries, kept newest first, and iteration over it by
//! feed or by tag.
use vstd::prelude::*;
use crate::entry::{
    date_instant, entry_eq, feeds_view, from_feed_spec, insert_feeds_seq, insert_tags_seq, tagged_spec,
    tags_view, Entry, EntryView, FeedId, Tag,
};

verus! {

/// The instant of an entry's date.
pub open spec fn date_of(e: EntryView) -> int {
    date_instant(e.date)
}

/// The index of the first entry of `s` equal to `e` (by `entry_eq`), if any.
pub open spec fn first_eq(s: Seq<EntryView>, e: EntryView) -> Option<int>
    decreases s.len(),
{
    if s.len() == 0 {
        None
    } else {
        match first_eq(s.drop_last(), e) {
            Some(i) => Some(i),
            None => if entry_eq(s.last(), e) { Some(s.len() - 1) } else { None },
        }
    }
}

/// `into` with the feeds and tags of `from` added to its own.
pub open spec fn merge_entry(into: EntryView, from: EntryView) -> EntryView {
    EntryView {
        feeds: insert_feeds_seq(into.feeds, from.feeds),
        tags: insert_tags_seq(into.tags, from.tags),
        ..into
    }
}

/// Adding an entry to a set: an equal entry already present takes on the new
/// entry's feeds and tags; otherwise the entry is appended.
pub open spec fn add_spec(s: Seq<EntryView>, e: EntryView) -> Seq<EntryView> {
    match first_eq(s, e) {
        Some(i) => s.update(i, merge_entry(s[i], e)),
        None => s.push(e),
    }
}

/// `x` placed after the last entry of the date-ordered `s` not later than it
/// (one step of a stable sort by date).
pub open spec fn insert_by_date(s: Seq<EntryView>, x: EntryView) -> Seq<EntryView>
    decreases s.len(),
{
    if s.len() == 0 {
        seq![x]
    } else if date_of(s.last()) <= date_of(x) {
        s.push(x)
    } else {
        insert_by_date(s.drop_last(), x).push(s.last())
    }
}

/// `s` stably sorted by date, oldest first.
pub open spec fn sort_by_date(s: Seq<EntryView>) -> Seq<EntryView>
    decreases s.len(),
{
    if s.len() == 0 {
        s
    } else {
        insert_by_date(sort_by_date(s.drop_last()), s.last())
    }
}

/// Sorting a set: newest first (the reverse of the stable sort by date),
/// then cut to at most `max` entries.
pub open spec fn sort_spec(s: Seq<EntryView>, max: nat) -> Seq<EntryView> {
    let r = sort_by_date(s).reverse();
    if r.len() <= max { r } else { r.take(max as int) }
}

/// Set of entries, newest first once sorted, holding at most `max_length`
/// entries after sorting.
pub struct EntrySet {
    entries: Vec<Entry>,
    max_length: usize,
}

/// The views of a vector of entries.
pub open spec fn entries_view(v: Seq<Entry>) -> Seq<EntryView> {
    v.map_values(|e: Entry| e@)
}

impl View for EntrySet {
    type V = (Seq<EntryView>, nat);

    closed spec fn view(&self) -> (Seq<EntryView>, nat) {
        (entries_view(self.entries@), self.max_length as nat)
    }
}

proof fn lemma_entries_push(v: Seq<Entry>, e: Entry)
    ensures
        entries_view(v.push(e)) == entries_view(v).push(e@),
{
    assert(entries_view(v.push(e)) =~= entries_view(v).push(e@));
}

proof fn lemma_insert_by_date_at(s: Seq<EntryView>, x: EntryView, j: int)
    requires
        0 <= j <= s.len(),
        forall|k: int| j <= k < s.len() ==> date_of(#[trigger] s[k]) > date_of(x),
        j == 0 || date_of(s[j - 1]) <= date_of(x),
    ensures
        insert_by_date(s, x) == s.take(j).push(x) + s.skip(j),
    decreases s.len(),
{
    if s.len() == 0 {
        assert(s.take(j).push(x) + s.skip(j) =~= seq![x]);
    } else if j == s.len() {
        assert(s.take(j) =~= s);
        assert(s.skip(j) =~= Seq::<EntryView>::empty());
        assert(s.take(j).push(x) + s.skip(j) =~= s.push(x));
    } else {
        let init = s.drop_last();
        assert(date_of(s[s.len() - 1]) > date_of(x));
        assert forall|k: int| j <= k < init.len() implies date_of(#[trigger] init[k]) > date_of(x) by {
            assert(init[k] == s[k]);
        }
        if j > 0 {
            assert(init[j - 1] == s[j - 1]);
        }
        lemma_insert_by_date_at(init, x, j);
        assert(init.take(j) =~= s.take(j));
        assert(init.skip(j).push(s.last()) =~= s.skip(j));
        assert(insert_by_date(s, x) =~= s.take(j).push(x) + s.skip(j));
    }
}

impl EntrySet {
    /// An empty set holding at most `max_length` entries once sorted.
    pub fn new(max_length: usize) -> (res: EntrySet)
        ensures
            res@.0 == Seq::<EntryView>::empty(),
            res@.1 == max_length,
    {
        let s = EntrySet { entries: Vec::new(), max_length };
        proof {
            assert(entries_view(s.entries@) =~= Seq::<EntryView>::empty());
        }
        s
    }

    /// Number of entries.
    pub fn len(&self) -> (res: usize)
        ensures
            res == self@.0.len(),
    {
        self.entries.len()
    }

    /// Removes all entries.
    pub fn clear(&mut self)
        ensures
            final(self)@.0 == Seq::<EntryView>::empty(),
            final(self)@.1 == old(self)@.1,
    {
        self.entries.clear();
        proof {
            assert(entries_view(self.entries@) =~= Seq::<EntryView>::empty());
        }
    }

    /// The entry at `i`.
    pub fn get(&self, i: usize) -> (res: &Entry)
        requires
            i < self@.0.len(),
        ensures
            res@ == self@.0[i as int],
    {
        &self.entries[i]
    }

    /// The entries, in their current order.
    pub fn as_slice(&self) -> (res: &[Entry])
        ensures
            entries_view(res@) == self@.0,
    {
        self.entries.as_slice()
    }

    /// Adds an entry, or merges its feeds and tags into an equal one.
    pub fn add(&mut self, entry: Entry)
        ensures
            final(self)@.0 == add_spec(old(self)@.0, entry@),
            final(self)@.1 == old(self)@.1,
    {
        let ghost s = self@.0;
        let mut i: usize = 0;
        while i < self.entries.len()
            invariant
                i <= self.entries.len(),
                self@.0 == s,
                s == old(self)@.0,
                self@.1 == old(self)@.1,
                first_eq(s.take(i as int), entry@) is None,
            decreases self.entries.len() - i,
        {
            proof {
                assert(s.take(i + 1).drop_last() =~= s.take(i as int));
                assert(s.take(i + 1).last() == s[i as int]);
            }
            if self.entries[i].eq(&entry) {
                proof {
                    lemma_first_eq_prefix(s, entry@, i as int);
                }
                let mut other = self.entries[i].clone();
                let feeds = entry.feeds();
                let mut k: usize = 0;
                let ghost o0 = other@;
                while k < feeds.len()
                    invariant
                        k <= feeds.len(),
                        self@.0 == s,
                        s == old(self)@.0,
                        self@.1 == old(self)@.1,
                        i < self.entries.len(),
                        first_eq(s, entry@) == Some(i as int),
                        o0 == s[i as int],
                        feeds_view(feeds@) == entry@.feeds,
                        other@ == (EntryView { feeds: insert_feeds_seq(o0.feeds, feeds_view(feeds@).take(k as int)), ..o0 }),
                    decreases feeds.len() - k,
                {
                    proof {
                        let fv = feeds_view(feeds@);
                        assert(fv.take(k + 1).drop_last() =~= fv.take(k as int));
                    }
                    other.add_feed(feeds[k].copy());
                    k += 1;
                }
                proof {
                    assert(feeds_view(feeds@).take(feeds.len() as int) =~= feeds_view(feeds@));
                }
                let tags = entry.tags();
                let mut k: usize = 0;
                let ghost o1 = other@;
                while k < tags.len()
                    invariant
                        k <= tags.len(),
                        self@.0 == s,
                        s == old(self)@.0,
                        self@.1 == old(self)@.1,
                        i < self.entries.len(),
                        first_eq(s, entry@) == Some(i as int),
                        o1 == (EntryView { feeds: insert_feeds_seq(s[i as int].feeds, entry@.feeds), ..s[i as int] }),
                        tags_view(tags@) == entry@.tags,
                        other@ == (EntryView { tags: insert_tags_seq(o1.tags, tags_view(tags@).take(k as int)), ..o1 }),
                    decreases tags.len() - k,
                {
                    proof {
                        let tv = tags_view(tags@);
                        assert(tv.take(k + 1).drop_last() =~= tv.take(k as int));
                    }
                    other.add_tag(&tags[k]);
                    k += 1;
                }
                proof {
                    assert(tags_view(tags@).take(tags.len() as int) =~= tags_view(tags@));
                }
                self.entries.set(i, other);
                proof {
                    assert(other@ == merge_entry(s[i as int], entry@));
                    assert(entries_view(self.entries@) =~= s.update(i as int, merge_entry(s[i as int], entry@)));
                    assert(add_spec(s, entry@) == s.update(i as int, merge_entry(s[i as int], entry@)));
                    assert(self@.0 == add_spec(s, entry@));
                }
                return;
            }
            i += 1;
        }
        proof {
            assert(s.take(s.len() as int) =~= s);
            lemma_entries_push(self.entries@, entry);
        }
        self.entries.push(entry);
    }

    /// Sorts newest first (stably reversing equal dates) and keeps at most
    /// the set's maximum number of entries.
    pub fn sort(&mut self)
        ensures
            final(self)@.0 == sort_spec(old(self)@.0, old(self)@.1),
            final(self)@.1 == old(self)@.1,
    {
        let ghost s = self@.0;
        let mut sorted: Vec<Entry> = Vec::new();
        let mut i: usize = 0;
        while i < self.entries.len()
            invariant
                i <= self.entries.len(),
                self@.0 == s,
                entries_view(sorted@) == sort_by_date(s.take(i as int)),
            decreases self.entries.len() - i,
        {
            proof {
                assert(s.take(i + 1).drop_last() =~= s.take(i as int));
                assert(s.take(i + 1).last() == s[i as int]);
            }
            let x = self.entries[i].clone();
            let xd = x.date();
            let mut j: usize = sorted.len();
            while j > 0 && xd.before(&sorted[j - 1].date())
                invariant
                    j <= sorted.len(),
                    xd@ == date_of(x@),
                    forall|k: int| j <= k < sorted.len() ==> date_of(#[trigger] entries_view(sorted@)[k]) > date_of(x@),
                decreases j,
            {
                j -= 1;
            }
            proof {
                let sv = entries_view(sorted@);
                if j > 0 {
                    assert(date_of(sv[j - 1]) <= date_of(x@));
                }
                lemma_insert_by_date_at(sv, x@, j as int);
            }
            let ghost before = sorted@;
            sorted.insert(j, x);
            proof {
                let sv = entries_view(before);
                assert(entries_view(sorted@) =~= sv.take(j as int).push(x@) + sv.skip(j as int));
            }
            i += 1;
        }
        proof {
            assert(s.take(s.len() as int) =~= s);
        }
        let ghost asc = entries_view(sorted@);
        let mut out: Vec<Entry> = Vec::new();
        while sorted.len() > 0
            invariant
                entries_view(out@) == asc.reverse().take(asc.len() - sorted.len()),
                entries_view(sorted@) == asc.take(sorted.len() as int),
                sorted.len() <= asc.len(),
            decreases sorted.len(),
        {
            let ghost n = sorted.len();
            let ghost sv = sorted@;
            proof {
                assert(entries_view(sv)[n - 1] == sv[n - 1]@);
                assert(asc.take(n as int)[n - 1] == asc[n - 1]);
            }
            let e = sorted.pop().unwrap();
            proof {
                assert(e == sv[n - 1]);
                assert(e@ == asc[n - 1]);
                assert(entries_view(sorted@) =~= asc.take(n - 1));
                lemma_entries_push(out@, e);
                assert(asc.reverse().take(asc.len() - (n - 1)) =~= asc.reverse().take(asc.len() - n).push(asc[n - 1]));
            }
            out.push(e);
        }
        proof {
            assert(asc.reverse().take(asc.len() as int) =~= asc.reverse());
        }
        if out.len() > self.max_length {
            out.truncate(self.max_length);
            proof {
                assert(entries_view(out@) =~= asc.reverse().take(self.max_length as int));
            }
        }
        self.entries = out;
    }
}

proof fn lemma_first_eq_prefix(s: Seq<EntryView>, e: EntryView, i: int)
    requires
        0 <= i < s.len(),
        first_eq(s.take(i), e) is None,
        entry_eq(s[i], e),
    ensures
        first_eq(s, e) == Some(i),
    decreases s.len(),
{
    if i == s.len() - 1 {
        assert(s.drop_last() =~= s.take(i));
    } else {
        let init = s.drop_last();
        assert(init.take(i) =~= s.take(i));
        lemma_first_eq_prefix(init, e, i);
    }
}

/// Which entries an iteration yields.
pub enum IterKind {
    /// Every entry.
    All,
    /// Entries from one feed.
    Feed(FeedId),
    /// Entries carrying one tag.
    Tag(Tag),
}

/// Whether an iteration of this kind yields the entry.
pub open spec fn selects(kind: IterKind, e: EntryView) -> bool {
    match kind {
        IterKind::All => true,
        IterKind::Feed(f) => from_feed_spec(e, f.0 as nat),
        IterKind::Tag(t) => tagged_spec(e, t@),
    }
}

/// The index of the first entry at or after `from` that the iteration
/// yields, if any.
pub open spec fn next_match(s: Seq<EntryView>, kind: IterKind, from: int) -> Option<int>
    decreases s.len() - from,
{
    if from < 0 || from >= s.len() {
        None
    } else if selects(kind, s[from]) {
        Some(from)
    } else {
        next_match(s, kind, from + 1)
    }
}

/// Iteration over an entry set, by feed, by tag or over all entries.
pub struct EntrySetIter<'a> {
    pub set: &'a EntrySet,
    pub kind: IterKind,
    pub next: usize,
}

/// Whether the entry carries exactly this tag.
fn has_exact_tag(e: &Entry, t: &Tag) -> (res: bool)
    ensures
        res == tagged_spec(e@, t@),
{
    let tags = e.tags();
    let mut i: usize = 0;
    while i < tags.len()
        invariant
            i <= tags.len(),
            tags_view(tags@) == e@.tags,
            forall|k: int| 0 <= k < i ==> tags@[k]@ != t@,
        decreases tags.len() - i,
    {
        if tags[i].same(t) {
            assert(tags_view(tags@)[i as int] == t@);
            assert(e@.tags[i as int] == t@);
            return true;
        }
        i += 1;
    }
    assert(!tags_view(tags@).contains(t@)) by {
        if tags_view(tags@).contains(t@) {
            let k = choose|k: int| 0 <= k < tags_view(tags@).len() && tags_view(tags@)[k] == t@;
            assert(tags@[k]@ == t@);
        }
    }
    false
}

fn selects_exec(kind: &IterKind, e: &Entry) -> (res: bool)
    ensures
        res == selects(*kind, e@),
{
    match kind {
        IterKind::All => true,
        IterKind::Feed(f) => e.is_from_feed(*f),
        IterKind::Tag(t) => has_exact_tag(e, t),
    }
}

impl<'a> EntrySetIter<'a> {
    /// The next entry that this iteration yields.
    pub fn next(&mut self) -> (res: Option<&'a Entry>)
        requires
            old(self).next <= old(self).set@.0.len(),
        ensures
            final(self).set == old(self).set,
            final(self).kind == old(self).kind,
            final(self).next <= final(self).set@.0.len(),
            match next_match(old(self).set@.0, old(self).kind, old(self).next as int) {
                Some(k) => res matches Some(e) && e@ == old(self).set@.0[k] && final(self).next == k + 1,
                None => res is None && final(self).next == old(self).set@.0.len(),
            },
    {
        let n = self.set.len();
        while self.next < n
            invariant
                n == self.set@.0.len(),
                self.next <= n,
                self.set == old(self).set,
                self.kind == old(self).kind,
                next_match(self.set@.0, self.kind, self.next as int) == next_match(
                    old(self).set@.0,
                    old(self).kind,
                    old(self).next as int,
                ),
            decreases n - self.next,
        {
            let e = self.set.get(self.next);
            self.next += 1;
            if selects_exec(&self.kind, e) {
                return Some(e);
            }
        }
        None
    }
}

impl EntrySet {
    /// Iterates all entries.
    pub fn iter<'a>(&'a self) -> (res: EntrySetIter<'a>)
        ensures
            res.set == self,
            res.kind == IterKind::All,
            res.next == 0,
    {
        EntrySetIter { set: self, kind: IterKind::All, next: 0 }
    }

    /// Iterates the entries carrying `tag`.
    pub fn with_tag<'a>(&'a self, tag: Tag) -> (res: EntrySetIter<'a>)
        ensures
            res.set == self,
            res.kind == IterKind::Tag(tag),
            res.next == 0,
    {
        EntrySetIter { set: self, kind: IterKind::Tag(tag), next: 0 }
    }

    /// Iterates the entries from `feed`.
    pub fn from_feed<'a>(&'a self, feed: FeedId) -> (res: EntrySetIter<'a>)
        ensures
            res.set == self,
            res.kind == IterKind::Feed(feed),
            res.next == 0,
    {
        EntrySetIter { set: self, kind: IterKind::Feed(feed), next: 0 }
    }
}

} // verus!
