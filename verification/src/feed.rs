//! Feeds: their attributes, how they claim and tag entries, and how a
//! standard RSS or Atom document becomes entries.
use vstd::prelude::*;
use crate::aggregate::{owns, tag_feed_matches, tag_texts, AggregateFeed, AggregateTagFeed, AggregateWorld, NoopFeed};
use crate::datetime::{
    instant_in_strict_range, parse_date_spec, parsed_in_range, parsed_nanos, DateTime, Duration,
    NANOS_PER_SEC,
};
use crate::entry::{
    built_entry, feeds_view, from_feed_spec, insert_feed_seq, insert_tags_seq, links_view,
    opt_view, tags_view, Entry, EntryBuilder, EntryBuilderView, EntryDateView, EntryView, FeedId,
    FeedRef, FeedRefView, Link, LinkView, Tag,
};
use crate::filters::{filters_view, passes_all, passes_filters, EntryFilter};
use crate::transforms::Transform;
use crate::text::{concat, trim, trimmed};

verus! {

/// Attributes every feed has.
#[derive(Debug)]
pub struct FeedAttributes {
    /// Name to display; need not be unique.
    pub display_name: String,
    /// How far back entries are still taken.
    pub timeout: Duration,
    /// How often the feed should update.
    pub freq: Option<Duration>,
    /// Tags given to the feed's entries.
    pub tags: Vec<Tag>,
    /// Filters the feed's entries must pass.
    pub filters: Vec<EntryFilter>,
    /// Transforms applied to the feed's entries.
    pub transforms: Vec<Transform>,
}

impl FeedAttributes {
    /// Attributes of an unnamed feed: `:empty:`, a 15 second timeout, no
    /// frequency, tags or filters.
    pub fn new() -> (res: FeedAttributes)
        ensures
            res.display_name@ == ":empty:"@,
            res.timeout@ == 15 * NANOS_PER_SEC,
            res.freq is None,
            res.tags@.len() == 0,
            res.filters@.len() == 0,
            res.transforms@.len() == 0,
    {
        FeedAttributes {
            display_name: String::from_str(":empty:"),
            timeout: Duration::from_seconds(15),
            freq: None,
            tags: Vec::new(),
            filters: Vec::new(),
            transforms: Vec::new(),
        }
    }

    /// Adds a filter.
    pub fn add_filter(&mut self, filter: EntryFilter)
        ensures
            filters_view(final(self).filters@) == filters_view(old(self).filters@).push(filter@),
            final(self).tags@ == old(self).tags@,
            final(self).display_name == old(self).display_name,
            final(self).timeout == old(self).timeout,
            final(self).freq == old(self).freq,
            final(self).transforms@ == old(self).transforms@,
    {
        let ghost before = self.filters@;
        self.filters.push(filter);
        assert(filters_view(self.filters@) =~= filters_view(before).push(filter@));
    }

    /// Adds a tag, unless the feed has it already.
    pub fn add_tag(&mut self, tag: Tag)
        ensures
            tags_view(final(self).tags@) == crate::entry::insert_tag_seq(tags_view(old(self).tags@), tag@),
            filters_view(final(self).filters@) == filters_view(old(self).filters@),
            final(self).display_name == old(self).display_name,
            final(self).timeout == old(self).timeout,
            final(self).freq == old(self).freq,
            final(self).transforms@ == old(self).transforms@,
    {
        let mut i: usize = 0;
        while i < self.tags.len()
            invariant
                i <= self.tags.len(),
                forall|k: int| 0 <= k < i ==> self.tags@[k]@ != tag@,
            decreases self.tags.len() - i,
        {
            if self.tags[i].same(&tag) {
                assert(tags_view(self.tags@)[i as int] == tag@);
                return;
            }
            i += 1;
        }
        assert(!tags_view(self.tags@).contains(tag@)) by {
            if tags_view(self.tags@).contains(tag@) {
                let k = choose|k: int| 0 <= k < tags_view(self.tags@).len() && tags_view(self.tags@)[k] == tag@;
                assert(self.tags@[k]@ == tag@);
            }
        }
        let ghost before = self.tags@;
        self.tags.push(tag);
        assert(tags_view(self.tags@) =~= tags_view(before).push(tag@));
    }

    /// The feed's tags.
    pub fn get_tags(&self) -> (res: &Vec<Tag>)
        ensures
            res@ == self.tags@,
    {
        &self.tags
    }

    /// Whether the entry passes all the feed's filters.
    pub fn passes_filters(&self, entry: &Entry) -> (res: bool)
        ensures
            res == passes_all(filters_view(self.filters@), entry@),
    {
        passes_filters(&self.filters, entry)
    }
}

/// A reference to an RSS or Atom document on the web.
#[derive(Debug)]
pub struct StandardSyndication {
    pub url: String,
}

impl StandardSyndication {
    /// A feed at `url`.
    pub fn new(url: &str) -> (res: StandardSyndication)
        ensures
            res.url@ == url@,
    {
        StandardSyndication { url: String::from_str(url) }
    }

    /// The feed's display text (`Display`): `<StandardSyndication url=` and
    /// the url, then `>`.
    pub fn to_string(&self) -> (res: String)
        ensures
            res@ == "<StandardSyndication url="@ + self.url@ + ">"@,
    {
        let head = concat("<StandardSyndication url=", self.url.as_str());
        concat(head.as_str(), ">")
    }
}

/// The kinds of feeds.
#[derive(Debug)]
pub enum FeedKind {
    Standard(StandardSyndication),
    Aggregate(AggregateFeed),
    AggregateTag(AggregateTagFeed),
    Noop(NoopFeed),
}

/// The entry with the attributes' tags added and the feed recorded.
pub open spec fn claim(e: EntryView, id: FeedId, attr_tags: Seq<Seq<char>>, name: Seq<char>) -> EntryView {
    EntryView {
        tags: insert_tags_seq(e.tags, attr_tags),
        feeds: insert_feed_seq(e.feeds, FeedRefView { id: id.0 as nat, name }),
        ..e
    }
}

/// What tagging does to an entry (`Feed::tag`): a standard feed tags its own
/// entries; an aggregate feed claims, if they pass its filters, the entries
/// it owns; an aggregate tag feed those its lists take; the no-op feed
/// nothing.
pub open spec fn tag_spec(kind: FeedKind, w: crate::aggregate::WorldView, e: EntryView, id: FeedId, attr: FeedAttributes) -> EntryView {
    match kind {
        FeedKind::Standard(_) => if from_feed_spec(e, id.0 as nat) {
            EntryView { tags: insert_tags_seq(e.tags, tags_view(attr.tags@)), ..e }
        } else {
            e
        },
        FeedKind::Aggregate(_) => if owns(w, id.0 as nat, e, 6) && passes_all(filters_view(attr.filters@), e) {
            claim(e, id, tags_view(attr.tags@), attr.display_name@)
        } else {
            e
        },
        FeedKind::AggregateTag(f) => if tag_feed_matches(tag_texts(f.allowlist@), tag_texts(f.blocklist@), e)
            && passes_all(filters_view(attr.filters@), e) {
            claim(e, id, tags_view(attr.tags@), attr.display_name@)
        } else {
            e
        },
        FeedKind::Noop(_) => e,
    }
}

fn add_all_tags(entry: &mut Entry, tags: &Vec<Tag>)
    ensures
        final(entry)@ == (EntryView { tags: insert_tags_seq(old(entry)@.tags, tags_view(tags@)), ..old(entry)@ }),
{
    let mut i: usize = 0;
    while i < tags.len()
        invariant
            i <= tags.len(),
            entry@ == (EntryView { tags: insert_tags_seq(old(entry)@.tags, tags_view(tags@).take(i as int)), ..old(entry)@ }),
        decreases tags.len() - i,
    {
        assert(tags_view(tags@).take(i + 1).drop_last() =~= tags_view(tags@).take(i as int));
        entry.add_tag(&tags[i]);
        i += 1;
    }
    assert(tags_view(tags@).take(tags.len() as int) =~= tags_view(tags@));
}

fn claim_entry(entry: &mut Entry, id: FeedId, attr: &FeedAttributes)
    ensures
        final(entry)@ == claim(old(entry)@, id, tags_view(attr.tags@), attr.display_name@),
{
    add_all_tags(entry, &attr.tags);
    entry.add_feed(FeedRef { id, name: attr.display_name.clone() });
}

impl FeedKind {
    /// Tags an entry as this feed does (`Feed::tag`).
    pub fn tag(&self, world: &AggregateWorld, entry: &mut Entry, feed_id: FeedId, attr: &FeedAttributes)
        ensures
            final(entry)@ == tag_spec(*self, world@, old(entry)@, feed_id, *attr),
    {
        match self {
            FeedKind::Standard(_) => {
                if entry.is_from_feed(feed_id) {
                    add_all_tags(entry, &attr.tags);
                }
            },
            FeedKind::Aggregate(a) => {
                if a.owns_entry(world, feed_id, entry) {
                    if attr.passes_filters(entry) {
                        claim_entry(entry, feed_id, attr);
                    }
                }
            },
            FeedKind::AggregateTag(a) => {
                if a.matches(entry) {
                    if attr.passes_filters(entry) {
                        claim_entry(entry, feed_id, attr);
                    }
                }
            },
            FeedKind::Noop(_) => {},
        }
    }
}

/// A link of an Atom entry, by its plain values.
#[derive(Debug)]
pub struct AtomLink {
    pub href: String,
    pub title: Option<String>,
    pub mime_type: Option<String>,
}

/// An Atom entry, by the plain values the library reads of it.
#[derive(Debug)]
pub struct AtomItem {
    pub title: String,
    /// `updated`, in UTC: Unix seconds and sub-second nanoseconds.
    pub updated: (i64, u32),
    /// The names of the authors, in order.
    pub authors: Vec<String>,
    /// The content element, if any, and its value, if any.
    pub content: Option<Option<String>>,
    pub links: Vec<AtomLink>,
    /// The terms of the categories.
    pub categories: Vec<String>,
}

/// An RSS item, by the plain values the library reads of it.
#[derive(Debug)]
pub struct RssItem {
    pub title: Option<String>,
    pub pub_date: Option<String>,
    pub author: Option<String>,
    pub content: Option<String>,
    pub link: Option<String>,
    pub comments: Option<String>,
    /// The names of the categories.
    pub categories: Vec<String>,
}

/// What an Atom link is.
pub struct AtomLinkView {
    pub href: Seq<char>,
    pub title: Option<Seq<char>>,
    pub mime_type: Option<Seq<char>>,
}

/// What an Atom entry is.
pub struct AtomItemView {
    pub title: Seq<char>,
    pub updated: (i64, u32),
    pub authors: Seq<Seq<char>>,
    pub content: Option<Option<Seq<char>>>,
    pub links: Seq<AtomLinkView>,
    pub categories: Seq<Seq<char>>,
}

/// What an RSS item is.
pub struct RssItemView {
    pub title: Option<Seq<char>>,
    pub pub_date: Option<Seq<char>>,
    pub author: Option<Seq<char>>,
    pub content: Option<Seq<char>>,
    pub link: Option<Seq<char>>,
    pub comments: Option<Seq<char>>,
    pub categories: Seq<Seq<char>>,
}

impl View for AtomLink {
    type V = AtomLinkView;

    open spec fn view(&self) -> AtomLinkView {
        AtomLinkView { href: self.href@, title: opt_view(self.title), mime_type: opt_view(self.mime_type) }
    }
}

/// The view of an optional optional string.
pub open spec fn opt_opt_view(c: Option<Option<String>>) -> Option<Option<Seq<char>>> {
    match c {
        Some(v) => Some(opt_view(v)),
        None => None,
    }
}

impl View for AtomItem {
    type V = AtomItemView;

    open spec fn view(&self) -> AtomItemView {
        AtomItemView {
            title: self.title@,
            updated: self.updated,
            authors: crate::filters::strings_view(self.authors@),
            content: opt_opt_view(self.content),
            links: self.links@.map_values(|l: AtomLink| l@),
            categories: crate::filters::strings_view(self.categories@),
        }
    }
}

impl View for RssItem {
    type V = RssItemView;

    open spec fn view(&self) -> RssItemView {
        RssItemView {
            title: opt_view(self.title),
            pub_date: opt_view(self.pub_date),
            author: opt_view(self.author),
            content: opt_view(self.content),
            link: opt_view(self.link),
            comments: opt_view(self.comments),
            categories: crate::filters::strings_view(self.categories@),
        }
    }
}

/// What `atom_syndication::Feed::from_str` reads from a document: its
/// entries, by the values the library reads of them.
pub uninterp spec fn atom_entries_of(body: Seq<char>) -> Option<Seq<AtomItemView>>;

/// What `rss::Channel::from_str` reads from a document: its items, by the
/// values the library reads of them.
pub uninterp spec fn rss_items_of(body: Seq<char>) -> Option<Seq<RssItemView>>;

/// `body.parse::<atom_syndication::Feed>()`, its entries converted to plain
/// values. The result is named by `atom_entries_of`; of it, only the range of
/// `chrono`'s instants (for `updated`, read in UTC) is stated.
#[verifier::external_body]
pub(crate) fn parse_atom(body: &str) -> (res: Option<Vec<AtomItem>>)
    ensures
        match res {
            Some(v) => atom_entries_of(body@) == Some(v@.map_values(|i: AtomItem| i@))
                && forall|k: int| 0 <= k < v@.len() ==> parsed_in_range(Some(#[trigger] v@[k].updated)),
            None => atom_entries_of(body@) is None,
        },
{
    let feed = body.parse::<atom_syndication::Feed>().ok()?;
    Some(feed.entries.into_iter().map(|e| AtomItem {
        title: e.title.value,
        updated: (e.updated.timestamp(), e.updated.timestamp_subsec_nanos()),
        authors: e.authors.into_iter().map(|a| a.name).collect(),
        content: e.content.map(|c| c.value),
        links: e.links.into_iter().map(|l| AtomLink { href: l.href, title: l.title, mime_type: l.mime_type }).collect(),
        categories: e.categories.into_iter().map(|c| c.term).collect(),
    }).collect())
}

/// `body.parse::<rss::Channel>()`, its items converted to plain values;
/// named by `rss_items_of`.
#[verifier::external_body]
pub(crate) fn parse_rss(body: &str) -> (res: Option<Vec<RssItem>>)
    ensures
        match res {
            Some(v) => rss_items_of(body@) == Some(v@.map_values(|i: RssItem| i@)),
            None => rss_items_of(body@) is None,
        },
{
    let channel = body.parse::<rss::Channel>().ok()?;
    Some(channel.items.iter().map(|i| RssItem {
        title: i.title().map(String::from),
        pub_date: i.pub_date().map(String::from),
        author: i.author().map(String::from),
        content: i.content().map(String::from),
        link: i.link().map(String::from),
        comments: i.comments().map(String::from),
        categories: i.categories().iter().map(|c| c.name().into()).collect(),
    }).collect())
}

/// What a feed's update gets to see: its id, the time of this update and
/// the time of its last update.
#[derive(Clone, Copy, Debug)]
pub struct UpdaterContext {
    pub feed_id: FeedId,
    pub parse_time: DateTime,
    pub last_update: Option<DateTime>,
}

/// The names joined, each after a space (`" a b"`).
pub open spec fn spaced_names(names: Seq<Seq<char>>) -> Seq<char>
    decreases names.len(),
{
    if names.len() == 0 { Seq::empty() } else { spaced_names(names.drop_last()) + " "@ + names.last() }
}

/// The text or the empty text.
pub open spec fn text_or_empty(t: Option<Seq<char>>) -> Seq<char> {
    match t {
        Some(v) => v,
        None => Seq::empty(),
    }
}

/// The builder an Atom entry fills: title, date, the trimmed author names,
/// the content, the first link as source and the others as other links.
pub open spec fn atom_builder(i: AtomItemView) -> EntryBuilderView {
    EntryBuilderView {
        title: Some(i.title),
        date: Some(EntryDateView::Published(parsed_nanos(i.updated))),
        author: Some(trimmed(spaced_names(i.authors))),
        content: Some(match i.content {
            Some(c) => text_or_empty(c),
            None => Seq::empty(),
        }),
        source: if i.links.len() > 0 {
            Some(LinkView { url: i.links[0].href, title: "Source"@, mime_type: None })
        } else {
            None
        },
        comments: None,
        icon: None,
        other_links: if i.links.len() > 0 {
            i.links.drop_first().map_values(|l: AtomLinkView| LinkView {
                url: l.href,
                title: text_or_empty(l.title),
                mime_type: Some(text_or_empty(l.mime_type)),
            })
        } else {
            Seq::empty()
        },
        id: None,
    }
}

/// The builder an RSS item fills: title, the parsed date or else the time
/// of the update, author, content, and the link and comments if given.
pub open spec fn rss_builder(i: RssItemView, parse_time: int) -> EntryBuilderView {
    EntryBuilderView {
        title: Some(text_or_empty(i.title)),
        date: Some(EntryDateView::Published(match parse_date_spec(text_or_empty(i.pub_date)) {
            Some(n) => n,
            None => parse_time,
        })),
        author: Some(text_or_empty(i.author)),
        content: Some(text_or_empty(i.content)),
        source: match i.link {
            Some(l) => Some(LinkView { url: l, title: "Source"@, mime_type: None }),
            None => None,
        },
        comments: match i.comments {
            Some(c) => Some(LinkView { url: c, title: "Comments"@, mime_type: None }),
            None => None,
        },
        icon: None,
        other_links: Seq::empty(),
        id: None,
    }
}

/// Whether a built entry is kept: not older than the update's time minus
/// the timeout, and, with its categories as tags, passing the filters.
pub open spec fn kept(b: EntryBuilderView, categories: Seq<Seq<char>>, parse_time: int, attr: FeedAttributes) -> bool {
    let e = built_entry(b, parse_time);
    let tagged = EntryView { tags: insert_tags_seq(e.tags, categories), ..e };
    !(crate::entry::date_instant(e.date) < parse_time - attr.timeout@)
        && passes_all(filters_view(attr.filters@), tagged)
}

/// The entries an update sends, with their feed: each kept built entry
/// (sent without the category tags).
pub open spec fn sent(bs: Seq<(EntryBuilderView, Seq<Seq<char>>)>, parse_time: int, attr: FeedAttributes) -> Seq<EntryView>
    decreases bs.len(),
{
    if bs.len() == 0 {
        Seq::empty()
    } else {
        let prev = sent(bs.drop_last(), parse_time, attr);
        if kept(bs.last().0, bs.last().1, parse_time, attr) {
            prev.push(built_entry(bs.last().0, parse_time))
        } else {
            prev
        }
    }
}

/// The builders of an Atom document's entries with their categories.
pub open spec fn atom_builders(items: Seq<AtomItemView>) -> Seq<(EntryBuilderView, Seq<Seq<char>>)> {
    items.map_values(|i: AtomItemView| (atom_builder(i), i.categories))
}

/// The builders of an RSS document's items with their categories.
pub open spec fn rss_builders(items: Seq<RssItemView>, parse_time: int) -> Seq<(EntryBuilderView, Seq<Seq<char>>)> {
    items.map_values(|i: RssItemView| (rss_builder(i, parse_time), i.categories))
}

/// The entries a standard feed's document yields: read as Atom if it is
/// Atom, else as RSS, else none.
pub open spec fn document_entries(body: Seq<char>, parse_time: int, attr: FeedAttributes) -> Seq<EntryView> {
    match atom_entries_of(body) {
        Some(items) => sent(atom_builders(items), parse_time, attr),
        None => match rss_items_of(body) {
            Some(items) => sent(rss_builders(items, parse_time), parse_time, attr),
            None => Seq::empty(),
        },
    }
}

fn spaced_names_exec(names: &Vec<String>) -> (res: String)
    ensures
        res@ == spaced_names(crate::filters::strings_view(names@)),
{
    let mut out = String::new();
    let mut i: usize = 0;
    let ghost nv = crate::filters::strings_view(names@);
    while i < names.len()
        invariant
            i <= names.len(),
            nv == crate::filters::strings_view(names@),
            out@ == spaced_names(nv.take(i as int)),
        decreases names.len() - i,
    {
        assert(nv.take(i + 1).drop_last() =~= nv.take(i as int));
        out.append(" ");
        out.append(names[i].as_str());
        i += 1;
    }
    assert(nv.take(names.len() as int) =~= nv);
    out
}

fn text_or_empty_exec(t: &Option<String>) -> (res: String)
    ensures
        res@ == text_or_empty(opt_view(*t)),
{
    match t {
        Some(v) => v.clone(),
        None => String::new(),
    }
}

fn atom_builder_exec(i: &AtomItem) -> (res: EntryBuilder)
    requires
        parsed_in_range(Some(i.updated)),
    ensures
        res@ == atom_builder(i@),
{
    let date = DateTime::from_timestamp(i.updated.0, i.updated.1).unwrap();
    let names = spaced_names_exec(&i.authors);
    let author = trim(names.as_str());
    let content = match &i.content {
        Some(c) => text_or_empty_exec(c),
        None => String::new(),
    };
    let mut b = EntryBuilder::new()
        .title(i.title.as_str())
        .date(date)
        .author(author.as_str())
        .content(content.as_str());
    let mut k: usize = 0;
    let ghost lv = i.links@.map_values(|l: AtomLink| l@);
    let ghost b0 = b@;
    while k < i.links.len()
        invariant
            k <= i.links.len(),
            lv == i.links@.map_values(|l: AtomLink| l@),
            b0 == (EntryBuilderView {
                source: None, other_links: Seq::empty(), ..atom_builder(i@)
            }),
            k == 0 ==> b@ == b0,
            k > 0 ==> b@ == (EntryBuilderView {
                source: Some(LinkView { url: lv[0].href, title: "Source"@, mime_type: None }),
                other_links: lv.subrange(1, k as int).map_values(|l: AtomLinkView| LinkView {
                    url: l.href,
                    title: text_or_empty(l.title),
                    mime_type: Some(text_or_empty(l.mime_type)),
                }),
                ..b0
            }),
        decreases i.links.len() - k,
    {
        let l = &i.links[k];
        let ghost f = |l: AtomLinkView| LinkView {
            url: l.href,
            title: text_or_empty(l.title),
            mime_type: Some(text_or_empty(l.mime_type)),
        };
        assert(lv[k as int] == l@);
        if k == 0 {
            b = b.source(l.href.as_str());
            assert(lv.subrange(1, 1).map_values(f) =~= Seq::<LinkView>::empty());
        } else {
            let t = text_or_empty_exec(&l.title);
            let m = text_or_empty_exec(&l.mime_type);
            b = b.other_link(Link::new_with_mime(l.href.as_str(), t.as_str(), m.as_str()));
            assert(lv.subrange(1, k + 1).map_values(f) =~= lv.subrange(1, k as int).map_values(f).push(f(lv[k as int])));
        }
        k += 1;
    }
    proof {
        if i.links.len() > 0 {
            assert(lv.subrange(1, i.links.len() as int) =~= lv.drop_first());
        }
        assert(b0.date == Some(EntryDateView::Published(parsed_nanos(i.updated))));
    }
    b
}

fn rss_builder_exec(i: &RssItem, parse_time: DateTime) -> (res: EntryBuilder)
    ensures
        res@ == rss_builder(i@, parse_time@),
{
    let title = text_or_empty_exec(&i.title);
    let pub_date = text_or_empty_exec(&i.pub_date);
    let date = match DateTime::try_from_str(pub_date.as_str()) {
        Ok(d) => d,
        Err(_) => parse_time,
    };
    let author = text_or_empty_exec(&i.author);
    let content = text_or_empty_exec(&i.content);
    let mut b = EntryBuilder::new()
        .title(title.as_str())
        .date(date)
        .author(author.as_str())
        .content(content.as_str());
    if let Some(link) = &i.link {
        b = b.source(link.as_str());
    }
    if let Some(comments) = &i.comments {
        b = b.comments(comments.as_str());
    }
    b
}

/// Keeps or drops one built entry, and returns what is sent.
fn keep_built(b: &EntryBuilder, categories: &Vec<String>, ctx: &UpdaterContext, attr: &FeedAttributes) -> (res: Option<Entry>)
    requires
        instant_in_strict_range(ctx.parse_time@ - attr.timeout@),
    ensures
        kept(b@, crate::filters::strings_view(categories@), ctx.parse_time@, *attr) ==> (res matches Some(e) && e@ == built_entry(b@, ctx.parse_time@)),
        !kept(b@, crate::filters::strings_view(categories@), ctx.parse_time@, *attr) ==> res is None,
{
    let mut entry = b.build_at(ctx.parse_time);
    let ghost e0 = entry@;
    let mut k: usize = 0;
    let ghost cv = crate::filters::strings_view(categories@);
    while k < categories.len()
        invariant
            k <= categories.len(),
            cv == crate::filters::strings_view(categories@),
            entry@ == (EntryView { tags: insert_tags_seq(e0.tags, cv.take(k as int)), ..e0 }),
        decreases categories.len() - k,
    {
        assert(cv.take(k + 1).drop_last() =~= cv.take(k as int));
        let t = Tag::new(categories[k].as_str());
        entry.add_tag(&t);
        k += 1;
    }
    assert(cv.take(categories.len() as int) =~= cv);
    let cutoff = ctx.parse_time.minus(&attr.timeout);
    let too_old = entry.date().before(&cutoff);
    if !too_old && attr.passes_filters(&entry) {
        Some(b.build_at(ctx.parse_time))
    } else {
        None
    }
}

/// The views of pairs of entries and feed references.
pub open spec fn sent_view(v: Seq<(Entry, FeedRef)>) -> Seq<EntryView> {
    v.map_values(|p: (Entry, FeedRef)| p.0@)
}

/// Every sent entry names the feed of the update.
pub open spec fn all_from(v: Seq<(Entry, FeedRef)>, id: FeedId, name: Seq<char>) -> bool {
    forall|k: int| 0 <= k < v.len() ==> (#[trigger] v[k]).1@ == (FeedRefView { id: id.0 as nat, name })
}

impl StandardSyndication {
    /// The `If-Modified-Since` value of the request for this feed: the time
    /// of the last update, if there was one.
    pub fn request_since(&self, ctx: &UpdaterContext) -> (res: Option<String>)
        ensures
            match ctx.last_update {
                Some(d) => res matches Some(s) && s@ == crate::datetime::http_date(d@),
                None => res is None,
            },
    {
        match &ctx.last_update {
            Some(d) => Some(d.if_modified_since_time()),
            None => None,
        }
    }

    /// The entries a fetched document yields (`Feed::update` once the
    /// document has been fetched): read as Atom, else as RSS; each entry is
    /// kept unless older than the update's time minus the timeout or
    /// rejected by the filters, and is sent with the feed's reference.
    pub fn process_body(&self, body: &str, ctx: &UpdaterContext, attr: &FeedAttributes) -> (res: Vec<(Entry, FeedRef)>)
        requires
            instant_in_strict_range(ctx.parse_time@ - attr.timeout@),
        ensures
            sent_view(res@) == document_entries(body@, ctx.parse_time@, *attr),
            all_from(res@, ctx.feed_id, attr.display_name@),
    {
        let mut out: Vec<(Entry, FeedRef)> = Vec::new();
        if let Some(items) = parse_atom(body) {
            let ghost bs = atom_builders(items@.map_values(|i: AtomItem| i@));
            let mut k: usize = 0;
            while k < items.len()
                invariant
                    k <= items.len(),
                    instant_in_strict_range(ctx.parse_time@ - attr.timeout@),
                    bs == atom_builders(items@.map_values(|i: AtomItem| i@)),
                    forall|j: int| 0 <= j < items@.len() ==> parsed_in_range(Some(#[trigger] items@[j].updated)),
                    sent_view(out@) == sent(bs.take(k as int), ctx.parse_time@, *attr),
                    all_from(out@, ctx.feed_id, attr.display_name@),
                decreases items.len() - k,
            {
                assert(bs.take(k + 1).drop_last() =~= bs.take(k as int));
                assert(bs[k as int] == (atom_builder(items@[k as int]@), crate::filters::strings_view(items@[k as int].categories@)));
                let b = atom_builder_exec(&items[k]);
                let ghost o0 = out@;
                if let Some(e) = keep_built(&b, &items[k].categories, ctx, attr) {
                    out.push((e, FeedRef { id: ctx.feed_id, name: attr.display_name.clone() }));
                    assert(sent_view(out@) =~= sent_view(o0).push(out@.last().0@));
                }
                k += 1;
            }
            assert(bs.take(items.len() as int) =~= bs);
            return out;
        }
        if let Some(items) = parse_rss(body) {
            let ghost bs = rss_builders(items@.map_values(|i: RssItem| i@), ctx.parse_time@);
            let mut k: usize = 0;
            while k < items.len()
                invariant
                    k <= items.len(),
                    instant_in_strict_range(ctx.parse_time@ - attr.timeout@),
                    bs == rss_builders(items@.map_values(|i: RssItem| i@), ctx.parse_time@),
                    sent_view(out@) == sent(bs.take(k as int), ctx.parse_time@, *attr),
                    all_from(out@, ctx.feed_id, attr.display_name@),
                decreases items.len() - k,
            {
                assert(bs.take(k + 1).drop_last() =~= bs.take(k as int));
                assert(bs[k as int] == (rss_builder(items@[k as int]@, ctx.parse_time@), crate::filters::strings_view(items@[k as int].categories@)));
                let b = rss_builder_exec(&items[k], ctx.parse_time);
                let ghost o0 = out@;
                if let Some(e) = keep_built(&b, &items[k].categories, ctx, attr) {
                    out.push((e, FeedRef { id: ctx.feed_id, name: attr.display_name.clone() }));
                    assert(sent_view(out@) =~= sent_view(o0).push(out@.last().0@));
                }
                k += 1;
            }
            assert(bs.take(items.len() as int) =~= bs);
            return out;
        }
        assert(sent_view(out@) =~= Seq::<EntryView>::empty());
        out
    }
}

} // verus!
