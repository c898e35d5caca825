//! Feed entries, their links, tags and feed references.
use vstd::prelude::*;
use crate::datetime::DateTime;
use crate::text::{contains_seq, contains_str, lowercase, to_lower};

verus! {

/// A tag attached to feeds and entries.
#[derive(Debug)]
pub struct Tag(pub String);

impl Clone for Tag {
    fn clone(&self) -> (res: Tag)
        ensures
            res@ == self@,
    {
        Tag(self.0.clone())
    }
}

impl View for Tag {
    type V = Seq<char>;

    open spec fn view(&self) -> Seq<char> {
        self.0@
    }
}

impl Tag {
    /// A tag with the given text.
    pub fn new(from: &str) -> (res: Tag)
        ensures
            res@ == from@,
    {
        Tag(String::from_str(from))
    }

    /// The tag's text (`From<&Tag> for String`).
    pub fn to_string(&self) -> (res: String)
        ensures
            res@ == self@,
    {
        self.0.clone()
    }

    /// Whether two tags have the same text.
    pub fn same(&self, other: &Tag) -> (res: bool)
        ensures
            res == (self@ == other@),
    {
        self.0 == other.0
    }
}

/// Identifier of a feed within an updater.
#[derive(Clone, Copy, Debug, PartialEq, Eq, Structural)]
pub struct FeedId(pub usize);

/// A feed's identifier together with its display name.
#[derive(Debug)]
pub struct FeedRef {
    pub id: FeedId,
    pub name: String,
}

/// What a feed reference is: its identifier and its name.
pub struct FeedRefView {
    pub id: nat,
    pub name: Seq<char>,
}

impl View for FeedRef {
    type V = FeedRefView;

    open spec fn view(&self) -> FeedRefView {
        FeedRefView { id: self.id.0 as nat, name: self.name@ }
    }
}

impl Clone for FeedRef {
    fn clone(&self) -> (res: FeedRef)
        ensures
            res@ == self@,
    {
        FeedRef { id: self.id, name: self.name.clone() }
    }
}

impl FeedRef {
    /// A copy of this reference.
    pub fn copy(&self) -> (res: FeedRef)
        ensures
            res@ == self@,
    {
        FeedRef { id: self.id, name: self.name.clone() }
    }

    /// Whether two references are equal (same id and name).
    pub fn same(&self, other: &FeedRef) -> (res: bool)
        ensures
            res == (self@ == other@),
    {
        self.id.0 == other.id.0 && self.name == other.name
    }
}

/// A link of an entry.
#[derive(Debug)]
pub struct Link {
    pub url: String,
    pub title: String,
    pub mime_type: Option<String>,
}

/// What a link is, by its texts.
pub struct LinkView {
    pub url: Seq<char>,
    pub title: Seq<char>,
    pub mime_type: Option<Seq<char>>,
}

/// The view of an optional string.
pub open spec fn opt_view(s: Option<String>) -> Option<Seq<char>> {
    match s {
        Some(v) => Some(v@),
        None => None,
    }
}

impl View for Link {
    type V = LinkView;

    open spec fn view(&self) -> LinkView {
        LinkView { url: self.url@, title: self.title@, mime_type: opt_view(self.mime_type) }
    }
}

/// A copy of an optional string.
pub fn copy_opt(s: &Option<String>) -> (res: Option<String>)
    ensures
        opt_view(res) == opt_view(*s),
{
    match s {
        Some(v) => Some(v.clone()),
        None => None,
    }
}

/// Whether two optional strings are equal.
pub fn opt_eq(a: &Option<String>, b: &Option<String>) -> (res: bool)
    ensures
        res == (opt_view(*a) == opt_view(*b)),
{
    match (a, b) {
        (Some(x), Some(y)) => *x == *y,
        (None, None) => true,
        _ => false,
    }
}

impl Clone for Link {
    fn clone(&self) -> (res: Link)
        ensures
            res@ == self@,
    {
        Link { url: self.url.clone(), title: self.title.clone(), mime_type: copy_opt(&self.mime_type) }
    }
}

impl Link {
    /// A link without a MIME type.
    pub fn new(url: &str, title: &str) -> (res: Link)
        ensures
            res@ == (LinkView { url: url@, title: title@, mime_type: None }),
    {
        Link { url: String::from_str(url), title: String::from_str(title), mime_type: None }
    }

    /// A link with a MIME type.
    pub fn new_with_mime(url: &str, title: &str, mime_type: &str) -> (res: Link)
        ensures
            res@ == (LinkView { url: url@, title: title@, mime_type: Some(mime_type@) }),
    {
        Link {
            url: String::from_str(url),
            title: String::from_str(title),
            mime_type: Some(String::from_str(mime_type)),
        }
    }

    /// A copy of this link.
    pub fn copy(&self) -> (res: Link)
        ensures
            res@ == self@,
    {
        Link { url: self.url.clone(), title: self.title.clone(), mime_type: copy_opt(&self.mime_type) }
    }

    /// Whether two links are equal in all their fields.
    pub fn same(&self, other: &Link) -> (res: bool)
        ensures
            res == (self@ == other@),
    {
        self.url == other.url && self.title == other.title && opt_eq(&self.mime_type, &other.mime_type)
    }
}

/// The views of a vector of links.
pub open spec fn links_view(v: Seq<Link>) -> Seq<LinkView> {
    v.map_values(|l: Link| l@)
}

/// A copy of a vector of links.
pub fn copy_links(v: &Vec<Link>) -> (res: Vec<Link>)
    ensures
        links_view(res@) == links_view(v@),
{
    let mut out: Vec<Link> = Vec::new();
    let mut i: usize = 0;
    while i < v.len()
        invariant
            i <= v.len(),
            links_view(out@) == links_view(v@.take(i as int)),
        decreases v.len() - i,
    {
        out.push(v[i].copy());
        assert(links_view(v@.take(i + 1)) =~= links_view(v@.take(i as int)).push(v@[i as int]@));
        assert(links_view(out@) =~= links_view(v@.take(i as int)).push(v@[i as int]@));
        i += 1;
    }
    assert(v@.take(v.len() as int) =~= v@);
    out
}

/// How the date of an entry was obtained.
#[derive(Clone, Copy, Debug)]
pub enum EntryDate {
    /// Given by the feed.
    Published(DateTime),
    /// Assigned when the entry was read.
    Parsed(DateTime),
}

/// What an entry date is.
pub enum EntryDateView {
    Published(int),
    Parsed(int),
}

impl View for EntryDate {
    type V = EntryDateView;

    open spec fn view(&self) -> EntryDateView {
        match self {
            EntryDate::Published(d) => EntryDateView::Published(d@),
            EntryDate::Parsed(d) => EntryDateView::Parsed(d@),
        }
    }
}

/// The instant of an entry date, however it was obtained.
pub open spec fn date_instant(d: EntryDateView) -> int {
    match d {
        EntryDateView::Published(n) => n,
        EntryDateView::Parsed(n) => n,
    }
}

impl EntryDate {
    /// The instant, however it was obtained.
    pub fn instant(&self) -> (res: DateTime)
        ensures
            res@ == date_instant(self@),
    {
        match self {
            EntryDate::Published(d) => *d,
            EntryDate::Parsed(d) => *d,
        }
    }
}

/// An entry from a feed.
#[derive(Debug)]
pub struct Entry {
    title: String,
    date: EntryDate,
    author: String,
    content: String,
    source: Link,
    comments: Link,
    other_links: Vec<Link>,
    icon: Option<Link>,
    id: Option<String>,
    feeds: Vec<FeedRef>,
    tags: Vec<Tag>,
}

/// What an entry is.
pub struct EntryView {
    pub title: Seq<char>,
    pub date: EntryDateView,
    pub author: Seq<char>,
    pub content: Seq<char>,
    pub source: LinkView,
    pub comments: LinkView,
    pub other_links: Seq<LinkView>,
    pub icon: Option<LinkView>,
    pub id: Option<Seq<char>>,
    pub feeds: Seq<FeedRefView>,
    pub tags: Seq<Seq<char>>,
}

/// The views of the feeds of an entry.
pub open spec fn feeds_view(v: Seq<FeedRef>) -> Seq<FeedRefView> {
    v.map_values(|f: FeedRef| f@)
}

/// The views of tags.
pub open spec fn tags_view(v: Seq<Tag>) -> Seq<Seq<char>> {
    v.map_values(|t: Tag| t@)
}

/// The view of an optional link.
pub open spec fn opt_link_view(l: Option<Link>) -> Option<LinkView> {
    match l {
        Some(v) => Some(v@),
        None => None,
    }
}

impl View for Entry {
    type V = EntryView;

    closed spec fn view(&self) -> EntryView {
        EntryView {
            title: self.title@,
            date: self.date@,
            author: self.author@,
            content: self.content@,
            source: self.source@,
            comments: self.comments@,
            other_links: links_view(self.other_links@),
            icon: opt_link_view(self.icon),
            id: opt_view(self.id),
            feeds: feeds_view(self.feeds@),
            tags: tags_view(self.tags@),
        }
    }
}

/// Entry equality (`PartialEq for Entry`): two entries that both carry a
/// source id are equal when the ids are; otherwise when title, author,
/// content, source, comments and other links agree, and the dates agree if
/// both were assigned at reading.
pub open spec fn entry_eq(a: EntryView, b: EntryView) -> bool {
    if a.id is Some && b.id is Some {
        a.id == b.id
    } else {
        &&& a.title == b.title
        &&& a.author == b.author
        &&& a.content == b.content
        &&& a.source == b.source
        &&& a.comments == b.comments
        &&& a.other_links == b.other_links
        &&& match (a.date, b.date) {
            (EntryDateView::Parsed(d1), EntryDateView::Parsed(d2)) => d1 == d2,
            _ => true,
        }
    }
}

/// The entry carries a tag equal to `tag` up to lower-casing.
pub open spec fn has_tag_spec(e: EntryView, tag: Seq<char>) -> bool {
    exists|i: int| 0 <= i < e.tags.len() && lowercase(#[trigger] e.tags[i]) == lowercase(tag)
}

/// The entry carries a tag that contains `tag`, both lower-cased.
pub open spec fn has_tag_fuzzy_spec(e: EntryView, tag: Seq<char>) -> bool {
    exists|i: int| 0 <= i < e.tags.len() && contains_seq(lowercase(#[trigger] e.tags[i]), lowercase(tag))
}

/// The entry came from the feed with this id.
pub open spec fn from_feed_spec(e: EntryView, id: nat) -> bool {
    exists|i: int| 0 <= i < e.feeds.len() && (#[trigger] e.feeds[i]).id == id
}

/// The entry carries exactly this tag text.
pub open spec fn tagged_spec(e: EntryView, tag: Seq<char>) -> bool {
    e.tags.contains(tag)
}

/// The tags of `s` followed by `t`, unless `s` has it already (set insertion).
pub open spec fn insert_tag_seq(s: Seq<Seq<char>>, t: Seq<char>) -> Seq<Seq<char>> {
    if s.contains(t) { s } else { s.push(t) }
}

/// The feeds of `s` followed by `f`, unless `s` has it already (set insertion).
pub open spec fn insert_feed_seq(s: Seq<FeedRefView>, f: FeedRefView) -> Seq<FeedRefView> {
    if s.contains(f) { s } else { s.push(f) }
}

/// `v` with the tags of `ts` inserted in order.
pub open spec fn insert_tags_seq(v: Seq<Seq<char>>, ts: Seq<Seq<char>>) -> Seq<Seq<char>>
    decreases ts.len(),
{
    if ts.len() == 0 { v } else { insert_tag_seq(insert_tags_seq(v, ts.drop_last()), ts.last()) }
}

/// `v` with the feeds of `fs` inserted in order.
pub open spec fn insert_feeds_seq(v: Seq<FeedRefView>, fs: Seq<FeedRefView>) -> Seq<FeedRefView>
    decreases fs.len(),
{
    if fs.len() == 0 { v } else { insert_feed_seq(insert_feeds_seq(v, fs.drop_last()), fs.last()) }
}

impl Entry {
    /// The entry's well-formedness: no tag and no feed occurs twice.
    pub open spec fn wf_spec(e: EntryView) -> bool {
        e.tags.no_duplicates() && e.feeds.no_duplicates()
    }

    /// Entry title.
    pub fn title(&self) -> (res: &String)
        ensures
            res@ == self@.title,
    {
        &self.title
    }

    /// Entry date, however it was obtained.
    pub fn date(&self) -> (res: DateTime)
        ensures
            res@ == date_instant(self@.date),
    {
        self.date.instant()
    }

    /// Entry date with how it was obtained.
    pub fn entry_date(&self) -> (res: EntryDate)
        ensures
            res@ == self@.date,
    {
        self.date
    }

    /// Entry author.
    pub fn author(&self) -> (res: &String)
        ensures
            res@ == self@.author,
    {
        &self.author
    }

    /// Entry content.
    pub fn content(&self) -> (res: &String)
        ensures
            res@ == self@.content,
    {
        &self.content
    }

    /// Source link.
    pub fn source(&self) -> (res: &Link)
        ensures
            res@ == self@.source,
    {
        &self.source
    }

    /// Comments link.
    pub fn comments(&self) -> (res: &Link)
        ensures
            res@ == self@.comments,
    {
        &self.comments
    }

    /// Other links.
    pub fn other_links(&self) -> (res: &Vec<Link>)
        ensures
            links_view(res@) == self@.other_links,
    {
        &self.other_links
    }

    /// Icon link, if any.
    pub fn icon(&self) -> (res: &Option<Link>)
        ensures
            opt_link_view(*res) == self@.icon,
    {
        &self.icon
    }

    /// The id the source feed gave the entry, if any.
    pub fn source_id(&self) -> (res: &Option<String>)
        ensures
            opt_view(*res) == self@.id,
    {
        &self.id
    }

    /// The feeds the entry belongs to.
    pub fn feeds(&self) -> (res: &Vec<FeedRef>)
        ensures
            feeds_view(res@) == self@.feeds,
    {
        &self.feeds
    }

    /// The entry's tags.
    pub fn tags(&self) -> (res: &Vec<Tag>)
        ensures
            tags_view(res@) == self@.tags,
    {
        &self.tags
    }

    /// Overwrites the author.
    pub fn set_author(&mut self, author: String)
        ensures
            final(self)@ == (EntryView { author: author@, ..old(self)@ }),
    {
        self.author = author;
        proof {
            assert(self@.tags == old(self)@.tags);
        }
    }

    /// Adds the entry to a feed (set insertion).
    pub fn add_feed(&mut self, feed: FeedRef)
        ensures
            final(self)@ == (EntryView { feeds: insert_feed_seq(old(self)@.feeds, feed@), ..old(self)@ }),
    {
        let mut i: usize = 0;
        while i < self.feeds.len()
            invariant
                i <= self.feeds.len(),
                forall|k: int| 0 <= k < i ==> self.feeds@[k]@ != feed@,
            decreases self.feeds.len() - i,
        {
            if self.feeds[i].same(&feed) {
                assert(feeds_view(self.feeds@)[i as int] == feed@);
                return;
            }
            i += 1;
        }
        proof {
            assert(!feeds_view(self.feeds@).contains(feed@)) by {
                if feeds_view(self.feeds@).contains(feed@) {
                    let k = choose|k: int| 0 <= k < feeds_view(self.feeds@).len() && feeds_view(self.feeds@)[k] == feed@;
                    assert(self.feeds@[k]@ == feed@);
                }
            }
        }
        let ghost before = self.feeds@;
        self.feeds.push(feed);
        proof {
            assert(feeds_view(self.feeds@) =~= feeds_view(before).push(feed@));
        }
    }

    /// Whether the entry came from the feed with this id.
    pub fn is_from_feed(&self, id: FeedId) -> (res: bool)
        ensures
            res == from_feed_spec(self@, id.0 as nat),
    {
        let mut i: usize = 0;
        while i < self.feeds.len()
            invariant
                i <= self.feeds.len(),
                forall|k: int| 0 <= k < i ==> self.feeds@[k].id.0 != id.0,
            decreases self.feeds.len() - i,
        {
            if self.feeds[i].id.0 == id.0 {
                assert(self@.feeds[i as int] == self.feeds@[i as int]@);
                return true;
            }
            i += 1;
        }
        proof {
            assert forall|k: int| 0 <= k < self@.feeds.len() implies (#[trigger] self@.feeds[k]).id != id.0 by {
                assert(self@.feeds[k] == self.feeds@[k]@);
            }
        }
        false
    }

    /// Adds a tag (set insertion).
    pub fn add_tag(&mut self, tag: &Tag)
        ensures
            final(self)@ == (EntryView { tags: insert_tag_seq(old(self)@.tags, tag@), ..old(self)@ }),
    {
        let mut i: usize = 0;
        while i < self.tags.len()
            invariant
                i <= self.tags.len(),
                forall|k: int| 0 <= k < i ==> self.tags@[k]@ != tag@,
            decreases self.tags.len() - i,
        {
            if self.tags[i].same(tag) {
                assert(tags_view(self.tags@)[i as int] == tag@);
                return;
            }
            i += 1;
        }
        proof {
            assert(!tags_view(self.tags@).contains(tag@)) by {
                if tags_view(self.tags@).contains(tag@) {
                    let k = choose|k: int| 0 <= k < tags_view(self.tags@).len() && tags_view(self.tags@)[k] == tag@;
                    assert(self.tags@[k]@ == tag@);
                }
            }
        }
        let ghost before = self.tags@;
        self.tags.push(tag.clone());
        proof {
            assert(tags_view(self.tags@) =~= tags_view(before).push(tag@));
        }
    }

    /// Removes a tag.
    pub fn remove_tag(&mut self, tag: &Tag)
        ensures
            final(self)@ == (EntryView { tags: old(self)@.tags.filter(|t: Seq<char>| t != tag@), ..old(self)@ }),
    {
        let mut kept: Vec<Tag> = Vec::new();
        let mut i: usize = 0;
        let ghost pred = |t: Seq<char>| t != tag@;
        while i < self.tags.len()
            invariant
                i <= self.tags.len(),
                tags_view(kept@) == tags_view(self.tags@).take(i as int).filter(pred),
                pred == (|t: Seq<char>| t != tag@),
            decreases self.tags.len() - i,
        {
            proof {
                let s = tags_view(self.tags@);
                assert(s.take(i + 1).drop_last() =~= s.take(i as int));
                reveal(Seq::filter);
            }
            if !self.tags[i].same(tag) {
                let ghost k0 = kept@;
                kept.push(self.tags[i].clone());
                proof {
                    assert(tags_view(kept@) =~= tags_view(k0).push(self.tags@[i as int]@));
                }
            }
            i += 1;
        }
        proof {
            assert(tags_view(self.tags@).take(self.tags.len() as int) =~= tags_view(self.tags@));
        }
        self.tags = kept;
    }

    /// Whether the entry carries `tag`, ignoring case.
    pub fn has_tag(&self, tag: &str) -> (res: bool)
        ensures
            res == has_tag_spec(self@, tag@),
    {
        let wanted = to_lower(tag);
        let mut i: usize = 0;
        while i < self.tags.len()
            invariant
                i <= self.tags.len(),
                wanted@ == lowercase(tag@),
                forall|k: int| 0 <= k < i ==> lowercase(self.tags@[k]@) != lowercase(tag@),
            decreases self.tags.len() - i,
        {
            let t = to_lower(self.tags[i].0.as_str());
            if t == wanted {
                assert(self@.tags[i as int] == self.tags@[i as int]@);
                return true;
            }
            i += 1;
        }
        proof {
            assert forall|k: int| 0 <= k < self@.tags.len() implies lowercase(#[trigger] self@.tags[k]) != lowercase(tag@) by {
                assert(self@.tags[k] == self.tags@[k]@);
            }
        }
        false
    }

    /// Whether some tag of the entry contains `tag`, ignoring case.
    pub fn has_tag_fuzzy(&self, tag: &str) -> (res: bool)
        ensures
            res == has_tag_fuzzy_spec(self@, tag@),
    {
        let wanted = to_lower(tag);
        let mut i: usize = 0;
        while i < self.tags.len()
            invariant
                i <= self.tags.len(),
                wanted@ == lowercase(tag@),
                forall|k: int| 0 <= k < i ==> !contains_seq(lowercase(self.tags@[k]@), lowercase(tag@)),
            decreases self.tags.len() - i,
        {
            let t = to_lower(self.tags[i].0.as_str());
            if contains_str(t.as_str(), wanted.as_str()) {
                assert(self@.tags[i as int] == self.tags@[i as int]@);
                return true;
            }
            i += 1;
        }
        proof {
            assert forall|k: int| 0 <= k < self@.tags.len() implies !contains_seq(lowercase(#[trigger] self@.tags[k]), lowercase(tag@)) by {
                assert(self@.tags[k] == self.tags@[k]@);
            }
        }
        false
    }
}


/// A copy of a vector of feed references.
pub fn copy_feeds(v: &Vec<FeedRef>) -> (res: Vec<FeedRef>)
    ensures
        feeds_view(res@) == feeds_view(v@),
{
    let mut out: Vec<FeedRef> = Vec::new();
    let mut i: usize = 0;
    while i < v.len()
        invariant
            i <= v.len(),
            feeds_view(out@) == feeds_view(v@.take(i as int)),
        decreases v.len() - i,
    {
        out.push(v[i].copy());
        assert(feeds_view(v@.take(i + 1)) =~= feeds_view(v@.take(i as int)).push(v@[i as int]@));
        assert(feeds_view(out@) =~= feeds_view(v@.take(i as int)).push(v@[i as int]@));
        i += 1;
    }
    assert(v@.take(v.len() as int) =~= v@);
    out
}

/// A copy of a vector of tags.
pub fn copy_tags(v: &Vec<Tag>) -> (res: Vec<Tag>)
    ensures
        tags_view(res@) == tags_view(v@),
{
    let mut out: Vec<Tag> = Vec::new();
    let mut i: usize = 0;
    while i < v.len()
        invariant
            i <= v.len(),
            tags_view(out@) == tags_view(v@.take(i as int)),
        decreases v.len() - i,
    {
        out.push(v[i].clone());
        assert(tags_view(v@.take(i + 1)) =~= tags_view(v@.take(i as int)).push(v@[i as int]@));
        assert(tags_view(out@) =~= tags_view(v@.take(i as int)).push(v@[i as int]@));
        i += 1;
    }
    assert(v@.take(v.len() as int) =~= v@);
    out
}

/// A copy of an optional link.
pub fn copy_opt_link(l: &Option<Link>) -> (res: Option<Link>)
    ensures
        opt_link_view(res) == opt_link_view(*l),
{
    match l {
        Some(v) => Some(v.copy()),
        None => None,
    }
}

impl Clone for Entry {
    fn clone(&self) -> (res: Entry)
        ensures
            res@ == self@,
    {
        Entry {
            title: self.title.clone(),
            date: self.date,
            author: self.author.clone(),
            content: self.content.clone(),
            source: self.source.copy(),
            comments: self.comments.copy(),
            other_links: copy_links(&self.other_links),
            icon: copy_opt_link(&self.icon),
            id: copy_opt(&self.id),
            feeds: copy_feeds(&self.feeds),
            tags: copy_tags(&self.tags),
        }
    }
}

/// Whether two vectors of links are equal element by element.
pub fn links_eq(a: &Vec<Link>, b: &Vec<Link>) -> (res: bool)
    ensures
        res == (links_view(a@) == links_view(b@)),
{
    if a.len() != b.len() {
        assert(links_view(a@).len() != links_view(b@).len());
        return false;
    }
    let mut i: usize = 0;
    while i < a.len()
        invariant
            i <= a.len(),
            a.len() == b.len(),
            forall|k: int| 0 <= k < i ==> a@[k]@ == b@[k]@,
        decreases a.len() - i,
    {
        if !a[i].same(&b[i]) {
            assert(links_view(a@)[i as int] != links_view(b@)[i as int]);
            return false;
        }
        i += 1;
    }
    assert(links_view(a@) =~= links_view(b@));
    true
}

impl Entry {
    /// Entry equality (`PartialEq for Entry`); see `entry_eq`.
    pub fn eq(&self, other: &Entry) -> (res: bool)
        ensures
            res == entry_eq(self@, other@),
    {
        if let (Some(id1), Some(id2)) = (&self.id, &other.id) {
            return *id1 == *id2;
        }
        if !(self.title == other.title) {
            return false;
        }
        if !(self.author == other.author) {
            return false;
        }
        if !(self.content == other.content) {
            return false;
        }
        if !self.source.same(&other.source) {
            return false;
        }
        if !self.comments.same(&other.comments) {
            return false;
        }
        if !links_eq(&self.other_links, &other.other_links) {
            return false;
        }
        assert(!(self@.id is Some && other@.id is Some));
        match (self.date, other.date) {
            (EntryDate::Parsed(dt1), EntryDate::Parsed(dt2)) => {
                if !dt1.same(&dt2) {
                    return false;
                }
            },
            _ => {},
        }
        assert(self@.source == other@.source);
        assert(self@.comments == other@.comments);
        true
    }

    /// Entry order (`Ord for Entry`): by date, however it was obtained.
    pub fn earlier_than(&self, other: &Entry) -> (res: bool)
        ensures
            res == (date_instant(self@.date) < date_instant(other@.date)),
    {
        self.date().before(&other.date())
    }
}

/// Builder for entries; fields left unset take defaults when built.
#[derive(Debug)]
pub struct EntryBuilder {
    title: Option<String>,
    date: Option<EntryDate>,
    author: Option<String>,
    content: Option<String>,
    source: Option<Link>,
    comments: Option<Link>,
    icon: Option<Link>,
    other_links: Vec<Link>,
    id: Option<String>,
}

/// What an entry builder holds.
pub struct EntryBuilderView {
    pub title: Option<Seq<char>>,
    pub date: Option<EntryDateView>,
    pub author: Option<Seq<char>>,
    pub content: Option<Seq<char>>,
    pub source: Option<LinkView>,
    pub comments: Option<LinkView>,
    pub icon: Option<LinkView>,
    pub other_links: Seq<LinkView>,
    pub id: Option<Seq<char>>,
}

/// The view of an optional entry date.
pub open spec fn opt_date_view(d: Option<EntryDate>) -> Option<EntryDateView> {
    match d {
        Some(v) => Some(v@),
        None => None,
    }
}

impl View for EntryBuilder {
    type V = EntryBuilderView;

    closed spec fn view(&self) -> EntryBuilderView {
        EntryBuilderView {
            title: opt_view(self.title),
            date: opt_date_view(self.date),
            author: opt_view(self.author),
            content: opt_view(self.content),
            source: opt_link_view(self.source),
            comments: opt_link_view(self.comments),
            icon: opt_link_view(self.icon),
            other_links: links_view(self.other_links@),
            id: opt_view(self.id),
        }
    }
}

/// The text of an optional string, or the empty text.
pub open spec fn or_empty(s: Option<Seq<char>>) -> Seq<char> {
    match s {
        Some(v) => v,
        None => Seq::empty(),
    }
}

/// The entry a builder builds, with `now` as the reading time for an entry
/// without a date: unset texts are empty, unset links are empty links titled
/// `Source` and `Comments`, and the entry has no feeds and no tags.
pub open spec fn built_entry(b: EntryBuilderView, now: int) -> EntryView {
    EntryView {
        title: or_empty(b.title),
        date: match b.date {
            Some(d) => d,
            None => EntryDateView::Parsed(now),
        },
        author: or_empty(b.author),
        content: or_empty(b.content),
        source: match b.source {
            Some(l) => l,
            None => LinkView { url: Seq::empty(), title: "Source"@, mime_type: None },
        },
        comments: match b.comments {
            Some(l) => l,
            None => LinkView { url: Seq::empty(), title: "Comments"@, mime_type: None },
        },
        other_links: b.other_links,
        icon: b.icon,
        id: b.id,
        feeds: Seq::empty(),
        tags: Seq::empty(),
    }
}

fn text_or_empty(s: &Option<String>) -> (res: String)
    ensures
        res@ == or_empty(opt_view(*s)),
{
    match s {
        Some(v) => v.clone(),
        None => String::new(),
    }
}

impl EntryBuilder {
    /// An empty builder.
    pub fn new() -> (res: EntryBuilder)
        ensures
            res@ == (EntryBuilderView {
                title: None, date: None, author: None, content: None, source: None,
                comments: None, icon: None, other_links: Seq::empty(), id: None,
            }),
    {
        let b = EntryBuilder {
            title: None,
            date: None,
            author: None,
            content: None,
            source: None,
            comments: None,
            icon: None,
            other_links: Vec::new(),
            id: None,
        };
        proof {
            assert(links_view(b.other_links@) =~= Seq::<LinkView>::empty());
        }
        b
    }

    /// Sets the title.
    pub fn title(self, title: &str) -> (res: EntryBuilder)
        ensures
            res@ == (EntryBuilderView { title: Some(title@), ..self@ }),
    {
        EntryBuilder { title: Some(String::from_str(title)), ..self }
    }

    /// Sets the date, as given by the feed.
    pub fn date(self, date: DateTime) -> (res: EntryBuilder)
        ensures
            res@ == (EntryBuilderView { date: Some(EntryDateView::Published(date@)), ..self@ }),
    {
        EntryBuilder { date: Some(EntryDate::Published(date)), ..self }
    }

    /// Sets the author.
    pub fn author(self, author: &str) -> (res: EntryBuilder)
        ensures
            res@ == (EntryBuilderView { author: Some(author@), ..self@ }),
    {
        EntryBuilder { author: Some(String::from_str(author)), ..self }
    }

    /// Sets the content.
    pub fn content(self, content: &str) -> (res: EntryBuilder)
        ensures
            res@ == (EntryBuilderView { content: Some(content@), ..self@ }),
    {
        EntryBuilder { content: Some(String::from_str(content)), ..self }
    }

    /// Sets the source link, titled `Source`.
    pub fn source(self, url: &str) -> (res: EntryBuilder)
        ensures
            res@ == (EntryBuilderView {
                source: Some(LinkView { url: url@, title: "Source"@, mime_type: None }), ..self@ }),
    {
        EntryBuilder { source: Some(Link::new(url, "Source")), ..self }
    }

    /// Sets the comments link, titled `Comments`.
    pub fn comments(self, url: &str) -> (res: EntryBuilder)
        ensures
            res@ == (EntryBuilderView {
                comments: Some(LinkView { url: url@, title: "Comments"@, mime_type: None }), ..self@ }),
    {
        EntryBuilder { comments: Some(Link::new(url, "Comments")), ..self }
    }

    /// Sets the icon link, titled `Icon`.
    pub fn icon(self, url: &str) -> (res: EntryBuilder)
        ensures
            res@ == (EntryBuilderView {
                icon: Some(LinkView { url: url@, title: "Icon"@, mime_type: None }), ..self@ }),
    {
        EntryBuilder { icon: Some(Link::new(url, "Icon")), ..self }
    }

    /// Sets the id the source feed gave the entry.
    pub fn source_id(self, id: &str) -> (res: EntryBuilder)
        ensures
            res@ == (EntryBuilderView { id: Some(id@), ..self@ }),
    {
        EntryBuilder { id: Some(String::from_str(id)), ..self }
    }

    /// Appends a link to the other links.
    pub fn other_link(self, link: Link) -> (res: EntryBuilder)
        ensures
            res@ == (EntryBuilderView { other_links: self@.other_links.push(link@), ..self@ }),
    {
        let mut b = self;
        let ghost before = b.other_links@;
        b.other_links.push(link);
        proof {
            assert(links_view(b.other_links@) =~= links_view(before).push(link@));
        }
        b
    }

    /// Builds the entry, taking `now` as its date if none was set.
    pub fn build_at(&self, now: DateTime) -> (res: Entry)
        ensures
            res@ == built_entry(self@, now@),
    {
        let e = Entry {
            title: text_or_empty(&self.title),
            date: match self.date {
                Some(d) => d,
                None => EntryDate::Parsed(now),
            },
            author: text_or_empty(&self.author),
            content: text_or_empty(&self.content),
            source: match &self.source {
                Some(l) => l.copy(),
                None => Link::new("", "Source"),
            },
            comments: match &self.comments {
                Some(l) => l.copy(),
                None => Link::new("", "Comments"),
            },
            other_links: copy_links(&self.other_links),
            icon: copy_opt_link(&self.icon),
            id: copy_opt(&self.id),
            feeds: Vec::new(),
            tags: Vec::new(),
        };
        proof {
            reveal_strlit("");
            assert(""@ =~= Seq::<char>::empty());
            assert(feeds_view(e.feeds@) =~= Seq::<FeedRefView>::empty());
            assert(tags_view(e.tags@) =~= Seq::<Seq<char>>::empty());
        }
        e
    }

    /// Builds the entry; one without a date is dated now.
    pub fn build(&self) -> (res: Entry)
        ensures
            exists|now: int| now >= 0 && res@ == built_entry(self@, now),
    {
        let now = DateTime::now();
        self.build_at(now)
    }
}

} // verus!
