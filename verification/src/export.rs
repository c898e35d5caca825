//! Exporting entries: the Atom entry a served feed carries, the entry a web
//! page shows, and how dates are written in the configured time zone.
use vstd::prelude::*;
use crate::config::{Config, ExportFormat, TimeZone, TimeZoneKind};
use crate::datetime::DateTime;
use crate::entry::{date_instant, feeds_view, links_view, opt_view, tags_view, Entry, EntryView, FeedRef, Link, LinkView};
use crate::feed::AtomLink;
use crate::text::{concat, replace_seq, replace_str};

verus! {

/// What `markdown::to_html` makes of a text.
pub uninterp spec fn markdown_html(text: Seq<char>) -> Seq<char>;

/// `markdown::to_html`: CommonMark rendered as HTML, named by `markdown_html`.
#[verifier::external_body]
fn markdown_to_html(text: &str) -> (res: String)
    ensures
        res@ == markdown_html(text@),
{
    markdown::to_html(text)
}

/// What `pulldown_cmark` renders of a text with every extension enabled.
pub uninterp spec fn cmark_html(text: Seq<char>) -> Seq<char>;

/// `pulldown_cmark::html::push_html` of `Parser::new_ext(text, Options::all())`
/// into an empty string, named by `cmark_html`.
#[verifier::external_body]
fn cmark_to_html(text: &str) -> (res: String)
    ensures
        res@ == cmark_html(text@),
{
    let parser = pulldown_cmark::Parser::new_ext(text, pulldown_cmark::Options::all());
    let mut out = String::new();
    pulldown_cmark::html::push_html(&mut out, parser);
    out
}

/// Seconds and nanoseconds that `chrono::DateTime::from_timestamp` takes:
/// the seconds within the calendar range, the nanoseconds under a second,
/// or under two seconds in a minute's last second (a leap second).
pub open spec fn chrono_timestamp(secs: i64, nanos: u32) -> bool {
    &&& crate::datetime::MIN_SECS <= secs <= crate::datetime::MAX_SECS
    &&& nanos < 2 * crate::datetime::NANOS_PER_SEC
    &&& (nanos < crate::datetime::NANOS_PER_SEC || secs % 60 == 59)
}

/// What `chrono_tz` writes for an instant (nanoseconds since the epoch) in a
/// named time zone with the format `%Y-%m-%d %H:%M %Z`.
pub uninterp spec fn zoned_text(zone: Seq<char>, instant: int) -> Seq<char>;

/// The instant in the time zone `chrono_tz` knows by the name, formatted
/// `%Y-%m-%d %H:%M %Z`, named by `zoned_text`. Both the zone and the
/// timestamp are known to `chrono`, as `requires` states, so neither
/// `expect` fails.
#[verifier::external_body]
fn format_in_zone(zone: &str, secs: i64, nanos: u32, instant: &DateTime) -> (res: String)
    requires
        crate::config::tz_known(zone@),
        chrono_timestamp(secs, nanos),
        instant@ == secs * crate::datetime::NANOS_PER_SEC + nanos,
    ensures
        res@ == zoned_text(zone@, instant@),
{
    let tz: chrono_tz::Tz = zone.parse().expect("a zone chrono_tz knows");
    let dt = chrono::DateTime::from_timestamp(secs, nanos).expect("a timestamp in range");
    dt.with_timezone(&tz).format("%Y-%m-%d %H:%M %Z").to_string()
}

/// What `chrono` writes for an instant in UTC (`Display` of
/// `DateTime<Utc>`, such as `1970-01-01 00:00:00 UTC`).
pub uninterp spec fn utc_text(instant: int) -> Seq<char>;

/// The instant written by `Display` of `chrono::DateTime<Utc>`, named by
/// `utc_text`. The timestamp is in range, as `requires` states.
#[verifier::external_body]
fn format_utc(secs: i64, nanos: u32, instant: &DateTime) -> (res: String)
    requires
        chrono_timestamp(secs, nanos),
        instant@ == secs * crate::datetime::NANOS_PER_SEC + nanos,
    ensures
        res@ == utc_text(instant@),
{
    chrono::DateTime::from_timestamp(secs, nanos).expect("a timestamp in range").to_string()
}

/// The instant in the machine's time zone, formatted `%Y-%m-%d %H:%M`. It
/// depends on the machine's time zone, so nothing is stated of it.
#[verifier::external_body]
fn format_local(secs: i64, nanos: u32) -> (res: String)
    requires
        chrono_timestamp(secs, nanos),
{
    let dt = chrono::DateTime::from_timestamp(secs, nanos).expect("a timestamp in range");
    dt.with_timezone(&chrono::Local).format("%Y-%m-%d %H:%M").to_string()
}

/// The parts of an instant: whole seconds (rounded down) and nanoseconds.
fn instant_parts(dt: &DateTime) -> (res: (i64, u32))
    ensures
        dt@ == res.0 * crate::datetime::NANOS_PER_SEC + res.1,
        res.1 < crate::datetime::NANOS_PER_SEC,
{
    let secs = dt.timestamp();
    let n = dt.nanos();
    let sub = n - (secs as i128) * crate::datetime::NANOS_PER_SEC;
    proof {
        vstd::arithmetic::div_mod::lemma_fundamental_div_mod(n as int, crate::datetime::NANOS_PER_SEC as int);
        assert(0 <= (n as int) % (crate::datetime::NANOS_PER_SEC as int) < crate::datetime::NANOS_PER_SEC as int);
    }
    (secs, sub as u32)
}

/// The parts of an instant as `chrono` takes them: an instant in the second
/// after the latest one is that second's leap second.
fn chrono_parts(dt: &DateTime) -> (res: (i64, u32))
    ensures
        dt@ == res.0 * crate::datetime::NANOS_PER_SEC + res.1,
        chrono_timestamp(res.0, res.1),
{
    let (secs, sub) = instant_parts(dt);
    let n = dt.nanos();
    proof {
        assert(crate::datetime::instant_in_range(n as int));
        assert(crate::datetime::MIN_SECS <= secs) by (nonlinear_arith)
            requires
                n == secs * crate::datetime::NANOS_PER_SEC + sub,
                sub < crate::datetime::NANOS_PER_SEC,
                crate::datetime::MIN_SECS * crate::datetime::NANOS_PER_SEC <= n,
        ;
        assert(secs <= crate::datetime::MAX_SECS + 1) by (nonlinear_arith)
            requires
                n == secs * crate::datetime::NANOS_PER_SEC + sub,
                sub >= 0,
                n <= crate::datetime::MAX_SECS * crate::datetime::NANOS_PER_SEC
                    + 2 * crate::datetime::NANOS_PER_SEC - 1,
        ;
    }
    if secs > crate::datetime::MAX_SECS {
        (crate::datetime::MAX_SECS, sub + 1_000_000_000)
    } else {
        (secs, sub)
    }
}

impl TimeZone {
    /// Writes an instant in this time zone: a named zone with its
    /// abbreviation, UTC as `chrono` displays it, the machine's zone as
    /// `%Y-%m-%d %H:%M` (nothing is stated of that one). A name `chrono_tz`
    /// does not know, which `TimeZone::parse` never keeps, is written in UTC.
    pub fn format(&self, dt: &DateTime) -> (res: String)
        ensures
            self.kind matches TimeZoneKind::Named(n) ==> res@ == (if crate::config::tz_known(n@) {
                zoned_text(n@, dt@)
            } else {
                utc_text(dt@)
            }),
            self.kind matches TimeZoneKind::Utc ==> res@ == utc_text(dt@),
    {
        let (secs, nanos) = chrono_parts(dt);
        match &self.kind {
            TimeZoneKind::Named(n) => {
                if crate::config::tz_exists(n.as_str()) {
                    format_in_zone(n.as_str(), secs, nanos, dt)
                } else {
                    format_utc(secs, nanos, dt)
                }
            },
            TimeZoneKind::Utc => format_utc(secs, nanos, dt),
            TimeZoneKind::Local => format_local(secs, nanos),
        }
    }
}

/// An entry as a web page shows it.
#[derive(Debug)]
pub struct ExportEntry {
    pub title: String,
    pub date: String,
    pub author: String,
    pub sources: String,
    pub source: Link,
    pub content: String,
    pub comments: Link,
    pub links: Vec<Link>,
    pub icon: String,
    pub tags: Vec<String>,
}

/// Content with the escapes an HTML-to-Markdown conversion adds to
/// brackets and underscores undone.
pub open spec fn unescaped(content: Seq<char>) -> Seq<char> {
    replace_seq(replace_seq(replace_seq(content, "\\["@, "["@), "\\]"@, "]"@), "\\_"@, "_"@)
}

impl ExportEntry {
    /// The entry with its content as written (unescaped) and its date as
    /// given.
    pub fn from_entry_markdown(value: &Entry, date: String) -> (res: ExportEntry)
        ensures
            res.title@ == value@.title,
            res.date@ == date@,
            res.author@ == value@.author,
            res.sources@.len() == 0,
            res.source@ == value@.source,
            res.content@ == unescaped(value@.content),
            res.comments@ == value@.comments,
            links_view(res.links@) == value@.other_links,
            res.icon@ == crate::database::icon_url(value@.icon),
            res.tags@.map_values(|s: String| s@) == value@.tags,
    {
        proof {
            reveal_strlit("\\[");
            reveal_strlit("\\]");
            reveal_strlit("\\_");
        }
        let c = replace_str(value.content().as_str(), "\\[", "[");
        let c = replace_str(c.as_str(), "\\]", "]");
        let c = replace_str(c.as_str(), "\\_", "_");
        let icon = match value.icon() {
            Some(l) => l.url.clone(),
            None => String::new(),
        };
        let tags = value.tags();
        let mut tag_texts: Vec<String> = Vec::new();
        let mut i: usize = 0;
        while i < tags.len()
            invariant
                i <= tags.len(),
                tags_view(tags@) == value@.tags,
                tag_texts@.map_values(|s: String| s@) == value@.tags.take(i as int),
            decreases tags.len() - i,
        {
            let ghost t0 = tag_texts@.map_values(|s: String| s@);
            tag_texts.push(tags[i].to_string());
            assert(tags_view(tags@)[i as int] == tags@[i as int]@);
            assert(tag_texts@.map_values(|s: String| s@) =~= t0.push(value@.tags[i as int]));
            assert(value@.tags.take(i + 1) =~= value@.tags.take(i as int).push(value@.tags[i as int]));
            i += 1;
        }
        assert(value@.tags.take(tags.len() as int) =~= value@.tags);
        ExportEntry {
            title: value.title().clone(),
            date,
            author: value.author().clone(),
            sources: String::new(),
            source: value.source().clone(),
            content: c,
            comments: value.comments().clone(),
            links: crate::entry::copy_links(value.other_links()),
            icon,
            tags: tag_texts,
        }
    }

    /// The entry with its content rendered from Markdown to HTML.
    pub fn from_entry(value: &Entry, date: String) -> (res: ExportEntry)
        ensures
            res.title@ == value@.title,
            res.date@ == date@,
            res.content@ == cmark_html(value@.content),
            res.source@ == value@.source,
            res.comments@ == value@.comments,
            links_view(res.links@) == value@.other_links,
            res.tags@.map_values(|s: String| s@) == value@.tags,
    {
        let mut e = ExportEntry::from_entry_markdown(value, date);
        e.content = cmark_to_html(value.content().as_str());
        e
    }
}

/// The content element of an Atom entry: its value and type.
#[derive(Debug)]
pub struct AtomContent {
    pub value: String,
    pub content_type: String,
}

/// An Atom entry, by the plain values the library writes of it.
#[derive(Debug)]
pub struct AtomEntryOut {
    pub title: String,
    pub summary: String,
    pub updated: DateTime,
    pub author: String,
    pub content: AtomContent,
    pub links: Vec<AtomLink>,
    pub icon: Option<String>,
    pub categories: Vec<String>,
    pub id: Option<String>,
}

/// The names of the feeds joined by `, `.
pub open spec fn joined_names(fs: Seq<crate::entry::FeedRefView>) -> Seq<char>
    decreases fs.len(),
{
    if fs.len() == 0 {
        Seq::empty()
    } else if fs.len() == 1 {
        fs[0].name
    } else {
        joined_names(fs.drop_last()) + ", "@ + fs.last().name
    }
}

/// The title of a served entry: with its feeds' names in brackets when
/// sources are shown and it has any.
pub open spec fn served_title(e: EntryView, show_source: bool) -> Seq<char> {
    if show_source && e.feeds.len() > 0 { "["@ + joined_names(e.feeds) + "] "@ + e.title } else { e.title }
}

/// A link of an entry as an Atom link.
pub open spec fn atom_link_of(l: LinkView) -> (Seq<char>, Option<Seq<char>>, Option<Seq<char>>) {
    (l.url, Some(l.title), l.mime_type)
}

/// The Atom links of an entry: source and comments where their url is set,
/// then the other links.
pub open spec fn served_links(e: EntryView) -> Seq<(Seq<char>, Option<Seq<char>>, Option<Seq<char>>)> {
    (if e.source.url.len() > 0 { seq![atom_link_of(e.source)] } else { Seq::empty() })
        + (if e.comments.url.len() > 0 { seq![atom_link_of(e.comments)] } else { Seq::empty() })
        + e.other_links.map_values(|l: LinkView| atom_link_of(l))
}

/// The views of Atom links.
pub open spec fn atom_links_view(v: Seq<AtomLink>) -> Seq<(Seq<char>, Option<Seq<char>>, Option<Seq<char>>)> {
    v.map_values(|l: AtomLink| (l.href@, opt_view(l.title), opt_view(l.mime_type)))
}

fn atom_link(l: &Link) -> (res: AtomLink)
    ensures
        (res.href@, opt_view(res.title), opt_view(res.mime_type)) == atom_link_of(l@),
{
    AtomLink { href: l.url.clone(), title: Some(l.title.clone()), mime_type: crate::entry::copy_opt(&l.mime_type) }
}

fn joined_names_exec(fs: &Vec<FeedRef>) -> (res: String)
    ensures
        res@ == joined_names(feeds_view(fs@)),
{
    let mut out = String::new();
    let mut i: usize = 0;
    while i < fs.len()
        invariant
            i <= fs.len(),
            out@ == joined_names(feeds_view(fs@).take(i as int)),
        decreases fs.len() - i,
    {
        let ghost t = feeds_view(fs@).take(i + 1);
        assert(t.drop_last() =~= feeds_view(fs@).take(i as int));
        assert(t.last() == fs@[i as int]@);
        if i == 0 {
            out = fs[i].name.clone();
            assert(t.len() == 1 && t[0] == fs@[0]@);
        } else {
            out.append(", ");
            out.append(fs[i].name.as_str());
        }
        i += 1;
    }
    assert(feeds_view(fs@).take(fs.len() as int) =~= feeds_view(fs@));
    out
}

impl Entry {
    /// The Atom entry a served feed carries: title (with its feeds' names
    /// when configured), the content as summary, the date as update time,
    /// the author, the content as HTML rendered from Markdown or as text,
    /// the links, the icon, the tags as categories and the source's id.
    pub fn to_atom(&self, config: &Config) -> (res: AtomEntryOut)
        ensures
            res.title@ == served_title(self@, config.serve.show_source_in_title),
            res.summary@ == self@.content,
            res.updated@ == date_instant(self@.date),
            res.author@ == self@.author,
            config.serve.export_format == ExportFormat::HTML ==> res.content.value@ == markdown_html(self@.content)
                && res.content.content_type@ == "html"@,
            config.serve.export_format == ExportFormat::Markdown ==> res.content.value@ == self@.content
                && res.content.content_type@ == "text"@,
            atom_links_view(res.links@) == served_links(self@),
            opt_view(res.icon) == match self@.icon {
                Some(l) => Some(l.url),
                None => None,
            },
            res.categories@.map_values(|s: String| s@) == self@.tags,
            opt_view(res.id) == self@.id,
    {
        let content = match config.serve.export_format {
            ExportFormat::HTML => AtomContent {
                value: markdown_to_html(self.content().as_str()),
                content_type: crate::text::owned("html"),
            },
            ExportFormat::Markdown => AtomContent {
                value: self.content().clone(),
                content_type: crate::text::owned("text"),
            },
        };
        let title = if config.serve.show_source_in_title && self.feeds().len() > 0 {
            let names = joined_names_exec(self.feeds());
            let t = concat("[", names.as_str());
            let t = concat(t.as_str(), "] ");
            concat(t.as_str(), self.title().as_str())
        } else {
            self.title().clone()
        };
        let mut links: Vec<AtomLink> = Vec::new();
        let ghost e = self@;
        if !self.source().url.as_str().is_empty() {
            links.push(atom_link(self.source()));
        }
        if !self.comments().url.as_str().is_empty() {
            let ghost l0 = atom_links_view(links@);
            links.push(atom_link(self.comments()));
            assert(atom_links_view(links@) =~= l0.push(atom_link_of(e.comments)));
        }
        let ghost head = atom_links_view(links@);
        assert(head =~= (if e.source.url.len() > 0 { seq![atom_link_of(e.source)] } else { Seq::empty() })
            + (if e.comments.url.len() > 0 { seq![atom_link_of(e.comments)] } else { Seq::empty() }));
        let others = self.other_links();
        let mut i: usize = 0;
        while i < others.len()
            invariant
                i <= others.len(),
                links_view(others@) == e.other_links,
                atom_links_view(links@) == head + e.other_links.take(i as int).map_values(|l: LinkView| atom_link_of(l)),
            decreases others.len() - i,
        {
            let ghost l0 = atom_links_view(links@);
            links.push(atom_link(&others[i]));
            assert(e.other_links[i as int] == others@[i as int]@);
            assert(atom_links_view(links@) =~= l0.push(atom_link_of(e.other_links[i as int])));
            assert(e.other_links.take(i + 1).map_values(|l: LinkView| atom_link_of(l))
                =~= e.other_links.take(i as int).map_values(|l: LinkView| atom_link_of(l)).push(atom_link_of(e.other_links[i as int])));
            i += 1;
        }
        assert(e.other_links.take(others.len() as int) =~= e.other_links);
        let icon = match self.icon() {
            Some(l) => Some(l.url.clone()),
            None => None,
        };
        let tags = self.tags();
        let mut cats: Vec<String> = Vec::new();
        let mut k: usize = 0;
        while k < tags.len()
            invariant
                k <= tags.len(),
                tags_view(tags@) == e.tags,
                cats@.map_values(|s: String| s@) == e.tags.take(k as int),
            decreases tags.len() - k,
        {
            let ghost c0 = cats@.map_values(|s: String| s@);
            cats.push(tags[k].to_string());
            assert(tags_view(tags@)[k as int] == tags@[k as int]@);
            assert(cats@.map_values(|s: String| s@) =~= c0.push(e.tags[k as int]));
            assert(e.tags.take(k + 1) =~= e.tags.take(k as int).push(e.tags[k as int]));
            k += 1;
        }
        assert(e.tags.take(tags.len() as int) =~= e.tags);
        AtomEntryOut {
            title,
            summary: self.content().clone(),
            updated: self.date(),
            author: self.author().clone(),
            content,
            links,
            icon,
            categories: cats,
            id: crate::entry::copy_opt(self.source_id()),
        }
    }
}

} // verus!
