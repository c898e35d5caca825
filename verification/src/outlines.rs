//! OPML feed lists: which outlines of a document name feeds, how they are
//! read into a configuration, and which feeds a configuration writes out.
//! Reading and writing the XML itself is the `opml` crate's work.
use vstd::prelude::*;
use crate::config::{added_names, feed_list, first_named, Config, FeedDefinition, RawFeed};

verus! {

/// What the import reads of a top-level outline: its text, type and feed
/// address.
#[derive(Debug)]
pub struct FeedOutline {
    pub text: String,
    pub kind: Option<String>,
    pub xml_url: Option<String>,
}

/// An outline by its text, type and feed address.
pub type OutlineView = (Seq<char>, Option<Seq<char>>, Option<Seq<char>>);

/// The text of an optional string.
pub open spec fn opt_text(o: Option<String>) -> Option<Seq<char>> {
    match o {
        Some(s) => Some(s@),
        None => None,
    }
}

impl View for FeedOutline {
    type V = OutlineView;

    open spec fn view(&self) -> OutlineView {
        (self.text@, opt_text(self.kind), opt_text(self.xml_url))
    }
}

/// The views of outlines.
pub open spec fn outlines_view(v: Seq<FeedOutline>) -> Seq<OutlineView> {
    v.map_values(|o: FeedOutline| o@)
}

/// The name and address of the feed an outline gives: an outline of type
/// `rss` with a feed address, named by its text.
pub open spec fn outline_entry(o: OutlineView) -> Option<(Seq<char>, Seq<char>)> {
    if o.1 == Some("rss"@) && o.2 is Some {
        Some((o.0, o.2->0))
    } else {
        None
    }
}

/// The outline gives a feed with this name.
pub open spec fn outline_names(o: OutlineView, name: Seq<char>) -> bool {
    match outline_entry(o) {
        Some(p) => p.0 == name,
        None => false,
    }
}

/// The definition an outline gives: a feed at its address, with no tags,
/// filters or options.
pub open spec fn outline_definition(o: OutlineView, d: FeedDefinition) -> bool {
    &&& outline_entry(o) matches Some(p) && d.feed matches RawFeed::Raw { url } && url@ == p.1
    &&& d.tags is None
    &&& d.filters.each_filter() == Seq::new(16, |i: int| None::<crate::filters::EntryFilterView>)
    &&& d.options.parts() == crate::options::FeedOptions::default_parts()
}

/// Some outline gives a feed with this name.
pub open spec fn outlines_name(os: Seq<OutlineView>, name: Seq<char>) -> bool {
    exists|k: int| 0 <= k < os.len() && #[trigger] outline_names(os[k], name)
}

/// The outline at `k` is the last to give a feed `name`.
pub open spec fn last_outline(os: Seq<OutlineView>, name: Seq<char>, k: int) -> bool {
    &&& 0 <= k < os.len()
    &&& outline_names(os[k], name)
    &&& forall|j: int| k < j < os.len() ==> !outline_names(#[trigger] os[j], name)
}

/// Every name the outlines give is found in the feeds with the definition
/// the last outline giving it gives.
pub open spec fn outline_defs(feeds: Option<Vec<(String, FeedDefinition)>>, os: Seq<OutlineView>) -> bool {
    forall|n: Seq<char>| #[trigger] outlines_name(os, n) ==> match feeds {
        Some(v) => exists|i: int, k: int| #[trigger] first_named(v@, n, i) && #[trigger] last_outline(os, n, k)
            && outline_definition(os[k], v@[i].1),
        None => false,
    }
}

/// The configured feeds other than those the outlines name are still found
/// by their names, with their definitions.
pub open spec fn outline_kept(before: Option<Vec<(String, FeedDefinition)>>, after: Option<Vec<(String, FeedDefinition)>>, os: Seq<OutlineView>) -> bool {
    forall|m: Seq<char>, k: int| #[trigger] first_named(feed_list(before), m, k) && !outlines_name(os, m)
        ==> exists|k2: int| #[trigger] first_named(feed_list(after), m, k2) && feed_list(after)[k2].1 == feed_list(before)[k].1
}

/// The feed names after the outlines are added in order.
pub open spec fn outline_names_after(names: Option<Seq<Seq<char>>>, os: Seq<OutlineView>) -> Option<Seq<Seq<char>>>
    decreases os.len(),
{
    if os.len() == 0 {
        names
    } else {
        let prev = outline_names_after(names, os.drop_last());
        match outline_entry(os.last()) {
            Some(p) => Some(match prev {
                Some(w) => added_names(w, p.0),
                None => added_names(Seq::empty(), p.0),
            }),
            None => prev,
        }
    }
}

/// The names of the configured feeds, if any are configured.
pub open spec fn names_of(feeds: Option<Vec<(String, FeedDefinition)>>) -> Option<Seq<Seq<char>>> {
    match feeds {
        Some(v) => Some(crate::config::feed_names(v@)),
        None => None,
    }
}

/// The feed an outline gives, named by its text.
pub fn outline_feed(o: &FeedOutline) -> (res: Option<(String, FeedDefinition)>)
    ensures
        match outline_entry(o@) {
            Some(p) => res matches Some((name, def)) && name@ == p.0 && outline_definition(o@, def),
            None => res is None,
        },
{
    proof {
        reveal_strlit("rss");
    }
    match (&o.kind, &o.xml_url) {
        (Some(k), Some(url)) => {
            if crate::commands::same_text(k, "rss") {
                let def = FeedDefinition::from_feed(RawFeed::Raw { url: url.clone() });
                Some((o.text.clone(), def))
            } else {
                None
            }
        },
        _ => None,
    }
}

proof fn lemma_outline_skip(feeds: Option<Vec<(String, FeedDefinition)>>, pre: Seq<OutlineView>, o: OutlineView)
    requires
        outline_defs(feeds, pre),
        outline_entry(o) is None,
    ensures
        outline_defs(feeds, pre.push(o)),
{
    let q = pre.push(o);
    assert forall|n: Seq<char>| #[trigger] outlines_name(q, n) implies match feeds {
        Some(v) => exists|i: int, k: int| #[trigger] first_named(v@, n, i) && #[trigger] last_outline(q, n, k)
            && outline_definition(q[k], v@[i].1),
        None => false,
    } by {
        let k0 = choose|k: int| 0 <= k < q.len() && #[trigger] outline_names(q[k], n);
        assert(k0 < pre.len());
        assert(q[k0] == pre[k0]);
        assert(outlines_name(pre, n));
        if let Some(v) = feeds {
            let (i1, k1) = choose|i: int, k: int| #[trigger] first_named(v@, n, i) && #[trigger] last_outline(pre, n, k)
                && outline_definition(pre[k], v@[i].1);
            assert(q[k1] == pre[k1]);
            assert forall|j: int| k1 < j < q.len() implies !outline_names(#[trigger] q[j], n) by {
                if j < pre.len() {
                    assert(q[j] == pre[j]);
                }
            }
            assert(last_outline(q, n, k1));
        }
    }
}

proof fn lemma_outline_add(
    before: Option<Vec<(String, FeedDefinition)>>,
    after: Option<Vec<(String, FeedDefinition)>>,
    pre: Seq<OutlineView>,
    o: OutlineView,
    name: Seq<char>,
    def: FeedDefinition,
)
    requires
        outline_defs(before, pre),
        outline_names(o, name),
        outline_definition(o, def),
        after matches Some(v) && exists|i: int| #[trigger] first_named(v@, name, i) && v@[i].1 == def,
        forall|m: Seq<char>, k: int| m != name && #[trigger] first_named(feed_list(before), m, k)
            ==> exists|k2: int| #[trigger] first_named(feed_list(after), m, k2) && feed_list(after)[k2].1 == feed_list(before)[k].1,
    ensures
        outline_defs(after, pre.push(o)),
{
    let q = pre.push(o);
    let v = after->0;
    assert forall|n: Seq<char>| #[trigger] outlines_name(q, n) implies match after {
        Some(v) => exists|i: int, k: int| #[trigger] first_named(v@, n, i) && #[trigger] last_outline(q, n, k)
            && outline_definition(q[k], v@[i].1),
        None => false,
    } by {
        let last = pre.len() as int;
        assert(q[last] == o);
        if n == name {
            let i0 = choose|i: int| #[trigger] first_named(v@, name, i) && v@[i].1 == def;
            assert(last_outline(q, n, last));
            assert(first_named(v@, n, i0) && last_outline(q, n, last) && outline_definition(q[last], v@[i0].1));
        } else {
            let k0 = choose|k: int| 0 <= k < q.len() && #[trigger] outline_names(q[k], n);
            assert(!outline_names(o, n));
            assert(k0 < pre.len());
            assert(q[k0] == pre[k0]);
            assert(outlines_name(pre, n));
            let w = before->0;
            let (i1, k1) = choose|i: int, k: int| #[trigger] first_named(w@, n, i) && #[trigger] last_outline(pre, n, k)
                && outline_definition(pre[k], w@[i].1);
            assert(feed_list(before) == w@);
            assert(feed_list(after) == v@);
            assert(first_named(feed_list(before), n, i1));
            let i2 = choose|k2: int| #[trigger] first_named(feed_list(after), n, k2) && feed_list(after)[k2].1 == feed_list(before)[i1].1;
            assert(q[k1] == pre[k1]);
            assert forall|j: int| k1 < j < q.len() implies !outline_names(#[trigger] q[j], n) by {
                if j < pre.len() {
                    assert(q[j] == pre[j]);
                }
            }
            assert(last_outline(q, n, k1));
            assert(first_named(v@, n, i2) && last_outline(q, n, k1) && outline_definition(q[k1], v@[i2].1));
        }
    }
}

/// Adds the feeds that outlines give to a configuration, in order, each
/// under its outline's text (replacing a feed of that name), so that the
/// feed found by a name holds the address of the last outline giving it;
/// the other feeds and the rest of the configuration stay.
pub fn import_outlines(config: &mut Config, outlines: &Vec<FeedOutline>)
    ensures
        names_of(final(config).feeds) == outline_names_after(names_of(old(config).feeds), outlines_view(outlines@)),
        outline_defs(final(config).feeds, outlines_view(outlines@)),
        outline_kept(old(config).feeds, final(config).feeds, outlines_view(outlines@)),
        *final(config) == (Config { feeds: final(config).feeds, ..*old(config) }),
{
    let ghost os = outlines_view(outlines@);
    let mut i: usize = 0;
    assert(os.take(0) =~= Seq::<OutlineView>::empty());
    while i < outlines.len()
        invariant
            i <= outlines.len(),
            os == outlines_view(outlines@),
            names_of(config.feeds) == outline_names_after(names_of(old(config).feeds), os.take(i as int)),
            outline_kept(old(config).feeds, config.feeds, os.take(i as int)),
            outline_defs(config.feeds, os.take(i as int)),
            *config == (Config { feeds: config.feeds, ..*old(config) }),
        decreases outlines.len() - i,
    {
        assert(os.take(i + 1).drop_last() =~= os.take(i as int));
        assert(os.take(i + 1) =~= os.take(i as int).push(os[i as int]));
        assert(os[i as int] == outlines@[i as int]@);
        let ghost before = config.feeds;
        match outline_feed(&outlines[i]) {
            Some((name, def)) => {
                let ghost nm = name@;
                let ghost d = def;
                config.add_feed(name, def);
                proof {
                    lemma_outline_add(before, config.feeds, os.take(i as int), os[i as int], nm, d);
                    assert forall|m: Seq<char>, k: int| #[trigger] first_named(feed_list(old(config).feeds), m, k) && !outlines_name(os.take(i + 1), m)
                        implies exists|k2: int| #[trigger] first_named(feed_list(config.feeds), m, k2)
                            && feed_list(config.feeds)[k2].1 == feed_list(old(config).feeds)[k].1 by {
                        assert(!outlines_name(os.take(i as int), m)) by {
                            if outlines_name(os.take(i as int), m) {
                                let j = choose|j: int| 0 <= j < os.take(i as int).len() && #[trigger] outline_names(os.take(i as int)[j], m);
                                assert(os.take(i + 1)[j] == os.take(i as int)[j]);
                            }
                        }
                        assert(m != nm) by {
                            assert(os.take(i + 1)[i as int] == os[i as int]);
                            assert(outline_names(os.take(i + 1)[i as int], nm));
                        }
                        let k1 = choose|k1: int| #[trigger] first_named(feed_list(before), m, k1)
                            && feed_list(before)[k1].1 == feed_list(old(config).feeds)[k].1;
                    }
                }
            },
            None => {
                proof {
                    lemma_outline_skip(config.feeds, os.take(i as int), os[i as int]);
                    assert forall|m: Seq<char>, k: int| #[trigger] first_named(feed_list(old(config).feeds), m, k) && !outlines_name(os.take(i + 1), m)
                        implies exists|k2: int| #[trigger] first_named(feed_list(config.feeds), m, k2)
                            && feed_list(config.feeds)[k2].1 == feed_list(old(config).feeds)[k].1 by {
                        if outlines_name(os.take(i as int), m) {
                            let j = choose|j: int| 0 <= j < os.take(i as int).len() && #[trigger] outline_names(os.take(i as int)[j], m);
                            assert(os.take(i + 1)[j] == os.take(i as int)[j]);
                        }
                    }
                }
            },
        }
        i += 1;
    }
    assert(os.take(outlines.len() as int) =~= os);
}

/// What `opml::OPML::from_str` reads of a document's top-level outlines
/// (text, type and feed address, in order), or `None` where it refuses the
/// document.
pub uninterp spec fn opml_outlines(text: Seq<char>) -> Option<Seq<OutlineView>>;

/// `opml::OPML::from_str`: the document's top-level outlines, each by its
/// text, type and feed address, named by `opml_outlines`; `None` where the
/// text is no OPML document of version 1.0, 1.1 or 2.0. A document it reads
/// has at least one outline. The type is read through the outline's serde
/// form, where the field is called `type`.
#[verifier::external_body]
fn parse_opml(text: &str) -> (res: Option<Vec<FeedOutline>>)
    ensures
        match res {
            Some(v) => opml_outlines(text@) == Some(outlines_view(v@)) && v@.len() > 0,
            None => opml_outlines(text@) is None,
        },
{
    let document = opml::OPML::from_str(text).ok()?;
    let outlines = document.body.outlines.into_iter().map(|o| FeedOutline {
        kind: serde_json::to_value(&o).ok().and_then(|v| v.get("type")?.as_str().map(String::from)),
        text: o.text,
        xml_url: o.xml_url,
    });
    Some(outlines.collect())
}

/// Imports the feeds of an OPML document: its top-level outlines are read
/// and their feeds added as by `import_outlines`; the outlines read are handed back. A text that is no
/// OPML document leaves the configuration as it was and gives `None`.
pub fn import_opml(config: &mut Config, text: &str) -> (res: Option<Vec<FeedOutline>>)
    ensures
        match opml_outlines(text@) {
            Some(os) => {
                &&& res matches Some(w) && outlines_view(w@) == os
                &&& names_of(final(config).feeds) == outline_names_after(names_of(old(config).feeds), os)
                &&& outline_defs(final(config).feeds, os)
                &&& outline_kept(old(config).feeds, final(config).feeds, os)
                &&& *final(config) == (Config { feeds: final(config).feeds, ..*old(config) })
            },
            None => res is None && *final(config) == *old(config),
        },
{
    match parse_opml(text) {
        Some(outlines) => {
            import_outlines(config, &outlines);
            Some(outlines)
        },
        None => None,
    }
}

/// The name and address of each configured feed at an address, in order.
pub open spec fn raw_feeds(v: Seq<(String, FeedDefinition)>) -> Seq<(Seq<char>, Seq<char>)>
    decreases v.len(),
{
    if v.len() == 0 {
        Seq::empty()
    } else {
        let prev = raw_feeds(v.drop_last());
        match v.last().1.feed {
            RawFeed::Raw { url } => prev.push((v.last().0@, url@)),
            _ => prev,
        }
    }
}

/// The feeds an OPML document lists: the name and address of each
/// configured feed at an address, in order; `None` when no feeds are
/// configured. Aggregate and Mastodon feeds are left out.
pub fn opml_feeds(config: &Config) -> (res: Option<Vec<(String, String)>>)
    ensures
        match config.feeds {
            Some(v) => res matches Some(r) && r@.map_values(|p: (String, String)| (p.0@, p.1@)) == raw_feeds(v@),
            None => res is None,
        },
{
    match &config.feeds {
        Some(v) => {
            let mut out: Vec<(String, String)> = Vec::new();
            let mut i: usize = 0;
            while i < v.len()
                invariant
                    i <= v.len(),
                    out@.map_values(|p: (String, String)| (p.0@, p.1@)) == raw_feeds(v@.take(i as int)),
                decreases v.len() - i,
            {
                assert(v@.take(i + 1).drop_last() =~= v@.take(i as int));
                let ghost before = out@.map_values(|p: (String, String)| (p.0@, p.1@));
                match &v[i].1.feed {
                    RawFeed::Raw { url } => {
                        out.push((v[i].0.clone(), url.clone()));
                        assert(out@.map_values(|p: (String, String)| (p.0@, p.1@)) =~= before.push((v@[i as int].0@, url@)));
                    },
                    _ => {},
                }
                i += 1;
            }
            assert(v@.take(v.len() as int) =~= v@);
            Some(out)
        },
        None => None,
    }
}

/// The name and address of each feed an OPML document lists.
pub open spec fn pairs_view(v: Seq<(String, String)>) -> Seq<(Seq<char>, Seq<char>)> {
    v.map_values(|p: (String, String)| (p.0@, p.1@))
}

/// What the `opml` crate writes for a document of version 1.0 whose body
/// holds, in order, one outline of type `rss` per feed, with the feed's name
/// as its text and its address as `xmlUrl`; `None` where writing fails.
pub uninterp spec fn opml_text(feeds: Seq<(Seq<char>, Seq<char>)>) -> Option<Seq<char>>;

/// Builds with the `opml` crate a document of version 1.0 with an outline
/// (`OPML::add_feed`) of type `rss` per feed, and writes it
/// (`OPML::to_string`); named by `opml_text`. The type is set through the
/// document's serde form, where the field is called `type`.
#[verifier::external_body]
fn opml_document(feeds: &Vec<(String, String)>) -> (res: Option<String>)
    ensures
        match res {
            Some(s) => opml_text(pairs_view(feeds@)) == Some(s@),
            None => opml_text(pairs_view(feeds@)) is None,
        },
{
    let mut document = opml::OPML::default();
    document.version = "1.0".into();
    for (name, url) in feeds.iter() {
        document.add_feed(name, url);
    }
    let mut value = serde_json::to_value(&document).ok()?;
    for outline in value["body"]["outlines"].as_array_mut()? {
        outline["type"] = "rss".into();
    }
    let document: opml::OPML = serde_json::from_value(value).ok()?;
    document.to_string().ok()
}

/// Why a configuration could not be written as OPML.
#[derive(Debug, PartialEq, Eq, Structural)]
pub enum OpmlExportError {
    /// No feeds are configured.
    NoFeeds,
    /// The `opml` crate could not write the document.
    Write,
}

/// Writes the configuration's feeds as an OPML document: each feed at an
/// address, in order, as an outline of type `rss`. With no feeds configured
/// it fails with `NoFeeds`.
pub fn export_opml(config: &Config) -> (res: Result<String, OpmlExportError>)
    ensures
        match config.feeds {
            Some(v) => match opml_text(raw_feeds(v@)) {
                Some(t) => res matches Ok(s) && s@ == t,
                None => res == Err::<String, OpmlExportError>(OpmlExportError::Write),
            },
            None => res == Err::<String, OpmlExportError>(OpmlExportError::NoFeeds),
        },
{
    match opml_feeds(config) {
        Some(feeds) => match opml_document(&feeds) {
            Some(s) => Ok(s),
            None => Err(OpmlExportError::Write),
        },
        None => Err(OpmlExportError::NoFeeds),
    }
}

} // verus!
