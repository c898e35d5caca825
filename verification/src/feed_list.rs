//! The plain feed list format: one feed per line, `https://` urls and
//! `mastodon://` addresses, with blank lines and `//` or `#` comments.
//! Reading a list into a configuration, and writing a configuration's feeds
//! as a list.
use vstd::prelude::*;
use crate::config::{added_names, feed_list, first_named, Config, FeedDefinition, MastodonFeedType, RawFeed};
use crate::text::{concat, replace_seq, replace_str, split_on, split_seq, starts_with_seq, starts_with_str, trim, trimmed};

verus! {

/// The index of the first `c` in `s`, or its length.
pub open spec fn first_index(s: Seq<char>, c: char) -> int
    decreases s.len(),
{
    if s.len() == 0 {
        0
    } else if s[0] == c {
        0
    } else {
        1 + first_index(s.drop_first(), c)
    }
}

/// `s` ends with `suffix`.
pub open spec fn ends_with_seq(s: Seq<char>, suffix: Seq<char>) -> bool {
    suffix.len() <= s.len() && s.subrange(s.len() - suffix.len(), s.len() as int) == suffix
}

/// A feed line read: its name and what the feed is.
pub enum LineFeed {
    Raw(Seq<char>),
    MastodonStatuses(Seq<char>, MastodonFeedType),
    MastodonUser(Seq<char>, Seq<char>),
}

/// What a line of a feed list adds: a `https://` url, named by the url
/// without the scheme; a `mastodon://` public (`/public/local`) or home
/// (`/home`) timeline, named by the host and `-public` or `-home`; or else a
/// Mastodon user (from the first `@`), named by the host, `-` and the user
/// without the `@`. Blank lines, comments and anything else add nothing.
pub open spec fn line_feed(line: Seq<char>) -> Option<(Seq<char>, LineFeed)> {
    let l = trimmed(line);
    if l.len() == 0 || starts_with_seq(l, "//"@) || starts_with_seq(l, "#"@) {
        None
    } else if starts_with_seq(l, "https://"@) {
        Some((replace_seq(l, "https://"@, Seq::empty()), LineFeed::Raw(l)))
    } else if starts_with_seq(l, "mastodon://"@) {
        let schemeless = replace_seq(l, "mastodon://"@, Seq::empty());
        let base = schemeless.take(first_index(schemeless, '/'));
        let remaining = schemeless.skip(base.len() as int);
        if ends_with_seq(remaining, "/public/local"@) {
            Some((base + "-public"@, LineFeed::MastodonStatuses(base, MastodonFeedType::PublicTimeline)))
        } else if ends_with_seq(l, "/home"@) {
            Some((base + "-home"@, LineFeed::MastodonStatuses(base, MastodonFeedType::HomeTimeline)))
        } else {
            let at = first_index(remaining, '@');
            let user = if at < remaining.len() { remaining.skip(at) } else { remaining };
            let name = if user.len() > 0 && user[0] == '@' { user.drop_first() } else { user };
            Some((base + "-"@ + name, LineFeed::MastodonUser(base, user)))
        }
    } else {
        None
    }
}

/// What a feed definition read from a line is.
pub open spec fn line_feed_of(f: RawFeed) -> Option<LineFeed> {
    match f {
        RawFeed::Raw { url } => Some(LineFeed::Raw(url@)),
        RawFeed::MastodonStatuses { mastodon, feed_type, token } =>
            if token is None { Some(LineFeed::MastodonStatuses(mastodon@, feed_type)) } else { None },
        RawFeed::MastodonUserStatuses { mastodon, user, token } =>
            if token is None { Some(LineFeed::MastodonUser(mastodon@, user@)) } else { None },
        _ => None,
    }
}

fn find_char(s: &Vec<char>, c: char) -> (res: usize)
    ensures
        res == first_index(s@, c),
        res <= s@.len(),
{
    let mut i: usize = 0;
    assert(s@.skip(0) =~= s@);
    while i < s.len()
        invariant
            i <= s.len(),
            first_index(s@, c) == i + first_index(s@.skip(i as int), c),
            forall|k: int| 0 <= k < i ==> s@[k] != c,
        decreases s.len() - i,
    {
        assert(s@.skip(i as int).drop_first() =~= s@.skip(i + 1));
        if s[i] == c {
            return i;
        }
        i += 1;
    }
    assert(s@.skip(i as int) =~= Seq::<char>::empty());
    i
}

proof fn lemma_first_index_bound(s: Seq<char>, c: char)
    ensures
        0 <= first_index(s, c) <= s.len(),
        first_index(s, c) < s.len() ==> s[first_index(s, c)] == c,
    decreases s.len(),
{
    if s.len() > 0 && s[0] != c {
        lemma_first_index_bound(s.drop_first(), c);
    }
}

fn ends_with(s: &str, suffix: &str) -> (res: bool)
    ensures
        res == ends_with_seq(s@, suffix@),
{
    let cs = crate::text::chars_of(s);
    let xs = crate::text::chars_of(suffix);
    if xs.len() > cs.len() {
        return false;
    }
    let off = cs.len() - xs.len();
    let mut i: usize = 0;
    while i < xs.len()
        invariant
            i <= xs.len(),
            cs@ == s@,
            xs@ == suffix@,
            off == cs.len() - xs.len(),
            forall|k: int| 0 <= k < i ==> cs@[off + k] == xs@[k],
        decreases xs.len() - i,
    {
        if cs[off + i] != xs[i] {
            assert(s@.subrange(off as int, s@.len() as int)[i as int] != suffix@[i as int]);
            return false;
        }
        i += 1;
    }
    assert(s@.subrange(off as int, s@.len() as int) =~= suffix@);
    true
}

fn chars_range(cs: &Vec<char>, start: usize, end: usize) -> (res: String)
    requires
        start <= end <= cs.len(),
    ensures
        res@ == cs@.subrange(start as int, end as int),
{
    let mut out: Vec<char> = Vec::new();
    let mut i: usize = start;
    while i < end
        invariant
            start <= i <= end,
            end <= cs.len(),
            out@ == cs@.subrange(start as int, i as int),
        decreases end - i,
    {
        out.push(cs[i]);
        assert(cs@.subrange(start as int, i + 1) =~= cs@.subrange(start as int, i as int).push(cs@[i as int]));
        i += 1;
    }
    crate::text::string_of(out.as_slice())
}

/// The definition a list line gives: the feed its line names, with no tags,
/// no filters and no options.
pub open spec fn line_definition(line: Seq<char>, d: FeedDefinition) -> bool {
    &&& line_feed(line) matches Some(p) && line_feed_of(d.feed) == Some(p.1)
    &&& d.tags is None
    &&& d.filters.each_filter() == Seq::new(16, |i: int| None::<crate::filters::EntryFilterView>)
    &&& d.options.parts() == crate::options::FeedOptions::default_parts()
}

/// Reads a line of a feed list: the name and definition of the feed it adds.
pub fn read_line(line: &str) -> (res: Option<(String, FeedDefinition)>)
    ensures
        match res {
            Some((name, def)) => line_feed(line@) matches Some(p) && p.0 == name@ && line_definition(line@, def),
            None => line_feed(line@) is None,
        },
{
    proof {
        reveal_strlit("//");
        reveal_strlit("#");
        reveal_strlit("https://");
        reveal_strlit("mastodon://");
        reveal_strlit("");
        assert(""@ =~= Seq::<char>::empty());
    }
    let l = trim(line);
    if l.as_str().is_empty() || starts_with_str(l.as_str(), "//") || starts_with_str(l.as_str(), "#") {
        return None;
    }
    if starts_with_str(l.as_str(), "https://") {
        let name = replace_str(l.as_str(), "https://", "");
        let def = FeedDefinition::from_feed(RawFeed::Raw { url: l });
        return Some((name, def));
    }
    if starts_with_str(l.as_str(), "mastodon://") {
        let schemeless = replace_str(l.as_str(), "mastodon://", "");
        let cs = crate::text::chars_of(schemeless.as_str());
        let slash = find_char(&cs, '/');
        let base = chars_range(&cs, 0, slash);
        let remaining = chars_range(&cs, slash, cs.len());
        assert(base@ =~= schemeless@.take(first_index(schemeless@, '/')));
        assert(remaining@ =~= schemeless@.skip(base@.len() as int));
        if ends_with(remaining.as_str(), "/public/local") {
            let name = concat(base.as_str(), "-public");
            let def = FeedDefinition::from_feed(RawFeed::MastodonStatuses {
                mastodon: base,
                feed_type: MastodonFeedType::PublicTimeline,
                token: None,
            });
            return Some((name, def));
        }
        if ends_with(l.as_str(), "/home") {
            let name = concat(base.as_str(), "-home");
            let def = FeedDefinition::from_feed(RawFeed::MastodonStatuses {
                mastodon: base,
                feed_type: MastodonFeedType::HomeTimeline,
                token: None,
            });
            return Some((name, def));
        }
        let rs = crate::text::chars_of(remaining.as_str());
        let at = find_char(&rs, '@');
        let user = if at < rs.len() { chars_range(&rs, at, rs.len()) } else { remaining };
        assert(user@ =~= (if at < rs@.len() { rs@.skip(at as int) } else { rs@ }));
        let us = crate::text::chars_of(user.as_str());
        let uname = if us.len() > 0 && us[0] == '@' {
            let u = chars_range(&us, 1, us.len());
            assert(us@.subrange(1, us@.len() as int) =~= us@.drop_first());
            u
        } else {
            let u = chars_range(&us, 0, us.len());
            assert(us@.subrange(0, us@.len() as int) =~= us@);
            u
        };
        let name = concat(base.as_str(), "-");
        let name = concat(name.as_str(), uname.as_str());
        let def = FeedDefinition::from_feed(RawFeed::MastodonUserStatuses { mastodon: base, user, token: None });
        return Some((name, def));
    }
    None
}

/// The names of the configured feeds, if any are configured.
pub open spec fn names_opt(feeds: Option<Vec<(String, FeedDefinition)>>) -> Option<Seq<Seq<char>>> {
    match feeds {
        Some(v) => Some(crate::config::feed_names(v@)),
        None => None,
    }
}

/// The feed names after the lines of a list are added in order.
pub open spec fn names_after(names: Option<Seq<Seq<char>>>, lines: Seq<Seq<char>>) -> Option<Seq<Seq<char>>>
    decreases lines.len(),
{
    if lines.len() == 0 {
        names
    } else {
        let prev = names_after(names, lines.drop_last());
        match line_feed(lines.last()) {
            Some(p) => Some(match prev {
                Some(w) => added_names(w, p.0),
                None => added_names(Seq::empty(), p.0),
            }),
            None => prev,
        }
    }
}

/// The line names a feed with this name.
pub open spec fn line_names(line: Seq<char>, name: Seq<char>) -> bool {
    match line_feed(line) {
        Some(p) => p.0 == name,
        None => false,
    }
}

/// A line of the list names a feed with this name.
pub open spec fn names_feed(lines: Seq<Seq<char>>, name: Seq<char>) -> bool {
    exists|k: int| 0 <= k < lines.len() && #[trigger] line_names(lines[k], name)
}

/// The line at `k` is the last of the list to name a feed `name`.
pub open spec fn last_naming(lines: Seq<Seq<char>>, name: Seq<char>, k: int) -> bool {
    &&& 0 <= k < lines.len()
    &&& line_names(lines[k], name)
    &&& forall|j: int| k < j < lines.len() ==> !line_names(#[trigger] lines[j], name)
}

/// Every name the lines give is found in the feeds with the definition the
/// last line naming it gives.
pub open spec fn imported_defs(feeds: Option<Vec<(String, FeedDefinition)>>, lines: Seq<Seq<char>>) -> bool {
    forall|n: Seq<char>| #[trigger] names_feed(lines, n) ==> match feeds {
        Some(v) => exists|i: int, k: int| #[trigger] crate::config::first_named(v@, n, i) && #[trigger] last_naming(lines, n, k)
            && line_definition(lines[k], v@[i].1),
        None => false,
    }
}

/// The configured feeds other than those the lines name are still found
/// by their names, with their definitions.
pub open spec fn kept_feeds(before: Option<Vec<(String, FeedDefinition)>>, after: Option<Vec<(String, FeedDefinition)>>, lines: Seq<Seq<char>>) -> bool {
    forall|m: Seq<char>, k: int| #[trigger] first_named(feed_list(before), m, k) && !names_feed(lines, m)
        ==> exists|k2: int| #[trigger] first_named(feed_list(after), m, k2) && feed_list(after)[k2].1 == feed_list(before)[k].1
}

proof fn lemma_import_skip(feeds: Option<Vec<(String, FeedDefinition)>>, pre: Seq<Seq<char>>, line: Seq<char>)
    requires
        imported_defs(feeds, pre),
        line_feed(line) is None,
    ensures
        imported_defs(feeds, pre.push(line)),
{
    let q = pre.push(line);
    assert forall|n: Seq<char>| #[trigger] names_feed(q, n) implies match feeds {
        Some(v) => exists|i: int, k: int| #[trigger] crate::config::first_named(v@, n, i) && #[trigger] last_naming(q, n, k)
            && line_definition(q[k], v@[i].1),
        None => false,
    } by {
        let k0 = choose|k: int| 0 <= k < q.len() && #[trigger] line_names(q[k], n);
        assert(k0 < pre.len());
        assert(q[k0] == pre[k0]);
        assert(names_feed(pre, n));
        if let Some(v) = feeds {
            let (i1, k1) = choose|i: int, k: int| #[trigger] crate::config::first_named(v@, n, i) && #[trigger] last_naming(pre, n, k)
                && line_definition(pre[k], v@[i].1);
            assert(q[k1] == pre[k1]);
            assert forall|j: int| k1 < j < q.len() implies !line_names(#[trigger] q[j], n) by {
                if j < pre.len() {
                    assert(q[j] == pre[j]);
                }
            }
            assert(last_naming(q, n, k1));
        }
    }
}

proof fn lemma_import_add(
    before: Option<Vec<(String, FeedDefinition)>>,
    after: Option<Vec<(String, FeedDefinition)>>,
    pre: Seq<Seq<char>>,
    line: Seq<char>,
    name: Seq<char>,
    def: FeedDefinition,
)
    requires
        imported_defs(before, pre),
        line_names(line, name),
        line_definition(line, def),
        after matches Some(v) && exists|i: int| #[trigger] crate::config::first_named(v@, name, i) && v@[i].1 == def,
        forall|m: Seq<char>, k: int| m != name && #[trigger] first_named(feed_list(before), m, k)
            ==> exists|k2: int| #[trigger] first_named(feed_list(after), m, k2) && feed_list(after)[k2].1 == feed_list(before)[k].1,
    ensures
        imported_defs(after, pre.push(line)),
{
    let q = pre.push(line);
    let v = after->0;
    assert forall|n: Seq<char>| #[trigger] names_feed(q, n) implies match after {
        Some(v) => exists|i: int, k: int| #[trigger] crate::config::first_named(v@, n, i) && #[trigger] last_naming(q, n, k)
            && line_definition(q[k], v@[i].1),
        None => false,
    } by {
        let last = pre.len() as int;
        assert(q[last] == line);
        if n == name {
            let i0 = choose|i: int| #[trigger] crate::config::first_named(v@, name, i) && v@[i].1 == def;
            assert(last_naming(q, n, last));
            assert(crate::config::first_named(v@, n, i0) && last_naming(q, n, last) && line_definition(q[last], v@[i0].1));
        } else {
            let k0 = choose|k: int| 0 <= k < q.len() && #[trigger] line_names(q[k], n);
            assert(!line_names(line, n));
            assert(k0 < pre.len());
            assert(q[k0] == pre[k0]);
            assert(names_feed(pre, n));
            let w = before->0;
            let (i1, k1) = choose|i: int, k: int| #[trigger] crate::config::first_named(w@, n, i) && #[trigger] last_naming(pre, n, k)
                && line_definition(pre[k], w@[i].1);
            assert(feed_list(before) == w@);
            assert(feed_list(after) == v@);
            assert(first_named(feed_list(before), n, i1));
            let i2 = choose|k2: int| #[trigger] first_named(feed_list(after), n, k2) && feed_list(after)[k2].1 == feed_list(before)[i1].1;
            assert(q[k1] == pre[k1]);
            assert forall|j: int| k1 < j < q.len() implies !line_names(#[trigger] q[j], n) by {
                if j < pre.len() {
                    assert(q[j] == pre[j]);
                }
            }
            assert(last_naming(q, n, k1));
            assert(crate::config::first_named(v@, n, i2) && last_naming(q, n, k1) && line_definition(q[k1], v@[i2].1));
        }
    }
}

/// Reads a feed list into a configuration: each line that names a feed, in
/// order, is added under its name (replacing a feed of that name), so that
/// the feed found by a name holds the definition of the last line naming
/// it; the other feeds and the rest of the configuration stay.
pub fn import_list(config: &mut Config, text: &str)
    ensures
        names_opt(final(config).feeds) == names_after(names_opt(old(config).feeds), split_seq(text@, '\n')),
        imported_defs(final(config).feeds, split_seq(text@, '\n')),
        kept_feeds(old(config).feeds, final(config).feeds, split_seq(text@, '\n')),
        *final(config) == (Config { feeds: final(config).feeds, ..*old(config) }),
{
    let lines = split_on(text, '\n');
    let ghost ls = split_seq(text@, '\n');
    let mut i: usize = 0;
    while i < lines.len()
        invariant
            i <= lines.len(),
            lines@.len() == ls.len(),
            forall|k: int| 0 <= k < lines@.len() ==> #[trigger] lines@[k]@ == ls[k],
            names_opt(config.feeds) == names_after(names_opt(old(config).feeds), ls.take(i as int)),
            kept_feeds(old(config).feeds, config.feeds, ls.take(i as int)),
            imported_defs(config.feeds, ls.take(i as int)),
            *config == (Config { feeds: config.feeds, ..*old(config) }),
        decreases lines.len() - i,
    {
        assert(ls.take(i + 1).drop_last() =~= ls.take(i as int));
        assert(ls.take(i + 1).last() == lines@[i as int]@);
        let ghost before = config.feeds;
        assert(ls.take(i + 1) =~= ls.take(i as int).push(ls[i as int]));
        match read_line(lines[i].as_str()) {
            Some((name, def)) => {
                let ghost nm = name@;
                let ghost d = def;
                config.add_feed(name, def);
                proof {
                    lemma_import_add(before, config.feeds, ls.take(i as int), ls[i as int], nm, d);
                    assert(line_names(ls[i as int], nm));
                    assert forall|m: Seq<char>, k: int| #[trigger] first_named(feed_list(old(config).feeds), m, k) && !names_feed(ls.take(i + 1), m)
                        implies exists|k2: int| #[trigger] first_named(feed_list(config.feeds), m, k2)
                            && feed_list(config.feeds)[k2].1 == feed_list(old(config).feeds)[k].1 by {
                        assert(!names_feed(ls.take(i as int), m)) by {
                            if names_feed(ls.take(i as int), m) {
                                let j = choose|j: int| 0 <= j < ls.take(i as int).len() && #[trigger] line_names(ls.take(i as int)[j], m);
                                assert(ls.take(i + 1)[j] == ls.take(i as int)[j]);
                            }
                        }
                        assert(m != nm) by {
                            if m == nm {
                                assert(ls.take(i + 1)[i as int] == ls[i as int]);
                            }
                        }
                        let k1 = choose|k1: int| #[trigger] first_named(feed_list(before), m, k1)
                            && feed_list(before)[k1].1 == feed_list(old(config).feeds)[k].1;
                    }
                }
            },
            None => {
                proof {
                    lemma_import_skip(config.feeds, ls.take(i as int), ls[i as int]);
                    assert forall|m: Seq<char>, k: int| #[trigger] first_named(feed_list(old(config).feeds), m, k) && !names_feed(ls.take(i + 1), m)
                        implies exists|k2: int| #[trigger] first_named(feed_list(config.feeds), m, k2)
                            && feed_list(config.feeds)[k2].1 == feed_list(old(config).feeds)[k].1 by {
                        if names_feed(ls.take(i as int), m) {
                            let j = choose|j: int| 0 <= j < ls.take(i as int).len() && #[trigger] line_names(ls.take(i as int)[j], m);
                            assert(ls.take(i + 1)[j] == ls.take(i as int)[j]);
                        }
                    }
                }
            },
        }
        i += 1;
    }
    assert(ls.take(lines.len() as int) =~= ls);
}

/// The list line of a feed, if it has one: its url; a Mastodon timeline as
/// `mastodon://` with the host (without `https://`) and `/public/local` or
/// `/home`; a Mastodon user as `mastodon://` with the host, `/@` and the user.
pub open spec fn export_line(f: RawFeed) -> Option<Seq<char>> {
    match f {
        RawFeed::Raw { url } => Some(url@),
        RawFeed::MastodonStatuses { mastodon, feed_type, .. } => {
            let base = replace_seq(mastodon@, "https://"@, Seq::empty());
            match feed_type {
                MastodonFeedType::PublicTimeline => Some("mastodon://"@ + base + "/public/local"@),
                MastodonFeedType::HomeTimeline => Some("mastodon://"@ + base + "/home"@),
            }
        },
        RawFeed::MastodonUserStatuses { mastodon, user, .. } =>
            Some("mastodon://"@ + replace_seq(mastodon@, "https://"@, Seq::empty()) + "/@"@ + user@),
        _ => None,
    }
}

/// The lines of the feeds that have one, in order.
pub open spec fn export_lines(defs: Seq<(String, FeedDefinition)>) -> Seq<Seq<char>>
    decreases defs.len(),
{
    if defs.len() == 0 {
        Seq::empty()
    } else {
        let prev = export_lines(defs.drop_last());
        match export_line(defs.last().1.feed) {
            Some(l) => prev.push(l),
            None => prev,
        }
    }
}

/// Lines joined by newlines.
pub open spec fn joined_lines(ls: Seq<Seq<char>>) -> Seq<char>
    decreases ls.len(),
{
    if ls.len() == 0 {
        Seq::empty()
    } else if ls.len() == 1 {
        ls[0]
    } else {
        joined_lines(ls.drop_last()) + "\n"@ + ls.last()
    }
}

fn export_line_exec(f: &RawFeed) -> (res: Option<String>)
    ensures
        match res {
            Some(s) => export_line(*f) == Some(s@),
            None => export_line(*f) is None,
        },
{
    proof {
        reveal_strlit("https://");
        reveal_strlit("");
        assert(""@ =~= Seq::<char>::empty());
    }
    match f {
        RawFeed::Raw { url } => Some(url.clone()),
        RawFeed::MastodonStatuses { mastodon, feed_type, .. } => {
            let base = replace_str(mastodon.as_str(), "https://", "");
            let head = concat("mastodon://", base.as_str());
            match feed_type {
                MastodonFeedType::PublicTimeline => Some(concat(head.as_str(), "/public/local")),
                MastodonFeedType::HomeTimeline => Some(concat(head.as_str(), "/home")),
            }
        },
        RawFeed::MastodonUserStatuses { mastodon, user, .. } => {
            let base = replace_str(mastodon.as_str(), "https://", "");
            let head = concat("mastodon://", base.as_str());
            let head = concat(head.as_str(), "/@");
            Some(concat(head.as_str(), user.as_str()))
        },
        _ => None,
    }
}

/// The configured feeds as a list, one line per feed that has one.
pub fn export_list(config: &Config) -> (res: String)
    ensures
        res@ == joined_lines(export_lines(feed_list(config.feeds))),
{
    let mut out = String::new();
    let mut count: usize = 0;
    let ghost defs = feed_list(config.feeds);
    match &config.feeds {
        Some(v) => {
            let mut i: usize = 0;
            while i < v.len()
                invariant
                    i <= v.len(),
                    defs == v@,
                    out@ == joined_lines(export_lines(defs.take(i as int))),
                    count == export_lines(defs.take(i as int)).len(),
                    count <= i,
                decreases v.len() - i,
            {
                assert(defs.take(i + 1).drop_last() =~= defs.take(i as int));
                assert(defs.take(i + 1).last() == v@[i as int]);
                let ghost prev_lines = export_lines(defs.take(i as int));
                match export_line_exec(&v[i].1.feed) {
                    Some(l) => {
                        assert(export_lines(defs.take(i + 1)) == prev_lines.push(l@));
                        assert(prev_lines.push(l@).drop_last() =~= prev_lines);
                        if count > 0 {
                            out.append("\n");
                        } else {
                            assert(prev_lines.len() == 0);
                            assert(out@ =~= Seq::<char>::empty());
                        }
                        out.append(l.as_str());
                        if count == 0 {
                            assert(out@ =~= l@);
                        }
                        count += 1;
                    },
                    None => {},
                }
                i += 1;
            }
            assert(defs.take(v.len() as int) =~= defs);
        },
        None => {},
    }
    out
}

} // verus!
