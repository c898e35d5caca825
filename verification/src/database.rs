//! The entry database: the stored form of an entry, the search query that
//! the search criteria build, and the schema migrations a stored version
//! calls for. Running the statements is the caller's part.
use vstd::prelude::*;
use crate::datetime::DateTime;
use crate::entry::{built_entry, links_view, opt_link_view, Entry, EntryBuilder, EntryBuilderView, EntryDateView, EntryView, Link, LinkView};
use crate::text::{lowercase, to_lower};

verus! {

/// A search criterion.
#[derive(Debug)]
pub enum DatabaseSearch {
    /// Latest entries, by timestamp.
    Latest,
    /// Latest entries, by insertion.
    Live,
    /// A raw SQL condition.
    Raw(String),
    /// Title or author contains the text, ignoring case.
    Search(String),
    /// Some tag contains the text.
    Tag(String),
    /// No tag contains the text.
    NotTag(String),
    /// Some source contains the text.
    Feed(String),
    /// No source contains the text.
    NotFeed(String),
    /// Some command whose name contains the text has been run.
    Command(String),
    /// No command whose name contains the text has been run.
    NotCommand(String),
}

/// Where a search starts.
#[derive(Clone, Copy, Debug)]
pub enum OffsetCursor {
    LatestTimestamp,
    LatestId,
    Before(DateTime),
    After(DateTime),
    ModifiedAfter(DateTime),
}

impl OffsetCursor {
    /// Entries modified after `since`, or the latest when there is none.
    pub fn modified_since(since: Option<DateTime>) -> (res: OffsetCursor)
        ensures
            match since {
                Some(dt) => res matches OffsetCursor::ModifiedAfter(d) && d@ == dt@,
                None => res matches OffsetCursor::LatestTimestamp,
            },
    {
        match since {
            Some(dt) => OffsetCursor::ModifiedAfter(dt),
            None => OffsetCursor::LatestTimestamp,
        }
    }
}

/// A value bound to a placeholder of a query.
#[derive(Debug)]
pub enum QueryBind {
    Text(String),
    Instant(DateTime),
    Limit(u32),
}

/// What a bound value is.
pub enum BindView {
    Text(Seq<char>),
    Instant(int),
    Limit(u32),
}

impl View for QueryBind {
    type V = BindView;

    open spec fn view(&self) -> BindView {
        match self {
            QueryBind::Text(s) => BindView::Text(s@),
            QueryBind::Instant(d) => BindView::Instant(d@),
            QueryBind::Limit(n) => BindView::Limit(*n),
        }
    }
}

/// A query: its SQL text, with a `?` for each bound value, and the values.
#[derive(Debug)]
pub struct Query {
    pub sql: String,
    pub binds: Vec<QueryBind>,
}

/// The views of bound values.
pub open spec fn binds_view(v: Seq<QueryBind>) -> Seq<BindView> {
    v.map_values(|b: QueryBind| b@)
}

/// The selection every search starts with.
pub const QUERY_HEAD: &'static str = "
            SELECT
                entries.id,
                entries.entry,
                json_group_array(sources.source) AS sources,
                json_group_array(tags.tag) AS tags,
                json_group_object(commands.name, commands.result) AS commands
            FROM
                entries
                LEFT JOIN sources ON entries.id = sources.entry_id
                LEFT JOIN tags ON entries.id = tags.entry_id
                LEFT JOIN commands ON entries.id = commands.entry_id
            WHERE
            ";

/// The order of the latest entries.
pub const ORDER_LATEST: &'static str = " ORDER BY entries.timestamp DESC, entries.id DESC";
/// The order of the live search (no leading space, as configured).
pub const ORDER_LIVE: &'static str = " ORDER BY entries.id DESC";
/// The order of a search by modification.
pub const ORDER_MODIFIED: &'static str = " ORDER BY entries.modified_timestamp DESC, entries.id DESC";

/// Text around a placeholder.
pub open spec fn bound(before: Seq<char>, after: Seq<char>) -> Seq<char> {
    before + "?"@ + after
}

/// The condition a criterion adds, around its bound text.
pub open spec fn criterion_parts(c: DatabaseSearch) -> (Seq<char>, Seq<BindView>) {
    match c {
        DatabaseSearch::Latest => (Seq::empty(), Seq::empty()),
        DatabaseSearch::Live => (Seq::empty(), Seq::empty()),
        DatabaseSearch::Raw(r) => (" AND "@ + r@, Seq::empty()),
        DatabaseSearch::Search(s) => (
            bound(" AND (LOWER(entries.title) LIKE CONCAT('%',"@, ",'%')"@) + bound(" OR LOWER(entries.author) LIKE CONCAT('%',"@, ",'%'))"@),
            seq![BindView::Text(lowercase(s@)), BindView::Text(lowercase(s@))],
        ),
        DatabaseSearch::Tag(t) => (
            bound(" AND EXISTS(SELECT id FROM tags WHERE tags.tag LIKE CONCAT('%',"@, ",'%') AND tags.entry_id = entries.id)"@),
            seq![BindView::Text(t@)],
        ),
        DatabaseSearch::NotTag(t) => (
            bound(" AND NOT EXISTS(SELECT id FROM tags WHERE tags.tag LIKE CONCAT('%',"@, ",'%') AND tags.entry_id = entries.id)"@),
            seq![BindView::Text(t@)],
        ),
        DatabaseSearch::Feed(f) => (
            bound(" AND EXISTS(SELECT id FROM sources WHERE sources.source LIKE CONCAT('%',"@, ",'%') AND sources.entry_id = entries.id)"@),
            seq![BindView::Text(f@)],
        ),
        DatabaseSearch::NotFeed(f) => (
            bound(" AND NOT EXISTS(SELECT id FROM sources WHERE sources.source LIKE CONCAT('%',"@, ",'%') AND sources.entry_id = entries.id)"@),
            seq![BindView::Text(f@)],
        ),
        DatabaseSearch::Command(c) => (
            bound(" AND EXISTS(SELECT id FROM commands WHERE commands.name LIKE CONCAT('%',"@, ",'%') AND commands.entry_id = entries.id)"@),
            seq![BindView::Text(c@)],
        ),
        DatabaseSearch::NotCommand(c) => (
            bound(" AND NOT EXISTS(SELECT id FROM commands WHERE commands.name LIKE CONCAT('%',"@, ",'%') AND commands.entry_id = entries.id)"@),
            seq![BindView::Text(c@)],
        ),
    }
}

/// The conditions of all criteria, in order.
pub open spec fn criteria_parts(cs: Seq<DatabaseSearch>) -> (Seq<char>, Seq<BindView>)
    decreases cs.len(),
{
    if cs.len() == 0 {
        (Seq::empty(), Seq::empty())
    } else {
        let prev = criteria_parts(cs.drop_last());
        let last = criterion_parts(cs.last());
        (prev.0 + last.0, prev.1 + last.1)
    }
}

/// The order the criteria ask for: live if any criterion is, else latest.
pub open spec fn criteria_order(cs: Seq<DatabaseSearch>) -> Seq<char> {
    if exists|i: int| 0 <= i < cs.len() && cs[i] is Live { ORDER_LIVE@ } else { ORDER_LATEST@ }
}

/// The condition a cursor adds.
pub open spec fn cursor_parts(c: OffsetCursor) -> (Seq<char>, Seq<BindView>) {
    match c {
        OffsetCursor::LatestTimestamp => (Seq::empty(), Seq::empty()),
        OffsetCursor::LatestId => (Seq::empty(), Seq::empty()),
        OffsetCursor::Before(d) => (" AND entries.timestamp < unixepoch(?)"@, seq![BindView::Instant(d@)]),
        OffsetCursor::After(d) => (" AND entries.timestamp > unixepoch(?)"@, seq![BindView::Instant(d@)]),
        OffsetCursor::ModifiedAfter(d) => (" AND entries.modified_timestamp > unixepoch(?)"@, seq![BindView::Instant(d@)]),
    }
}

/// The search query for criteria, a limit and a cursor.
pub open spec fn entries_query(cs: Seq<DatabaseSearch>, max_length: u32, cursor: OffsetCursor) -> (Seq<char>, Seq<BindView>) {
    let crit = criteria_parts(cs);
    let cur = cursor_parts(cursor);
    let order = if cursor is ModifiedAfter { ORDER_MODIFIED@ } else { criteria_order(cs) };
    (
        QUERY_HEAD@ + " TRUE = TRUE"@ + crit.0 + cur.0 + " GROUP BY entries.id"@ + order + " LIMIT ?"@,
        crit.1 + cur.1 + seq![BindView::Limit(max_length)],
    )
}

fn push_bound(sql: &mut String, binds: &mut Vec<QueryBind>, before: &str, value: String, after: &str)
    ensures
        final(sql)@ == old(sql)@ + before@ + "?"@ + after@,
        binds_view(final(binds)@) == binds_view(old(binds)@).push(BindView::Text(value@)),
{
    let ghost s0 = sql@;
    sql.append(before);
    sql.append("?");
    sql.append(after);
    assert(sql@ =~= s0 + bound(before@, after@));
    let ghost b0 = binds@;
    binds.push(QueryBind::Text(value));
    assert(binds_view(binds@) =~= binds_view(b0).push(BindView::Text(value@)));
}

fn push_criterion(sql: &mut String, binds: &mut Vec<QueryBind>, c: &DatabaseSearch)
    ensures
        final(sql)@ == old(sql)@ + criterion_parts(*c).0,
        binds_view(final(binds)@) == binds_view(old(binds)@) + criterion_parts(*c).1,
{
    let ghost s0 = sql@;
    let ghost b0 = binds_view(binds@);
    match c {
        DatabaseSearch::Latest => {
            assert(s0 + Seq::<char>::empty() =~= s0);
            assert(b0 + Seq::<BindView>::empty() =~= b0);
        },
        DatabaseSearch::Live => {
            assert(s0 + Seq::<char>::empty() =~= s0);
            assert(b0 + Seq::<BindView>::empty() =~= b0);
        },
        DatabaseSearch::Raw(r) => {
            sql.append(" AND ");
            sql.append(r.as_str());
            assert(sql@ =~= s0 + (" AND "@ + r@));
            assert(b0 + Seq::<BindView>::empty() =~= b0);
        },
        DatabaseSearch::Search(s) => {
            let low = to_lower(s.as_str());
            let low2 = low.clone();
            push_bound(sql, binds, " AND (LOWER(entries.title) LIKE CONCAT('%',", low, ",'%')");
            push_bound(sql, binds, " OR LOWER(entries.author) LIKE CONCAT('%',", low2, ",'%'))");
            assert(sql@ =~= s0 + (bound(" AND (LOWER(entries.title) LIKE CONCAT('%',"@, ",'%')"@) + bound(" OR LOWER(entries.author) LIKE CONCAT('%',"@, ",'%'))"@)));
            assert(binds_view(binds@) =~= b0 + seq![BindView::Text(lowercase(s@)), BindView::Text(lowercase(s@))]);
        },
        DatabaseSearch::Tag(t) => {
            push_bound(sql, binds, " AND EXISTS(SELECT id FROM tags WHERE tags.tag LIKE CONCAT('%',", t.clone(), ",'%') AND tags.entry_id = entries.id)");
        },
        DatabaseSearch::NotTag(t) => {
            push_bound(sql, binds, " AND NOT EXISTS(SELECT id FROM tags WHERE tags.tag LIKE CONCAT('%',", t.clone(), ",'%') AND tags.entry_id = entries.id)");
        },
        DatabaseSearch::Feed(f) => {
            push_bound(sql, binds, " AND EXISTS(SELECT id FROM sources WHERE sources.source LIKE CONCAT('%',", f.clone(), ",'%') AND sources.entry_id = entries.id)");
        },
        DatabaseSearch::NotFeed(f) => {
            push_bound(sql, binds, " AND NOT EXISTS(SELECT id FROM sources WHERE sources.source LIKE CONCAT('%',", f.clone(), ",'%') AND sources.entry_id = entries.id)");
        },
        DatabaseSearch::Command(c) => {
            push_bound(sql, binds, " AND EXISTS(SELECT id FROM commands WHERE commands.name LIKE CONCAT('%',", c.clone(), ",'%') AND commands.entry_id = entries.id)");
        },
        DatabaseSearch::NotCommand(c) => {
            push_bound(sql, binds, " AND NOT EXISTS(SELECT id FROM commands WHERE commands.name LIKE CONCAT('%',", c.clone(), ",'%') AND commands.entry_id = entries.id)");
        },
    }
}

/// Builds the search query of `Database::get_entries`: the criteria's
/// conditions in order, the cursor's, grouping, the order (by modification
/// for a modification cursor, else live if a criterion asks for it, else
/// latest) and the limit.
pub fn entries_query_exec(criteria: &Vec<DatabaseSearch>, max_length: usize, cursor: &OffsetCursor) -> (res: Query)
    requires
        max_length <= u32::MAX,
    ensures
        (res.sql@, binds_view(res.binds@)) == entries_query(criteria@, max_length as u32, *cursor),
{
    let mut sql = crate::text::owned(QUERY_HEAD);
    sql.append(" TRUE = TRUE");
    let ghost prefix = sql@;
    let mut binds: Vec<QueryBind> = Vec::new();
    let mut live = false;
    let mut i: usize = 0;
    while i < criteria.len()
        invariant
            i <= criteria.len(),
            prefix == QUERY_HEAD@ + " TRUE = TRUE"@,
            sql@ == prefix + criteria_parts(criteria@.take(i as int)).0,
            binds_view(binds@) == criteria_parts(criteria@.take(i as int)).1,
            live == exists|k: int| 0 <= k < i && criteria@[k] is Live,
        decreases criteria.len() - i,
    {
        let ghost t = criteria@.take(i + 1);
        assert(t.drop_last() =~= criteria@.take(i as int));
        assert(t.last() == criteria@[i as int]);
        push_criterion(&mut sql, &mut binds, &criteria[i]);
        if let DatabaseSearch::Live = criteria[i] {
            live = true;
        }
        proof {
            let prev = criteria_parts(criteria@.take(i as int));
            assert(prefix + prev.0 + criterion_parts(criteria@[i as int]).0 =~= prefix + (prev.0 + criterion_parts(criteria@[i as int]).0));
        }
        i += 1;
    }
    assert(criteria@.take(criteria.len() as int) =~= criteria@);
    let ghost s1 = sql@;
    let ghost b1 = binds_view(binds@);
    let order = match cursor {
        OffsetCursor::LatestTimestamp => {
            assert(s1 + Seq::<char>::empty() =~= s1);
            assert(b1 + Seq::<BindView>::empty() =~= b1);
            if live { ORDER_LIVE } else { ORDER_LATEST }
        },
        OffsetCursor::LatestId => {
            assert(s1 + Seq::<char>::empty() =~= s1);
            assert(b1 + Seq::<BindView>::empty() =~= b1);
            if live { ORDER_LIVE } else { ORDER_LATEST }
        },
        OffsetCursor::Before(d) => {
            sql.append(" AND entries.timestamp < unixepoch(?)");
            binds.push(QueryBind::Instant(*d));
            assert(binds_view(binds@) =~= b1 + seq![BindView::Instant(d@)]);
            if live { ORDER_LIVE } else { ORDER_LATEST }
        },
        OffsetCursor::After(d) => {
            sql.append(" AND entries.timestamp > unixepoch(?)");
            binds.push(QueryBind::Instant(*d));
            assert(binds_view(binds@) =~= b1 + seq![BindView::Instant(d@)]);
            if live { ORDER_LIVE } else { ORDER_LATEST }
        },
        OffsetCursor::ModifiedAfter(d) => {
            sql.append(" AND entries.modified_timestamp > unixepoch(?)");
            binds.push(QueryBind::Instant(*d));
            assert(binds_view(binds@) =~= b1 + seq![BindView::Instant(d@)]);
            ORDER_MODIFIED
        },
    };
    sql.append(" GROUP BY entries.id");
    sql.append(order);
    sql.append(" LIMIT ?");
    let ghost b2 = binds_view(binds@);
    binds.push(QueryBind::Limit(max_length as u32));
    assert(binds_view(binds@) =~= b2.push(BindView::Limit(max_length as u32)));
    let ghost q = entries_query(criteria@, max_length as u32, *cursor);
    assert(sql@ =~= q.0);
    assert(binds_view(binds@) =~= q.1);
    Query { sql, binds }
}

/// The stored form of an entry.
#[derive(Debug)]
pub struct EntryV1 {
    pub title: String,
    pub date: DateTime,
    pub author: String,
    pub content: String,
    pub source: Link,
    pub comments: Link,
    pub other_links: Vec<Link>,
    pub icon: String,
}

/// The icon url of an entry, empty when it has none.
pub open spec fn icon_url(icon: Option<LinkView>) -> Seq<char> {
    match icon {
        Some(l) => l.url,
        None => Seq::empty(),
    }
}

/// The entry a stored form gives back: built with its title, date, author,
/// content, the urls of its source, comments and icon links, and its other
/// links.
pub open spec fn restored(v: EntryV1) -> EntryView {
    built_entry(
        EntryBuilderView {
            title: Some(v.title@),
            date: Some(EntryDateView::Published(v.date@)),
            author: Some(v.author@),
            content: Some(v.content@),
            source: Some(LinkView { url: v.source.url@, title: "Source"@, mime_type: None }),
            comments: Some(LinkView { url: v.comments.url@, title: "Comments"@, mime_type: None }),
            icon: Some(LinkView { url: v.icon@, title: "Icon"@, mime_type: None }),
            other_links: links_view(v.other_links@),
            id: None,
        },
        0,
    )
}

impl EntryV1 {
    /// The stored form of an entry.
    pub fn from_entry(e: &Entry) -> (res: EntryV1)
        ensures
            res.title@ == e@.title,
            res.date@ == crate::entry::date_instant(e@.date),
            res.author@ == e@.author,
            res.content@ == e@.content,
            res.source@ == e@.source,
            res.comments@ == e@.comments,
            links_view(res.other_links@) == e@.other_links,
            res.icon@ == icon_url(e@.icon),
    {
        let icon = match e.icon() {
            Some(l) => l.url.clone(),
            None => String::new(),
        };
        EntryV1 {
            title: e.title().clone(),
            date: e.date(),
            author: e.author().clone(),
            content: e.content().clone(),
            source: e.source().clone(),
            comments: e.comments().clone(),
            other_links: crate::entry::copy_links(e.other_links()),
            icon,
        }
    }

    /// The entry this stored form gives back.
    pub fn to_entry(&self) -> (res: Entry)
        ensures
            res@ == restored(*self),
    {
        let mut b = EntryBuilder::new()
            .title(self.title.as_str())
            .date(self.date)
            .author(self.author.as_str())
            .content(self.content.as_str())
            .source(self.source.url.as_str())
            .comments(self.comments.url.as_str())
            .icon(self.icon.as_str());
        let ghost b0 = b@;
        assert(links_view(self.other_links@.take(0)) =~= Seq::<LinkView>::empty());
        assert(b0.other_links =~= Seq::<LinkView>::empty());
        assert(b@ =~= (EntryBuilderView { other_links: links_view(self.other_links@.take(0)), ..b0 }));
        let mut i: usize = 0;
        while i < self.other_links.len()
            invariant
                i <= self.other_links.len(),
                b@ == (EntryBuilderView { other_links: links_view(self.other_links@.take(i as int)), ..b0 }),
                b0.other_links.len() == 0,
            decreases self.other_links.len() - i,
        {
            b = b.other_link(self.other_links[i].clone());
            assert(links_view(self.other_links@.take(i + 1)) =~= links_view(self.other_links@.take(i as int)).push(self.other_links@[i as int]@));
            i += 1;
        }
        assert(self.other_links@.take(self.other_links.len() as int) =~= self.other_links@);
        b.build_at(DateTime::epoch())
    }
}

/// A version by its numbers and whether it carries a pre-release.
#[derive(Clone, Copy, Debug, PartialEq, Eq, Structural)]
pub struct VersionKey {
    pub major: u64,
    pub minor: u64,
    pub patch: u64,
    pub pre: bool,
}

/// What `semver::Version::parse` gives for a text: its major, minor and patch
/// numbers and whether it has a pre-release, or `None` when it fails.
pub uninterp spec fn semver_parse(text: Seq<char>) -> Option<(u64, u64, u64, bool)>;

/// `semver::Version::parse`: the parsed version's numbers and whether it
/// has a pre-release, named by `semver_parse`; the grammar is not stated.
#[verifier::external_body]
fn parse_version(text: &str) -> (res: Option<VersionKey>)
    ensures
        match res {
            Some(v) => semver_parse(text@) == Some((v.major, v.minor, v.patch, v.pre)),
            None => semver_parse(text@) is None,
        },
{
    match semver::Version::parse(text) {
        Ok(v) => Some(VersionKey { major: v.major, minor: v.minor, patch: v.patch, pre: !v.pre.is_empty() }),
        Err(_) => None,
    }
}

/// `v` orders before the release `major.minor.patch` (one without a
/// pre-release or build): its numbers are lower, or equal with a pre-release.
pub open spec fn before_release(v: VersionKey, major: u64, minor: u64, patch: u64) -> bool {
    ||| v.major < major
    ||| v.major == major && v.minor < minor
    ||| v.major == major && v.minor == minor && v.patch < patch
    ||| v.major == major && v.minor == minor && v.patch == patch && v.pre
}

fn before_release_exec(v: VersionKey, major: u64, minor: u64, patch: u64) -> (res: bool)
    ensures
        res == before_release(v, major, minor, patch),
{
    v.major < major || (v.major == major && v.minor < minor)
        || (v.major == major && v.minor == minor && v.patch < patch)
        || (v.major == major && v.minor == minor && v.patch == patch && v.pre)
}

/// The version a stored version text stands for: its parse, or 0.0.0 when
/// there is none or it does not parse.
pub open spec fn stored_version_spec(text: Option<Seq<char>>) -> VersionKey {
    let zero = VersionKey { major: 0, minor: 0, patch: 0, pre: false };
    match text {
        Some(t) => match semver_parse(t) {
            Some(p) => VersionKey { major: p.0, minor: p.1, patch: p.2, pre: p.3 },
            None => zero,
        },
        None => zero,
    }
}

/// The schema version recorded in the database.
pub fn stored_version(text: &Option<String>) -> (res: VersionKey)
    ensures
        res == stored_version_spec(match text {
            Some(t) => Some(t@),
            None => None,
        }),
{
    match text {
        Some(t) => match parse_version(t.as_str()) {
            Some(v) => v,
            None => VersionKey { major: 0, minor: 0, patch: 0, pre: false },
        },
        None => VersionKey { major: 0, minor: 0, patch: 0, pre: false },
    }
}

/// A schema migration.
#[derive(Clone, Copy, Debug, PartialEq, Eq, Structural)]
pub enum Migration {
    /// Create the tables (version 1.0.0).
    CreateTables,
    /// Record the modification time of entries (version 2.10.0).
    AddModifiedTimestamp,
}

/// The migration a database at version `v` needs next, and the version after it.
pub open spec fn next_migration_spec(v: VersionKey) -> Option<(Migration, VersionKey)> {
    if before_release(v, 1, 0, 0) {
        Some((Migration::CreateTables, VersionKey { major: 1, minor: 0, patch: 0, pre: false }))
    } else if before_release(v, 2, 10, 0) {
        Some((Migration::AddModifiedTimestamp, VersionKey { major: 2, minor: 10, patch: 0, pre: false }))
    } else {
        None
    }
}

/// The next migration for a database at version `v`, if any.
pub fn next_migration(v: VersionKey) -> (res: Option<(Migration, VersionKey)>)
    ensures
        res == next_migration_spec(v),
{
    if before_release_exec(v, 1, 0, 0) {
        Some((Migration::CreateTables, VersionKey { major: 1, minor: 0, patch: 0, pre: false }))
    } else if before_release_exec(v, 2, 10, 0) {
        Some((Migration::AddModifiedTimestamp, VersionKey { major: 2, minor: 10, patch: 0, pre: false }))
    } else {
        None
    }
}

/// The migrations a database at version `v` runs, in order.
pub open spec fn migration_plan_spec(v: VersionKey) -> Seq<Migration> {
    if before_release(v, 1, 0, 0) {
        seq![Migration::CreateTables, Migration::AddModifiedTimestamp]
    } else if before_release(v, 2, 10, 0) {
        seq![Migration::AddModifiedTimestamp]
    } else {
        Seq::empty()
    }
}

/// Runs `next_migration` until none is left (the loop of
/// `Database::initialize`), collecting the migrations.
pub fn migration_plan(v: VersionKey) -> (res: Vec<Migration>)
    ensures
        res@ == migration_plan_spec(v),
{
    let mut out: Vec<Migration> = Vec::new();
    let mut cur = v;
    let mut steps: usize = 0;
    loop
        invariant
            steps <= 2,
            steps == 0 ==> cur == v && out@.len() == 0,
            steps == 1 ==> before_release(v, 2, 10, 0) && out@.len() == 1 && next_migration_spec(v) == Some((out@[0], cur)),
            steps == 2 ==> before_release(v, 1, 0, 0) && out@ == migration_plan_spec(v) && cur == (VersionKey { major: 2, minor: 10, patch: 0, pre: false }),
        ensures
            out@ == migration_plan_spec(v),
        decreases 2 - steps,
    {
        match next_migration(cur) {
            Some((m, next)) => {
                out.push(m);
                cur = next;
                steps += 1;
            },
            None => {
                break;
            },
        }
    }
    out
}

} // verus!

verus! {

/// A search for an entry already stored.
#[derive(Debug)]
pub enum ExistingLookup {
    /// The same stored form.
    ByEntry,
    /// The same title and author.
    ByTitleAuthor(String, String),
    /// The same author and source id.
    ByAuthorSourceId(String, String),
}

/// What a lookup is, by its texts.
pub open spec fn lookup_view(l: ExistingLookup) -> (int, Seq<char>, Seq<char>) {
    match l {
        ExistingLookup::ByEntry => (0, Seq::empty(), Seq::empty()),
        ExistingLookup::ByTitleAuthor(t, a) => (1, t@, a@),
        ExistingLookup::ByAuthorSourceId(a, i) => (2, a@, i@),
    }
}

/// The lookups an insertion tries, in order, until one finds the entry: by
/// stored form; by title and author when both are set; by author and source
/// id when the author and the id are set.
pub open spec fn existing_lookups_spec(e: EntryView) -> Seq<(int, Seq<char>, Seq<char>)> {
    seq![(0int, Seq::<char>::empty(), Seq::<char>::empty())]
        + (if e.title.len() > 0 && e.author.len() > 0 { seq![(1int, e.title, e.author)] } else { Seq::empty() })
        + (match e.id {
            Some(i) => if e.author.len() > 0 { seq![(2int, e.author, i)] } else { Seq::empty() },
            None => Seq::empty(),
        })
}

/// The lookups an insertion of the entry tries, in order.
pub fn existing_lookups(e: &Entry) -> (res: Vec<ExistingLookup>)
    ensures
        res@.map_values(|l: ExistingLookup| lookup_view(l)) == existing_lookups_spec(e@),
{
    let mut out: Vec<ExistingLookup> = Vec::new();
    out.push(ExistingLookup::ByEntry);
    let ghost v0 = out@.map_values(|l: ExistingLookup| lookup_view(l));
    assert(v0 =~= seq![(0int, Seq::<char>::empty(), Seq::<char>::empty())]);
    if !e.title().as_str().is_empty() && !e.author().as_str().is_empty() {
        out.push(ExistingLookup::ByTitleAuthor(e.title().clone(), e.author().clone()));
        assert(out@.map_values(|l: ExistingLookup| lookup_view(l)) =~= v0 + seq![(1int, e@.title, e@.author)]);
    } else {
        assert(out@.map_values(|l: ExistingLookup| lookup_view(l)) =~= v0 + Seq::<(int, Seq<char>, Seq<char>)>::empty());
    }
    let ghost v1 = out@.map_values(|l: ExistingLookup| lookup_view(l));
    match e.source_id() {
        Some(id) => {
            if !e.author().as_str().is_empty() {
                out.push(ExistingLookup::ByAuthorSourceId(e.author().clone(), id.clone()));
                assert(out@.map_values(|l: ExistingLookup| lookup_view(l)) =~= v1 + seq![(2int, e@.author, id@)]);
            } else {
                assert(v1 + Seq::<(int, Seq<char>, Seq<char>)>::empty() =~= v1);
            }
        },
        None => {
            assert(v1 + Seq::<(int, Seq<char>, Seq<char>)>::empty() =~= v1);
        },
    }
    out
}

/// The source names and tags stored with an entry: the names of its feeds
/// and its tags, in order.
pub fn stored_sources_and_tags(e: &Entry) -> (res: (Vec<String>, Vec<String>))
    ensures
        res.0@.map_values(|s: String| s@) == e@.feeds.map_values(|f: crate::entry::FeedRefView| f.name),
        res.1@.map_values(|s: String| s@) == e@.tags,
{
    let feeds = e.feeds();
    let mut names: Vec<String> = Vec::new();
    let mut i: usize = 0;
    while i < feeds.len()
        invariant
            i <= feeds.len(),
            crate::entry::feeds_view(feeds@) == e@.feeds,
            names@.map_values(|s: String| s@) == e@.feeds.take(i as int).map_values(|f: crate::entry::FeedRefView| f.name),
        decreases feeds.len() - i,
    {
        let ghost n0 = names@.map_values(|s: String| s@);
        names.push(feeds[i].name.clone());
        assert(e@.feeds[i as int] == feeds@[i as int]@);
        assert(names@.map_values(|s: String| s@) =~= n0.push(e@.feeds[i as int].name));
        assert(e@.feeds.take(i + 1).map_values(|f: crate::entry::FeedRefView| f.name)
            =~= e@.feeds.take(i as int).map_values(|f: crate::entry::FeedRefView| f.name).push(e@.feeds[i as int].name));
        i += 1;
    }
    assert(e@.feeds.take(feeds.len() as int) =~= e@.feeds);
    let tags = e.tags();
    let mut ts: Vec<String> = Vec::new();
    let mut k: usize = 0;
    while k < tags.len()
        invariant
            k <= tags.len(),
            crate::entry::tags_view(tags@) == e@.tags,
            ts@.map_values(|s: String| s@) == e@.tags.take(k as int),
        decreases tags.len() - k,
    {
        let ghost t0 = ts@.map_values(|s: String| s@);
        ts.push(tags[k].to_string());
        assert(crate::entry::tags_view(tags@)[k as int] == tags@[k as int]@);
        assert(ts@.map_values(|s: String| s@) =~= t0.push(e@.tags[k as int]));
        assert(e@.tags.take(k + 1) =~= e@.tags.take(k as int).push(e@.tags[k as int]));
        k += 1;
    }
    assert(e@.tags.take(tags.len() as int) =~= e@.tags);
    (names, ts)
}

} // verus!
