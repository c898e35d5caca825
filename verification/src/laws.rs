//! Properties that hold across the library's operations.
use vstd::prelude::*;
use crate::aggregate::lookup;
use crate::config::{added, feed_names, first_named, lemma_added, names_sorted, FeedDefinition};
use crate::database::{before_release, migration_plan_spec, next_migration_spec, restored, EntryV1, VersionKey};
use crate::entry::{date_instant, links_view, EntryView};
use crate::entry_set::{add_spec, date_of, first_eq, insert_by_date, sort_by_date, sort_spec};
use crate::filters::{filter_passes, passes_all, EntryFilterView, FilterRule};
use crate::logging::newest;
use crate::options::{bind_all, lemma_lookup_bind_all, merged, FeedOptions};
use crate::tasks::{capped, keep_fetched, kept_entries, FeedFetchOptions};
use crate::transforms::{alias_all, alias_hit, derive_all, derive_one, transform_spec, TagMap, Transform};
use crate::entry::insert_tag_seq;
use crate::filters::item_matches;
use crate::transforms::primary_feed_name;
use crate::feed::{rss_builder, RssItemView};
use crate::entry::{built_entry, has_tag_spec};
use crate::database::{criterion_parts, DatabaseSearch};
use crate::aggregate::tag_feed_matches;

verus! {

/// Entries ordered oldest first.
pub open spec fn sorted_oldest_first(s: Seq<EntryView>) -> bool {
    forall|i: int, j: int| 0 <= i < j < s.len() ==> date_of(s[i]) <= date_of(s[j])
}

/// Entries ordered newest first.
pub open spec fn sorted_newest_first(s: Seq<EntryView>) -> bool {
    forall|i: int, j: int| 0 <= i < j < s.len() ==> date_of(s[i]) >= date_of(s[j])
}

proof fn lemma_insert_by_date(s: Seq<EntryView>, x: EntryView)
    requires
        sorted_oldest_first(s),
    ensures
        sorted_oldest_first(insert_by_date(s, x)),
        insert_by_date(s, x).len() == s.len() + 1,
        forall|k: int| 0 <= k < insert_by_date(s, x).len() ==> #[trigger] insert_by_date(s, x)[k] == x || s.contains(insert_by_date(s, x)[k]),
    decreases s.len(),
{
    let r = insert_by_date(s, x);
    if s.len() == 0 {
    } else if date_of(s.last()) <= date_of(x) {
        assert forall|i: int, j: int| 0 <= i < j < r.len() implies date_of(r[i]) <= date_of(r[j]) by {
            if j == s.len() {
                assert(date_of(s[i]) <= date_of(s[s.len() - 1]) || i == s.len() - 1);
            }
        }
        assert forall|k: int| 0 <= k < r.len() implies #[trigger] r[k] == x || s.contains(r[k]) by {
            if k < s.len() {
                assert(r[k] == s[k]);
            }
        }
    } else {
        let init = s.drop_last();
        assert forall|i: int, j: int| 0 <= i < j < init.len() implies date_of(init[i]) <= date_of(init[j]) by {
            assert(init[i] == s[i] && init[j] == s[j]);
        }
        lemma_insert_by_date(init, x);
        let t = insert_by_date(init, x);
        assert(r == t.push(s.last()));
        assert forall|k: int| 0 <= k < t.len() implies date_of(#[trigger] t[k]) <= date_of(s.last()) by {
            if t[k] != x {
                assert(init.contains(t[k]));
                let m = choose|m: int| 0 <= m < init.len() && init[m] == t[k];
                assert(init[m] == s[m]);
            }
        }
        assert forall|i: int, j: int| 0 <= i < j < r.len() implies date_of(r[i]) <= date_of(r[j]) by {
            if j == t.len() {
                assert(r[i] == t[i]);
            } else {
                assert(r[i] == t[i] && r[j] == t[j]);
            }
        }
        assert forall|k: int| 0 <= k < r.len() implies #[trigger] r[k] == x || s.contains(r[k]) by {
            if k == t.len() {
                assert(s[s.len() - 1] == r[k]);
            } else {
                assert(r[k] == t[k]);
                if t[k] != x {
                    assert(init.contains(t[k]));
                    let m = choose|m: int| 0 <= m < init.len() && init[m] == t[k];
                    assert(s[m] == t[k]);
                }
            }
        }
    }
}

proof fn lemma_sort_by_date(s: Seq<EntryView>)
    ensures
        sorted_oldest_first(sort_by_date(s)),
        sort_by_date(s).len() == s.len(),
        forall|k: int| 0 <= k < sort_by_date(s).len() ==> s.contains(#[trigger] sort_by_date(s)[k]),
    decreases s.len(),
{
    if s.len() > 0 {
        let init = s.drop_last();
        lemma_sort_by_date(init);
        lemma_insert_by_date(sort_by_date(init), s.last());
        let r = sort_by_date(s);
        assert forall|k: int| 0 <= k < r.len() implies s.contains(#[trigger] r[k]) by {
            if r[k] == s.last() {
                assert(s[s.len() - 1] == r[k]);
            } else {
                assert(sort_by_date(init).contains(r[k]));
                let m = choose|m: int| 0 <= m < sort_by_date(init).len() && sort_by_date(init)[m] == r[k];
                assert(init.contains(r[k]));
                let n = choose|n: int| 0 <= n < init.len() && init[n] == r[k];
                assert(s[n] == r[k]);
            }
        }
    }
}

/// Sorting an entry set leaves it newest first, with at most its maximum
/// number of entries, each of them one it held before.
pub proof fn law_sorted_set(s: Seq<EntryView>, max: nat)
    ensures
        sorted_newest_first(sort_spec(s, max)),
        sort_spec(s, max).len() <= max,
        sort_spec(s, max).len() == if s.len() <= max { s.len() } else { max },
        forall|k: int| 0 <= k < sort_spec(s, max).len() ==> s.contains(#[trigger] sort_spec(s, max)[k]),
{
    lemma_sort_by_date(s);
    let a = sort_by_date(s);
    let r = a.reverse();
    assert forall|i: int, j: int| 0 <= i < j < r.len() implies date_of(r[i]) >= date_of(r[j]) by {
        assert(r[i] == a[a.len() - 1 - i] && r[j] == a[a.len() - 1 - j]);
    }
    assert forall|k: int| 0 <= k < r.len() implies s.contains(#[trigger] r[k]) by {
        assert(r[k] == a[a.len() - 1 - k]);
    }
    let t = sort_spec(s, max);
    assert forall|k: int| 0 <= k < t.len() implies s.contains(#[trigger] t[k]) by {
        assert(t[k] == r[k]);
    }
    assert forall|i: int, j: int| 0 <= i < j < t.len() implies date_of(t[i]) >= date_of(t[j]) by {
        assert(t[i] == r[i] && t[j] == r[j]);
    }
}

/// An entry added to a set is there afterwards: an equal entry (same title,
/// date, author, content and links) sits where it was or at the end, and the
/// set grows by at most one.
pub proof fn law_add_keeps_entry(s: Seq<EntryView>, e: EntryView)
    ensures
        add_spec(s, e).len() == s.len() || add_spec(s, e).len() == s.len() + 1,
        first_eq(s, e) is None ==> add_spec(s, e) == s.push(e),
        first_eq(s, e) matches Some(i) ==> 0 <= i < s.len() && add_spec(s, e).len() == s.len()
            && add_spec(s, e)[i].title == s[i].title && add_spec(s, e)[i].date == s[i].date,
{
    lemma_first_eq_range(s, e);
}

proof fn lemma_first_eq_range(s: Seq<EntryView>, e: EntryView)
    ensures
        first_eq(s, e) matches Some(i) ==> 0 <= i < s.len(),
    decreases s.len(),
{
    if s.len() > 0 {
        lemma_first_eq_range(s.drop_last(), e);
    }
}

/// Adding a tag or a feed to an entry never makes one occur twice.
pub proof fn law_entry_stays_distinct(e: EntryView, tag: Seq<char>, feed: crate::entry::FeedRefView)
    requires
        crate::entry::Entry::wf_spec(e),
    ensures
        crate::entry::Entry::wf_spec(EntryView { tags: crate::entry::insert_tag_seq(e.tags, tag), ..e }),
        crate::entry::Entry::wf_spec(EntryView { feeds: crate::entry::insert_feed_seq(e.feeds, feed), ..e }),
{
    if !e.tags.contains(tag) {
        let t = e.tags.push(tag);
        assert forall|a: int, b: int| 0 <= a < t.len() && 0 <= b < t.len() && a != b implies t[a] != t[b] by {
            if a == e.tags.len() as int {
                assert(t[b] == e.tags[b]);
            } else if b == e.tags.len() as int {
                assert(t[a] == e.tags[a]);
            }
        }
    }
    if !e.feeds.contains(feed) {
        let f = e.feeds.push(feed);
        assert forall|a: int, b: int| 0 <= a < f.len() && 0 <= b < f.len() && a != b implies f[a] != f[b] by {
            if a == e.feeds.len() as int {
                assert(f[b] == e.feeds[b]);
            } else if b == e.feeds.len() as int {
                assert(f[a] == e.feeds[a]);
            }
        }
    }
}

/// An exclusion filter lets through exactly the entries the inclusion
/// filter with the same items and field keeps out.
pub proof fn law_exclude_is_not_include(f: EntryFilterView, e: EntryView)
    requires
        f.rule == FilterRule::ExcludeAny,
    ensures
        filter_passes(f, e) == !filter_passes(EntryFilterView { rule: FilterRule::IncludeAny, ..f }, e),
{
    let g = EntryFilterView { rule: FilterRule::IncludeAny, ..f };
    assert(g.items == f.items && g.field == f.field);
    assert(crate::filters::any_matches(g, e) == crate::filters::any_matches(f, e));
}

/// Adding a filter never lets more entries through.
pub proof fn law_more_filters_fewer_entries(fs: Seq<EntryFilterView>, f: EntryFilterView, e: EntryView)
    ensures
        passes_all(fs.push(f), e) ==> passes_all(fs, e),
        passes_all(fs.push(f), e) == (passes_all(fs, e) && filter_passes(f, e)),
{
    if passes_all(fs.push(f), e) {
        assert forall|i: int| 0 <= i < fs.len() implies filter_passes(#[trigger] fs[i], e) by {
            assert(fs.push(f)[i] == fs[i]);
        }
        assert(fs.push(f)[fs.len() as int] == f);
    }
    if passes_all(fs, e) && filter_passes(f, e) {
        assert forall|i: int| 0 <= i < fs.push(f).len() implies filter_passes(#[trigger] fs.push(f)[i], e) by {
            if i < fs.len() {
                assert(fs.push(f)[i] == fs[i]);
            }
        }
    }
}

/// Merging a feed's options over the global ones twice is the same as once:
/// every option, and the value found for every header name, is unchanged.
pub proof fn law_merge_idempotent(a: FeedOptions, b: FeedOptions, c: FeedOptions, name: Seq<char>)
    requires
        c.parts() == merged(a, b),
    ensures
        merged(c, b).0 == merged(a, b).0,
        merged(c, b).1 == merged(a, b).1,
        merged(c, b).2 == merged(a, b).2,
        merged(c, b).3 == merged(a, b).3,
        merged(c, b).4 == merged(a, b).4,
        merged(c, b).6 == merged(a, b).6,
        merged(c, b).7 == merged(a, b).7,
        lookup(merged(c, b).5, name) == lookup(merged(a, b).5, name),
{
    let ov = crate::options::pairs_view(b.headers@);
    lemma_lookup_bind_all(crate::options::pairs_view(c.headers@), ov, name);
    lemma_lookup_bind_all(crate::options::pairs_view(a.headers@), ov, name);
}

/// The feed's own options win: each option it sets is the merged one, and
/// a header it sets is found with its value.
pub proof fn law_merge_prefers_feed(a: FeedOptions, b: FeedOptions, name: Seq<char>)
    ensures
        b.max is Some ==> merged(a, b).0 == b.max,
        b.freq is Some ==> merged(a, b).1 == b.freq,
        b.oldest is Some ==> merged(a, b).2 == b.oldest,
        b.step is Some ==> merged(a, b).6 == b.step,
        b.retry_count is Some ==> merged(a, b).7 == b.retry_count,
        b.max is None ==> merged(a, b).0 == a.max,
        crate::options::last_value(crate::options::pairs_view(b.headers@), name) matches Some(v)
            ==> lookup(merged(a, b).5, name) == Some(v),
        crate::options::last_value(crate::options::pairs_view(b.headers@), name) is None
            ==> lookup(merged(a, b).5, name) == lookup(crate::options::pairs_view(a.headers@), name),
{
    lemma_lookup_bind_all(crate::options::pairs_view(a.headers@), crate::options::pairs_view(b.headers@), name);
}

/// The log never holds back more lines than its limit.
pub proof fn law_log_bounded(s: Seq<Seq<u8>>, max: nat)
    ensures
        newest(s, max).len() <= max || newest(s, max) == s,
        newest(s, max).len() <= s.len(),
{
}

/// After the migrations a database at version `v` runs, none is left to run.
pub proof fn law_migrations_complete(v: VersionKey)
    ensures
        migration_plan_spec(v).len() == 0 ==> next_migration_spec(v) is None,
        migration_plan_spec(v).len() > 0 ==> next_migration_spec(VersionKey { major: 2, minor: 10, patch: 0, pre: false }) is None
            && migration_plan_spec(v).last() == crate::database::Migration::AddModifiedTimestamp,
{
}

/// A feed added under a name is the one found by that name, the other
/// names still find their definitions, and names kept in order stay in
/// order, each once (as the keys of a `BTreeMap`).
pub proof fn law_add_then_find(w: Seq<(String, FeedDefinition)>, v: Seq<(String, FeedDefinition)>, name: String, def: FeedDefinition)
    requires
        names_sorted(w),
        added(w, v, name, def),
    ensures
        names_sorted(v),
        feed_names(v).no_duplicates(),
        exists|i: int| #[trigger] first_named(v, name@, i) && v[i].1 == def,
        forall|m: Seq<char>, k: int| m != name@ && #[trigger] first_named(w, m, k)
            ==> exists|k2: int| #[trigger] first_named(v, m, k2) && v[k2].1 == w[k].1,
{
    lemma_added(w, v, name, def);
    let ns = feed_names(v);
    assert forall|a: int, b: int| 0 <= a < ns.len() && 0 <= b < ns.len() && a != b implies ns[a] != ns[b] by {
        crate::text::lemma_text_lt_irreflexive(v[a].0@);
        if a < b {
            assert(crate::text::text_lt(v[a].0@, v[b].0@));
        } else {
            assert(crate::text::text_lt(v[b].0@, v[a].0@));
        }
    }
}

/// An entry stored and read back keeps its title, date, author, content,
/// the urls of its source and comments links, and its other links.
pub proof fn law_stored_entry_round_trip(e: EntryView, v: EntryV1)
    requires
        v.title@ == e.title,
        v.date@ == date_instant(e.date),
        v.author@ == e.author,
        v.content@ == e.content,
        v.source@ == e.source,
        v.comments@ == e.comments,
        links_view(v.other_links@) == e.other_links,
    ensures
        restored(v).title == e.title,
        date_instant(restored(v).date) == date_instant(e.date),
        restored(v).author == e.author,
        restored(v).content == e.content,
        restored(v).source.url == e.source.url,
        restored(v).comments.url == e.comments.url,
        restored(v).other_links == e.other_links,
{
}

/// A fetch returns at most the list's maximum of entries, each one that
/// the fetch keeps: not too old, and passing the global filters (and, for a
/// fetch of every feed, the all-feed's filters).
pub proof fn law_fetch_bounded(
    s: Seq<EntryView>,
    options: FeedFetchOptions,
    now: int,
    global: FeedOptions,
    feed_options: Option<FeedOptions>,
    global_filters: Seq<EntryFilterView>,
    all_filters: Seq<EntryFilterView>,
    max: int,
)
    requires
        max >= 0,
    ensures
        capped(kept_entries(s, options, now, global, feed_options, global_filters, all_filters), max).len() <= max,
        forall|k: int| 0 <= k < capped(kept_entries(s, options, now, global, feed_options, global_filters, all_filters), max).len()
            ==> keep_fetched(options, #[trigger] capped(kept_entries(s, options, now, global, feed_options, global_filters, all_filters), max)[k], now, global, feed_options, global_filters, all_filters),
{
    lemma_kept(s, options, now, global, feed_options, global_filters, all_filters);
    let k = kept_entries(s, options, now, global, feed_options, global_filters, all_filters);
    let c = capped(k, max);
    assert forall|i: int| 0 <= i < c.len() implies keep_fetched(options, #[trigger] c[i], now, global, feed_options, global_filters, all_filters) by {
        assert(c[i] == k[i]);
    }
}

proof fn lemma_kept(
    s: Seq<EntryView>,
    options: FeedFetchOptions,
    now: int,
    global: FeedOptions,
    feed_options: Option<FeedOptions>,
    global_filters: Seq<EntryFilterView>,
    all_filters: Seq<EntryFilterView>,
)
    ensures
        forall|k: int| 0 <= k < kept_entries(s, options, now, global, feed_options, global_filters, all_filters).len()
            ==> keep_fetched(options, #[trigger] kept_entries(s, options, now, global, feed_options, global_filters, all_filters)[k], now, global, feed_options, global_filters, all_filters),
    decreases s.len(),
{
    if s.len() > 0 {
        lemma_kept(s.drop_last(), options, now, global, feed_options, global_filters, all_filters);
        let prev = kept_entries(s.drop_last(), options, now, global, feed_options, global_filters, all_filters);
        let r = kept_entries(s, options, now, global, feed_options, global_filters, all_filters);
        assert forall|k: int| 0 <= k < r.len() implies keep_fetched(options, #[trigger] r[k], now, global, feed_options, global_filters, all_filters) by {
            if k < prev.len() {
                assert(r[k] == prev[k]);
            } else {
                assert(r[k] == s.last());
            }
        }
    }
}

/// An update is not due again at the instant it was last checked, when the
/// update frequency is not negative; once due, it stays due.
pub proof fn law_update_not_due_twice(last: int, freq: int, now: int, later: int)
    requires
        freq >= 0,
    ensures
        !(last + freq < last),
        last + freq < now && now <= later ==> last + freq < later,
{
}


/// Some mapping of `m` with key `x` holds a tag of `snap`.
pub open spec fn derived_by(m: Seq<(Seq<char>, Seq<Seq<char>>)>, snap: Seq<Seq<char>>, x: Seq<char>) -> bool {
    exists|k: int, j: int| 0 <= k < m.len() && 0 <= j < snap.len() && m[k].0 == x && #[trigger] m[k].1.contains(snap[j])
}

proof fn lemma_insert_tag_contains(s: Seq<Seq<char>>, a: Seq<char>, x: Seq<char>)
    ensures
        insert_tag_seq(s, a).contains(x) <==> s.contains(x) || x == a,
{
    if !s.contains(a) {
        let r = s.push(a);
        if s.contains(x) {
            let i = choose|i: int| 0 <= i < s.len() && s[i] == x;
            assert(r[i] == x);
        }
        if x == a {
            assert(r[s.len() as int] == a);
        }
        if r.contains(x) {
            let i = choose|i: int| 0 <= i < r.len() && r[i] == x;
            if i < s.len() {
                assert(s[i] == x);
            }
        }
    }
}

proof fn lemma_derive_one_contains(tags: Seq<Seq<char>>, m: Seq<(Seq<char>, Seq<Seq<char>>)>, t: Seq<char>, x: Seq<char>)
    ensures
        derive_one(tags, m, t).contains(x) <==> tags.contains(x)
            || exists|k: int| 0 <= k < m.len() && m[k].0 == x && #[trigger] m[k].1.contains(t),
    decreases m.len(),
{
    if m.len() > 0 {
        let pm = m.drop_last();
        lemma_derive_one_contains(tags, pm, t, x);
        let prev = derive_one(tags, pm, t);
        if m.last().1.contains(t) {
            lemma_insert_tag_contains(prev, m.last().0, x);
        }
        if exists|k: int| 0 <= k < m.len() && m[k].0 == x && #[trigger] m[k].1.contains(t) {
            let k = choose|k: int| 0 <= k < m.len() && m[k].0 == x && #[trigger] m[k].1.contains(t);
            if k < pm.len() {
                assert(pm[k] == m[k]);
            }
        }
        if exists|k: int| 0 <= k < pm.len() && pm[k].0 == x && #[trigger] pm[k].1.contains(t) {
            let k = choose|k: int| 0 <= k < pm.len() && pm[k].0 == x && #[trigger] pm[k].1.contains(t);
            assert(m[k] == pm[k]);
        }
    }
}

proof fn lemma_derive_all_contains(tags: Seq<Seq<char>>, m: Seq<(Seq<char>, Seq<Seq<char>>)>, snap: Seq<Seq<char>>, x: Seq<char>)
    ensures
        derive_all(tags, m, snap).contains(x) <==> tags.contains(x) || derived_by(m, snap, x),
    decreases snap.len(),
{
    if snap.len() > 0 {
        let ps = snap.drop_last();
        lemma_derive_all_contains(tags, m, ps, x);
        lemma_derive_one_contains(derive_all(tags, m, ps), m, snap.last(), x);
        if derived_by(m, snap, x) {
            let (k, j) = choose|k: int, j: int| 0 <= k < m.len() && 0 <= j < snap.len() && m[k].0 == x && #[trigger] m[k].1.contains(snap[j]);
            if j < ps.len() {
                assert(ps[j] == snap[j]);
                assert(derived_by(m, ps, x));
            } else {
                assert(snap[j] == snap.last());
            }
        }
        if derived_by(m, ps, x) {
            let (k, j) = choose|k: int, j: int| 0 <= k < m.len() && 0 <= j < ps.len() && m[k].0 == x && #[trigger] m[k].1.contains(ps[j]);
            assert(snap[j] == ps[j]);
            assert(derived_by(m, snap, x));
        }
        if exists|k: int| 0 <= k < m.len() && m[k].0 == x && #[trigger] m[k].1.contains(snap.last()) {
            let k = choose|k: int| 0 <= k < m.len() && m[k].0 == x && #[trigger] m[k].1.contains(snap.last());
            assert(m[k].1.contains(snap[snap.len() - 1]));
            assert(derived_by(m, snap, x));
        }
    }
}

/// Deriving tags gives an entry exactly its own tags and the key of every
/// mapping that holds one of its own tags (keys derived this way derive
/// nothing more); every other part of the entry stays.
pub proof fn law_derivations_union(m: TagMap, e: EntryView, x: Seq<char>)
    ensures
        transform_spec(Transform::TagDerivations(m), e).tags.contains(x) <==> e.tags.contains(x) || derived_by(m@, e.tags, x),
        transform_spec(Transform::TagDerivations(m), e) == (EntryView { tags: transform_spec(Transform::TagDerivations(m), e).tags, ..e }),
{
    lemma_derive_all_contains(e.tags, m@, e.tags, x);
}

/// Some mapping of `m` lists the tag.
pub open spec fn listed(m: Seq<(Seq<char>, Seq<Seq<char>>)>, t: Seq<char>) -> bool {
    alias_hit(m, t, 0) is Some
}

/// Some tag of `snap` has `x` as the key of the first mapping listing it.
pub open spec fn aliased_to(m: Seq<(Seq<char>, Seq<Seq<char>>)>, snap: Seq<Seq<char>>, x: Seq<char>) -> bool {
    exists|i: int| 0 <= i < snap.len() && (#[trigger] alias_hit(m, snap[i], 0) matches Some(j) && m[j].0 == x)
}

/// No key of `m` is listed by a mapping.
pub open spec fn keys_unlisted(m: Seq<(Seq<char>, Seq<Seq<char>>)>) -> bool {
    forall|j: int, k: int| 0 <= j < m.len() && 0 <= k < m.len() ==> !(#[trigger] m[k].1.contains(#[trigger] m[j].0))
}

proof fn lemma_alias_hit_found(m: Seq<(Seq<char>, Seq<Seq<char>>)>, t: Seq<char>, j: int)
    ensures
        alias_hit(m, t, j) matches Some(k) ==> 0 <= k < m.len() && m[k].1.contains(t),
    decreases m.len() - j,
{
    if 0 <= j < m.len() && !m[j].1.contains(t) {
        lemma_alias_hit_found(m, t, j + 1);
    }
}

proof fn lemma_alias_all_contains(tags: Seq<Seq<char>>, m: Seq<(Seq<char>, Seq<Seq<char>>)>, snap: Seq<Seq<char>>, x: Seq<char>)
    requires
        keys_unlisted(m),
    ensures
        alias_all(tags, m, snap).contains(x) <==>
            (tags.contains(x) && !(snap.contains(x) && listed(m, x))) || aliased_to(m, snap, x),
    decreases snap.len(),
{
    if snap.len() > 0 {
        let ps = snap.drop_last();
        let t = snap.last();
        lemma_alias_all_contains(tags, m, ps, x);
        let prev = alias_all(tags, m, ps);
        assert(snap.contains(x) <==> ps.contains(x) || x == t) by {
            if snap.contains(x) {
                let i = choose|i: int| 0 <= i < snap.len() && snap[i] == x;
                if i < ps.len() {
                    assert(ps[i] == x);
                }
            }
            if ps.contains(x) {
                let i = choose|i: int| 0 <= i < ps.len() && ps[i] == x;
                assert(snap[i] == x);
            }
            assert(snap[snap.len() - 1] == t);
        }
        assert(aliased_to(m, snap, x) <==> aliased_to(m, ps, x)
            || (alias_hit(m, t, 0) matches Some(j) && m[j].0 == x)) by {
            if aliased_to(m, snap, x) {
                let i = choose|i: int| 0 <= i < snap.len() && (#[trigger] alias_hit(m, snap[i], 0) matches Some(j) && m[j].0 == x);
                if i < ps.len() {
                    assert(ps[i] == snap[i]);
                }
            }
            if aliased_to(m, ps, x) {
                let i = choose|i: int| 0 <= i < ps.len() && (#[trigger] alias_hit(m, ps[i], 0) matches Some(j) && m[j].0 == x);
                assert(snap[i] == ps[i]);
            }
            if alias_hit(m, t, 0) matches Some(j) && m[j].0 == x {
                assert(snap[snap.len() - 1] == t);
            }
        }
        lemma_alias_hit_found(m, t, 0);
        match alias_hit(m, t, 0) {
            Some(j) => {
                let k = m[j].0;
                let pred = |y: Seq<char>| y != t;
                let f = prev.filter(pred);
                assert(alias_all(tags, m, snap) == insert_tag_seq(f, k));
                lemma_insert_tag_contains(f, k, x);
                assert(f.contains(x) <==> prev.contains(x) && x != t) by {
                    if f.contains(x) {
                        prev.lemma_filter_contains_rev(pred, x);
                        let i = choose|i: int| 0 <= i < f.len() && f[i] == x;
                        prev.lemma_filter_pred(pred, i);
                    }
                    if prev.contains(x) && x != t {
                        let i = choose|i: int| 0 <= i < prev.len() && prev[i] == x;
                        prev.lemma_filter_contains(pred, i);
                    }
                }
                assert(k != t);
                if aliased_to(m, ps, x) {
                    let i = choose|i: int| 0 <= i < ps.len() && (#[trigger] alias_hit(m, ps[i], 0) matches Some(j2) && m[j2].0 == x);
                    lemma_alias_hit_found(m, ps[i], 0);
                    let j2 = alias_hit(m, ps[i], 0)->0;
                    assert(x != t) by {
                        if x == t {
                            assert(m[j].1.contains(m[j2].0));
                        }
                    }
                }
            },
            None => {
                if x == t {
                    assert(!listed(m, x));
                }
            },
        }
    }
}

/// Aliases swap every tag some mapping lists for the key of the first
/// mapping listing it, and keep the other tags, when no key is itself
/// listed; every other part of the entry stays.
pub proof fn law_aliases_swap(m: TagMap, e: EntryView, x: Seq<char>)
    requires
        keys_unlisted(m@),
    ensures
        transform_spec(Transform::TagAliases(m), e).tags.contains(x)
            <==> (e.tags.contains(x) && !listed(m@, x)) || aliased_to(m@, e.tags, x),
        transform_spec(Transform::TagAliases(m), e) == (EntryView { tags: transform_spec(Transform::TagAliases(m), e).tags, ..e }),
{
    lemma_alias_all_contains(e.tags, m@, e.tags, x);
}
/// Each filter rule in terms of its items: an include-any filter lets an
/// entry through when some item matches it, an include-all one when every
/// item does, an exclude-any one when no item does, and an exclude-all one
/// when some item does not match it (not every item is present).
pub proof fn law_filter_rules(f: EntryFilterView, e: EntryView)
    ensures
        f.rule == FilterRule::IncludeAny ==> (filter_passes(f, e)
            <==> exists|i: int| 0 <= i < f.items.len() && item_matches(f.field, #[trigger] f.items[i], e)),
        f.rule == FilterRule::IncludeAll ==> (filter_passes(f, e)
            <==> forall|i: int| 0 <= i < f.items.len() ==> item_matches(f.field, #[trigger] f.items[i], e)),
        f.rule == FilterRule::ExcludeAny ==> (filter_passes(f, e)
            <==> forall|i: int| 0 <= i < f.items.len() ==> !item_matches(f.field, #[trigger] f.items[i], e)),
        f.rule == FilterRule::ExcludeAll ==> (filter_passes(f, e)
            <==> exists|i: int| 0 <= i < f.items.len() && !item_matches(f.field, #[trigger] f.items[i], e)),
{
}

/// An exclude-all filter lets through an entry that one of its items
/// matches and another does not.
pub proof fn law_exclude_all_needs_every_item(f: EntryFilterView, e: EntryView, i: int, j: int)
    requires
        f.rule == FilterRule::ExcludeAll,
        0 <= i < f.items.len(),
        0 <= j < f.items.len(),
        item_matches(f.field, f.items[i], e),
        !item_matches(f.field, f.items[j], e),
    ensures
        filter_passes(f, e),
{
}

/// No occurrence of `from` in `s`: the text is left as it is.
proof fn lemma_replace_absent(s: Seq<char>, from: Seq<char>, to: Seq<char>)
    requires
        forall|i: int| 0 <= i < s.len() ==> !crate::text::starts_with_seq(#[trigger] s.subrange(i, s.len() as int), from),
    ensures
        crate::text::replace_seq(s, from, to) == s,
    decreases s.len(),
{
    if from.len() == 0 || s.len() == 0 {
    } else {
        assert(s.subrange(0, s.len() as int) =~= s);
        let t = s.drop_first();
        assert forall|i: int| 0 <= i < t.len() implies !crate::text::starts_with_seq(#[trigger] t.subrange(i, t.len() as int), from) by {
            assert(t.subrange(i, t.len() as int) =~= s.subrange(i + 1, s.len() as int));
        }
        lemma_replace_absent(t, from, to);
        assert(seq![s[0]] + t =~= s);
    }
}

/// A text that starts with `{` and holds no other `{` holds no other
/// placeholder than one it starts with.
proof fn lemma_no_placeholder(s: Seq<char>, p: Seq<char>)
    requires
        s.len() > 1,
        p.len() > 1,
        s[0] == '{',
        p[0] == '{',
        s[1] != p[1],
        forall|i: int| 1 <= i < s.len() ==> s[i] != '{',
    ensures
        forall|i: int| 0 <= i < s.len() ==> !crate::text::starts_with_seq(#[trigger] s.subrange(i, s.len() as int), p),
{
    assert forall|i: int| 0 <= i < s.len() implies !crate::text::starts_with_seq(#[trigger] s.subrange(i, s.len() as int), p) by {
        let t = s.subrange(i, s.len() as int);
        if crate::text::starts_with_seq(t, p) {
            assert(t.subrange(0, p.len() as int)[0] == t[0]);
            assert(t.subrange(0, p.len() as int)[1] == t[1]);
        }
    }
}

/// The author template `{feed_fallback}` gives the entry's own author when
/// it has one, and the name of its first feed only when its author is empty.
pub proof fn law_feed_fallback_author(template: String, e: EntryView)
    requires
        template@ == "{feed_fallback}"@,
    ensures
        transform_spec(Transform::Author(template), e).author
            == (if e.author.len() > 0 { e.author } else { primary_feed_name(e) }),
        transform_spec(Transform::Author(template), e) == (EntryView { author: transform_spec(Transform::Author(template), e).author, ..e }),
{
    reveal_strlit("{feed_fallback}");
    reveal_strlit("{author}");
    reveal_strlit("{url}");
    reveal_strlit("{feed}");
    let t = "{feed_fallback}"@;
    assert(forall|i: int| 1 <= i < t.len() ==> t[i] != '{');
    lemma_no_placeholder(t, "{author}"@);
    lemma_replace_absent(t, "{author}"@, e.author);
    lemma_no_placeholder(t, "{url}"@);
    lemma_replace_absent(t, "{url}"@, e.source.url);
    assert(t[5] != "{feed}"@[5]);
    assert forall|i: int| 0 <= i < t.len() implies !crate::text::starts_with_seq(#[trigger] t.subrange(i, t.len() as int), "{feed}"@) by {
        let u = t.subrange(i, t.len() as int);
        if crate::text::starts_with_seq(u, "{feed}"@) {
            assert(u.subrange(0, 6)[0] == u[0]);
            if i == 0 {
                assert(u.subrange(0, 6)[5] == u[5]);
            }
        }
    }
    lemma_replace_absent(t, "{feed}"@, primary_feed_name(e));
    let fallback = if e.author.len() == 0 { primary_feed_name(e) } else { e.author };
    assert(crate::text::starts_with_seq(t, t)) by {
        assert(t.subrange(0, t.len() as int) =~= t);
    }
    assert(t.subrange(t.len() as int, t.len() as int) =~= Seq::<char>::empty());
    assert(crate::text::replace_seq(Seq::<char>::empty(), t, fallback) == Seq::<char>::empty());
    assert(fallback + Seq::<char>::empty() =~= fallback);
}

/// An entry read from an RSS item takes its source address from the item's
/// link and its comments address from the item's comments, each empty where
/// the item has none.
pub proof fn law_rss_links(i: RssItemView, parse_time: int)
    ensures
        built_entry(rss_builder(i, parse_time), parse_time).source.url == (match i.link {
            Some(l) => l,
            None => Seq::empty(),
        }),
        built_entry(rss_builder(i, parse_time), parse_time).comments.url == (match i.comments {
            Some(c) => c,
            None => Seq::empty(),
        }),
{
}

/// A criterion that asks for entries without a tag (a feed, a command)
/// adds the negation of the condition the criterion asking for it adds:
/// the same text with `NOT` before `EXISTS`, and the same bound values.
pub proof fn law_negated_criteria(t: String)
    ensures
        criterion_parts(DatabaseSearch::Tag(t)).0.subrange(0, 11) == " AND EXISTS"@,
        criterion_parts(DatabaseSearch::NotTag(t)).0
            == " AND NOT"@ + criterion_parts(DatabaseSearch::Tag(t)).0.subrange(4, criterion_parts(DatabaseSearch::Tag(t)).0.len() as int),
        criterion_parts(DatabaseSearch::NotTag(t)).1 == criterion_parts(DatabaseSearch::Tag(t)).1,
        criterion_parts(DatabaseSearch::Feed(t)).0.subrange(0, 11) == " AND EXISTS"@,
        criterion_parts(DatabaseSearch::NotFeed(t)).0
            == " AND NOT"@ + criterion_parts(DatabaseSearch::Feed(t)).0.subrange(4, criterion_parts(DatabaseSearch::Feed(t)).0.len() as int),
        criterion_parts(DatabaseSearch::NotFeed(t)).1 == criterion_parts(DatabaseSearch::Feed(t)).1,
        criterion_parts(DatabaseSearch::Command(t)).0.subrange(0, 11) == " AND EXISTS"@,
        criterion_parts(DatabaseSearch::NotCommand(t)).0
            == " AND NOT"@ + criterion_parts(DatabaseSearch::Command(t)).0.subrange(4, criterion_parts(DatabaseSearch::Command(t)).0.len() as int),
        criterion_parts(DatabaseSearch::NotCommand(t)).1 == criterion_parts(DatabaseSearch::Command(t)).1,
{
    reveal_strlit(" AND EXISTS");
    reveal_strlit(" AND NOT");
    reveal_strlit("?");
    reveal_strlit(",'%') AND tags.entry_id = entries.id)");
    reveal_strlit(",'%') AND sources.entry_id = entries.id)");
    reveal_strlit(",'%') AND commands.entry_id = entries.id)");
    reveal_strlit(" AND EXISTS(SELECT id FROM tags WHERE tags.tag LIKE CONCAT('%',");
    reveal_strlit(" AND NOT EXISTS(SELECT id FROM tags WHERE tags.tag LIKE CONCAT('%',");
    reveal_strlit(" AND EXISTS(SELECT id FROM sources WHERE sources.source LIKE CONCAT('%',");
    reveal_strlit(" AND NOT EXISTS(SELECT id FROM sources WHERE sources.source LIKE CONCAT('%',");
    reveal_strlit(" AND EXISTS(SELECT id FROM commands WHERE commands.name LIKE CONCAT('%',");
    reveal_strlit(" AND NOT EXISTS(SELECT id FROM commands WHERE commands.name LIKE CONCAT('%',");
    let a = criterion_parts(DatabaseSearch::Tag(t)).0;
    let b = criterion_parts(DatabaseSearch::NotTag(t)).0;
    assert(a.subrange(0, 11) =~= " AND EXISTS"@);
    assert(b =~= " AND NOT"@ + a.subrange(4, a.len() as int));
    let a = criterion_parts(DatabaseSearch::Feed(t)).0;
    let b = criterion_parts(DatabaseSearch::NotFeed(t)).0;
    assert(a.subrange(0, 11) =~= " AND EXISTS"@);
    assert(b =~= " AND NOT"@ + a.subrange(4, a.len() as int));
    let a = criterion_parts(DatabaseSearch::Command(t)).0;
    let b = criterion_parts(DatabaseSearch::NotCommand(t)).0;
    assert(a.subrange(0, 11) =~= " AND EXISTS"@);
    assert(b =~= " AND NOT"@ + a.subrange(4, a.len() as int));
}

/// An aggregate tag feed never takes an entry that carries a tag on its
/// blocklist; with an allowlist it takes only entries carrying an allowed
/// tag; with no allowlist it takes every entry carrying no blocked tag.
pub proof fn law_tag_feed_blocklist(allow: Seq<Seq<char>>, block: Seq<Seq<char>>, e: EntryView)
    ensures
        (exists|j: int| 0 <= j < block.len() && has_tag_spec(e, #[trigger] block[j])) ==> !tag_feed_matches(allow, block, e),
        allow.len() > 0 && (forall|i: int| 0 <= i < allow.len() ==> !has_tag_spec(e, #[trigger] allow[i]))
            ==> !tag_feed_matches(allow, block, e),
        allow.len() == 0 && (forall|j: int| 0 <= j < block.len() ==> !has_tag_spec(e, #[trigger] block[j]))
            ==> tag_feed_matches(allow, block, e),
{
}

} // verus!