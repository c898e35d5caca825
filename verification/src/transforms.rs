//! Entry transforms: tag derivations, tag aliases and author templates.
use vstd::prelude::*;
use crate::entry::{
    feeds_view, insert_tag_seq, tags_view, copy_tags, Entry, EntryView, Tag,
};
use crate::text::{contains_seq, contains_str, replace_seq, replace_str};

verus! {

/// One mapping of a tag map: a key tag and the tags that map to it.
#[derive(Debug)]
pub struct TagMapping {
    pub key: Tag,
    pub matches: Vec<Tag>,
}

/// A mapping from tags to sets of tags, iterated in the order of its
/// mappings (the configuration's key order).
#[derive(Debug)]
pub struct TagMap {
    pub mappings: Vec<TagMapping>,
}

/// What a tag map is: its key tags with their matched tags, in order.
pub open spec fn tag_map_view(m: Seq<TagMapping>) -> Seq<(Seq<char>, Seq<Seq<char>>)> {
    m.map_values(|p: TagMapping| (p.key@, tags_view(p.matches@)))
}

impl View for TagMap {
    type V = Seq<(Seq<char>, Seq<Seq<char>>)>;

    open spec fn view(&self) -> Seq<(Seq<char>, Seq<Seq<char>>)> {
        tag_map_view(self.mappings@)
    }
}

/// A transform of entries.
#[derive(Debug)]
pub enum Transform {
    /// Adds the key tag of every mapping that matches a tag of the entry.
    TagDerivations(TagMap),
    /// Replaces every tag of the entry that some mapping lists by the key tag
    /// of the first mapping listing it.
    TagAliases(TagMap),
    /// Overwrites the author by a template.
    Author(String),
}

/// The tags after deriving from the tag `t` through the mappings of `m`, in
/// order.
pub open spec fn derive_one(tags: Seq<Seq<char>>, m: Seq<(Seq<char>, Seq<Seq<char>>)>, t: Seq<char>) -> Seq<Seq<char>>
    decreases m.len(),
{
    if m.len() == 0 {
        tags
    } else {
        let prev = derive_one(tags, m.drop_last(), t);
        if m.last().1.contains(t) { insert_tag_seq(prev, m.last().0) } else { prev }
    }
}

/// The tags after deriving from each tag of `snap`, in order.
pub open spec fn derive_all(tags: Seq<Seq<char>>, m: Seq<(Seq<char>, Seq<Seq<char>>)>, snap: Seq<Seq<char>>) -> Seq<Seq<char>>
    decreases snap.len(),
{
    if snap.len() == 0 {
        tags
    } else {
        derive_one(derive_all(tags, m, snap.drop_last()), m, snap.last())
    }
}

/// The first mapping at or after `j` that matches `t`.
pub open spec fn alias_hit(m: Seq<(Seq<char>, Seq<Seq<char>>)>, t: Seq<char>, j: int) -> Option<int>
    decreases m.len() - j,
{
    if j < 0 || j >= m.len() {
        None
    } else if m[j].1.contains(t) {
        Some(j)
    } else {
        alias_hit(m, t, j + 1)
    }
}

/// The tags after swapping each tag of `snap`, in order, that some mapping
/// lists for the key of the first mapping listing it.
pub open spec fn alias_all(tags: Seq<Seq<char>>, m: Seq<(Seq<char>, Seq<Seq<char>>)>, snap: Seq<Seq<char>>) -> Seq<Seq<char>>
    decreases snap.len(),
{
    if snap.len() == 0 {
        tags
    } else {
        let prev = alias_all(tags, m, snap.drop_last());
        let t = snap.last();
        match alias_hit(m, t, 0) {
            Some(j) => insert_tag_seq(prev.filter(|x: Seq<char>| x != t), m[j].0),
            None => prev,
        }
    }
}

/// The entry's primary feed name: that of its first feed, or empty.
pub open spec fn primary_feed_name(e: EntryView) -> Seq<char> {
    if e.feeds.len() > 0 { e.feeds[0].name } else { Seq::empty() }
}

/// The author a template gives for an entry: `{author}`, `{url}`, `{feed}`
/// and `{feed_fallback}` (the feed when the author is empty) substituted in
/// that order.
pub open spec fn author_spec(template: Seq<char>, e: EntryView) -> Seq<char> {
    let a1 = replace_seq(template, "{author}"@, e.author);
    let a2 = replace_seq(a1, "{url}"@, e.source.url);
    let a3 = replace_seq(a2, "{feed}"@, primary_feed_name(e));
    replace_seq(a3, "{feed_fallback}"@, if e.author.len() == 0 { primary_feed_name(e) } else { e.author })
}

/// What a transform does to an entry.
pub open spec fn transform_spec(t: Transform, e: EntryView) -> EntryView {
    match t {
        Transform::TagDerivations(m) => EntryView { tags: derive_all(e.tags, m@, e.tags), ..e },
        Transform::TagAliases(m) => EntryView { tags: alias_all(e.tags, m@, e.tags), ..e },
        Transform::Author(template) => EntryView { author: author_spec(template@, e), ..e },
    }
}

fn tag_in(tags: &Vec<Tag>, t: &Tag) -> (res: bool)
    ensures
        res == tags_view(tags@).contains(t@),
{
    let mut i: usize = 0;
    while i < tags.len()
        invariant
            i <= tags.len(),
            forall|k: int| 0 <= k < i ==> tags@[k]@ != t@,
        decreases tags.len() - i,
    {
        if tags[i].same(t) {
            assert(tags_view(tags@)[i as int] == t@);
            return true;
        }
        i += 1;
    }
    assert(!tags_view(tags@).contains(t@)) by {
        if tags_view(tags@).contains(t@) {
            let k = choose|k: int| 0 <= k < tags_view(tags@).len() && tags_view(tags@)[k] == t@;
            assert(tags@[k]@ == t@);
        }
    }
    false
}

fn apply_derivations(m: &TagMap, e: &mut Entry)
    ensures
        final(e)@ == (EntryView { tags: derive_all(old(e)@.tags, m@, old(e)@.tags), ..old(e)@ }),
{
    let snap = copy_tags(e.tags());
    let ghost e0 = e@;
    let mut i: usize = 0;
    while i < snap.len()
        invariant
            i <= snap.len(),
            tags_view(snap@) == e0.tags,
            e@ == (EntryView { tags: derive_all(e0.tags, m@, tags_view(snap@).take(i as int)), ..e0 }),
        decreases snap.len() - i,
    {
        assert(tags_view(snap@).take(i + 1).drop_last() =~= tags_view(snap@).take(i as int));
        let ghost e1 = e@;
        let mut j: usize = 0;
        while j < m.mappings.len()
            invariant
                i < snap.len(),
                j <= m.mappings.len(),
                e@ == (EntryView { tags: derive_one(e1.tags, m@.take(j as int), snap@[i as int]@), ..e1 }),
            decreases m.mappings.len() - j,
        {
            assert(m@.take(j + 1).drop_last() =~= m@.take(j as int));
            assert(m@[j as int] == (m.mappings@[j as int].key@, tags_view(m.mappings@[j as int].matches@)));
            if tag_in(&m.mappings[j].matches, &snap[i]) {
                e.add_tag(&m.mappings[j].key);
            }
            j += 1;
        }
        assert(m@.take(m.mappings.len() as int) =~= m@);
        assert(tags_view(snap@).take(i + 1).last() == snap@[i as int]@);
        i += 1;
    }
    assert(tags_view(snap@).take(snap.len() as int) =~= tags_view(snap@));
}

proof fn lemma_alias_hit_range(m: Seq<(Seq<char>, Seq<Seq<char>>)>, t: Seq<char>, j: int)
    ensures
        alias_hit(m, t, j) matches Some(k) ==> 0 <= j <= k < m.len(),
    decreases m.len() - j,
{
    if 0 <= j < m.len() && !m[j].1.contains(t) {
        lemma_alias_hit_range(m, t, j + 1);
    }
}

fn find_alias(m: &TagMap, t: &Tag) -> (res: Option<usize>)
    ensures
        res matches Some(j) ==> j < m@.len() && alias_hit(m@, t@, 0) == Some(j as int),
        res is None ==> alias_hit(m@, t@, 0) is None,
{
    let mut j: usize = 0;
    while j < m.mappings.len()
        invariant
            j <= m.mappings.len(),
            alias_hit(m@, t@, j as int) == alias_hit(m@, t@, 0),
        decreases m.mappings.len() - j,
    {
        assert(m@[j as int] == (m.mappings@[j as int].key@, tags_view(m.mappings@[j as int].matches@)));
        if tag_in(&m.mappings[j].matches, t) {
            return Some(j);
        }
        j += 1;
    }
    None
}

fn apply_aliases(m: &TagMap, e: &mut Entry)
    ensures
        final(e)@ == transform_spec(Transform::TagAliases(*m), old(e)@),
{
    let snap = copy_tags(e.tags());
    let ghost e0 = e@;
    let ghost ts = tags_view(snap@);
    let mut i: usize = 0;
    while i < snap.len()
        invariant
            i <= snap.len(),
            ts == tags_view(snap@),
            ts == e0.tags,
            e0 == old(e)@,
            e@ == (EntryView { tags: alias_all(e0.tags, m@, ts.take(i as int)), ..e0 }),
        decreases snap.len() - i,
    {
        assert(ts.take(i + 1).drop_last() =~= ts.take(i as int));
        assert(ts.take(i + 1).last() == snap@[i as int]@);
        match find_alias(m, &snap[i]) {
            Some(j) => {
                proof {
                    lemma_alias_hit_range(m@, snap@[i as int]@, 0);
                }
                let ghost prev = alias_all(e0.tags, m@, ts.take(i as int));
                let ghost t = snap@[i as int]@;
                e.remove_tag(&snap[i]);
                assert((|y: Seq<char>| y != snap@[i as int]@) =~= (|x: Seq<char>| x != t));
                assert(e@.tags == prev.filter(|x: Seq<char>| x != t));
                e.add_tag(&m.mappings[j].key);
                assert(m@[j as int].0 == m.mappings@[j as int].key@);
                assert(alias_all(e0.tags, m@, ts.take(i + 1)) == insert_tag_seq(prev.filter(|x: Seq<char>| x != t), m@[j as int].0));
            },
            None => {},
        }
        i += 1;
    }
    assert(ts.take(snap.len() as int) =~= ts);
}

/// The entry's primary feed name.
pub fn primary_feed_name_exec(e: &Entry) -> (res: String)
    ensures
        res@ == primary_feed_name(e@),
{
    let feeds = e.feeds();
    if feeds.len() > 0 {
        assert(feeds_view(feeds@)[0] == feeds@[0]@);
        feeds[0].name.clone()
    } else {
        String::new()
    }
}

fn replace_if_present(s: String, from: &str, to: &str) -> (res: String)
    requires
        from@.len() > 0,
    ensures
        res@ == replace_seq(s@, from@, to@),
{
    if contains_str(s.as_str(), from) {
        replace_str(s.as_str(), from, to)
    } else {
        proof {
            lemma_replace_absent(s@, from@, to@);
        }
        s
    }
}

proof fn lemma_replace_absent(s: Seq<char>, from: Seq<char>, to: Seq<char>)
    requires
        from.len() > 0,
        !contains_seq(s, from),
    ensures
        replace_seq(s, from, to) == s,
    decreases s.len(),
{
    if s.len() == 0 {
    } else {
        assert(!(s.subrange(0, from.len() as int) == from && from.len() <= s.len())) by {
            if from.len() <= s.len() && s.subrange(0, from.len() as int) == from {
                assert(crate::text::occurs_at(s, from, 0));
            }
        }
        let t = s.drop_first();
        assert(!contains_seq(t, from)) by {
            if contains_seq(t, from) {
                let i = choose|i: int| crate::text::occurs_at(t, from, i);
                assert(s.subrange(i + 1, i + 1 + from.len()) =~= t.subrange(i, i + from.len()));
                assert(crate::text::occurs_at(s, from, i + 1));
            }
        }
        lemma_replace_absent(t, from, to);
        assert(seq![s[0]] + t =~= s);
    }
}

fn apply_author(template: &String, e: &mut Entry)
    ensures
        final(e)@ == (EntryView { author: author_spec(template@, old(e)@), ..old(e)@ }),
{
    proof {
        reveal_strlit("{author}");
        reveal_strlit("{url}");
        reveal_strlit("{feed}");
        reveal_strlit("{feed_fallback}");
    }
    let feed = primary_feed_name_exec(e);
    let a = replace_if_present(template.clone(), "{author}", e.author().as_str());
    let a = replace_if_present(a, "{url}", e.source().url.as_str());
    let a = replace_if_present(a, "{feed}", feed.as_str());
    let fallback = if e.author().as_str().is_empty() { feed } else { e.author().clone() };
    let a = replace_if_present(a, "{feed_fallback}", fallback.as_str());
    e.set_author(a);
}

impl Transform {
    /// A copy of the transform.
    pub fn copy(&self) -> (res: Transform)
        ensures
            transform_key(res) == transform_key(*self),
    {
        match self {
            Transform::TagDerivations(m) => Transform::TagDerivations(m.copy()),
            Transform::TagAliases(m) => Transform::TagAliases(m.copy()),
            Transform::Author(t) => Transform::Author(t.clone()),
        }
    }

    /// Applies the transform to an entry.
    pub fn apply(&self, e: &mut Entry)
        ensures
            final(e)@ == transform_spec(*self, old(e)@),
    {
        match self {
            Transform::TagDerivations(m) => apply_derivations(m, e),
            Transform::TagAliases(m) => apply_aliases(m, e),
            Transform::Author(t) => apply_author(t, e),
        }
    }
}


impl TagMap {
    /// An empty map.
    pub fn new() -> (res: TagMap)
        ensures
            res@ == Seq::<(Seq<char>, Seq<Seq<char>>)>::empty(),
    {
        let m = TagMap { mappings: Vec::new() };
        assert(m@ =~= Seq::<(Seq<char>, Seq<Seq<char>>)>::empty());
        m
    }

    /// Appends a mapping.
    pub fn push(&mut self, key: Tag, matches: Vec<Tag>)
        ensures
            final(self)@ == old(self)@.push((key@, tags_view(matches@))),
    {
        let ghost before = self.mappings@;
        self.mappings.push(TagMapping { key, matches });
        assert(tag_map_view(self.mappings@) =~= tag_map_view(before).push((key@, tags_view(matches@))));
    }

    /// A copy of this map.
    pub fn copy(&self) -> (res: TagMap)
        ensures
            res@ == self@,
    {
        let mut out: Vec<TagMapping> = Vec::new();
        let mut i: usize = 0;
        while i < self.mappings.len()
            invariant
                i <= self.mappings.len(),
                tag_map_view(out@) == self@.take(i as int),
            decreases self.mappings.len() - i,
        {
            let ghost o0 = out@;
            out.push(TagMapping { key: self.mappings[i].key.clone(), matches: copy_tags(&self.mappings[i].matches) });
            assert(tag_map_view(out@) =~= tag_map_view(o0).push(self@[i as int]));
            assert(self@.take(i + 1) =~= self@.take(i as int).push(self@[i as int]));
            i += 1;
        }
        assert(self@.take(self.mappings.len() as int) =~= self@);
        TagMap { mappings: out }
    }
}

/// Transform configuration.
#[derive(Debug)]
pub struct TransformsConfig {
    /// Derivations add the key tag to entries carrying one of its tags.
    pub tag_derivations: Option<TagMap>,
    /// Aliases swap every tag some mapping lists for the key tag of the
    /// first mapping listing it.
    pub tag_aliases: Option<TagMap>,
    /// Author template.
    pub author: Option<String>,
}

/// The derivation transform configured, if any.
pub fn tag_derivations(derivations: &Option<TagMap>) -> (res: Option<Transform>)
    ensures
        match *derivations {
            Some(m) => res matches Some(Transform::TagDerivations(r)) && r@ == m@,
            None => res is None,
        },
{
    match derivations {
        Some(m) => Some(Transform::TagDerivations(m.copy())),
        None => None,
    }
}

/// The alias transform configured, if any.
pub fn tag_aliases(aliases: &Option<TagMap>) -> (res: Option<Transform>)
    ensures
        match *aliases {
            Some(m) => res matches Some(Transform::TagAliases(r)) && r@ == m@,
            None => res is None,
        },
{
    match aliases {
        Some(m) => Some(Transform::TagAliases(m.copy())),
        None => None,
    }
}

/// The author transform configured, if any.
pub fn author(template: &Option<String>) -> (res: Option<Transform>)
    ensures
        match *template {
            Some(t) => res matches Some(Transform::Author(r)) && r@ == t@,
            None => res is None,
        },
{
    match template {
        Some(t) => Some(Transform::Author(t.clone())),
        None => None,
    }
}

/// What a transform is: its kind (derivations 0, aliases 1, author 2),
/// its mappings and its template.
pub open spec fn transform_key(t: Transform) -> (int, Seq<(Seq<char>, Seq<Seq<char>>)>, Seq<char>) {
    match t {
        Transform::TagDerivations(m) => (0, m@, Seq::empty()),
        Transform::TagAliases(m) => (1, m@, Seq::empty()),
        Transform::Author(a) => (2, Seq::empty(), a@),
    }
}

/// The transforms a configuration gives, in the order derivations, aliases,
/// author.
pub open spec fn configured_transforms(c: TransformsConfig) -> Seq<(int, Seq<(Seq<char>, Seq<Seq<char>>)>, Seq<char>)> {
    (match c.tag_derivations { Some(m) => seq![(0int, m@, Seq::<char>::empty())], None => Seq::empty() })
        + configured_rest(c)
}

/// The alias and author transforms a configuration gives.
pub open spec fn configured_rest(c: TransformsConfig) -> Seq<(int, Seq<(Seq<char>, Seq<Seq<char>>)>, Seq<char>)> {
    (match c.tag_aliases { Some(m) => seq![(1int, m@, Seq::<char>::empty())], None => Seq::empty() })
        + (match c.author { Some(a) => seq![(2int, Seq::<(Seq<char>, Seq<Seq<char>>)>::empty(), a@)], None => Seq::empty() })
}

/// The keys of a sequence of transforms.
pub open spec fn transform_keys(ts: Seq<Transform>) -> Seq<(int, Seq<(Seq<char>, Seq<Seq<char>>)>, Seq<char>)> {
    ts.map_values(|t: Transform| transform_key(t))
}

impl TransformsConfig {
    /// No transforms.
    pub fn default() -> (res: TransformsConfig)
        ensures
            res.tag_derivations is None,
            res.tag_aliases is None,
            res.author is None,
    {
        TransformsConfig { tag_derivations: None, tag_aliases: None, author: None }
    }

    /// The transforms configured, in the order derivations, aliases, author.
    pub fn get_transforms(&self) -> (res: Vec<Transform>)
        ensures
            res@.len() == (if self.tag_derivations is Some { 1int } else { 0 })
                + (if self.tag_aliases is Some { 1int } else { 0 })
                + (if self.author is Some { 1int } else { 0 }),
            self.tag_derivations matches Some(m) ==> res@[0] matches Transform::TagDerivations(r) && r@ == m@,
            self.tag_aliases matches Some(m) ==> res@[(if self.tag_derivations is Some { 1int } else { 0 })] matches Transform::TagAliases(r) && r@ == m@,
            self.author matches Some(t) ==> res@[res@.len() - 1] matches Transform::Author(r) && r@ == t@,
            transform_keys(res@) == configured_transforms(*self),
    {
        let mut out: Vec<Transform> = Vec::new();
        if let Some(t) = tag_derivations(&self.tag_derivations) {
            out.push(t);
        }
        let ghost k0 = transform_keys(out@);
        if let Some(t) = tag_aliases(&self.tag_aliases) {
            out.push(t);
        }
        if let Some(t) = author(&self.author) {
            out.push(t);
        }
        proof {
            assert(configured_transforms(*self) =~= k0 + configured_rest(*self));
            assert(transform_keys(out@) =~= configured_transforms(*self));
        }
        out
    }
}

/// Applies transforms in order.
pub open spec fn transform_all(ts: Seq<Transform>, e: EntryView) -> EntryView
    decreases ts.len(),
{
    if ts.len() == 0 { e } else { transform_spec(ts.last(), transform_all(ts.drop_last(), e)) }
}

/// Applies each transform in order to the entry.
pub fn apply_transforms(ts: &Vec<Transform>, e: &mut Entry)
    ensures
        final(e)@ == transform_all(ts@, old(e)@),
{
    let mut i: usize = 0;
    while i < ts.len()
        invariant
            i <= ts.len(),
            e@ == transform_all(ts@.take(i as int), old(e)@),
        decreases ts.len() - i,
    {
        assert(ts@.take(i + 1).drop_last() =~= ts@.take(i as int));
        ts[i].apply(e);
        i += 1;
    }
    assert(ts@.take(ts.len() as int) =~= ts@);
}

} // verus!
