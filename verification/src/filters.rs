//! Entry filters: which entries a feed, or the whole system, lets through.
//!
//! A filter is data: a list of items and the rule by which they are matched
//! against an entry. `Filters` is the configuration they are built from.
use vstd::prelude::*;
use crate::entry::{has_tag_fuzzy_spec, has_tag_spec, links_view, Entry, EntryView, LinkView};
use crate::text::{contains_seq, contains_str, lowercase, split_on, split_seq, to_lower};

verus! {

/// The part of an entry an item is looked for in.
#[derive(Clone, Copy, Debug, PartialEq, Eq, Structural)]
pub enum MatchField {
    /// Title, content or source link, as substrings, ignoring case.
    Any,
    /// Title, content or source link, lower-cased, by a regular expression.
    AnyRegex,
    /// The title, as a substring, ignoring case.
    Title,
    /// The content, as a substring, ignoring case.
    Content,
    /// The source link or any other link, as a substring, ignoring case.
    Links,
    /// Some tag contains the item, ignoring case.
    TagsFuzzy,
    /// Some tag equals the item, ignoring case.
    TagsStrict,
    /// Some space-separated word of the title equals the item, ignoring case.
    TitleWords,
    /// Some space-separated word of the content equals the item, ignoring case.
    ContentWords,
}

/// How a filter combines its items.
#[derive(Clone, Copy, Debug, PartialEq, Eq, Structural)]
pub enum FilterRule {
    /// Rejects an entry that matches any item.
    ExcludeAny,
    /// Rejects an entry that matches every item.
    ExcludeAll,
    /// Keeps only an entry that matches some item.
    IncludeAny,
    /// Keeps only an entry that matches every item.
    IncludeAll,
}

/// A filter over entries.
#[derive(Debug)]
pub struct EntryFilter {
    pub rule: FilterRule,
    pub field: MatchField,
    pub items: Vec<String>,
}

impl Clone for EntryFilter {
    fn clone(&self) -> (res: EntryFilter)
        ensures
            res@ == self@,
    {
        EntryFilter { rule: self.rule, field: self.field, items: copy_strings(&self.items) }
    }
}

/// The texts of a vector of strings.
pub open spec fn strings_view(v: Seq<String>) -> Seq<Seq<char>> {
    v.map_values(|s: String| s@)
}

/// What a filter is.
pub struct EntryFilterView {
    pub rule: FilterRule,
    pub field: MatchField,
    pub items: Seq<Seq<char>>,
}

impl View for EntryFilter {
    type V = EntryFilterView;

    open spec fn view(&self) -> EntryFilterView {
        EntryFilterView { rule: self.rule, field: self.field, items: strings_view(self.items@) }
    }
}

/// Whether `regex::Regex::new` accepts a pattern.
pub uninterp spec fn regex_valid(pattern: Seq<char>) -> bool;

/// What `regex::Regex::is_match` of the compiled pattern says of a text.
pub uninterp spec fn regex_is_match(pattern: Seq<char>, text: Seq<char>) -> bool;

/// `regex::Regex::new(pattern)` then, when it compiles, `is_match(text)`.
/// Compilation is named by `regex_valid`, matching by `regex_is_match`; the
/// regular-expression language itself is not stated.
#[verifier::external_body]
fn regex_search(pattern: &str, text: &str) -> (res: Option<bool>)
    ensures
        res is Some <==> regex_valid(pattern@),
        res matches Some(b) ==> b == regex_is_match(pattern@, text@),
{
    match regex::Regex::new(pattern) {
        Ok(re) => Some(re.is_match(text)),
        Err(_) => None,
    }
}

/// A regular expression that compiles and matches the text.
pub open spec fn regex_hit(pattern: Seq<char>, text: Seq<char>) -> bool {
    regex_valid(pattern) && regex_is_match(pattern, text)
}

/// Some word of `s` (split at spaces) equals `item`, both lower-cased.
pub open spec fn has_word(s: Seq<char>, item: Seq<char>) -> bool {
    exists|i: int| 0 <= i < split_seq(s, ' ').len() && lowercase(#[trigger] split_seq(s, ' ')[i]) == lowercase(item)
}

/// Whether an item matches an entry in a field.
pub open spec fn item_matches(field: MatchField, item: Seq<char>, e: EntryView) -> bool {
    match field {
        MatchField::Any => contains_seq(lowercase(e.title), item) || contains_seq(lowercase(e.content), item)
            || contains_seq(lowercase(e.source.url), item),
        MatchField::AnyRegex => regex_hit(item, lowercase(e.title)) || regex_hit(item, lowercase(e.content))
            || regex_hit(item, lowercase(e.source.url)),
        MatchField::Title => contains_seq(lowercase(e.title), item),
        MatchField::Content => contains_seq(lowercase(e.content), item),
        MatchField::Links => contains_seq(lowercase(e.source.url), item) || exists|k: int|
            0 <= k < e.other_links.len() && contains_seq(lowercase((#[trigger] e.other_links[k]).url), item),
        MatchField::TagsFuzzy => has_tag_fuzzy_spec(e, item),
        MatchField::TagsStrict => has_tag_spec(e, item),
        MatchField::TitleWords => has_word(e.title, item),
        MatchField::ContentWords => has_word(e.content, item),
    }
}

/// Some item matches the entry.
pub open spec fn any_matches(f: EntryFilterView, e: EntryView) -> bool {
    exists|i: int| 0 <= i < f.items.len() && item_matches(f.field, #[trigger] f.items[i], e)
}

/// Every item matches the entry.
pub open spec fn all_match(f: EntryFilterView, e: EntryView) -> bool {
    forall|i: int| 0 <= i < f.items.len() ==> item_matches(f.field, #[trigger] f.items[i], e)
}

/// Whether a filter lets an entry through.
pub open spec fn filter_passes(f: EntryFilterView, e: EntryView) -> bool {
    match f.rule {
        FilterRule::ExcludeAny => !any_matches(f, e),
        FilterRule::ExcludeAll => !all_match(f, e),
        FilterRule::IncludeAny => any_matches(f, e),
        FilterRule::IncludeAll => all_match(f, e),
    }
}

/// The views of a vector of filters.
pub open spec fn filters_view(v: Seq<EntryFilter>) -> Seq<EntryFilterView> {
    v.map_values(|f: EntryFilter| f@)
}

/// Every filter lets the entry through.
pub open spec fn passes_all(fs: Seq<EntryFilterView>, e: EntryView) -> bool {
    forall|i: int| 0 <= i < fs.len() ==> filter_passes(#[trigger] fs[i], e)
}

fn lower_contains(text: &str, item: &str) -> (res: bool)
    ensures
        res == contains_seq(lowercase(text@), item@),
{
    let l = to_lower(text);
    contains_str(l.as_str(), item)
}

fn regex_hit_exec(pattern: &str, text: &str) -> (res: bool)
    ensures
        res == regex_hit(pattern@, lowercase(text@)),
{
    let l = to_lower(text);
    match regex_search(pattern, l.as_str()) {
        Some(b) => b,
        None => false,
    }
}

fn has_word_exec(s: &str, item: &str) -> (res: bool)
    ensures
        res == has_word(s@, item@),
{
    let words = split_on(s, ' ');
    let target = to_lower(item);
    let mut i: usize = 0;
    while i < words.len()
        invariant
            i <= words.len(),
            words@.len() == split_seq(s@, ' ').len(),
            forall|k: int| 0 <= k < words@.len() ==> #[trigger] words@[k]@ == split_seq(s@, ' ')[k],
            target@ == lowercase(item@),
            forall|k: int| 0 <= k < i ==> lowercase(#[trigger] split_seq(s@, ' ')[k]) != lowercase(item@),
        decreases words.len() - i,
    {
        let w = to_lower(words[i].as_str());
        if w == target {
            assert(words@[i as int]@ == split_seq(s@, ' ')[i as int]);
            return true;
        }
        assert(words@[i as int]@ == split_seq(s@, ' ')[i as int]);
        i += 1;
    }
    false
}

/// Whether an item matches an entry in a field.
pub fn item_matches_exec(field: MatchField, item: &str, e: &Entry) -> (res: bool)
    ensures
        res == item_matches(field, item@, e@),
{
    match field {
        MatchField::Any => {
            lower_contains(e.title().as_str(), item) || lower_contains(e.content().as_str(), item)
                || lower_contains(e.source().url.as_str(), item)
        },
        MatchField::AnyRegex => {
            regex_hit_exec(item, e.title().as_str()) || regex_hit_exec(item, e.content().as_str())
                || regex_hit_exec(item, e.source().url.as_str())
        },
        MatchField::Title => lower_contains(e.title().as_str(), item),
        MatchField::Content => lower_contains(e.content().as_str(), item),
        MatchField::Links => {
            if lower_contains(e.source().url.as_str(), item) {
                return true;
            }
            let links = e.other_links();
            let mut k: usize = 0;
            while k < links.len()
                invariant
                    k <= links.len(),
                    field == MatchField::Links,
                    !contains_seq(lowercase(e@.source.url), item@),
                    links_view(links@) == e@.other_links,
                    forall|j: int| 0 <= j < k ==> !contains_seq(lowercase((#[trigger] e@.other_links[j]).url), item@),
                decreases links.len() - k,
            {
                assert(e@.other_links[k as int] == links@[k as int]@);
                if lower_contains(links[k].url.as_str(), item) {
                    assert(contains_seq(lowercase(e@.other_links[k as int].url), item@));
                    return true;
                }
                k += 1;
            }
            false
        },
        MatchField::TagsFuzzy => e.has_tag_fuzzy(item),
        MatchField::TagsStrict => e.has_tag(item),
        MatchField::TitleWords => has_word_exec(e.title().as_str(), item),
        MatchField::ContentWords => has_word_exec(e.content().as_str(), item),
    }
}

impl EntryFilter {
    /// Whether this filter lets the entry through.
    pub fn passes(&self, e: &Entry) -> (res: bool)
        ensures
            res == filter_passes(self@, e@),
    {
        let mut any = false;
        let mut all = true;
        let mut i: usize = 0;
        while i < self.items.len()
            invariant
                i <= self.items.len(),
                any == (exists|k: int| 0 <= k < i && item_matches(self.field, #[trigger] self@.items[k], e@)),
                all == (forall|k: int| 0 <= k < i ==> item_matches(self.field, #[trigger] self@.items[k], e@)),
            decreases self.items.len() - i,
        {
            let m = item_matches_exec(self.field, self.items[i].as_str(), e);
            assert(self@.items[i as int] == self.items@[i as int]@);
            if m {
                any = true;
            } else {
                all = false;
            }
            i += 1;
        }
        match self.rule {
            FilterRule::ExcludeAny => !any,
            FilterRule::ExcludeAll => !all,
            FilterRule::IncludeAny => any,
            FilterRule::IncludeAll => all,
        }
    }
}

/// Whether every filter lets the entry through.
pub fn passes_filters(filters: &Vec<EntryFilter>, e: &Entry) -> (res: bool)
    ensures
        res == passes_all(filters_view(filters@), e@),
{
    let mut i: usize = 0;
    while i < filters.len()
        invariant
            i <= filters.len(),
            forall|k: int| 0 <= k < i ==> filter_passes(#[trigger] filters_view(filters@)[k], e@),
        decreases filters.len() - i,
    {
        if !filters[i].passes(e) {
            assert(filters_view(filters@)[i as int] == filters@[i as int]@);
            return false;
        }
        assert(filters_view(filters@)[i as int] == filters@[i as int]@);
        i += 1;
    }
    true
}

/// The lower-cased texts of a vector of strings.
pub open spec fn lowered(v: Seq<Seq<char>>) -> Seq<Seq<char>> {
    v.map_values(|s: Seq<char>| lowercase(s))
}

/// Lower-cases each string.
pub fn lower_all(items: &Vec<String>) -> (res: Vec<String>)
    ensures
        strings_view(res@) == lowered(strings_view(items@)),
{
    let mut out: Vec<String> = Vec::new();
    let mut i: usize = 0;
    while i < items.len()
        invariant
            i <= items.len(),
            strings_view(out@) == lowered(strings_view(items@.take(i as int))),
        decreases items.len() - i,
    {
        let ghost o0 = out@;
        out.push(to_lower(items[i].as_str()));
        assert(strings_view(items@.take(i + 1)) =~= strings_view(items@.take(i as int)).push(items@[i as int]@));
        assert(strings_view(out@) =~= strings_view(o0).push(lowercase(items@[i as int]@)));
        assert(lowered(strings_view(items@.take(i + 1))) =~= lowered(strings_view(items@.take(i as int))).push(lowercase(items@[i as int]@)));
        i += 1;
    }
    assert(items@.take(items.len() as int) =~= items@);
    out
}

/// A copy of a vector of strings.
pub fn copy_strings(items: &Vec<String>) -> (res: Vec<String>)
    ensures
        strings_view(res@) == strings_view(items@),
{
    let mut out: Vec<String> = Vec::new();
    let mut i: usize = 0;
    while i < items.len()
        invariant
            i <= items.len(),
            strings_view(out@) == strings_view(items@.take(i as int)),
        decreases items.len() - i,
    {
        let ghost o0 = out@;
        out.push(items[i].clone());
        assert(strings_view(items@.take(i + 1)) =~= strings_view(items@.take(i as int)).push(items@[i as int]@));
        assert(strings_view(out@) =~= strings_view(o0).push(items@[i as int]@));
        i += 1;
    }
    assert(items@.take(items.len() as int) =~= items@);
    out
}

/// The view of optional configured items.
pub open spec fn opt_items(items: Option<Vec<String>>) -> Option<Seq<Seq<char>>> {
    match items {
        Some(v) => Some(strings_view(v@)),
        None => None,
    }
}

/// The filter that configured items give: none when unconfigured; the items
/// lower-cased, unless they are regular expressions.
pub open spec fn filter_of(items: Option<Seq<Seq<char>>>, rule: FilterRule, field: MatchField) -> Option<EntryFilterView> {
    match items {
        Some(v) => Some(EntryFilterView {
            rule,
            field,
            items: if field == MatchField::AnyRegex { v } else { lowered(v) },
        }),
        None => None,
    }
}

/// The view of an optional filter.
pub open spec fn opt_filter_view(f: Option<EntryFilter>) -> Option<EntryFilterView> {
    match f {
        Some(v) => Some(v@),
        None => None,
    }
}

/// Builds the filter for configured items.
pub fn make_filter(items: &Option<Vec<String>>, rule: FilterRule, field: MatchField) -> (res: Option<EntryFilter>)
    ensures
        opt_filter_view(res) == filter_of(opt_items(*items), rule, field),
{
    match items {
        Some(v) => {
            let its = if field == MatchField::AnyRegex { copy_strings(v) } else { lower_all(v) };
            Some(EntryFilter { rule, field, items: its })
        },
        None => None,
    }
}

/// Rejects entries containing any item in title, content or source link.
pub fn exclude(items: &Option<Vec<String>>) -> (res: Option<EntryFilter>)
    ensures
        opt_filter_view(res) == filter_of(opt_items(*items), FilterRule::ExcludeAny, MatchField::Any),
{
    make_filter(items, FilterRule::ExcludeAny, MatchField::Any)
}

/// Keeps entries containing some item in title, content or source link.
pub fn include_any(items: &Option<Vec<String>>) -> (res: Option<EntryFilter>)
    ensures
        opt_filter_view(res) == filter_of(opt_items(*items), FilterRule::IncludeAny, MatchField::Any),
{
    make_filter(items, FilterRule::IncludeAny, MatchField::Any)
}

/// Rejects entries matching any regular expression.
pub fn exclude_re(items: &Option<Vec<String>>) -> (res: Option<EntryFilter>)
    ensures
        opt_filter_view(res) == filter_of(opt_items(*items), FilterRule::ExcludeAny, MatchField::AnyRegex),
{
    make_filter(items, FilterRule::ExcludeAny, MatchField::AnyRegex)
}

/// Keeps entries matching some regular expression.
pub fn include_re(items: &Option<Vec<String>>) -> (res: Option<EntryFilter>)
    ensures
        opt_filter_view(res) == filter_of(opt_items(*items), FilterRule::IncludeAny, MatchField::AnyRegex),
{
    make_filter(items, FilterRule::IncludeAny, MatchField::AnyRegex)
}

/// Rejects entries containing every item.
pub fn exclude_all(items: &Option<Vec<String>>) -> (res: Option<EntryFilter>)
    ensures
        opt_filter_view(res) == filter_of(opt_items(*items), FilterRule::ExcludeAll, MatchField::Any),
{
    make_filter(items, FilterRule::ExcludeAll, MatchField::Any)
}

/// Keeps entries containing every item.
pub fn include_all(items: &Option<Vec<String>>) -> (res: Option<EntryFilter>)
    ensures
        opt_filter_view(res) == filter_of(opt_items(*items), FilterRule::IncludeAll, MatchField::Any),
{
    make_filter(items, FilterRule::IncludeAll, MatchField::Any)
}

/// Rejects entries whose title contains any item.
pub fn exclude_titles(items: &Option<Vec<String>>) -> (res: Option<EntryFilter>)
    ensures
        opt_filter_view(res) == filter_of(opt_items(*items), FilterRule::ExcludeAny, MatchField::Title),
{
    make_filter(items, FilterRule::ExcludeAny, MatchField::Title)
}

/// Keeps entries whose title contains some item.
pub fn include_titles(items: &Option<Vec<String>>) -> (res: Option<EntryFilter>)
    ensures
        opt_filter_view(res) == filter_of(opt_items(*items), FilterRule::IncludeAny, MatchField::Title),
{
    make_filter(items, FilterRule::IncludeAny, MatchField::Title)
}

/// Rejects entries whose content contains any item.
pub fn exclude_contents(items: &Option<Vec<String>>) -> (res: Option<EntryFilter>)
    ensures
        opt_filter_view(res) == filter_of(opt_items(*items), FilterRule::ExcludeAny, MatchField::Content),
{
    make_filter(items, FilterRule::ExcludeAny, MatchField::Content)
}

/// Keeps entries whose content contains some item.
pub fn include_contents(items: &Option<Vec<String>>) -> (res: Option<EntryFilter>)
    ensures
        opt_filter_view(res) == filter_of(opt_items(*items), FilterRule::IncludeAny, MatchField::Content),
{
    make_filter(items, FilterRule::IncludeAny, MatchField::Content)
}

/// Rejects entries with a link containing any item.
pub fn exclude_links(items: &Option<Vec<String>>) -> (res: Option<EntryFilter>)
    ensures
        opt_filter_view(res) == filter_of(opt_items(*items), FilterRule::ExcludeAny, MatchField::Links),
{
    make_filter(items, FilterRule::ExcludeAny, MatchField::Links)
}

/// Keeps entries with a link containing some item.
pub fn include_links(items: &Option<Vec<String>>) -> (res: Option<EntryFilter>)
    ensures
        opt_filter_view(res) == filter_of(opt_items(*items), FilterRule::IncludeAny, MatchField::Links),
{
    make_filter(items, FilterRule::IncludeAny, MatchField::Links)
}

/// Rejects entries with a tag containing any item.
pub fn exclude_tags(items: &Option<Vec<String>>) -> (res: Option<EntryFilter>)
    ensures
        opt_filter_view(res) == filter_of(opt_items(*items), FilterRule::ExcludeAny, MatchField::TagsFuzzy),
{
    make_filter(items, FilterRule::ExcludeAny, MatchField::TagsFuzzy)
}

/// Keeps entries with a tag containing some item.
pub fn include_tags(items: &Option<Vec<String>>) -> (res: Option<EntryFilter>)
    ensures
        opt_filter_view(res) == filter_of(opt_items(*items), FilterRule::IncludeAny, MatchField::TagsFuzzy),
{
    make_filter(items, FilterRule::IncludeAny, MatchField::TagsFuzzy)
}

/// Rejects entries with a tag equal to any item.
pub fn exclude_tags_strict(items: &Option<Vec<String>>) -> (res: Option<EntryFilter>)
    ensures
        opt_filter_view(res) == filter_of(opt_items(*items), FilterRule::ExcludeAny, MatchField::TagsStrict),
{
    make_filter(items, FilterRule::ExcludeAny, MatchField::TagsStrict)
}

/// Keeps entries with a tag equal to some item.
pub fn include_tags_strict(items: &Option<Vec<String>>) -> (res: Option<EntryFilter>)
    ensures
        opt_filter_view(res) == filter_of(opt_items(*items), FilterRule::IncludeAny, MatchField::TagsStrict),
{
    make_filter(items, FilterRule::IncludeAny, MatchField::TagsStrict)
}

/// Filter configuration.
#[derive(Debug)]
pub struct Filters {
    pub exclude: Option<Vec<String>>,
    pub must_include: Option<Vec<String>>,
    pub exclude_re: Option<Vec<String>>,
    pub include_re: Option<Vec<String>>,
    pub exclude_all: Option<Vec<String>>,
    pub include_all: Option<Vec<String>>,
    pub exclude_titles: Option<Vec<String>>,
    pub include_titles: Option<Vec<String>>,
    pub exclude_contents: Option<Vec<String>>,
    pub include_contents: Option<Vec<String>>,
    pub exclude_links: Option<Vec<String>>,
    pub include_links: Option<Vec<String>>,
    pub exclude_tags: Option<Vec<String>>,
    pub include_tags: Option<Vec<String>>,
    pub exclude_tags_strict: Option<Vec<String>>,
    pub include_tags_strict: Option<Vec<String>>,
}

/// The configured filters in the order they apply; unconfigured ones are
/// skipped.
pub open spec fn configured(fs: Seq<Option<EntryFilterView>>) -> Seq<EntryFilterView>
    decreases fs.len(),
{
    if fs.len() == 0 {
        Seq::empty()
    } else {
        match fs.last() {
            Some(f) => configured(fs.drop_last()).push(f),
            None => configured(fs.drop_last()),
        }
    }
}

impl Filters {
    /// The filter each configuration field gives, in order.
    pub open spec fn each_filter(self) -> Seq<Option<EntryFilterView>> {
        seq![
            filter_of(opt_items(self.exclude), FilterRule::ExcludeAny, MatchField::Any),
            filter_of(opt_items(self.must_include), FilterRule::IncludeAny, MatchField::Any),
            filter_of(opt_items(self.exclude_re), FilterRule::ExcludeAny, MatchField::AnyRegex),
            filter_of(opt_items(self.include_re), FilterRule::IncludeAny, MatchField::AnyRegex),
            filter_of(opt_items(self.exclude_all), FilterRule::ExcludeAll, MatchField::Any),
            filter_of(opt_items(self.include_all), FilterRule::IncludeAll, MatchField::Any),
            filter_of(opt_items(self.exclude_titles), FilterRule::ExcludeAny, MatchField::Title),
            filter_of(opt_items(self.include_titles), FilterRule::IncludeAny, MatchField::Title),
            filter_of(opt_items(self.exclude_contents), FilterRule::ExcludeAny, MatchField::Content),
            filter_of(opt_items(self.include_contents), FilterRule::IncludeAny, MatchField::Content),
            filter_of(opt_items(self.exclude_links), FilterRule::ExcludeAny, MatchField::Links),
            filter_of(opt_items(self.include_links), FilterRule::IncludeAny, MatchField::Links),
            filter_of(opt_items(self.exclude_tags), FilterRule::ExcludeAny, MatchField::TagsFuzzy),
            filter_of(opt_items(self.include_tags), FilterRule::IncludeAny, MatchField::TagsFuzzy),
            filter_of(opt_items(self.exclude_tags_strict), FilterRule::ExcludeAny, MatchField::TagsStrict),
            filter_of(opt_items(self.include_tags_strict), FilterRule::IncludeAny, MatchField::TagsStrict),
        ]
    }

    /// No filter configured.
    pub fn default() -> (res: Filters)
        ensures
            res.each_filter() == Seq::new(16, |i: int| None::<EntryFilterView>),
    {
        let f = Filters {
            exclude: None,
            must_include: None,
            exclude_re: None,
            include_re: None,
            exclude_all: None,
            include_all: None,
            exclude_titles: None,
            include_titles: None,
            exclude_contents: None,
            include_contents: None,
            exclude_links: None,
            include_links: None,
            exclude_tags: None,
            include_tags: None,
            exclude_tags_strict: None,
            include_tags_strict: None,
        };
        assert(f.each_filter() =~= Seq::new(16, |i: int| None::<EntryFilterView>));
        f
    }

    /// The filters this configuration gives.
    pub fn get_filters(&self) -> (res: Vec<EntryFilter>)
        ensures
            filters_view(res@) == configured(self.each_filter()),
    {
        let mut out: Vec<EntryFilter> = Vec::new();
        let ghost each = self.each_filter();
        let cands = [
            exclude(&self.exclude),
            include_any(&self.must_include),
            exclude_re(&self.exclude_re),
            include_re(&self.include_re),
            exclude_all(&self.exclude_all),
            include_all(&self.include_all),
            exclude_titles(&self.exclude_titles),
            include_titles(&self.include_titles),
            exclude_contents(&self.exclude_contents),
            include_contents(&self.include_contents),
            exclude_links(&self.exclude_links),
            include_links(&self.include_links),
            exclude_tags(&self.exclude_tags),
            include_tags(&self.include_tags),
            exclude_tags_strict(&self.exclude_tags_strict),
            include_tags_strict(&self.include_tags_strict),
        ];
        let ghost cv = cands@.map_values(|f: Option<EntryFilter>| opt_filter_view(f));
        assert(cv =~= each);
        let mut i: usize = 0;
        while i < 16
            invariant
                i <= 16,
                cands@.len() == 16,
                cv == cands@.map_values(|f: Option<EntryFilter>| opt_filter_view(f)),
                filters_view(out@) == configured(cv.take(i as int)),
            decreases 16 - i,
        {
            assert(cv.take(i + 1).drop_last() =~= cv.take(i as int));
            match &cands[i] {
                Some(f) => {
                    let ghost o0 = out@;
                    out.push(f.clone());
                    assert(filters_view(out@) =~= filters_view(o0).push(f@));
                },
                None => {},
            }
            i += 1;
        }
        assert(cv.take(16) =~= cv);
        out
    }
}

} // verus!
