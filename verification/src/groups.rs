//! Grouping of entries in the reader.
use vstd::prelude::*;
use crate::entry::{has_tag_fuzzy_spec, Entry, EntryView};
use crate::read_config::ReadConfig;
use crate::tasks::entries_view;
use crate::text::{contains_seq, contains_str, lowercase, to_lower};

verus! {

/// What puts an entry in a group.
#[derive(Debug)]
pub enum GroupCriteria {
    /// The author contains the text, ignoring case.
    Author(String),
    /// Some feed's name contains the text, ignoring case.
    Feed(String),
    /// Some tag contains the text, ignoring case.
    Tag(String),
}

/// Whether an entry meets a criterion.
pub open spec fn criteria_matches(c: GroupCriteria, e: EntryView) -> bool {
    match c {
        GroupCriteria::Author(a) => contains_seq(lowercase(e.author), lowercase(a@)),
        GroupCriteria::Feed(f) => exists|i: int| 0 <= i < e.feeds.len() && contains_seq(lowercase(#[trigger] e.feeds[i].name), lowercase(f@)),
        GroupCriteria::Tag(t) => has_tag_fuzzy_spec(e, t@),
    }
}

impl GroupCriteria {
    /// Whether the entry meets the criterion.
    pub fn matches(&self, e: &Entry) -> (res: bool)
        ensures
            res == criteria_matches(*self, e@),
    {
        match self {
            GroupCriteria::Author(a) => {
                let author = to_lower(e.author().as_str());
                let want = to_lower(a.as_str());
                contains_str(author.as_str(), want.as_str())
            },
            GroupCriteria::Feed(f) => {
                let want = to_lower(f.as_str());
                let feeds = e.feeds();
                let ghost c = *self;
                let mut i: usize = 0;
                while i < feeds.len()
                    invariant
                        i <= feeds.len(),
                        c == *self,
                        c == GroupCriteria::Feed(*f),
                        want@ == lowercase(f@),
                        crate::entry::feeds_view(feeds@) == e@.feeds,
                        forall|k: int| 0 <= k < i ==> !contains_seq(lowercase(#[trigger] e@.feeds[k].name), lowercase(f@)),
                    decreases feeds.len() - i,
                {
                    assert(e@.feeds[i as int] == feeds@[i as int]@);
                    let name = to_lower(feeds[i].name.as_str());
                    if contains_str(name.as_str(), want.as_str()) {
                        assert(contains_seq(lowercase(e@.feeds[i as int].name), lowercase(f@)));
                        return true;
                    }
                    i += 1;
                }
                false
            },
            GroupCriteria::Tag(t) => e.has_tag_fuzzy(t.as_str()),
        }
    }
}

/// A group of entries and what puts entries in it.
#[derive(Debug)]
pub struct EntryGroup {
    pub criteria: Vec<GroupCriteria>,
    pub entries: Vec<Entry>,
}

impl EntryGroup {
    /// An empty group with the given criteria.
    pub fn new(criteria: Vec<GroupCriteria>) -> (res: EntryGroup)
        ensures
            res.criteria() == criteria@,
            res.entries@.len() == 0,
    {
        EntryGroup { criteria, entries: Vec::new() }
    }

    /// The group's criteria.
    pub open spec fn criteria(&self) -> Seq<GroupCriteria> {
        self.criteria@
    }

    /// An entry belongs to the group when it meets some criterion.
    pub fn belongs(&self, e: &Entry) -> (res: bool)
        ensures
            res == exists|i: int| 0 <= i < self.criteria().len() && criteria_matches(#[trigger] self.criteria()[i], e@),
    {
        let mut i: usize = 0;
        while i < self.criteria.len()
            invariant
                i <= self.criteria.len(),
                forall|k: int| 0 <= k < i ==> !criteria_matches(#[trigger] self.criteria@[k], e@),
            decreases self.criteria.len() - i,
        {
            if self.criteria[i].matches(e) {
                assert(criteria_matches(self.criteria()[i as int], e@));
                return true;
            }
            i += 1;
        }
        false
    }
}

/// The groups of the reader's entries.
#[derive(Debug)]
pub struct EntryGroupings {
    groups: Vec<EntryGroup>,
}

impl EntryGroupings {
    /// Every entry, in order, in a group of its own without criteria.
    pub fn new(entries: &Vec<Entry>, config: &ReadConfig) -> (res: EntryGroupings)
        ensures
            res.groups().len() == entries@.len(),
            forall|i: int| 0 <= i < entries@.len() ==> {
                &&& (#[trigger] res.groups()[i]).criteria().len() == 0
                &&& entries_view(res.groups()[i].entries@) == seq![entries@[i]@]
            },
    {
        let mut groups: Vec<EntryGroup> = Vec::new();
        let mut i: usize = 0;
        while i < entries.len()
            invariant
                i <= entries.len(),
                groups@.len() == i,
                forall|k: int| 0 <= k < i ==> {
                    &&& (#[trigger] groups@[k]).criteria().len() == 0
                    &&& entries_view(groups@[k].entries@) == seq![entries@[k]@]
                },
            decreases entries.len() - i,
        {
            let mut group = EntryGroup::new(Vec::new());
            group.entries.push(entries[i].clone());
            assert(entries_view(group.entries@) =~= seq![entries@[i as int]@]);
            groups.push(group);
            i += 1;
        }
        EntryGroupings { groups }
    }

    /// The groups, in order.
    pub closed spec fn groups(&self) -> Seq<EntryGroup> {
        self.groups@
    }
}

} // verus!
