//! Tasks of the task manager: what a feed fetch asks of the database and
//! which of the stored entries it returns, and the contexts and messages of
//! background tasks.
use vstd::prelude::*;
use crate::commands::{Commandish, CustomCommandResult};
use crate::database::{DatabaseSearch, OffsetCursor};
use crate::datetime::DateTime;
use crate::entry::{date_instant, Entry, EntryView, FeedRef, FeedRefView, Tag};
use crate::filters::{filters_view, passes_all, passes_filters, EntryFilter, EntryFilterView};
use crate::options::FeedOptions;

verus! {

/// Events on which configured commands run.
#[derive(Clone, Copy, Debug, PartialEq, Eq, Structural, Hash)]
pub enum Hook {
    OnInsert,
    OnUpdate,
    OnRead,
    OnTag,
    OnFetch,
}

/// The options behind an optional reference.
pub open spec fn deref_opt(o: Option<&FeedOptions>) -> Option<FeedOptions> {
    match o {
        Some(f) => Some(*f),
        None => None,
    }
}

/// What a feed fetch asks for.
#[derive(Debug)]
pub enum FeedFetchOptions {
    /// Every feed.
    All { since: Option<DateTime>, modified_since: Option<DateTime> },
    /// One feed, by name.
    Feed { feed: String, modified_since: Option<DateTime> },
    /// Entries carrying a tag.
    Tag { tag: String, modified_since: Option<DateTime> },
}

/// The database search a fetch runs, and how many entries it returns.
#[derive(Debug)]
pub struct FetchPlan {
    pub criteria: Vec<DatabaseSearch>,
    pub max_length: usize,
    pub cursor: OffsetCursor,
    /// At most this many entries are returned.
    pub list_max: usize,
}

/// The cursor of a fetch of every feed: after `since`, or modified after
/// `modified_since`, or the latest when both or neither are given.
pub open spec fn all_cursor(since: Option<DateTime>, modified_since: Option<DateTime>) -> OffsetCursor {
    match (since, modified_since) {
        (Some(s), None) => OffsetCursor::After(s),
        (None, Some(m)) => OffsetCursor::ModifiedAfter(m),
        _ => OffsetCursor::LatestTimestamp,
    }
}

/// The cursor for entries modified since an optional instant.
pub open spec fn since_cursor(m: Option<DateTime>) -> OffsetCursor {
    match m {
        Some(d) => OffsetCursor::ModifiedAfter(d),
        None => OffsetCursor::LatestTimestamp,
    }
}

/// The plan of a fetch: every feed by latest entries, a tag or a feed by
/// name, limited by the global maximum; the entries returned are limited by
/// the global maximum, or the feed's own for a feed. A feed the manager does
/// not know (`feed_options` is `None`) is fetched by no plan.
pub open spec fn plan_spec(options: FeedFetchOptions, global: FeedOptions, feed_options: Option<FeedOptions>) -> Option<(Seq<DatabaseSearch>, int, OffsetCursor, int)> {
    let gmax: int = match global.max { Some(m) => m as int, None => 1024 };
    match options {
        FeedFetchOptions::All { since, modified_since } =>
            Some((seq![DatabaseSearch::Latest], gmax, all_cursor(since, modified_since), gmax)),
        FeedFetchOptions::Tag { tag, modified_since } =>
            Some((seq![DatabaseSearch::Tag(tag)], gmax, since_cursor(modified_since), gmax)),
        FeedFetchOptions::Feed { feed, modified_since } => match feed_options {
            Some(f) => Some((
                seq![DatabaseSearch::Feed(feed)],
                gmax,
                since_cursor(modified_since),
                match f.max { Some(m) => m as int, None => 1024 },
            )),
            None => None,
        },
    }
}

/// The criteria views of a plan, by their texts.
pub open spec fn search_view(c: DatabaseSearch) -> (int, Seq<char>) {
    match c {
        DatabaseSearch::Latest => (0, Seq::empty()),
        DatabaseSearch::Tag(t) => (4, t@),
        DatabaseSearch::Feed(f) => (6, f@),
        _ => (-1, Seq::empty()),
    }
}

/// Two cursors are the same.
pub open spec fn same_cursor(a: OffsetCursor, b: OffsetCursor) -> bool {
    match (a, b) {
        (OffsetCursor::LatestTimestamp, OffsetCursor::LatestTimestamp) => true,
        (OffsetCursor::LatestId, OffsetCursor::LatestId) => true,
        (OffsetCursor::Before(x), OffsetCursor::Before(y)) => x@ == y@,
        (OffsetCursor::After(x), OffsetCursor::After(y)) => x@ == y@,
        (OffsetCursor::ModifiedAfter(x), OffsetCursor::ModifiedAfter(y)) => x@ == y@,
        _ => false,
    }
}

/// The plan for a fetch.
pub fn fetch_plan(options: &FeedFetchOptions, global: &FeedOptions, feed_options: Option<&FeedOptions>) -> (res: Option<FetchPlan>)
    ensures
        res is Some <==> plan_spec(*options, *global, deref_opt(feed_options)) is Some,
        res matches Some(p) ==> {
            let q = plan_spec(*options, *global, deref_opt(feed_options))->0;
            &&& p.criteria@.len() == 1
            &&& search_view(p.criteria@[0]) == search_view(q.0[0])
            &&& p.max_length == q.1
            &&& same_cursor(p.cursor, q.2)
            &&& p.list_max == q.3
        },
{
    let gmax = global.max();
    match options {
        FeedFetchOptions::All { since, modified_since } => {
            let cursor = match (since, modified_since) {
                (Some(s), None) => OffsetCursor::After(*s),
                (None, Some(m)) => OffsetCursor::ModifiedAfter(*m),
                _ => OffsetCursor::LatestTimestamp,
            };
            Some(FetchPlan { criteria: vec![DatabaseSearch::Latest], max_length: gmax, cursor, list_max: gmax })
        },
        FeedFetchOptions::Tag { tag, modified_since } => {
            Some(FetchPlan {
                criteria: vec![DatabaseSearch::Tag(tag.clone())],
                max_length: gmax,
                cursor: OffsetCursor::modified_since(*modified_since),
                list_max: gmax,
            })
        },
        FeedFetchOptions::Feed { feed, modified_since } => match feed_options {
            Some(f) => Some(FetchPlan {
                criteria: vec![DatabaseSearch::Feed(feed.clone())],
                max_length: gmax,
                cursor: OffsetCursor::modified_since(*modified_since),
                list_max: f.max(),
            }),
            None => None,
        },
    }
}

/// Whether a fetch returns a stored entry at `now`: it is not too old for
/// the global options, nor (for a feed) for the feed's own; it passes the
/// global filters, which apply to every feed; and (for a fetch of every
/// feed) it passes the filters of the all-feed.
pub open spec fn keep_fetched(
    options: FeedFetchOptions,
    e: EntryView,
    now: int,
    global: FeedOptions,
    feed_options: Option<FeedOptions>,
    global_filters: Seq<EntryFilterView>,
    all_filters: Seq<EntryFilterView>,
) -> bool {
    let date = date_instant(e.date);
    &&& !(now > date + global.oldest_span())
    &&& passes_all(global_filters, e)
    &&& match options {
        FeedFetchOptions::All { .. } => passes_all(all_filters, e),
        FeedFetchOptions::Tag { .. } => true,
        FeedFetchOptions::Feed { .. } => match feed_options {
            Some(f) => !(now > date + f.oldest_span()),
            None => true,
        },
    }
}

/// The kept entries of `s`, in order.
pub open spec fn kept_entries(
    s: Seq<EntryView>,
    options: FeedFetchOptions,
    now: int,
    global: FeedOptions,
    feed_options: Option<FeedOptions>,
    global_filters: Seq<EntryFilterView>,
    all_filters: Seq<EntryFilterView>,
) -> Seq<EntryView>
    decreases s.len(),
{
    if s.len() == 0 {
        Seq::empty()
    } else {
        let r = kept_entries(s.drop_last(), options, now, global, feed_options, global_filters, all_filters);
        if keep_fetched(options, s.last(), now, global, feed_options, global_filters, all_filters) { r.push(s.last()) } else { r }
    }
}

/// The first `max` elements of `s`, or all of them.
pub open spec fn capped<T>(s: Seq<T>, max: int) -> Seq<T> {
    if s.len() <= max { s } else { s.take(max) }
}

/// The views of a list of entries.
pub open spec fn entries_view(v: Seq<Entry>) -> Seq<EntryView> {
    v.map_values(|e: Entry| e@)
}

/// The entries a fetch returns from those the database gave: the kept ones,
/// in order, up to the list's maximum. Each of them passes the global
/// filters.
pub fn select_fetched(
    options: &FeedFetchOptions,
    fetched: &Vec<Entry>,
    now: &DateTime,
    global: &FeedOptions,
    feed_options: Option<&FeedOptions>,
    global_filters: &Vec<EntryFilter>,
    all_filters: &Vec<EntryFilter>,
    list_max: usize,
) -> (res: Vec<Entry>)
    ensures
        entries_view(res@) == capped(
            kept_entries(entries_view(fetched@), *options, now@, *global, deref_opt(feed_options), filters_view(global_filters@), filters_view(all_filters@)),
            list_max as int,
        ),
        forall|k: int| 0 <= k < res@.len() ==> passes_all(filters_view(global_filters@), (#[trigger] res@[k])@),
{
    let ghost fo = deref_opt(feed_options);
    let ghost gv = filters_view(global_filters@);
    let ghost fv = filters_view(all_filters@);
    let ghost src = entries_view(fetched@);
    let mut out: Vec<Entry> = Vec::new();
    let mut i: usize = 0;
    while i < fetched.len()
        invariant
            i <= fetched.len(),
            src == entries_view(fetched@),
            fo == deref_opt(feed_options),
            gv == filters_view(global_filters@),
            fv == filters_view(all_filters@),
            entries_view(out@) == capped(kept_entries(src.take(i as int), *options, now@, *global, fo, gv, fv), list_max as int),
            forall|k: int| 0 <= k < out@.len() ==> passes_all(gv, (#[trigger] out@[k])@),
        decreases fetched.len() - i,
    {
        let e = &fetched[i];
        let ghost prev = kept_entries(src.take(i as int), *options, now@, *global, fo, gv, fv);
        assert(src.take(i + 1).drop_last() =~= src.take(i as int));
        assert(src.take(i + 1).last() == e@);
        let date = e.date();
        let mut keep = !global.too_old_at(&date, now) && passes_filters(global_filters, e);
        if keep {
            match options {
                FeedFetchOptions::All { .. } => {
                    keep = passes_filters(all_filters, e);
                },
                FeedFetchOptions::Tag { .. } => {},
                FeedFetchOptions::Feed { .. } => {
                    if let Some(f) = feed_options {
                        keep = !f.too_old_at(&date, now);
                    }
                },
            }
        }
        if keep {
            if out.len() < list_max {
                let ghost o0 = entries_view(out@);
                out.push(e.clone());
                assert(entries_view(out@) =~= o0.push(e@));
                assert(out@[out@.len() - 1]@ == e@);
                assert(prev.len() < list_max);
                assert(prev.push(e@).len() <= list_max);
            } else {
                assert(prev.len() >= list_max);
                assert(prev.push(e@).take(list_max as int) =~= capped(prev, list_max as int));
            }
        }
        i += 1;
    }
    assert(src.take(fetched.len() as int) =~= src);
    out
}

/// The context a task runs in: the entry and feed it concerns.
#[derive(Debug)]
pub struct Context {
    pub entry_id: Option<u32>,
    pub feed_ref: Option<FeedRef>,
}

impl Context {
    /// Concerns nothing.
    pub fn default() -> (res: Context)
        ensures
            res.entry_id is None,
            res.feed_ref is None,
    {
        Context { entry_id: None, feed_ref: None }
    }

    /// Concerns an entry.
    pub fn with_entry_id(entry_id: u32) -> (res: Context)
        ensures
            res.entry_id == Some(entry_id),
            res.feed_ref is None,
    {
        Context { entry_id: Some(entry_id), feed_ref: None }
    }

    /// Concerns a feed.
    pub fn with_feed_ref(feed_ref: FeedRef) -> (res: Context)
        ensures
            res.entry_id is None,
            res.feed_ref matches Some(f) && f@ == feed_ref@,
    {
        Context { entry_id: None, feed_ref: Some(feed_ref) }
    }

    /// Concerns the entry, if any.
    pub fn from_entry_id(entry_id: Option<u32>) -> (res: Context)
        ensures
            res.entry_id == entry_id,
            res.feed_ref is None,
    {
        match entry_id {
            Some(id) => Context::with_entry_id(id),
            None => Context::default(),
        }
    }
}

/// Builds a task context.
#[derive(Debug)]
pub struct ContextBuilder {
    task_execution: Context,
}

/// What a context is.
pub open spec fn context_view(c: Context) -> (Option<u32>, Option<FeedRefView>) {
    (c.entry_id, match c.feed_ref { Some(f) => Some(f@), None => None })
}

impl ContextBuilder {
    /// A builder of a context that concerns nothing.
    pub fn new() -> (res: ContextBuilder)
        ensures
            context_view(res.context()) == (None::<u32>, None::<FeedRefView>),
    {
        ContextBuilder { task_execution: Context::default() }
    }

    /// The context being built.
    pub closed spec fn context(self) -> Context {
        self.task_execution
    }

    /// The context.
    pub fn build(self) -> (res: Context)
        ensures
            context_view(res) == context_view(self.context()),
    {
        self.task_execution
    }

    /// Sets the entry.
    pub fn entry_id(self, entry_id: u32) -> (res: ContextBuilder)
        ensures
            context_view(res.context()) == (Some(entry_id), context_view(self.context()).1),
    {
        let mut b = self;
        b.task_execution.entry_id = Some(entry_id);
        b
    }

    /// Sets the feed.
    pub fn feed_ref(self, feed_ref: FeedRef) -> (res: ContextBuilder)
        ensures
            context_view(res.context()) == (context_view(self.context()).0, Some(feed_ref@)),
    {
        let mut b = self;
        b.task_execution.feed_ref = Some(feed_ref);
        b
    }
}

/// Background tasks that record something.
#[derive(Debug)]
pub enum BackgroundTaskUpdate {
    EntryTagUpdate { ctx: Context, tags: Vec<Tag> },
    CommandUpdate { ctx: Context, result: CustomCommandResult },
}

/// Background tasks that run something.
#[derive(Debug)]
pub enum BackgroundTaskExecute {
    Command { ctx: Context, commandish: Commandish },
    Hook { ctx: Context, hook: Hook },
}

/// Background tasks.
#[derive(Debug)]
pub enum BackgroundTask {
    Update(BackgroundTaskUpdate),
    Execute(BackgroundTaskExecute),
}

/// What the task manager does for a background task.
#[derive(Debug)]
pub enum BackgroundAction {
    /// Replace the entry's tags in the database.
    StoreTags { entry_id: u32, tags: Vec<Tag> },
    /// Store a command's result in the database, as succeeded when it exited with 0.
    StoreCommandResult { entry_id: u32, name: String, output: String, success: bool },
    /// Spawn the custom command on the entry.
    RunCommand { entry_id: u32, command: crate::commands::CustomCommand },
    /// Run each command configured for the hook, in the task's context.
    RunHook { ctx: Context, hook: Hook },
    /// Nothing to do.
    Nothing,
}

impl BackgroundTask {
    /// The action a background task calls for: tags stored for a context
    /// with an entry; a command's result stored; a full custom command run
    /// on the context's entry; a hook's commands run. Anything else (a
    /// command by name, a built-in command, a context without an entry)
    /// calls for nothing.
    pub fn action(self) -> (res: BackgroundAction)
        ensures
            match self {
                BackgroundTask::Update(BackgroundTaskUpdate::EntryTagUpdate { ctx, tags }) => match ctx.entry_id {
                    Some(id) => res matches BackgroundAction::StoreTags { entry_id, tags: t } && entry_id == id && t@ == tags@,
                    None => res is Nothing,
                },
                BackgroundTask::Update(BackgroundTaskUpdate::CommandUpdate { ctx, result }) =>
                    res matches BackgroundAction::StoreCommandResult { entry_id, name, output, success }
                        && entry_id == result.entry_id && name@ == result.command.name@
                        && output@ == result.output@ && success == (result.exit_code == 0),
                BackgroundTask::Execute(BackgroundTaskExecute::Command { ctx, commandish }) => match (ctx.entry_id, commandish) {
                    (Some(id), Commandish::CustomCommandFull(c)) =>
                        res matches BackgroundAction::RunCommand { entry_id, command } && entry_id == id
                            && command.name@ == c.name@ && command.command@ == c.command@ && command.save == c.save,
                    _ => res is Nothing,
                },
                BackgroundTask::Execute(BackgroundTaskExecute::Hook { ctx, hook }) =>
                    res matches BackgroundAction::RunHook { ctx: c, hook: h } && h == hook
                        && context_view(c) == context_view(ctx),
            },
    {
        match self {
            BackgroundTask::Update(u) => match u {
                BackgroundTaskUpdate::EntryTagUpdate { ctx, tags } => match ctx.entry_id {
                    Some(id) => BackgroundAction::StoreTags { entry_id: id, tags },
                    None => BackgroundAction::Nothing,
                },
                BackgroundTaskUpdate::CommandUpdate { ctx: _, result } => {
                    let success = result.exit_code == 0;
                    BackgroundAction::StoreCommandResult {
                        entry_id: result.entry_id,
                        name: result.command.name,
                        output: result.output,
                        success,
                    }
                },
            },
            BackgroundTask::Execute(e) => match e {
                BackgroundTaskExecute::Command { ctx, commandish } => match (ctx.entry_id, commandish) {
                    (Some(id), Commandish::CustomCommandFull(c)) => BackgroundAction::RunCommand { entry_id: id, command: c },
                    _ => BackgroundAction::Nothing,
                },
                BackgroundTaskExecute::Hook { ctx, hook } => BackgroundAction::RunHook { ctx, hook },
            },
        }
    }
}

} // verus!
