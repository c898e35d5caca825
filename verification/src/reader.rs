//! The terminal reader's decisions: what a key, a built-in command or a
//! command-mode command does to the reader's state, and which outside work
//! (a search, a tag update, scrolling an entry) it asks for.
//!
//! The reader's loop performs the actions and draws the screen.
use vstd::prelude::*;
use crate::command_mode::{criterion_key, search_criteria_spec, toggle_tag, Command};
use crate::commands::{texts, Commandish, CustomCommand, ReadCommandLiteral};
use crate::config::Config;
use crate::database::{DatabaseSearch, OffsetCursor};
use crate::entry::{date_instant, insert_tag_seq, tags_view, Entry, EntryView, Tag};

verus! {

/// Where the reader's input goes.
#[derive(Debug)]
pub enum Focus {
    /// The entry list.
    List,
    /// The selected entry.
    Entry,
    /// The menu, scrolled by some lines.
    Menu { scroll: u16 },
    /// The command line: the text typed and an error shown for it.
    Command { command: String, message: Option<String> },
}

/// An entry as the reader shows it: its database id and the entry.
#[derive(Debug)]
pub struct ReaderEntry {
    pub db_id: u32,
    pub entry: Entry,
}

/// The reader's state.
#[derive(Debug)]
pub struct ReaderState {
    pub focus: Focus,
    /// Index of the selected entry.
    pub selection: usize,
    /// Index of the first entry on screen.
    pub window: usize,
    /// The entries shown.
    pub entries: Vec<ReaderEntry>,
    /// Whether the last search repeats itself.
    pub repeat_previous: bool,
    /// The last search and where it started.
    pub previous_search: Vec<DatabaseSearch>,
    pub previous_offset: OffsetCursor,
}

/// Outside work the reader's loop performs.
#[derive(Debug)]
pub enum ReaderAction {
    Nothing,
    /// Stop the reader.
    Quit,
    /// Open or close the menu.
    ToggleMenu,
    /// Move the input between the list and the entry.
    SwapFocus,
    /// Search the database, after a delay in seconds where one is given.
    Search { criteria: Vec<DatabaseSearch>, offset: OffsetCursor, repeat: bool, delay_secs: Option<u64> },
    /// Scroll the entry at an index by some lines.
    ScrollEntry { index: usize, lines: i16 },
    /// Page the entry at an index forwards or backwards.
    PageEntry { index: usize, forwards: bool },
    /// Page the list forwards or backwards.
    PageList { forwards: bool },
    /// Scroll the list by some lines.
    ScrollList { lines: i16 },
    /// Show the next or previous command result of the entry at an index.
    CycleResult { index: usize, step: i16 },
    /// Run a command-mode command.
    RunCommandModeCommand(String),
    /// Store an entry's tags.
    UpdateTags { entry_id: u32, tags: Vec<Tag> },
    /// Show a command as running on the entry at an index.
    Running { index: usize, command: CustomCommand },
}

/// Where a search starts, by kind (latest by time 0, latest by id 1, before
/// 2, after 3, modified after 4) and instant.
pub open spec fn cursor_key(o: OffsetCursor) -> (int, int) {
    match o {
        OffsetCursor::LatestTimestamp => (0, 0),
        OffsetCursor::LatestId => (1, 0),
        OffsetCursor::Before(d) => (2, d@),
        OffsetCursor::After(d) => (3, d@),
        OffsetCursor::ModifiedAfter(d) => (4, d@),
    }
}

/// The criteria of a search, by kind and text.
pub open spec fn criteria_view(cs: Seq<DatabaseSearch>) -> Seq<(int, Seq<char>)> {
    cs.map_values(|c: DatabaseSearch| criterion_key(c))
}

/// The entries of the reader, by view.
pub open spec fn entries_view(es: Seq<ReaderEntry>) -> Seq<(u32, EntryView)> {
    es.map_values(|e: ReaderEntry| (e.db_id, e.entry@))
}

/// A search action for the given criteria, start and repetition.
pub open spec fn is_search(a: ReaderAction, criteria: Seq<(int, Seq<char>)>, offset: (int, int), repeat: bool, delay: Option<u64>) -> bool {
    a matches ReaderAction::Search { criteria: c, offset: o, repeat: r, delay_secs: d }
        && criteria_view(c@) == criteria && cursor_key(o) == offset && r == repeat && d == delay
}

/// The state after starting a search: it remembers the search, the rest
/// stays.
pub open spec fn searched(before: ReaderState, after: ReaderState, criteria: Seq<(int, Seq<char>)>, offset: (int, int), repeat: bool) -> bool {
    &&& after.focus == before.focus
    &&& after.selection == before.selection
    &&& after.window == before.window
    &&& after.entries == before.entries
    &&& after.repeat_previous == repeat
    &&& criteria_view(after.previous_search@) == criteria
    &&& cursor_key(after.previous_offset) == offset
}

/// The selection points at a shown entry, or at the top.
pub open spec fn selection_ok(s: ReaderState) -> bool {
    s.selection == 0 || s.selection < s.entries@.len()
}

/// Where paging forwards starts: before the last entry shown, or the latest.
pub open spec fn forwards_start(es: Seq<ReaderEntry>) -> (int, int) {
    if es.len() > 0 { (2, date_instant(es.last().entry@.date)) } else { (0, 0) }
}

/// Where paging backwards starts: after the first entry shown, or the latest.
pub open spec fn backwards_start(es: Seq<ReaderEntry>) -> (int, int) {
    if es.len() > 0 { (3, date_instant(es[0].entry@.date)) } else { (0, 0) }
}

fn copy_search(c: &DatabaseSearch) -> (res: DatabaseSearch)
    ensures
        criterion_key(res) == criterion_key(*c),
{
    match c {
        DatabaseSearch::Latest => DatabaseSearch::Latest,
        DatabaseSearch::Live => DatabaseSearch::Live,
        DatabaseSearch::Raw(t) => DatabaseSearch::Raw(t.clone()),
        DatabaseSearch::Search(t) => DatabaseSearch::Search(t.clone()),
        DatabaseSearch::Tag(t) => DatabaseSearch::Tag(t.clone()),
        DatabaseSearch::NotTag(t) => DatabaseSearch::NotTag(t.clone()),
        DatabaseSearch::Feed(t) => DatabaseSearch::Feed(t.clone()),
        DatabaseSearch::NotFeed(t) => DatabaseSearch::NotFeed(t.clone()),
        DatabaseSearch::Command(t) => DatabaseSearch::Command(t.clone()),
        DatabaseSearch::NotCommand(t) => DatabaseSearch::NotCommand(t.clone()),
    }
}

fn copy_criteria(cs: &Vec<DatabaseSearch>) -> (res: Vec<DatabaseSearch>)
    ensures
        criteria_view(res@) == criteria_view(cs@),
{
    let mut out: Vec<DatabaseSearch> = Vec::new();
    let mut i: usize = 0;
    while i < cs.len()
        invariant
            i <= cs.len(),
            criteria_view(out@) == criteria_view(cs@.take(i as int)),
        decreases cs.len() - i,
    {
        out.push(copy_search(&cs[i]));
        assert(criteria_view(cs@.take(i + 1)) =~= criteria_view(cs@.take(i as int)).push(criterion_key(cs@[i as int])));
        assert(criteria_view(out@) =~= criteria_view(cs@.take(i as int)).push(criterion_key(cs@[i as int])));
        i += 1;
    }
    assert(cs@.take(cs.len() as int) =~= cs@);
    out
}

/// Where paging forwards starts: before the last entry shown, or the latest.
pub fn page_forwards_cursor(entries: &Vec<ReaderEntry>) -> (res: OffsetCursor)
    ensures
        cursor_key(res) == forwards_start(entries@),
{
    if entries.len() > 0 {
        OffsetCursor::Before(entries[entries.len() - 1].entry.date())
    } else {
        OffsetCursor::LatestTimestamp
    }
}

/// Where paging backwards starts: after the first entry shown, or the latest.
pub fn page_backwards_cursor(entries: &Vec<ReaderEntry>) -> (res: OffsetCursor)
    ensures
        cursor_key(res) == backwards_start(entries@),
{
    if entries.len() > 0 {
        OffsetCursor::After(entries[0].entry.date())
    } else {
        OffsetCursor::LatestTimestamp
    }
}

impl ReaderState {
    /// Starts a search: remembers it and asks for it.
    fn search(&mut self, criteria: Vec<DatabaseSearch>, offset: OffsetCursor, repeat: bool, delay_secs: Option<u64>) -> (res: ReaderAction)
        ensures
            searched(*old(self), *final(self), criteria_view(criteria@), cursor_key(offset), repeat),
            is_search(res, criteria_view(criteria@), cursor_key(offset), repeat, delay_secs),
    {
        let remembered = copy_criteria(&criteria);
        self.repeat_previous = repeat;
        self.previous_search = remembered;
        self.previous_offset = offset;
        ReaderAction::Search { criteria, offset, repeat, delay_secs }
    }

    /// Pages the search forwards or backwards from the entries shown.
    fn page(&mut self, forwards: bool) -> (res: ReaderAction)
        ensures
            forwards ==> searched(*old(self), *final(self), criteria_view(old(self).previous_search@), forwards_start(old(self).entries@), false),
            forwards ==> is_search(res, criteria_view(old(self).previous_search@), forwards_start(old(self).entries@), false, None),
            !forwards ==> searched(*old(self), *final(self), criteria_view(old(self).previous_search@), backwards_start(old(self).entries@), false),
            !forwards ==> is_search(res, criteria_view(old(self).previous_search@), backwards_start(old(self).entries@), false, None),
    {
        let offset = if forwards { page_forwards_cursor(&self.entries) } else { page_backwards_cursor(&self.entries) };
        let criteria = copy_criteria(&self.previous_search);
        self.search(criteria, offset, false, None)
    }
}


/// Keys the command line reads.
#[derive(Debug)]
pub enum CommandKey {
    /// The menu key: back to the list.
    Menu,
    Char(char),
    Backspace,
    Enter,
    /// Any other key.
    Other,
}

/// `n + 1`, or `n` at the largest value (`u16::saturating_add`).
pub open spec fn up_one(n: u16) -> u16 {
    if n < u16::MAX { (n + 1) as u16 } else { n }
}

/// `n - 1`, or `n` at zero (`u16::saturating_sub`).
pub open spec fn down_one(n: u16) -> u16 {
    if n > 0 { (n - 1) as u16 } else { n }
}

/// The state with another focus and everything else kept.
pub open spec fn refocused(before: ReaderState, after: ReaderState) -> bool {
    &&& after.selection == before.selection
    &&& after.window == before.window
    &&& after.entries == before.entries
    &&& after.repeat_previous == before.repeat_previous
    &&& after.previous_search == before.previous_search
    &&& after.previous_offset == before.previous_offset
}

/// The command line with the given text and no error.
pub open spec fn editing(f: Focus, text: Seq<char>) -> bool {
    f matches Focus::Command { command, message } && command@ == text && message is None
}

/// What moving down does: the next entry in the list, scrolling the entry
/// or the menu by one line.
pub open spec fn down_step(b: ReaderState, a: ReaderState, r: ReaderAction) -> bool {
    match b.focus {
        Focus::List => a == (ReaderState {
            selection: if b.selection + 1 < b.entries@.len() { (b.selection + 1) as usize } else { b.selection },
            ..b
        }) && r is Nothing,
        Focus::Entry => a == b && if b.selection < b.entries@.len() {
            r == (ReaderAction::ScrollEntry { index: b.selection, lines: 1 })
        } else {
            r is Nothing
        },
        Focus::Menu { scroll } => refocused(b, a) && a.focus == (Focus::Menu { scroll: up_one(scroll) }) && r is Nothing,
        Focus::Command { .. } => a == b && r is Nothing,
    }
}

/// What moving up does: the previous entry in the list, scrolling the
/// entry or the menu back by one line.
pub open spec fn up_step(b: ReaderState, a: ReaderState, r: ReaderAction) -> bool {
    match b.focus {
        Focus::List => a == (ReaderState {
            selection: if 0 < b.selection <= isize::MAX { (b.selection - 1) as usize } else { b.selection },
            ..b
        }) && r is Nothing,
        Focus::Entry => a == b && if b.selection < b.entries@.len() {
            r == (ReaderAction::ScrollEntry { index: b.selection, lines: -1i16 })
        } else {
            r is Nothing
        },
        Focus::Menu { scroll } => refocused(b, a) && a.focus == (Focus::Menu { scroll: down_one(scroll) }) && r is Nothing,
        Focus::Command { .. } => a == b && r is Nothing,
    }
}

/// What paging does: the list pages, or the selected entry.
pub open spec fn page_step(b: ReaderState, r: ReaderAction, forwards: bool) -> bool {
    match b.focus {
        Focus::List => r == (ReaderAction::PageList { forwards }),
        Focus::Entry => if b.selection < b.entries@.len() {
            r == (ReaderAction::PageEntry { index: b.selection, forwards })
        } else {
            r is Nothing
        },
        _ => r is Nothing,
    }
}

/// Cycling the selected entry's results by a step, where one is selected.
pub open spec fn cycle_step(b: ReaderState, r: ReaderAction, step: i16) -> bool {
    if b.selection < b.entries@.len() {
        r == (ReaderAction::CycleResult { index: b.selection, step })
    } else {
        r is Nothing
    }
}

/// The text on the command line and whether it shows an error.
pub open spec fn command_line(f: Focus) -> (Seq<char>, bool) {
    match f {
        Focus::Command { command, message } => (command@, message is Some),
        _ => (Seq::empty(), false),
    }
}

impl ReaderState {
    /// Runs a built-in command.
    pub fn run_command_literal(&mut self, command: &ReadCommandLiteral) -> (res: ReaderAction)
        ensures
            selection_ok(*old(self)) ==> selection_ok(*final(self)),
            match *command {
                ReadCommandLiteral::Noop => *final(self) == *old(self) && res is Nothing,
                ReadCommandLiteral::Quit => *final(self) == *old(self)
                    && if old(self).focus is Menu { res is ToggleMenu } else { res is Quit },
                ReadCommandLiteral::Update =>
                    searched(*old(self), *final(self), seq![(0int, Seq::<char>::empty())], (0, 0), false)
                    && is_search(res, seq![(0int, Seq::<char>::empty())], (0, 0), false, None),
                ReadCommandLiteral::Down => down_step(*old(self), *final(self), res),
                ReadCommandLiteral::Up => up_step(*old(self), *final(self), res),
                ReadCommandLiteral::Left => *final(self) == *old(self) && cycle_step(*old(self), res, -1i16),
                ReadCommandLiteral::Right => *final(self) == *old(self) && cycle_step(*old(self), res, 1),
                ReadCommandLiteral::PageDown => *final(self) == *old(self) && page_step(*old(self), res, true),
                ReadCommandLiteral::PageUp => *final(self) == *old(self) && page_step(*old(self), res, false),
                ReadCommandLiteral::Swap => *final(self) == *old(self) && res is SwapFocus,
                ReadCommandLiteral::Menu => *final(self) == *old(self) && res is ToggleMenu,
                ReadCommandLiteral::CommandMode => refocused(*old(self), *final(self))
                    && editing(final(self).focus, Seq::empty()) && res is Nothing,
                ReadCommandLiteral::SearchMode => refocused(*old(self), *final(self))
                    && editing(final(self).focus, seq!['/']) && res is Nothing,
                ReadCommandLiteral::PageForwards =>
                    searched(*old(self), *final(self), criteria_view(old(self).previous_search@), forwards_start(old(self).entries@), false)
                    && is_search(res, criteria_view(old(self).previous_search@), forwards_start(old(self).entries@), false, None),
                ReadCommandLiteral::PageBackwards =>
                    searched(*old(self), *final(self), criteria_view(old(self).previous_search@), backwards_start(old(self).entries@), false)
                    && is_search(res, criteria_view(old(self).previous_search@), backwards_start(old(self).entries@), false, None),
                ReadCommandLiteral::Command(c) => *final(self) == *old(self)
                    && if old(self).selection < old(self).entries@.len() {
                        res matches ReaderAction::RunCommandModeCommand(t) && t@ == c@
                    } else {
                        res is Nothing
                    },
            },
    {
        match command {
            ReadCommandLiteral::Noop => ReaderAction::Nothing,
            ReadCommandLiteral::Quit => {
                if let Focus::Menu { .. } = self.focus {
                    ReaderAction::ToggleMenu
                } else {
                    ReaderAction::Quit
                }
            },
            ReadCommandLiteral::Update => {
                let mut criteria: Vec<DatabaseSearch> = Vec::new();
                criteria.push(DatabaseSearch::Latest);
                assert(criteria_view(criteria@) =~= seq![(0int, Seq::<char>::empty())]);
                self.search(criteria, OffsetCursor::LatestTimestamp, false, None)
            },
            ReadCommandLiteral::Down => self.down(),
            ReadCommandLiteral::Up => self.up(),
            ReadCommandLiteral::Left => self.cycle(-1),
            ReadCommandLiteral::Right => self.cycle(1),
            ReadCommandLiteral::PageDown => self.page_view(true),
            ReadCommandLiteral::PageUp => self.page_view(false),
            ReadCommandLiteral::Swap => ReaderAction::SwapFocus,
            ReadCommandLiteral::Menu => ReaderAction::ToggleMenu,
            ReadCommandLiteral::CommandMode => {
                self.focus = Focus::Command { command: String::new(), message: None };
                ReaderAction::Nothing
            },
            ReadCommandLiteral::SearchMode => {
                let mut text = String::new();
                crate::text::push_char(&mut text, '/');
                self.focus = Focus::Command { command: text, message: None };
                ReaderAction::Nothing
            },
            ReadCommandLiteral::PageForwards => self.page(true),
            ReadCommandLiteral::PageBackwards => self.page(false),
            ReadCommandLiteral::Command(c) => {
                if self.selection < self.entries.len() {
                    ReaderAction::RunCommandModeCommand(c.clone())
                } else {
                    ReaderAction::Nothing
                }
            },
        }
    }

    fn down(&mut self) -> (res: ReaderAction)
        ensures
            down_step(*old(self), *final(self), res),
    {
        let n = self.entries.len();
        match self.focus {
            Focus::List => {
                if self.selection < usize::MAX && self.selection + 1 < n {
                    self.selection = self.selection + 1;
                }
                ReaderAction::Nothing
            },
            Focus::Entry => {
                if self.selection < self.entries.len() {
                    ReaderAction::ScrollEntry { index: self.selection, lines: 1 }
                } else {
                    ReaderAction::Nothing
                }
            },
            Focus::Menu { scroll } => {
                let next = if scroll < u16::MAX { scroll + 1 } else { scroll };
                self.focus = Focus::Menu { scroll: next };
                ReaderAction::Nothing
            },
            Focus::Command { .. } => ReaderAction::Nothing,
        }
    }

    fn up(&mut self) -> (res: ReaderAction)
        ensures
            up_step(*old(self), *final(self), res),
    {
        match self.focus {
            Focus::List => {
                if self.selection > 0 && self.selection <= isize::MAX as usize {
                    self.selection = self.selection - 1;
                }
                ReaderAction::Nothing
            },
            Focus::Entry => {
                if self.selection < self.entries.len() {
                    ReaderAction::ScrollEntry { index: self.selection, lines: -1 }
                } else {
                    ReaderAction::Nothing
                }
            },
            Focus::Menu { scroll } => {
                let next = if scroll > 0 { scroll - 1 } else { scroll };
                self.focus = Focus::Menu { scroll: next };
                ReaderAction::Nothing
            },
            Focus::Command { .. } => ReaderAction::Nothing,
        }
    }

    fn cycle(&self, step: i16) -> (res: ReaderAction)
        ensures
            cycle_step(*self, res, step),
    {
        if self.selection < self.entries.len() {
            ReaderAction::CycleResult { index: self.selection, step }
        } else {
            ReaderAction::Nothing
        }
    }

    fn page_view(&self, forwards: bool) -> (res: ReaderAction)
        ensures
            page_step(*self, res, forwards),
    {
        match self.focus {
            Focus::List => ReaderAction::PageList { forwards },
            Focus::Entry => {
                if self.selection < self.entries.len() {
                    ReaderAction::PageEntry { index: self.selection, forwards }
                } else {
                    ReaderAction::Nothing
                }
            },
            _ => ReaderAction::Nothing,
        }
    }
}


/// The command named `name` is the `i`-th, and none before it has that name.
pub open spec fn first_command(cs: Seq<CustomCommand>, name: Seq<char>, i: int) -> bool {
    &&& 0 <= i < cs.len()
    &&& cs[i].name@ == name
    &&& forall|j: int| 0 <= j < i ==> (#[trigger] cs[j]).name@ != name
}

/// The selected entry got the given tags, and the reader asks for them to
/// be stored; nothing else changed.
pub open spec fn retagged(b: ReaderState, a: ReaderState, r: ReaderAction, tags: Seq<Seq<char>>) -> bool {
    let i = b.selection as int;
    let e = b.entries@[i];
    &&& refocused_entries(b, a)
    &&& a.focus == b.focus
    &&& a.entries@.len() == b.entries@.len()
    &&& forall|j: int| 0 <= j < b.entries@.len() && j != i ==> a.entries@[j] == b.entries@[j]
    &&& a.entries@[i].db_id == e.db_id
    &&& a.entries@[i].entry@ == (EntryView { tags, ..e.entry@ })
    &&& r matches ReaderAction::UpdateTags { entry_id, tags: stored } && entry_id == e.db_id && tags_view(stored@) == tags
}

/// Everything but the focus and the entries is kept.
pub open spec fn refocused_entries(b: ReaderState, a: ReaderState) -> bool {
    &&& a.selection == b.selection
    &&& a.window == b.window
    &&& a.repeat_previous == b.repeat_previous
    &&& a.previous_search == b.previous_search
    &&& a.previous_offset == b.previous_offset
}

/// The state after new search results arrive: they are shown, and the
/// selection goes back to the top unless the search repeats and the
/// selection is still in range.
pub open spec fn listed(b: ReaderState, entries: Option<Vec<ReaderEntry>>) -> ReaderState {
    match entries {
        Some(es) => {
            let reset = !b.repeat_previous || b.selection >= es@.len();
            ReaderState {
                entries: es,
                selection: if reset { 0 } else { b.selection },
                window: if reset { 0 } else { b.window },
                ..b
            }
        },
        None => b,
    }
}

/// Seconds a repeating search waits before it runs again.
pub const REPEAT_DELAY_SECS: u64 = 5;

fn without_last(s: &String) -> (res: String)
    requires
        s@.len() > 0,
    ensures
        res@ == s@.drop_last(),
{
    let cs = crate::text::chars_of(s.as_str());
    let n = cs.len();
    let out = crate::text::string_of(&cs.as_slice()[0..n - 1]);
    assert(cs@.subrange(0, n - 1) =~= s@.drop_last());
    out
}

impl ReaderState {
    /// Reads a key on the command line. Enter gives the command to run,
    /// which `command_done` then reports on.
    pub fn command_mode_input(&mut self, key: &CommandKey) -> (res: Option<String>)
        ensures
            selection_ok(*old(self)) ==> selection_ok(*final(self)),
            ({
                let (text, is_error) = command_line(old(self).focus);
                match *key {
                    CommandKey::Menu => refocused(*old(self), *final(self)) && final(self).focus is List && res is None,
                    _ => if is_error {
                        refocused(*old(self), *final(self)) && editing(final(self).focus, text) && res is None
                    } else {
                        match *key {
                            CommandKey::Char(c) => refocused(*old(self), *final(self))
                                && editing(final(self).focus, text.push(c)) && res is None,
                            CommandKey::Backspace => refocused(*old(self), *final(self)) && res is None
                                && if text.len() > 0 {
                                    editing(final(self).focus, text.drop_last())
                                } else {
                                    final(self).focus is List
                                },
                            CommandKey::Enter => *final(self) == *old(self) && (res matches Some(t) && t@ == text),
                            _ => refocused(*old(self), *final(self)) && editing(final(self).focus, text) && res is None,
                        }
                    },
                }
            }),
    {
        let (mut command, is_error) = match &self.focus {
            Focus::Command { command, message } => (command.clone(), message.is_some()),
            _ => (String::new(), false),
        };
        if let CommandKey::Menu = key {
            self.focus = Focus::List;
            return None;
        }
        if is_error {
            self.focus = Focus::Command { command, message: None };
            return None;
        }
        match key {
            CommandKey::Char(c) => {
                crate::text::push_char(&mut command, *c);
            },
            CommandKey::Backspace => {
                if command.unicode_len() > 0 {
                    command = without_last(&command);
                } else {
                    self.focus = Focus::List;
                    return None;
                }
            },
            CommandKey::Enter => {
                return Some(command);
            },
            _ => {},
        }
        self.focus = Focus::Command { command, message: None };
        None
    }

    /// Reports how a command from the command line went: back to the list,
    /// or the command shown again with its error.
    pub fn command_done(&mut self, command: String, error: Option<String>)
        ensures
            refocused(*old(self), *final(self)),
            match error {
                None => final(self).focus is List,
                Some(e) => final(self).focus matches Focus::Command { command: c, message: Some(m) }
                    && c@ == command@ && m@ == e@,
            },
    {
        match error {
            None => {
                self.focus = Focus::List;
            },
            Some(e) => {
                self.focus = Focus::Command { command, message: Some(e) };
            },
        }
    }

    /// Runs a command-mode command.
    pub fn command_mode_command(&mut self, command: &Command, config: &Config) -> (res: ReaderAction)
        requires
            (command is TagRemove || command is TagToggle) ==> old(self).selection < old(self).entries@.len(),
        ensures
            selection_ok(*old(self)) ==> selection_ok(*final(self)),
            match *command {
                Command::Quit => *final(self) == *old(self) && res is Quit,
                Command::SearchLatest =>
                    searched(*old(self), *final(self), seq![(0int, Seq::<char>::empty())], (0, 0), false)
                    && is_search(res, seq![(0int, Seq::<char>::empty())], (0, 0), false, None),
                Command::SearchAny(s) =>
                    searched(*old(self), *final(self), search_criteria_spec(s), (0, 0), false)
                    && is_search(res, search_criteria_spec(s), (0, 0), false, None),
                Command::SearchLive =>
                    searched(*old(self), *final(self), seq![(1int, Seq::<char>::empty())], (1, 0), true)
                    && is_search(res, seq![(1int, Seq::<char>::empty())], (1, 0), true, None),
                Command::TagAdd { tag } => if old(self).selection < old(self).entries@.len() {
                    retagged(*old(self), *final(self), res,
                        insert_tag_seq(old(self).entries@[old(self).selection as int].entry@.tags, tag@))
                } else {
                    *final(self) == *old(self) && res is Nothing
                },
                Command::TagRemove { tag } => retagged(*old(self), *final(self), res,
                    old(self).entries@[old(self).selection as int].entry@.tags.filter(|x: Seq<char>| x != tag@)),
                Command::TagToggle { tag } => retagged(*old(self), *final(self), res, {
                    let tags = old(self).entries@[old(self).selection as int].entry@.tags;
                    if tags.contains(tag@) { tags.filter(|x: Seq<char>| x != tag@) } else { tags.push(tag@) }
                }),
                Command::Command { command: name } => *final(self) == *old(self) && match res {
                    ReaderAction::Running { index, command: c } => index == old(self).selection
                        && c.name@ == name@ && c.save
                        && exists|i: int| first_command(config.commands@, name@, i)
                            && config.commands@[i].save && texts(c.command@) == texts(config.commands@[i].command@),
                    ReaderAction::Nothing => forall|i: int| first_command(config.commands@, name@, i) ==> !config.commands@[i].save,
                    _ => false,
                },
                Command::PageForwards =>
                    searched(*old(self), *final(self), criteria_view(old(self).previous_search@), forwards_start(old(self).entries@), false)
                    && is_search(res, criteria_view(old(self).previous_search@), forwards_start(old(self).entries@), false, None),
                Command::PageBackwards =>
                    searched(*old(self), *final(self), criteria_view(old(self).previous_search@), backwards_start(old(self).entries@), false)
                    && is_search(res, criteria_view(old(self).previous_search@), backwards_start(old(self).entries@), false, None),
            },
    {
        match command {
            Command::Quit => ReaderAction::Quit,
            Command::SearchLatest => {
                let mut criteria: Vec<DatabaseSearch> = Vec::new();
                criteria.push(DatabaseSearch::Latest);
                assert(criteria_view(criteria@) =~= seq![(0int, Seq::<char>::empty())]);
                self.search(criteria, OffsetCursor::LatestTimestamp, false, None)
            },
            Command::SearchAny(s) => {
                let criteria = s.criteria();
                self.search(criteria, OffsetCursor::LatestTimestamp, false, None)
            },
            Command::SearchLive => {
                let mut criteria: Vec<DatabaseSearch> = Vec::new();
                criteria.push(DatabaseSearch::Live);
                assert(criteria_view(criteria@) =~= seq![(1int, Seq::<char>::empty())]);
                self.search(criteria, OffsetCursor::LatestId, true, None)
            },
            Command::TagAdd { tag } => {
                if self.selection < self.entries.len() {
                    let t = Tag::new(tag.as_str());
                    self.retag(&t, 0)
                } else {
                    ReaderAction::Nothing
                }
            },
            Command::TagRemove { tag } => {
                let t = Tag::new(tag.as_str());
                self.retag(&t, 1)
            },
            Command::TagToggle { tag } => {
                let t = Tag::new(tag.as_str());
                self.retag(&t, 2)
            },
            Command::Command { command: name } => {
                let found = config.get_custom_command(name.as_str());
                match found {
                    Commandish::CustomCommandFull(c) => {
                        proof {
                            let k = choose|k: int| 0 <= k < config.commands@.len()
                                && config.commands@[k].name@ == name@ && c.name@ == name@
                                && texts(c.command@) == texts(config.commands@[k].command@) && c.save == config.commands@[k].save
                                && forall|j: int| 0 <= j < k ==> (#[trigger] config.commands@[j]).name@ != name@;
                            assert(first_command(config.commands@, name@, k));
                        }
                        if c.save {
                            ReaderAction::Running { index: self.selection, command: c }
                        } else {
                            proof {
                                assert forall|i: int| first_command(config.commands@, name@, i) implies !config.commands@[i].save by {
                                    let k = choose|k: int| 0 <= k < config.commands@.len()
                                        && config.commands@[k].name@ == name@ && c.name@ == name@
                                        && texts(c.command@) == texts(config.commands@[k].command@) && c.save == config.commands@[k].save
                                        && forall|j: int| 0 <= j < k ==> (#[trigger] config.commands@[j]).name@ != name@;
                                    if i < k {
                                        assert(config.commands@[i].name@ != name@);
                                    } else if k < i {
                                        assert(config.commands@[k].name@ != name@);
                                    }
                                }
                            }
                            ReaderAction::Nothing
                        }
                    },
                    _ => ReaderAction::Nothing,
                }
            },
            Command::PageForwards => self.page(true),
            Command::PageBackwards => self.page(false),
        }
    }

    /// Changes the selected entry's tags (add 0, remove 1, toggle 2) and
    /// asks for them to be stored.
    fn retag(&mut self, tag: &Tag, how: u8) -> (res: ReaderAction)
        requires
            old(self).selection < old(self).entries@.len(),
            how <= 2,
        ensures
            retagged(*old(self), *final(self), res, {
                let tags = old(self).entries@[old(self).selection as int].entry@.tags;
                if how == 0 {
                    insert_tag_seq(tags, tag@)
                } else if how == 1 || tags.contains(tag@) {
                    tags.filter(|x: Seq<char>| x != tag@)
                } else {
                    tags.push(tag@)
                }
            }),
    {
        let i = self.selection;
        let mut item = self.entries.remove(i);
        if how == 0 {
            item.entry.add_tag(tag);
        } else if how == 1 {
            item.entry.remove_tag(tag);
        } else {
            toggle_tag(&mut item.entry, tag);
        }
        let tags = crate::entry::copy_tags(item.entry.tags());
        let id = item.db_id;
        self.entries.insert(i, item);
        ReaderAction::UpdateTags { entry_id: id, tags }
    }

    /// Shows new search results (none when the search failed), and runs a
    /// repeating search again after a delay.
    pub fn list_update(&mut self, entries: Option<Vec<ReaderEntry>>) -> (res: ReaderAction)
        ensures
            entries is Some ==> selection_ok(*final(self)),
            selection_ok(*old(self)) ==> selection_ok(*final(self)),
            old(self).repeat_previous ==> searched(listed(*old(self), entries), *final(self),
                criteria_view(old(self).previous_search@), cursor_key(old(self).previous_offset), true),
            old(self).repeat_previous ==> is_search(res, criteria_view(old(self).previous_search@),
                cursor_key(old(self).previous_offset), true, Some(REPEAT_DELAY_SECS)),
            !old(self).repeat_previous ==> *final(self) == listed(*old(self), entries) && res is Nothing,
    {
        if let Some(es) = entries {
            self.entries = es;
            if !self.repeat_previous || self.selection >= self.entries.len() {
                self.window = 0;
                self.selection = 0;
            }
        }
        if self.repeat_previous {
            let criteria = copy_criteria(&self.previous_search);
            let offset = self.previous_offset;
            self.search(criteria, offset, true, Some(REPEAT_DELAY_SECS))
        } else {
            ReaderAction::Nothing
        }
    }
}


/// Fewest rows the reader draws in.
pub const MIN_VER_HEIGHT: u16 = 20;
/// Fewest columns for the list and the entry side by side.
pub const MIN_HOR_WIDTH: u16 = 120;

/// Whether the terminal is large enough to draw the reader in: at least
/// 20 in the first dimension and twice the scroll buffer plus 5 in the
/// second.
pub fn fits_terminal(size: (u16, u16), scroll_buffer: u8) -> (res: bool)
    ensures
        res == (size.0 >= MIN_VER_HEIGHT && size.1 >= 2 * scroll_buffer + 5),
{
    let sb: u16 = scroll_buffer as u16;
    !(size.0 < MIN_VER_HEIGHT || size.1 < 2 * sb + 5)
}

/// Whether the list and the entry are drawn side by side.
pub fn side_by_side(width: u16) -> (res: bool)
    ensures
        res == (width > MIN_HOR_WIDTH),
{
    width > MIN_HOR_WIDTH
}

/// The first row shown once the selection comes within the scroll buffer
/// of the top.
pub open spec fn window_from_top(selection: int, window: int, scroll_buffer: int) -> int {
    if selection < window + scroll_buffer - 1 {
        if selection - scroll_buffer + 1 > 0 { selection - scroll_buffer + 1 } else { 0 }
    } else {
        window
    }
}

/// The first row shown so that the selection keeps the scroll buffer from
/// both edges of a list of the given height.
pub open spec fn scrolled_window(selection: int, window: int, scroll_buffer: int, height: int) -> int {
    let w = window_from_top(selection, window, scroll_buffer);
    if selection > w + height - scroll_buffer {
        if selection + scroll_buffer - height > 0 { selection + scroll_buffer - height } else { 0 }
    } else {
        w
    }
}

/// Moves the window of shown rows so that the selection stays the scroll
/// buffer away from the top and the bottom of the list.
pub fn scroll_window(selection: usize, window: usize, scroll_buffer: u8, height: u16) -> (res: usize)
    requires
        selection as int + scroll_buffer <= isize::MAX,
        window as int + scroll_buffer <= isize::MAX,
        window_from_top(selection as int, window as int, scroll_buffer as int) + height >= scroll_buffer,
    ensures
        res == scrolled_window(selection as int, window as int, scroll_buffer as int, height as int),
{
    let sb: usize = scroll_buffer as usize;
    let h: usize = height as usize;
    let mut w: usize = window;
    if selection + 1 < window + sb {
        w = if selection + 1 > sb { selection + 1 - sb } else { 0 };
    }
    if selection + sb > w + h {
        w = if selection + sb > h { selection + sb - h } else { 0 };
    }
    w
}

/// `text` followed by spaces up to `width` characters (the `{:<width$}`
/// format).
pub open spec fn padded(text: Seq<char>, width: int) -> Seq<char> {
    if text.len() < width { text + Seq::new((width - text.len()) as nat, |i: int| ' ') } else { text }
}

fn pad_to(text: String, width: usize) -> (res: String)
    ensures
        res@ == padded(text@, width as int),
{
    let mut out = text;
    let ghost start = out@;
    let n = out.unicode_len();
    if n >= width {
        return out;
    }
    let mut k: usize = n;
    assert(start + Seq::new(0nat, |i: int| ' ') =~= start);
    while k < width
        invariant
            n == start.len(),
            n <= k <= width,
            out@ == start + Seq::new((k - n) as nat, |i: int| ' '),
        decreases width - k,
    {
        crate::text::push_char(&mut out, ' ');
        assert(start + Seq::new((k + 1 - n) as nat, |i: int| ' ') =~= (start + Seq::new((k - n) as nat, |i: int| ' ')).push(' '));
        k += 1;
    }
    out
}

/// A position among a count: `<label> <index + 1>/<count>`, padded to the
/// width.
pub open spec fn position_line(label: Seq<char>, index: nat, count: nat, width: int) -> Seq<char> {
    padded(label + " "@ + crate::text::decimal(index + 1) + "/"@ + crate::text::decimal(count), width)
}

fn position_text(label: &str, index: usize, count: usize, width: u16) -> (res: String)
    requires
        index < usize::MAX,
    ensures
        res@ == position_line(label@, index as nat, count as nat, width as int),
{
    let pos = crate::text::decimal_string((index + 1) as u64);
    let total = crate::text::decimal_string(count as u64);
    let t = crate::text::concat(label, " ");
    let t = crate::text::concat(t.as_str(), pos.as_str());
    let t = crate::text::concat(t.as_str(), "/");
    let t = crate::text::concat(t.as_str(), total.as_str());
    pad_to(t, width as usize)
}

/// The reader's title line: `slipstream <selection + 1>/<entries>`, padded
/// to the width.
pub fn reader_title(selection: usize, count: usize, width: u16) -> (res: String)
    requires
        selection < usize::MAX,
    ensures
        res@ == position_line("slipstream"@, selection as nat, count as nat, width as int),
{
    position_text("slipstream", selection, count, width)
}

/// The menu's title line: `menu <selection + 1>/<entries>`, padded to the
/// width.
pub fn menu_title(selection: usize, count: usize, width: u16) -> (res: String)
    requires
        selection < usize::MAX,
    ensures
        res@ == position_line("menu"@, selection as nat, count as nat, width as int),
{
    position_text("menu", selection, count, width)
}

impl ReaderState {
    /// The context a key's command runs in: the selected entry, where one
    /// is selected.
    pub fn selected_context(&self) -> (res: crate::tasks::Context)
        ensures
            res.entry_id == if self.selection < self.entries@.len() {
                Some(self.entries@[self.selection as int].db_id)
            } else {
                None::<u32>
            },
            res.feed_ref is None,
    {
        if self.selection < self.entries.len() {
            crate::tasks::Context::with_entry_id(self.entries[self.selection].db_id)
        } else {
            crate::tasks::Context::default()
        }
    }

    /// What turning the mouse wheel does: the list or the selected entry
    /// scrolls by the configured lines, down or up.
    pub fn wheel(&self, down: bool, scroll: u8) -> (res: ReaderAction)
        ensures
            ({
                let lines: i16 = if down { scroll as i16 } else { (-(scroll as int)) as i16 };
                match self.focus {
                    Focus::List => res == (ReaderAction::ScrollList { lines }),
                    Focus::Entry => if self.selection < self.entries@.len() {
                        res == (ReaderAction::ScrollEntry { index: self.selection, lines })
                    } else {
                        res is Nothing
                    },
                    _ => res is Nothing,
                }
            }),
    {
        let amount: i16 = scroll as i16;
        let lines: i16 = if down { amount } else { -amount };
        match self.focus {
            Focus::List => ReaderAction::ScrollList { lines },
            Focus::Entry => {
                if self.selection < self.entries.len() {
                    ReaderAction::ScrollEntry { index: self.selection, lines }
                } else {
                    ReaderAction::Nothing
                }
            },
            _ => ReaderAction::Nothing,
        }
    }
}
} // verus!
