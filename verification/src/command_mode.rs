//! The reader's command mode: how a typed command becomes the arguments of
//! the command-line parser, what a search asks of the database, and what
//! the tag commands do.
use vstd::prelude::*;
use crate::database::DatabaseSearch;
use crate::entry::{Entry, EntryView, Tag};
use crate::text::{concat, starts_with_seq, trim, trimmed};

verus! {

/// The name the parser is given as its program name.
pub const PARSER_NAME: &'static str = "__PARSER__";

/// The command-mode commands.
#[derive(Debug)]
pub enum Command {
    Quit,
    SearchLatest,
    SearchAny(SearchContext),
    SearchLive,
    TagAdd { tag: String },
    TagRemove { tag: String },
    TagToggle { tag: String },
    Command { command: String },
    PageForwards,
    PageBackwards,
}

/// A search: the tags, feeds and commands entries must have or lack, raw
/// SQL conditions, and a text.
#[derive(Debug)]
pub struct SearchContext {
    pub tag: Vec<String>,
    pub not_tag: Vec<String>,
    pub feed: Vec<String>,
    pub not_feed: Vec<String>,
    pub command: Vec<String>,
    pub not_command: Vec<String>,
    pub raw: Vec<String>,
    pub text: Option<String>,
}

/// A parsed command-mode command.
#[derive(Debug)]
pub struct CommandParser {
    pub command: Command,
}

/// The command text after the shortcuts: `/` stands for `search `, and `!`
/// for `command `.
pub open spec fn expanded_command(text: Seq<char>) -> Seq<char> {
    let t = trimmed(text);
    let t1 = if starts_with_seq(t, "/"@) { "search "@ + t.drop_first() } else { t };
    if starts_with_seq(t1, "!"@) { "command "@ + t1.drop_first() } else { t1 }
}

/// What `shlex::split` gives for a text: its words, or `None` where the
/// quoting is unbalanced.
pub uninterp spec fn shlex_words(text: Seq<char>) -> Option<Seq<Seq<char>>>;

/// `shlex::split`: the text split into words by POSIX shell rules, named by
/// `shlex_words`; the quoting rules are not stated.
#[verifier::external_body]
fn shell_split(text: &str) -> (res: Option<Vec<String>>)
    ensures
        res is Some <==> shlex_words(text@) is Some,
        res matches Some(v) ==> shlex_words(text@) == Some(v@.map_values(|s: String| s@)),
{
    shlex::split(text)
}

fn drop_first_char(s: &str) -> (res: String)
    requires
        s@.len() > 0,
    ensures
        res@ == s@.drop_first(),
{
    let cs = crate::text::chars_of(s);
    let mut out: Vec<char> = Vec::new();
    let mut i: usize = 1;
    while i < cs.len()
        invariant
            1 <= i <= cs.len(),
            cs@ == s@,
            out@ == s@.subrange(1, i as int),
        decreases cs.len() - i,
    {
        out.push(cs[i]);
        assert(s@.subrange(1, i + 1) =~= s@.subrange(1, i as int).push(cs@[i as int]));
        i += 1;
    }
    assert(s@.subrange(1, cs.len() as int) =~= s@.drop_first());
    crate::text::string_of(out.as_slice())
}

impl CommandParser {
    /// The command text with its shortcuts expanded.
    pub fn expand(text: &str) -> (res: String)
        ensures
            res@ == expanded_command(text@),
    {
        proof {
            reveal_strlit("/");
            reveal_strlit("!");
        }
        let t = trim(text);
        let t1 = if crate::text::starts_with_str(t.as_str(), "/") {
            let rest = drop_first_char(t.as_str());
            concat("search ", rest.as_str())
        } else {
            t
        };
        if crate::text::starts_with_str(t1.as_str(), "!") {
            let rest = drop_first_char(t1.as_str());
            concat("command ", rest.as_str())
        } else {
            t1
        }
    }

    /// The arguments the command-line parser reads a typed command from:
    /// the parser's name and the expanded command, split as a shell would;
    /// `None` where the quoting is unbalanced.
    pub fn parse_command(text: &str) -> (res: Option<Vec<String>>)
        ensures
            res is Some <==> shlex_words(PARSER_NAME@ + " "@ + expanded_command(text@)) is Some,
            res matches Some(v) ==> shlex_words(PARSER_NAME@ + " "@ + expanded_command(text@)) == Some(v@.map_values(|s: String| s@)),
    {
        let cmd = CommandParser::expand(text);
        let line = concat(PARSER_NAME, " ");
        let line = concat(line.as_str(), cmd.as_str());
        shell_split(line.as_str())
    }
}

/// The criteria of a search: tags, tags absent, feeds, feeds absent,
/// commands, commands absent, raw conditions, then the text, each in order.
pub open spec fn search_criteria_spec(s: SearchContext) -> Seq<(int, Seq<char>)> {
    s.tag@.map_values(|t: String| (4int, t@))
        + s.not_tag@.map_values(|t: String| (5int, t@))
        + s.feed@.map_values(|t: String| (6int, t@))
        + s.not_feed@.map_values(|t: String| (7int, t@))
        + s.command@.map_values(|t: String| (8int, t@))
        + s.not_command@.map_values(|t: String| (9int, t@))
        + s.raw@.map_values(|t: String| (2int, t@))
        + match s.text {
            Some(t) => seq![(3int, t@)],
            None => Seq::empty(),
        }
}

/// A criterion by its kind number and text (latest 0, live 1, raw 2,
/// search 3, tag 4, not tag 5, feed 6, not feed 7, command 8, not command 9).
pub open spec fn criterion_key(c: DatabaseSearch) -> (int, Seq<char>) {
    match c {
        DatabaseSearch::Latest => (0, Seq::empty()),
        DatabaseSearch::Live => (1, Seq::empty()),
        DatabaseSearch::Raw(t) => (2, t@),
        DatabaseSearch::Search(t) => (3, t@),
        DatabaseSearch::Tag(t) => (4, t@),
        DatabaseSearch::NotTag(t) => (5, t@),
        DatabaseSearch::Feed(t) => (6, t@),
        DatabaseSearch::NotFeed(t) => (7, t@),
        DatabaseSearch::Command(t) => (8, t@),
        DatabaseSearch::NotCommand(t) => (9, t@),
    }
}

fn push_all(out: &mut Vec<DatabaseSearch>, items: &Vec<String>, kind: u8)
    requires
        2 <= kind <= 9,
    ensures
        final(out)@.map_values(|c: DatabaseSearch| criterion_key(c))
            == old(out)@.map_values(|c: DatabaseSearch| criterion_key(c)) + items@.map_values(|t: String| (kind as int, t@)),
{
    let ghost o0 = out@.map_values(|c: DatabaseSearch| criterion_key(c));
    let mut i: usize = 0;
    while i < items.len()
        invariant
            2 <= kind <= 9,
            i <= items.len(),
            out@.map_values(|c: DatabaseSearch| criterion_key(c)) == o0 + items@.take(i as int).map_values(|t: String| (kind as int, t@)),
        decreases items.len() - i,
    {
        let t = items[i].clone();
        let c = if kind == 2 { DatabaseSearch::Raw(t) } else if kind == 3 { DatabaseSearch::Search(t) }
            else if kind == 4 { DatabaseSearch::Tag(t) } else if kind == 5 { DatabaseSearch::NotTag(t) }
            else if kind == 6 { DatabaseSearch::Feed(t) } else if kind == 7 { DatabaseSearch::NotFeed(t) }
            else if kind == 8 { DatabaseSearch::Command(t) } else { DatabaseSearch::NotCommand(t) };
        let ghost before = out@.map_values(|c: DatabaseSearch| criterion_key(c));
        out.push(c);
        assert(out@.map_values(|c: DatabaseSearch| criterion_key(c)) =~= before.push((kind as int, items@[i as int]@)));
        assert(items@.take(i + 1).map_values(|t: String| (kind as int, t@))
            =~= items@.take(i as int).map_values(|t: String| (kind as int, t@)).push((kind as int, items@[i as int]@)));
        i += 1;
    }
    assert(items@.take(items.len() as int) =~= items@);
}

impl SearchContext {
    /// The database criteria of the search.
    pub fn criteria(&self) -> (res: Vec<DatabaseSearch>)
        ensures
            res@.map_values(|c: DatabaseSearch| criterion_key(c)) == search_criteria_spec(*self),
    {
        let mut out: Vec<DatabaseSearch> = Vec::new();
        assert(out@.map_values(|c: DatabaseSearch| criterion_key(c)) =~= Seq::<(int, Seq<char>)>::empty());
        push_all(&mut out, &self.tag, 4);
        push_all(&mut out, &self.not_tag, 5);
        push_all(&mut out, &self.feed, 6);
        push_all(&mut out, &self.not_feed, 7);
        push_all(&mut out, &self.command, 8);
        push_all(&mut out, &self.not_command, 9);
        push_all(&mut out, &self.raw, 2);
        let ghost before = out@.map_values(|c: DatabaseSearch| criterion_key(c));
        match &self.text {
            Some(t) => {
                out.push(DatabaseSearch::Search(t.clone()));
                assert(out@.map_values(|c: DatabaseSearch| criterion_key(c)) =~= before + seq![(3int, t@)]);
            },
            None => {
                assert(before + Seq::<(int, Seq<char>)>::empty() =~= before);
            },
        }
        assert(Seq::<(int, Seq<char>)>::empty() + self.tag@.map_values(|t: String| (4int, t@)) =~= self.tag@.map_values(|t: String| (4int, t@)));
        out
    }
}

/// Toggles a tag on an entry: removes it where the entry carries it
/// exactly, adds it otherwise.
pub fn toggle_tag(e: &mut Entry, tag: &Tag)
    ensures
        old(e)@.tags.contains(tag@) ==> final(e)@ == (EntryView { tags: old(e)@.tags.filter(|t: Seq<char>| t != tag@), ..old(e)@ }),
        !old(e)@.tags.contains(tag@) ==> final(e)@ == (EntryView { tags: old(e)@.tags.push(tag@), ..old(e)@ }),
{
    let tags = e.tags();
    let mut found = false;
    let mut i: usize = 0;
    while i < tags.len()
        invariant
            i <= tags.len(),
            crate::entry::tags_view(tags@) == e@.tags,
            found == exists|k: int| 0 <= k < i && e@.tags[k] == tag@,
        decreases tags.len() - i,
    {
        assert(crate::entry::tags_view(tags@)[i as int] == tags@[i as int]@);
        if tags[i].same(tag) {
            found = true;
        }
        i += 1;
    }
    assert(found == e@.tags.contains(tag@));
    if found {
        e.remove_tag(tag);
    } else {
        e.add_tag(tag);
    }
}

} // verus!
