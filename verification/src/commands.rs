//! Commands: the built-in reader commands, custom shell commands, how a
//! configured command text is read, and how a custom command's arguments are
//! filled in from an entry.
use vstd::prelude::*;
use crate::entry::{Entry, EntryView};
use crate::text::{concat, contains_seq, contains_str, decimal, decimal_string, lowercase, remove_chars, remove_chars_seq, replace_seq, replace_str, starts_with_str, to_lower, trim, trimmed};
use crate::transforms::{primary_feed_name, primary_feed_name_exec};

verus! {

/// The built-in reader commands.
#[derive(Debug)]
pub enum ReadCommandLiteral {
    /// Do nothing.
    Noop,
    Quit,
    Update,
    Down,
    Up,
    Left,
    Right,
    PageDown,
    PageUp,
    Swap,
    Menu,
    CommandMode,
    SearchMode,
    PageForwards,
    PageBackwards,
    /// Run a command-mode command.
    Command(String),
}

/// A custom command: a name and the argument list of the process it runs.
#[derive(Debug)]
pub struct CustomCommand {
    pub name: String,
    pub command: Vec<String>,
    /// Whether its result is stored.
    pub save: bool,
}

/// A configured command.
#[derive(Debug)]
pub enum Commandish {
    /// A built-in command.
    Literal(ReadCommandLiteral),
    /// A custom command, by name.
    CustomCommandRef(String),
    /// A custom command, in full.
    CustomCommandFull(CustomCommand),
}

/// The texts of a list of strings.
pub open spec fn texts(v: Seq<String>) -> Seq<Seq<char>> {
    v.map_values(|s: String| s@)
}

impl CustomCommand {
    /// A copy of the command.
    pub fn copy(&self) -> (res: CustomCommand)
        ensures
            res.name@ == self.name@,
            texts(res.command@) == texts(self.command@),
            res.save == self.save,
    {
        CustomCommand { name: self.name.clone(), command: crate::filters::copy_strings(&self.command), save: self.save }
    }

    /// Results of custom commands are stored unless configured otherwise.
    pub fn default_save() -> (res: bool)
        ensures
            res,
    {
        true
    }

    /// The configured command that runs this one.
    pub fn to_commandish(&self) -> (res: Commandish)
        ensures
            res matches Commandish::CustomCommandFull(c) && c.name@ == self.name@
                && texts(c.command@) == texts(self.command@) && c.save == self.save,
    {
        Commandish::CustomCommandFull(self.copy())
    }
}

/// The built-in command a name stands for: its name or one of its aliases.
pub open spec fn literal_named(s: Seq<char>) -> Option<ReadCommandLiteral> {
    if s == "None"@ || s == "none"@ || s == "noop"@ || s == "Noop"@ { Some(ReadCommandLiteral::Noop) }
    else if s == "Quit"@ || s == "quit"@ { Some(ReadCommandLiteral::Quit) }
    else if s == "Update"@ || s == "update"@ { Some(ReadCommandLiteral::Update) }
    else if s == "Down"@ || s == "down"@ { Some(ReadCommandLiteral::Down) }
    else if s == "Up"@ || s == "up"@ { Some(ReadCommandLiteral::Up) }
    else if s == "Left"@ || s == "left"@ { Some(ReadCommandLiteral::Left) }
    else if s == "Right"@ || s == "right"@ { Some(ReadCommandLiteral::Right) }
    else if s == "PageDown"@ || s == "page-down"@ { Some(ReadCommandLiteral::PageDown) }
    else if s == "PageUp"@ || s == "page-up"@ { Some(ReadCommandLiteral::PageUp) }
    else if s == "Swap"@ || s == "swap"@ { Some(ReadCommandLiteral::Swap) }
    else if s == "Menu"@ || s == "menu"@ { Some(ReadCommandLiteral::Menu) }
    else if s == "CommandMode"@ || s == "command-mode"@ { Some(ReadCommandLiteral::CommandMode) }
    else if s == "SearchMode"@ || s == "search-mode"@ { Some(ReadCommandLiteral::SearchMode) }
    else if s == "PageForwards"@ || s == "page-forwards"@ || s == "next"@ { Some(ReadCommandLiteral::PageForwards) }
    else if s == "PageBackwards"@ || s == "page-backwards"@ || s == "prev"@ || s == "previous"@ {
        Some(ReadCommandLiteral::PageBackwards)
    }
    else { None }
}

/// Whether a string is the text `lit`.
pub fn same_text(s: &String, lit: &str) -> (res: bool)
    ensures
        res == (s@ == lit@),
{
    *s == crate::text::owned(lit)
}

/// The built-in command a name stands for, if any.
pub fn literal_by_name(s: &String) -> (res: Option<ReadCommandLiteral>)
    ensures
        res == literal_named(s@),
{
    if same_text(s, "None") || same_text(s, "none") || same_text(s, "noop") || same_text(s, "Noop") { Some(ReadCommandLiteral::Noop) }
    else if same_text(s, "Quit") || same_text(s, "quit") { Some(ReadCommandLiteral::Quit) }
    else if same_text(s, "Update") || same_text(s, "update") { Some(ReadCommandLiteral::Update) }
    else if same_text(s, "Down") || same_text(s, "down") { Some(ReadCommandLiteral::Down) }
    else if same_text(s, "Up") || same_text(s, "up") { Some(ReadCommandLiteral::Up) }
    else if same_text(s, "Left") || same_text(s, "left") { Some(ReadCommandLiteral::Left) }
    else if same_text(s, "Right") || same_text(s, "right") { Some(ReadCommandLiteral::Right) }
    else if same_text(s, "PageDown") || same_text(s, "page-down") { Some(ReadCommandLiteral::PageDown) }
    else if same_text(s, "PageUp") || same_text(s, "page-up") { Some(ReadCommandLiteral::PageUp) }
    else if same_text(s, "Swap") || same_text(s, "swap") { Some(ReadCommandLiteral::Swap) }
    else if same_text(s, "Menu") || same_text(s, "menu") { Some(ReadCommandLiteral::Menu) }
    else if same_text(s, "CommandMode") || same_text(s, "command-mode") { Some(ReadCommandLiteral::CommandMode) }
    else if same_text(s, "SearchMode") || same_text(s, "search-mode") { Some(ReadCommandLiteral::SearchMode) }
    else if same_text(s, "PageForwards") || same_text(s, "page-forwards") || same_text(s, "next") { Some(ReadCommandLiteral::PageForwards) }
    else if same_text(s, "PageBackwards") || same_text(s, "page-backwards") || same_text(s, "prev") || same_text(s, "previous") {
        Some(ReadCommandLiteral::PageBackwards)
    }
    else { None }
}

/// What `toml` reads a text as when it is a single TOML value that is a
/// string: the string, or `None`.
pub uninterp spec fn toml_value(text: Seq<char>) -> Option<Seq<char>>;

/// The double quote character.
pub open spec fn quote_mark() -> char {
    '\x22'
}

/// The text between double quotes.
pub open spec fn quoted(text: Seq<char>) -> Seq<char> {
    seq![quote_mark()] + text + seq![quote_mark()]
}

/// What stands between the first and the last character of a text.
pub open spec fn between_quotes(text: Seq<char>) -> Seq<char> {
    text.subrange(1, text.len() - 1)
}

/// A text that opens and closes with a double quote and has nothing
/// to escape between them.
pub open spec fn plainly_quoted(text: Seq<char>) -> bool {
    &&& text.len() >= 2
    &&& text[0] == quote_mark()
    &&& text.last() == quote_mark()
    &&& plain_toml(between_quotes(text))
}

/// The string a TOML basic string with `text` between its quotes holds, or
/// `None` where that is no valid TOML value.
pub open spec fn toml_quoted(text: Seq<char>) -> Option<Seq<char>> {
    toml_value(quoted(text))
}

/// No character of `text` needs escaping in a TOML basic string: no quote,
/// backslash, or control character other than tab.
pub open spec fn plain_toml(text: Seq<char>) -> bool {
    forall|i: int| 0 <= i < text.len() ==> {
        let c = #[trigger] text[i];
        c != quote_mark() && (c as u32) != 0x5c && (c == '\t' || (c as u32) >= 0x20) && (c as u32) != 0x7f
    }
}

/// `toml::de::ValueDeserializer::parse` of a text, read as a string. The
/// result is named by `toml_value`; by the TOML specification of basic
/// strings, a text in double quotes with nothing to escape between them
/// reads as what is between them. Escape sequences are not stated.
#[verifier::external_body]
fn toml_value_string(text: &str) -> (res: Option<String>)
    ensures
        res is Some <==> toml_value(text@) is Some,
        res matches Some(s) ==> toml_value(text@) == Some(s@),
        res is Some || !plainly_quoted(text@),
        res matches Some(s) ==> (plainly_quoted(text@) ==> s@ == between_quotes(text@)),
{
    match toml::de::ValueDeserializer::parse(text) {
        Ok(de) => <String as serde::Deserialize>::deserialize(de).ok(),
        Err(_) => None,
    }
}

/// The string that `text` in double quotes holds as a TOML value.
pub(crate) fn toml_string(text: &str) -> (res: Option<String>)
    ensures
        res is Some <==> toml_quoted(text@) is Some,
        res matches Some(s) ==> toml_quoted(text@) == Some(s@),
        res matches Some(s) ==> (plain_toml(text@) ==> s@ == text@),
        res is None ==> !plain_toml(text@),
{
    let q = crate::text::concat("\"", text);
    let q = crate::text::concat(q.as_str(), "\"");
    proof {
        reveal_strlit("\"");
        assert(q@ == quoted(text@));
        assert(q@.subrange(1, q@.len() - 1) =~= text@);
    }
    toml_value_string(q.as_str())
}

/// What a configured command text reads as: `:` and a command-mode command,
/// `!` and a custom command's name (both trimmed), or the name of a
/// built-in command (a TOML string).
pub open spec fn commandish_spec(text: Seq<char>) -> Option<CommandishView> {
    if text.len() > 0 && text[0] == ':' {
        Some(CommandishView::Command(trimmed(text.drop_first())))
    } else if text.len() > 0 && text[0] == '!' {
        Some(CommandishView::Ref(trimmed(text.drop_first())))
    } else {
        match toml_quoted(text) {
            Some(s) => match literal_named(s) {
                Some(l) => Some(CommandishView::Builtin(l)),
                None => None,
            },
            None => None,
        }
    }
}

/// What a read configured command is.
pub enum CommandishView {
    /// A command-mode command.
    Command(Seq<char>),
    /// A custom command, by name.
    Ref(Seq<char>),
    /// A built-in command other than a command-mode command.
    Builtin(ReadCommandLiteral),
}

/// The view of a configured command read from text (never a full custom command).
pub open spec fn read_view(c: Commandish) -> Option<CommandishView> {
    match c {
        Commandish::Literal(ReadCommandLiteral::Command(s)) => Some(CommandishView::Command(s@)),
        Commandish::Literal(l) => Some(CommandishView::Builtin(l)),
        Commandish::CustomCommandRef(n) => Some(CommandishView::Ref(n@)),
        Commandish::CustomCommandFull(_) => None,
    }
}

/// Reads a configured command text (the deserialisation of `Commandish`).
pub fn parse_commandish(text: &str) -> (res: Result<Commandish, ()>)
    ensures
        match res {
            Ok(c) => commandish_spec(text@) is Some && read_view(c) == commandish_spec(text@),
            Err(_) => commandish_spec(text@) is None,
        },
{
    proof {
        reveal_strlit(":");
        reveal_strlit("!");
        if text@.len() > 0 {
            assert(text@[0] == ':' ==> text@.subrange(0, 1) =~= ":"@);
            assert(text@[0] == '!' ==> text@.subrange(0, 1) =~= "!"@);
            assert(text@.subrange(0, 1)[0] == text@[0]);
        }
    }
    if starts_with_str(text, ":") {
        let rest = skip_first(text);
        return Ok(Commandish::Literal(ReadCommandLiteral::Command(trim(rest.as_str()))));
    }
    if starts_with_str(text, "!") {
        let rest = skip_first(text);
        return Ok(Commandish::CustomCommandRef(trim(rest.as_str())));
    }
    match toml_string(text) {
        Some(s) => match literal_by_name(&s) {
            Some(l) => Ok(Commandish::Literal(l)),
            None => Err(()),
        },
        None => Err(()),
    }
}

/// `text` without its first character.
fn skip_first(text: &str) -> (res: String)
    requires
        text@.len() > 0,
    ensures
        res@ == text@.drop_first(),
{
    let cs = crate::text::chars_of(text);
    let mut out: Vec<char> = Vec::new();
    let mut i: usize = 1;
    while i < cs.len()
        invariant
            1 <= i <= cs.len(),
            cs@ == text@,
            out@ == text@.subrange(1, i as int),
        decreases cs.len() - i,
    {
        out.push(cs[i]);
        assert(text@.subrange(1, i + 1) =~= text@.subrange(1, i as int).push(cs@[i as int]));
        i += 1;
    }
    assert(text@.subrange(1, cs.len() as int) =~= text@.drop_first());
    crate::text::string_of(out.as_slice())
}

/// The result of running a custom command.
#[derive(Debug)]
pub struct CustomCommandResult {
    pub entry_id: u32,
    pub command: CustomCommand,
    /// What the command printed.
    pub output: String,
    pub exit_code: i32,
}

impl CustomCommandResult {
    /// The result that stands for no command: entry 0, an unnamed empty
    /// command not saved, no output, exit code 0.
    pub fn empty() -> (res: CustomCommandResult)
        ensures
            res.entry_id == 0,
            res.command.name@.len() == 0,
            res.command.command@.len() == 0,
            !res.command.save,
            res.output@.len() == 0,
            res.exit_code == 0,
    {
        CustomCommandResult {
            entry_id: 0,
            command: CustomCommand { name: String::new(), command: Vec::new(), save: false },
            output: String::new(),
            exit_code: 0,
        }
    }
}

/// What a custom command runs with.
#[derive(Debug)]
pub struct CustomCommandContext {
    pub entry_id: u32,
    /// (width, height) of the terminal.
    pub terminal_size: (u16, u16),
}

impl CustomCommandContext {
    /// Entry 0 on an 80 by 60 terminal.
    pub fn default() -> (res: CustomCommandContext)
        ensures
            res.entry_id == 0,
            res.terminal_size == (80u16, 60u16),
    {
        CustomCommandContext { entry_id: 0, terminal_size: (80, 60) }
    }
}

/// The placeholder of the `n`-th numbered link.
pub open spec fn link_key(n: nat) -> Seq<char> {
    "{{link.url"@ + decimal(n) + "}}"@
}

/// The numbered links of an entry: its source and comments where set, then
/// its other links.
pub open spec fn numbered_urls(e: EntryView) -> Seq<Seq<char>> {
    (if e.source.url.len() > 0 { seq![e.source.url] } else { Seq::empty() })
        + (if e.comments.url.len() > 0 { seq![e.comments.url] } else { Seq::empty() })
        + e.other_links.map_values(|l: crate::entry::LinkView| l.url)
}

/// `a` with the placeholder of each numbered link replaced, in order.
pub open spec fn replace_numbered(a: Seq<char>, urls: Seq<Seq<char>>) -> Seq<char>
    decreases urls.len(),
{
    if urls.len() == 0 {
        a
    } else {
        replace_seq(replace_numbered(a, urls.drop_last()), link_key(urls.len()), urls.last())
    }
}

/// The characters dropped from a title to name a link.
pub open spec fn name_drop_set() -> Seq<char> {
    seq!['(', ')', ',', '"', '.', ';', ':', '\'']
}

/// A link name from a title: punctuation dropped, spaces replaced by `sep`,
/// lower-cased.
pub open spec fn link_name(title: Seq<char>, sep: Seq<char>) -> Seq<char> {
    lowercase(replace_seq(remove_chars_seq(title, name_drop_set()), " "@, sep))
}

/// One argument of a custom command with the entry's values filled in.
pub open spec fn expand_argument(a: Seq<char>, e: EntryView, width: u16) -> Seq<char> {
    let a1 = replace_seq(a, "{{link.url}}"@, e.source.url);
    let a2 = replace_numbered(a1, numbered_urls(e));
    let a3 = if contains_seq(a2, "{{link.name}}"@) || contains_seq(a2, "{{link.name_}}"@) {
        let n = link_name(e.title, "_"@);
        replace_seq(replace_seq(a2, "{{link.name}}"@, n), "{{link.name_}}"@, n)
    } else {
        a2
    };
    let a4 = if contains_seq(a3, "{{link.name-}}"@) {
        replace_seq(a3, "{{link.name-}}"@, link_name(e.title, "-"@))
    } else {
        a3
    };
    let a5 = replace_seq(a4, "{{feed}}"@, primary_feed_name(e));
    replace_seq(a5, "{{terminal.width}}"@, decimal(width as nat))
}

fn numbered_key(n: u64) -> (res: String)
    ensures
        res@ == link_key(n as nat),
        res@.len() > 0,
{
    proof {
        reveal_strlit("{{link.url");
    }
    let d = decimal_string(n);
    let k = concat("{{link.url", d.as_str());
    concat(k.as_str(), "}}")
}

fn link_name_exec(title: &str, sep: &str) -> (res: String)
    ensures
        res@ == link_name(title@, sep@),
{
    proof {
        reveal_strlit(" ");
    }
    let set: [char; 8] = ['(', ')', ',', '"', '.', ';', ':', '\''];
    assert(set@ == name_drop_set());
    let r = remove_chars(title, &set);
    let r = replace_str(r.as_str(), " ", sep);
    to_lower(r.as_str())
}

/// Fills in one argument of a custom command from an entry, for a terminal
/// `width` columns wide.
pub fn expand_argument_exec(a: &str, e: &Entry, width: u16) -> (res: String)
    requires
        numbered_urls(e@).len() < u64::MAX,
    ensures
        res@ == expand_argument(a@, e@, width),
{
    proof {
        reveal_strlit("{{link.url}}");
        reveal_strlit("{{link.name}}");
        reveal_strlit("{{link.name_}}");
        reveal_strlit("{{link.name-}}");
        reveal_strlit("{{feed}}");
        reveal_strlit("{{terminal.width}}");
    }
    let src = &e.source().url;
    let mut arg = replace_str(a, "{{link.url}}", src.as_str());
    let ghost a1 = arg@;
    let ghost urls = numbered_urls(e@);
    let mut urls_v: Vec<String> = Vec::new();
    if !src.as_str().is_empty() {
        urls_v.push(src.clone());
    }
    let com = &e.comments().url;
    if !com.as_str().is_empty() {
        urls_v.push(com.clone());
    }
    let links = e.other_links();
    let mut k: usize = 0;
    while k < links.len()
        invariant
            k <= links.len(),
            crate::entry::links_view(links@) == e@.other_links,
            texts(urls_v@) == (if e@.source.url.len() > 0 { seq![e@.source.url] } else { Seq::empty() })
                + (if e@.comments.url.len() > 0 { seq![e@.comments.url] } else { Seq::empty() })
                + e@.other_links.take(k as int).map_values(|l: crate::entry::LinkView| l.url),
        decreases links.len() - k,
    {
        let ghost u0 = texts(urls_v@);
        urls_v.push(links[k].url.clone());
        assert(e@.other_links[k as int] == links@[k as int]@);
        assert(e@.other_links.take(k + 1).map_values(|l: crate::entry::LinkView| l.url)
            =~= e@.other_links.take(k as int).map_values(|l: crate::entry::LinkView| l.url).push(links@[k as int].url@));
        assert(texts(urls_v@) =~= u0.push(links@[k as int].url@));
        k += 1;
    }
    assert(e@.other_links.take(links.len() as int) =~= e@.other_links);
    assert(texts(urls_v@) =~= urls);
    let mut j: usize = 0;
    while j < urls_v.len()
        invariant
            j <= urls_v.len(),
            texts(urls_v@) == urls,
            urls.len() < u64::MAX,
            arg@ == replace_numbered(a1, urls.take(j as int)),
        decreases urls_v.len() - j,
    {
        let key = numbered_key((j + 1) as u64);
        arg = replace_str(arg.as_str(), key.as_str(), urls_v[j].as_str());
        assert(urls.take(j + 1).drop_last() =~= urls.take(j as int));
        assert(urls.take(j + 1).last() == urls_v@[j as int]@);
        j += 1;
    }
    assert(urls.take(urls_v.len() as int) =~= urls);
    let title = e.title();
    if contains_str(arg.as_str(), "{{link.name}}") || contains_str(arg.as_str(), "{{link.name_}}") {
        let n = link_name_exec(title.as_str(), "_");
        arg = replace_str(arg.as_str(), "{{link.name}}", n.as_str());
        arg = replace_str(arg.as_str(), "{{link.name_}}", n.as_str());
    }
    if contains_str(arg.as_str(), "{{link.name-}}") {
        let n = link_name_exec(title.as_str(), "-");
        arg = replace_str(arg.as_str(), "{{link.name-}}", n.as_str());
    }
    let feed = primary_feed_name_exec(e);
    arg = replace_str(arg.as_str(), "{{feed}}", feed.as_str());
    let w = decimal_string(width as u64);
    replace_str(arg.as_str(), "{{terminal.width}}", w.as_str())
}

/// The process arguments of a custom command for an entry: each argument
/// filled in.
pub fn shell_command(command: &CustomCommand, e: &Entry, width: u16) -> (res: Vec<String>)
    requires
        numbered_urls(e@).len() < u64::MAX,
    ensures
        res@.len() == command.command@.len(),
        forall|i: int| 0 <= i < res@.len() ==> #[trigger] res@[i]@ == expand_argument(command.command@[i]@, e@, width),
{
    let mut out: Vec<String> = Vec::new();
    let mut i: usize = 0;
    while i < command.command.len()
        invariant
            i <= command.command.len(),
            numbered_urls(e@).len() < u64::MAX,
            out@.len() == i,
            forall|k: int| 0 <= k < i ==> #[trigger] out@[k]@ == expand_argument(command.command@[k]@, e@, width),
        decreases command.command.len() - i,
    {
        out.push(expand_argument_exec(command.command[i].as_str(), e, width));
        i += 1;
    }
    out
}

} // verus!

verus! {

/// What a configured command is, by its texts: a built-in one (its view
/// and command text, if any), a custom one by name, or a full custom one.
pub open spec fn commandish_view(c: Commandish) -> (int, Seq<char>, Seq<Seq<char>>, bool) {
    match c {
        Commandish::Literal(ReadCommandLiteral::Command(s)) => (100, s@, Seq::empty(), false),
        Commandish::Literal(l) => (literal_number(l), Seq::empty(), Seq::empty(), false),
        Commandish::CustomCommandRef(n) => (200, n@, Seq::empty(), false),
        Commandish::CustomCommandFull(c) => (300, c.name@, texts(c.command@), c.save),
    }
}

/// The number of a built-in command other than a command-mode command.
pub open spec fn literal_number(l: ReadCommandLiteral) -> int {
    match l {
        ReadCommandLiteral::Noop => 0,
        ReadCommandLiteral::Quit => 1,
        ReadCommandLiteral::Update => 2,
        ReadCommandLiteral::Down => 3,
        ReadCommandLiteral::Up => 4,
        ReadCommandLiteral::Left => 5,
        ReadCommandLiteral::Right => 6,
        ReadCommandLiteral::PageDown => 7,
        ReadCommandLiteral::PageUp => 8,
        ReadCommandLiteral::Swap => 9,
        ReadCommandLiteral::Menu => 10,
        ReadCommandLiteral::CommandMode => 11,
        ReadCommandLiteral::SearchMode => 12,
        ReadCommandLiteral::PageForwards => 13,
        ReadCommandLiteral::PageBackwards => 14,
        ReadCommandLiteral::Command(_) => 100,
    }
}

impl ReadCommandLiteral {
    /// A copy of the command.
    pub fn copy(&self) -> (res: ReadCommandLiteral)
        ensures
            commandish_view(Commandish::Literal(res)) == commandish_view(Commandish::Literal(*self)),
    {
        match self {
            ReadCommandLiteral::Noop => ReadCommandLiteral::Noop,
            ReadCommandLiteral::Quit => ReadCommandLiteral::Quit,
            ReadCommandLiteral::Update => ReadCommandLiteral::Update,
            ReadCommandLiteral::Down => ReadCommandLiteral::Down,
            ReadCommandLiteral::Up => ReadCommandLiteral::Up,
            ReadCommandLiteral::Left => ReadCommandLiteral::Left,
            ReadCommandLiteral::Right => ReadCommandLiteral::Right,
            ReadCommandLiteral::PageDown => ReadCommandLiteral::PageDown,
            ReadCommandLiteral::PageUp => ReadCommandLiteral::PageUp,
            ReadCommandLiteral::Swap => ReadCommandLiteral::Swap,
            ReadCommandLiteral::Menu => ReadCommandLiteral::Menu,
            ReadCommandLiteral::CommandMode => ReadCommandLiteral::CommandMode,
            ReadCommandLiteral::SearchMode => ReadCommandLiteral::SearchMode,
            ReadCommandLiteral::PageForwards => ReadCommandLiteral::PageForwards,
            ReadCommandLiteral::PageBackwards => ReadCommandLiteral::PageBackwards,
            ReadCommandLiteral::Command(s) => ReadCommandLiteral::Command(s.clone()),
        }
    }
}

impl Commandish {
    /// A copy of the configured command.
    pub fn copy(&self) -> (res: Commandish)
        ensures
            commandish_view(res) == commandish_view(*self),
    {
        match self {
            Commandish::Literal(l) => Commandish::Literal(l.copy()),
            Commandish::CustomCommandRef(n) => Commandish::CustomCommandRef(n.clone()),
            Commandish::CustomCommandFull(c) => Commandish::CustomCommandFull(c.copy()),
        }
    }
}

} // verus!

verus! {

/// What `String::from_utf8` gives for bytes: their text, or `None` when
/// they are no valid UTF-8.
pub uninterp spec fn utf8_decode(bytes: Seq<u8>) -> Option<Seq<char>>;

/// `String::from_utf8(bytes).ok()`, named by `utf8_decode`.
#[verifier::external_body]
fn utf8_text(bytes: Vec<u8>) -> (res: Option<String>)
    ensures
        res is Some <==> utf8_decode(bytes@) is Some,
        res matches Some(s) ==> utf8_decode(bytes@) == Some(s@),
{
    String::from_utf8(bytes).ok()
}

/// What `{:?}` writes for a list of strings.
pub uninterp spec fn debug_list(items: Seq<Seq<char>>) -> Seq<char>;

/// `format!("{:?}", items)`, named by `debug_list`.
#[verifier::external_body]
fn debug_text(items: &Vec<String>) -> (res: String)
    ensures
        res@ == debug_list(texts(items@)),
{
    format!("{:?}", items)
}

/// The output a finished command reports: what it printed when it exited
/// with 0 (nothing, if that is no text), else what it printed as errors (or
/// a failure message naming the arguments, if that is no text).
pub open spec fn reported_output(code: i32, stdout: Seq<u8>, stderr: Seq<u8>, shell: Seq<Seq<char>>) -> Seq<char> {
    if code == 0 {
        match utf8_decode(stdout) {
            Some(t) => t,
            None => Seq::empty(),
        }
    } else {
        match utf8_decode(stderr) {
            Some(t) => t,
            None => "Failed to execute command: "@ + debug_list(shell),
        }
    }
}

/// The result of a custom command whose process finished: its exit code (1
/// when it has none, such as when a signal ended it) and its reported output.
pub fn finished_result(
    entry_id: u32,
    command: CustomCommand,
    exit_code: Option<i32>,
    stdout: Vec<u8>,
    stderr: Vec<u8>,
    shell: &Vec<String>,
) -> (res: CustomCommandResult)
    ensures
        res.entry_id == entry_id,
        res.command == command,
        res.exit_code == match exit_code {
            Some(c) => c,
            None => 1i32,
        },
        res.output@ == reported_output(res.exit_code, stdout@, stderr@, texts(shell@)),
{
    let code: i32 = match exit_code {
        Some(c) => c,
        None => 1,
    };
    let output = if code == 0 {
        match utf8_text(stdout) {
            Some(t) => t,
            None => String::new(),
        }
    } else {
        match utf8_text(stderr) {
            Some(t) => t,
            None => {
                let d = debug_text(shell);
                concat("Failed to execute command: ", d.as_str())
            },
        }
    };
    CustomCommandResult { entry_id, command, output, exit_code: code }
}

/// The result of a custom command whose process could not be run.
pub fn failed_result(entry_id: u32, command: CustomCommand, error: &str) -> (res: CustomCommandResult)
    ensures
        res.entry_id == entry_id,
        res.command == command,
        res.exit_code == 1,
        res.output@ == "Failed to run command: "@ + error@,
{
    CustomCommandResult { entry_id, command, output: concat("Failed to run command: ", error), exit_code: 1 }
}

} // verus!
