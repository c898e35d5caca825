use slipstream::command_mode::{Command, SearchContext};
use slipstream::commands::{CustomCommand, ReadCommandLiteral};
use slipstream::config::Config;
use slipstream::database::{DatabaseSearch, OffsetCursor};
use slipstream::datetime::DateTime;
use slipstream::entry::{Entry, EntryBuilder, Tag};
use slipstream::reader::{
    fits_terminal, menu_title, page_backwards_cursor, page_forwards_cursor, reader_title, scroll_window, side_by_side,
    CommandKey, Focus, ReaderAction, ReaderEntry, ReaderState, REPEAT_DELAY_SECS,
};

fn at(secs: i64) -> DateTime {
    DateTime::from_timestamp(secs, 0).unwrap()
}

fn dated(title: &str, secs: i64) -> Entry {
    EntryBuilder::new().title(title).date(at(secs)).build()
}

fn shown(ids: &[(u32, i64)]) -> Vec<ReaderEntry> {
    ids.iter().map(|(id, secs)| ReaderEntry { db_id: *id, entry: dated("t", *secs) }).collect()
}

fn reader(entries: Vec<ReaderEntry>) -> ReaderState {
    ReaderState {
        focus: Focus::List,
        selection: 0,
        window: 0,
        entries,
        repeat_previous: false,
        previous_search: vec![DatabaseSearch::Tag("news".to_string())],
        previous_offset: OffsetCursor::LatestTimestamp,
    }
}

#[test]
fn reader_paging_cursors() {
    let es = shown(&[(1, 10), (2, 5)]);
    assert!(matches!(page_forwards_cursor(&es), OffsetCursor::Before(d) if d.timestamp() == 5));
    assert!(matches!(page_backwards_cursor(&es), OffsetCursor::After(d) if d.timestamp() == 10));
    assert!(matches!(page_forwards_cursor(&vec![]), OffsetCursor::LatestTimestamp));
    assert!(matches!(page_backwards_cursor(&vec![]), OffsetCursor::LatestTimestamp));
}

#[test]
fn reader_moves_within_the_list() {
    let mut r = reader(shown(&[(1, 30), (2, 20), (3, 10)]));
    assert!(matches!(r.run_command_literal(&ReadCommandLiteral::Up), ReaderAction::Nothing));
    assert_eq!(r.selection, 0);
    r.run_command_literal(&ReadCommandLiteral::Down);
    r.run_command_literal(&ReadCommandLiteral::Down);
    r.run_command_literal(&ReadCommandLiteral::Down);
    assert_eq!(r.selection, 2);
    r.run_command_literal(&ReadCommandLiteral::Up);
    assert_eq!(r.selection, 1);
    assert!(matches!(r.run_command_literal(&ReadCommandLiteral::Right), ReaderAction::CycleResult { index: 1, step: 1 }));
    assert!(matches!(r.run_command_literal(&ReadCommandLiteral::Left), ReaderAction::CycleResult { index: 1, step: -1 }));
    assert!(matches!(r.run_command_literal(&ReadCommandLiteral::PageDown), ReaderAction::PageList { forwards: true }));
    assert!(matches!(r.run_command_literal(&ReadCommandLiteral::Quit), ReaderAction::Quit));
    assert!(matches!(r.run_command_literal(&ReadCommandLiteral::Swap), ReaderAction::SwapFocus));
}

#[test]
fn reader_entry_and_menu_focus() {
    let mut r = reader(shown(&[(1, 30)]));
    r.focus = Focus::Entry;
    assert!(matches!(r.run_command_literal(&ReadCommandLiteral::Down), ReaderAction::ScrollEntry { index: 0, lines: 1 }));
    assert!(matches!(r.run_command_literal(&ReadCommandLiteral::PageUp), ReaderAction::PageEntry { index: 0, forwards: false }));
    r.focus = Focus::Menu { scroll: 0 };
    r.run_command_literal(&ReadCommandLiteral::Up);
    assert!(matches!(r.focus, Focus::Menu { scroll: 0 }));
    r.run_command_literal(&ReadCommandLiteral::Down);
    assert!(matches!(r.focus, Focus::Menu { scroll: 1 }));
    assert!(matches!(r.run_command_literal(&ReadCommandLiteral::Quit), ReaderAction::ToggleMenu));
    let mut empty = reader(vec![]);
    empty.focus = Focus::Entry;
    assert!(matches!(empty.run_command_literal(&ReadCommandLiteral::Down), ReaderAction::Nothing));
    assert!(matches!(empty.run_command_literal(&ReadCommandLiteral::Command("quit".to_string())), ReaderAction::Nothing));
}

#[test]
fn reader_searches_remember_the_search() {
    let mut r = reader(shown(&[(1, 30), (2, 20)]));
    match r.run_command_literal(&ReadCommandLiteral::PageForwards) {
        ReaderAction::Search { criteria, offset, repeat, delay_secs } => {
            assert!(matches!(&criteria[..], [DatabaseSearch::Tag(t)] if t == "news"));
            assert!(matches!(offset, OffsetCursor::Before(d) if d.timestamp() == 20));
            assert!(!repeat);
            assert!(delay_secs.is_none());
        },
        _ => panic!("expected a search"),
    }
    assert!(matches!(r.previous_offset, OffsetCursor::Before(d) if d.timestamp() == 20));
    match r.command_mode_command(&Command::SearchLive, &Config::default()) {
        ReaderAction::Search { criteria, offset, repeat, .. } => {
            assert!(matches!(&criteria[..], [DatabaseSearch::Live]));
            assert!(matches!(offset, OffsetCursor::LatestId));
            assert!(repeat);
        },
        _ => panic!("expected a search"),
    }
    assert!(r.repeat_previous);
    let s = SearchContext {
        tag: vec!["a".to_string()],
        not_tag: vec![],
        feed: vec![],
        not_feed: vec![],
        command: vec![],
        not_command: vec![],
        raw: vec![],
        text: None,
    };
    r.command_mode_command(&Command::SearchAny(s), &Config::default());
    assert!(!r.repeat_previous);
    assert!(matches!(&r.previous_search[..], [DatabaseSearch::Tag(t)] if t == "a"));
}

#[test]
fn reader_list_updates() {
    let mut r = reader(shown(&[(1, 30), (2, 20), (3, 10)]));
    r.selection = 2;
    r.window = 1;
    assert!(matches!(r.list_update(Some(shown(&[(4, 5), (5, 4), (6, 3)]))), ReaderAction::Nothing));
    assert_eq!(r.selection, 0);
    assert_eq!(r.window, 0);
    assert_eq!(r.entries[0].db_id, 4);

    r.repeat_previous = true;
    r.selection = 2;
    r.window = 1;
    match r.list_update(Some(shown(&[(7, 5), (8, 4), (9, 3)]))) {
        ReaderAction::Search { repeat, delay_secs, .. } => {
            assert!(repeat);
            assert_eq!(delay_secs, Some(REPEAT_DELAY_SECS));
        },
        _ => panic!("expected a repeated search"),
    }
    assert_eq!(r.selection, 2);
    assert_eq!(r.window, 1);
    r.list_update(Some(shown(&[(10, 1)])));
    assert_eq!(r.selection, 0);
}

#[test]
fn reader_tag_commands() {
    let mut r = reader(shown(&[(7, 30)]));
    match r.command_mode_command(&Command::TagAdd { tag: "read".to_string() }, &Config::default()) {
        ReaderAction::UpdateTags { entry_id, tags } => {
            assert_eq!(entry_id, 7);
            assert_eq!(tags.len(), 1);
            assert!(tags[0].same(&Tag::new("read")));
        },
        _ => panic!("expected a tag update"),
    }
    assert!(r.entries[0].entry.has_tag("read"));
    r.command_mode_command(&Command::TagToggle { tag: "read".to_string() }, &Config::default());
    assert!(!r.entries[0].entry.has_tag("read"));
    r.command_mode_command(&Command::TagToggle { tag: "star".to_string() }, &Config::default());
    assert!(r.entries[0].entry.has_tag("star"));
    r.command_mode_command(&Command::TagRemove { tag: "star".to_string() }, &Config::default());
    assert!(!r.entries[0].entry.has_tag("star"));
    let mut empty = reader(vec![]);
    assert!(matches!(
        empty.command_mode_command(&Command::TagAdd { tag: "x".to_string() }, &Config::default()),
        ReaderAction::Nothing
    ));
}

#[test]
fn reader_custom_commands() {
    let mut config = Config::default();
    config.commands.push(CustomCommand { name: "open".to_string(), command: vec!["xdg-open".to_string()], save: false });
    config.commands.push(CustomCommand { name: "sum".to_string(), command: vec!["wc".to_string()], save: true });
    let mut r = reader(shown(&[(1, 30)]));
    assert!(matches!(r.command_mode_command(&Command::Command { command: "open".to_string() }, &config), ReaderAction::Nothing));
    match r.command_mode_command(&Command::Command { command: "sum".to_string() }, &config) {
        ReaderAction::Running { index, command } => {
            assert_eq!(index, 0);
            assert_eq!(command.name, "sum");
        },
        _ => panic!("expected a running command"),
    }
    assert!(matches!(r.command_mode_command(&Command::Command { command: "none".to_string() }, &config), ReaderAction::Nothing));
}

#[test]
fn reader_command_line() {
    let mut r = reader(vec![]);
    r.run_command_literal(&ReadCommandLiteral::SearchMode);
    assert!(matches!(&r.focus, Focus::Command { command, message: None } if command == "/"));
    assert!(r.command_mode_input(&CommandKey::Char('x')).is_none());
    assert!(matches!(&r.focus, Focus::Command { command, .. } if command == "/x"));
    r.command_mode_input(&CommandKey::Backspace);
    assert!(matches!(&r.focus, Focus::Command { command, .. } if command == "/"));
    assert_eq!(r.command_mode_input(&CommandKey::Enter), Some("/".to_string()));
    r.command_done("/".to_string(), Some("bad".to_string()));
    assert!(matches!(&r.focus, Focus::Command { message: Some(m), .. } if m == "bad"));
    r.command_mode_input(&CommandKey::Char('y'));
    assert!(matches!(&r.focus, Focus::Command { command, message: None } if command == "/"));
    r.command_mode_input(&CommandKey::Backspace);
    r.command_mode_input(&CommandKey::Backspace);
    assert!(matches!(r.focus, Focus::List));
    r.run_command_literal(&ReadCommandLiteral::CommandMode);
    r.command_mode_input(&CommandKey::Menu);
    assert!(matches!(r.focus, Focus::List));
    r.run_command_literal(&ReadCommandLiteral::CommandMode);
    r.command_done(String::new(), None);
    assert!(matches!(r.focus, Focus::List));
}

#[test]
fn reader_layout() {
    assert!(fits_terminal((20, 11), 3));
    assert!(!fits_terminal((19, 100), 3));
    assert!(!fits_terminal((40, 10), 3));
    assert!(side_by_side(121));
    assert!(!side_by_side(120));
    assert_eq!(scroll_window(10, 0, 3, 10), 3);
    assert_eq!(scroll_window(5, 5, 3, 10), 3);
    assert_eq!(scroll_window(0, 4, 3, 10), 0);
    assert_eq!(scroll_window(6, 2, 3, 10), 2);
    assert_eq!(reader_title(0, 3, 16), "slipstream 1/3  ");
    assert_eq!(menu_title(4, 12, 4), "menu 5/12");
}

#[test]
fn reader_keys_and_wheel() {
    let mut r = reader(shown(&[(9, 30)]));
    let ctx = r.selected_context();
    assert_eq!(ctx.entry_id, Some(9));
    assert!(ctx.feed_ref.is_none());
    assert!(matches!(r.wheel(true, 2), ReaderAction::ScrollList { lines: 2 }));
    assert!(matches!(r.wheel(false, 2), ReaderAction::ScrollList { lines: -2 }));
    r.focus = Focus::Entry;
    assert!(matches!(r.wheel(false, 3), ReaderAction::ScrollEntry { index: 0, lines: -3 }));
    r.focus = Focus::Menu { scroll: 0 };
    assert!(matches!(r.wheel(true, 3), ReaderAction::Nothing));
    let empty = reader(vec![]);
    assert_eq!(empty.selected_context().entry_id, None);
}
