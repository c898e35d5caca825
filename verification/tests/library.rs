use slipstream::cache::{Cache, CacheBehavior};
use slipstream::command_mode::{toggle_tag, CommandParser, SearchContext};
use slipstream::commands::{parse_commandish, shell_command, Commandish, CustomCommand, CustomCommandContext, CustomCommandResult, ReadCommandLiteral};
use slipstream::config::{Config, FeedDefinition, MastodonFeedType, RawFeed, TimeZone, TimeZoneKind};
use slipstream::database::{entries_query_exec, existing_lookups, migration_plan, next_migration, stored_version, DatabaseSearch, EntryV1, ExistingLookup, Migration, OffsetCursor, QueryBind, VersionKey};
use slipstream::datetime::{DateTime, Duration, StdDuration};
use slipstream::entry::{Entry, EntryBuilder, FeedId, FeedRef, Link, Tag};
use slipstream::entry_set::EntrySet;
use slipstream::export::ExportEntry;
use slipstream::feed_list::{export_list, import_list, read_line};
use slipstream::filters::{passes_filters, EntryFilter, FilterRule, MatchField};
use slipstream::groups::GroupCriteria;
use slipstream::headers::{HeaderMapExt, Headers};
use slipstream::knot;
use slipstream::logging::{get_level_string, log_level, LogLevel, Logger};
use slipstream::modes::FetchOutputFormat;
use slipstream::options::FeedOptions;
use slipstream::read_config::{Color, ColorConfig, ColorLiteral, Constraint, FlagConfig, PreviewFormat, PreviewToken, Style, TagColor, TagOrTags, UNDERLINED};
use slipstream::tasks::{fetch_plan, select_fetched, BackgroundAction, BackgroundTask, BackgroundTaskUpdate, Context, ContextBuilder, FeedFetchOptions};

fn at(secs: i64) -> DateTime {
    DateTime::from_timestamp(secs, 0).unwrap()
}

fn dated(title: &str, secs: i64) -> Entry {
    EntryBuilder::new().title(title).date(at(secs)).build()
}

fn strings(v: &[&str]) -> Vec<String> {
    v.iter().map(|s| s.to_string()).collect()
}

#[test]
fn datetime_parses_feed_dates() {
    let d = DateTime::try_from_str("1970-01-02T00:00:00Z").unwrap();
    assert_eq!(d.timestamp(), 86400);
    let d = DateTime::try_from_str("Thu, 01 Jan 1970 01:00:00 +0000").unwrap();
    assert_eq!(d.timestamp(), 3600);
    let d = DateTime::try_from_str("1970-01-01T00:02Z").unwrap();
    assert_eq!(d.timestamp(), 120);
    let d = DateTime::try_from_str("1970-01-03").unwrap();
    assert_eq!(d.timestamp(), 2 * 86400);
    assert!(DateTime::try_from_str("not a date").is_err());
}

#[test]
fn datetime_if_modified_since_round_trip() {
    assert_eq!(DateTime::epoch().if_modified_since_time(), "Thu, 01 Jan 1970 00:00:00 GMT");
    let d = at(1_700_000_000);
    let text = d.if_modified_since_time();
    assert_eq!(text, "Tue, 14 Nov 2023 22:13:20 GMT");
    let back = DateTime::from_if_modified_since(&text).unwrap();
    assert_eq!(back.timestamp(), 1_700_000_000);
    assert!(DateTime::from_if_modified_since("yesterday").is_none());
    assert_eq!(at(951_782_400).if_modified_since_time(), "Tue, 29 Feb 2000 00:00:00 GMT");
    assert_eq!(at(-86_400).if_modified_since_time(), "Wed, 31 Dec 1969 00:00:00 GMT");
    assert_eq!(at(4_107_542_400).if_modified_since_time(), "Mon, 01 Mar 2100 00:00:00 GMT");
}

#[test]
fn standard_syndication_display_text() {
    let feed = slipstream::feed::StandardSyndication::new("https://x.io/rss");
    assert_eq!(feed.to_string(), "<StandardSyndication url=https://x.io/rss>");
}

#[test]
fn datetime_arithmetic() {
    let d = at(100);
    let span = Duration::from_seconds(50);
    assert_eq!(d.plus(&span).timestamp(), 150);
    assert_eq!(d.minus(&span).timestamp(), 50);
    assert!(d.has_passed_at(&span, &at(151)));
    assert!(!d.has_passed_at(&span, &at(150)));
    assert_eq!(Duration::from_std(StdDuration { secs: 2, subsec_nanos: 5 }).nanos(), 2_000_000_005);
    assert_eq!(Duration::from_seconds(3).to_std(), StdDuration { secs: 3, subsec_nanos: 0 });
    assert_eq!(at(-1).timestamp(), -1);
}

#[test]
fn options_defaults_and_merge() {
    let global = FeedOptions::default();
    assert_eq!(global.max(), 1024);
    assert_eq!(global.freq_or_default().num_seconds(), 7200);
    assert_eq!(global.oldest().num_seconds(), 5_040_000);
    assert_eq!(global.step(3), 3);
    assert_eq!(global.retry_count(), 0);
    assert_eq!(global.retry_after().num_seconds(), 30);
    assert!(global.freq().is_none());
    assert!(!global.keep_empty());
    assert!(global.apply_tags());

    let mut base = FeedOptions::default();
    base.max = Some(10);
    base.headers = vec![("a".to_string(), "1".to_string()), ("b".to_string(), "2".to_string())];
    let mut own = FeedOptions::default();
    own.freq = Some(StdDuration { secs: 60, subsec_nanos: 0 });
    own.keep_empty = true;
    own.headers = vec![("b".to_string(), "3".to_string()), ("c".to_string(), "4".to_string())];
    base.merge(&own);
    assert_eq!(base.max(), 10);
    assert_eq!(base.freq_or_default().num_seconds(), 60);
    assert!(base.keep_empty());
    assert_eq!(
        base.headers,
        vec![
            ("a".to_string(), "1".to_string()),
            ("b".to_string(), "3".to_string()),
            ("c".to_string(), "4".to_string())
        ]
    );
    // Merging again changes nothing.
    base.merge(&own);
    assert_eq!(base.headers.len(), 3);
}

#[test]
fn options_too_old() {
    let mut o = FeedOptions::default();
    o.oldest = Some(StdDuration { secs: 10, subsec_nanos: 0 });
    assert!(o.too_old_at(&at(0), &at(11)));
    assert!(!o.too_old_at(&at(0), &at(10)));
}

#[test]
fn cache_read_after_write() {
    let mut c = Cache::new(Duration::from_seconds(60));
    assert!(c.cached_at("u", &at(0), CacheBehavior::UseOrWrite).is_none());
    c.record("u", at(0), "body".to_string(), CacheBehavior::UseOrWrite);
    assert_eq!(c.cached_at("u", &at(59), CacheBehavior::UseOrWrite), Some("body".to_string()));
    assert!(c.cached_at("u", &at(60), CacheBehavior::UseOrWrite).is_none());
    assert!(c.cached_at("u", &at(1), CacheBehavior::Skip).is_none());
    assert!(c.cached_at("v", &at(1), CacheBehavior::UseOrWrite).is_none());
    c.record("u", at(10), "new".to_string(), CacheBehavior::Skip);
    assert_eq!(c.cached_at("u", &at(1), CacheBehavior::UseOrWrite), Some("body".to_string()));
    c.record("u", at(10), "new".to_string(), CacheBehavior::UseOrWrite);
    assert_eq!(c.cached_at("u", &at(65), CacheBehavior::UseOrWrite), Some("new".to_string()));
    assert!(matches!(CacheBehavior::default(), CacheBehavior::UseOrWrite));
}

#[test]
fn knot_word_filters_and_limits() {
    let f = knot::Filters { exclude_title_words: Some(strings(&["Hello"])), exclude_content_words: None };
    let fs = f.get_filters();
    assert_eq!(fs.len(), 1);
    let a = EntryBuilder::new().title("hello world").build();
    let b = EntryBuilder::new().title("helloworld").build();
    assert!(!passes_filters(&fs, &a));
    assert!(passes_filters(&fs, &b));
    assert_eq!(knot::Limits::default().max(), 1024);
    let l = knot::Limits { max: Some(5), oldest_sec: Some(10) };
    assert_eq!(l.max(), 5);
    assert_eq!(l.oldest_at(&at(100)).timestamp(), 90);
    let o = knot::FeedOptions { max: None, freq: Some(StdDuration { secs: 5, subsec_nanos: 0 }), oldest: None };
    assert_eq!(o.freq().num_seconds(), 5);
    assert!(o.should_update_at(&at(0), &at(5)));
    assert!(!o.should_update_at(&at(0), &at(4)));
    assert_eq!(o.oldest_at(&at(50)).timestamp(), 0);
}

#[test]
fn knot_serving_selection() {
    let es = vec![dated("a", 10), dated("b", 1), dated("c", 20), dated("d", 30)];
    let none: Vec<EntryFilter> = Vec::new();
    let all = knot::select_served(&es, knot::all_feed_limit(1), &at(5), None, &none);
    assert_eq!(all.iter().map(|e| e.title().clone()).collect::<Vec<_>>(), strings(&["a", "c"]));
    let feed = knot::select_served(&es, knot::feed_limit(5, 1), &at(5), Some(&at(15)), &none);
    assert_eq!(feed.iter().map(|e| e.title().clone()).collect::<Vec<_>>(), strings(&["c"]));
}

#[test]
fn database_query_text() {
    let q = entries_query_exec(&vec![DatabaseSearch::Tag("rust".to_string())], 7, &OffsetCursor::LatestTimestamp);
    assert!(q.sql.ends_with(
        " TRUE = TRUE AND EXISTS(SELECT id FROM tags WHERE tags.tag LIKE CONCAT('%',?,'%') AND tags.entry_id = entries.id) GROUP BY entries.id ORDER BY entries.timestamp DESC, entries.id DESC LIMIT ?"
    ));
    assert_eq!(q.binds.len(), 2);
    assert!(matches!(&q.binds[0], QueryBind::Text(t) if t == "rust"));
    assert!(matches!(&q.binds[1], QueryBind::Limit(7)));

    let q = entries_query_exec(&vec![DatabaseSearch::Search("RuSt".to_string())], 3, &OffsetCursor::ModifiedAfter(at(5)));
    assert!(q.sql.contains(" AND entries.modified_timestamp > unixepoch(?) GROUP BY entries.id ORDER BY entries.modified_timestamp DESC"));
    assert_eq!(q.binds.len(), 4);
    assert!(matches!(&q.binds[0], QueryBind::Text(t) if t == "rust"));
    assert!(matches!(&q.binds[2], QueryBind::Instant(d) if d.timestamp() == 5));
    assert!(q.sql.contains(" TRUE = TRUE AND (LOWER(entries.title) LIKE CONCAT('%',?,'%') OR LOWER(entries.author) LIKE CONCAT('%',?,'%'))"));
    let q = entries_query_exec(&vec![DatabaseSearch::Feed("bbc".to_string())], 3, &OffsetCursor::LatestTimestamp);
    assert!(q.sql.contains(" AND EXISTS(SELECT id FROM sources WHERE sources.source LIKE CONCAT('%',?,'%') AND sources.entry_id = entries.id)"));

    let q = entries_query_exec(&vec![DatabaseSearch::Live], 1, &OffsetCursor::LatestId);
    assert!(q.sql.ends_with(" GROUP BY entries.id ORDER BY entries.id DESC LIMIT ?"));
    let q = entries_query_exec(&vec![DatabaseSearch::Raw("1 = 1".to_string())], 1, &OffsetCursor::Before(at(9)));
    assert!(q.sql.contains(" TRUE = TRUE AND 1 = 1 AND entries.timestamp < unixepoch(?)"));
}

#[test]
fn database_migrations() {
    let zero = stored_version(&None);
    assert_eq!(zero, VersionKey { major: 0, minor: 0, patch: 0, pre: false });
    assert_eq!(migration_plan(zero), vec![Migration::CreateTables, Migration::AddModifiedTimestamp]);
    let v1 = stored_version(&Some("1.4.2".to_string()));
    assert_eq!(v1, VersionKey { major: 1, minor: 4, patch: 2, pre: false });
    assert_eq!(migration_plan(v1), vec![Migration::AddModifiedTimestamp]);
    let pre = stored_version(&Some("2.10.0-beta".to_string()));
    assert!(pre.pre);
    assert_eq!(migration_plan(pre), vec![Migration::AddModifiedTimestamp]);
    let done = stored_version(&Some("2.10.0".to_string()));
    assert!(migration_plan(done).is_empty());
    assert!(next_migration(done).is_none());
    assert_eq!(stored_version(&Some("garbage".to_string())), zero);
}

#[test]
fn database_stored_entry_round_trip() {
    let e = EntryBuilder::new()
        .title("T")
        .date(at(42))
        .author("A")
        .content("C")
        .source("https://s")
        .comments("https://c")
        .icon("https://i")
        .other_link(Link::new("https://o", "Other"))
        .build();
    let v = EntryV1::from_entry(&e);
    assert_eq!(v.icon, "https://i");
    let back = v.to_entry();
    assert_eq!(back.title(), "T");
    assert_eq!(back.author(), "A");
    assert_eq!(back.content(), "C");
    assert_eq!(back.date().timestamp(), 42);
    assert_eq!(back.source().url, "https://s");
    assert_eq!(back.comments().url, "https://c");
    assert_eq!(back.other_links().len(), 1);
    assert_eq!(back.other_links()[0].url, "https://o");
}

#[test]
fn database_existing_lookups() {
    let e = EntryBuilder::new().title("T").author("A").source_id("id-1").build();
    let ls = existing_lookups(&e);
    assert_eq!(ls.len(), 3);
    assert!(matches!(&ls[0], ExistingLookup::ByEntry));
    assert!(matches!(&ls[1], ExistingLookup::ByTitleAuthor(t, a) if t == "T" && a == "A"));
    assert!(matches!(&ls[2], ExistingLookup::ByAuthorSourceId(a, i) if a == "A" && i == "id-1"));
    let e = EntryBuilder::new().title("T").build();
    assert_eq!(existing_lookups(&e).len(), 1);
}

#[test]
fn commandish_parsing() {
    assert!(matches!(parse_commandish(": search  rust "), Ok(Commandish::Literal(ReadCommandLiteral::Command(c))) if c == "search  rust"));
    assert!(matches!(parse_commandish("! open "), Ok(Commandish::CustomCommandRef(n)) if n == "open"));
    assert!(matches!(parse_commandish("quit"), Ok(Commandish::Literal(ReadCommandLiteral::Quit))));
    assert!(matches!(parse_commandish("page-down"), Ok(Commandish::Literal(ReadCommandLiteral::PageDown))));
    assert!(matches!(parse_commandish("previous"), Ok(Commandish::Literal(ReadCommandLiteral::PageBackwards))));
    assert!(matches!(parse_commandish("noop"), Ok(Commandish::Literal(ReadCommandLiteral::Noop))));
    assert!(parse_commandish("fly").is_err());
    assert!(parse_commandish("command").is_err());
}

#[test]
fn custom_command_arguments() {
    let mut e = EntryBuilder::new()
        .title("Hello, World: (Part 1)")
        .source("https://src")
        .other_link(Link::new("https://other", "Other"))
        .build();
    e.add_feed(FeedRef { id: FeedId(1), name: "news".to_string() });
    let cmd = CustomCommand {
        name: "open".to_string(),
        command: strings(&["{{link.url}}", "{{link.url1}}-{{link.url2}}", "{{link.name}}", "{{link.name-}}", "{{feed}}", "{{terminal.width}}"]),
        save: true,
    };
    let args = shell_command(&cmd, &e, 80);
    assert_eq!(
        args,
        strings(&["https://src", "https://src-https://other", "hello_world_part_1", "hello-world-part-1", "news", "80"])
    );
    let ctx = CustomCommandContext::default();
    assert_eq!(ctx.terminal_size, (80, 60));
    let r = CustomCommandResult::empty();
    assert_eq!(r.exit_code, 0);
    assert!(!r.command.save);
    assert!(CustomCommand::default_save());
}

#[test]
fn fetch_plans_and_selection() {
    let global = FeedOptions::default();
    let p = fetch_plan(&FeedFetchOptions::All { since: Some(at(5)), modified_since: None }, &global, None).unwrap();
    assert!(matches!(p.cursor, OffsetCursor::After(d) if d.timestamp() == 5));
    assert_eq!(p.max_length, 1024);
    let p = fetch_plan(&FeedFetchOptions::All { since: Some(at(5)), modified_since: Some(at(6)) }, &global, None).unwrap();
    assert!(matches!(p.cursor, OffsetCursor::LatestTimestamp));
    let mut own = FeedOptions::default();
    own.max = Some(2);
    let p = fetch_plan(&FeedFetchOptions::Feed { feed: "x".to_string(), modified_since: None }, &global, Some(&own)).unwrap();
    assert_eq!(p.list_max, 2);
    assert!(matches!(&p.criteria[0], DatabaseSearch::Feed(f) if f == "x"));
    assert!(fetch_plan(&FeedFetchOptions::Feed { feed: "x".to_string(), modified_since: None }, &global, None).is_none());

    let mut old = FeedOptions::default();
    old.oldest = Some(StdDuration { secs: 100, subsec_nanos: 0 });
    let es = vec![dated("old", 0), dated("a", 150), dated("b", 160), dated("c", 170)];
    let filters = vec![EntryFilter { rule: FilterRule::ExcludeAny, field: MatchField::Title, items: strings(&["b"]) }];
    let got = select_fetched(&FeedFetchOptions::All { since: None, modified_since: None }, &es, &at(200), &old, None, &vec![], &filters, 5);
    assert_eq!(got.iter().map(|e| e.title().clone()).collect::<Vec<_>>(), strings(&["a", "c"]));
    let got = select_fetched(&FeedFetchOptions::Tag { tag: "t".to_string(), modified_since: None }, &es, &at(200), &old, None, &vec![], &filters, 2);
    assert_eq!(got.iter().map(|e| e.title().clone()).collect::<Vec<_>>(), strings(&["a", "b"]));
    let global = vec![EntryFilter { rule: FilterRule::ExcludeAny, field: MatchField::Title, items: strings(&["a"]) }];
    let got = select_fetched(&FeedFetchOptions::Tag { tag: "t".to_string(), modified_since: None }, &es, &at(200), &old, None, &global, &filters, 5);
    assert_eq!(got.iter().map(|e| e.title().clone()).collect::<Vec<_>>(), strings(&["b", "c"]));
    let got = select_fetched(&FeedFetchOptions::All { since: None, modified_since: None }, &es, &at(200), &old, None, &global, &filters, 5);
    assert_eq!(got.iter().map(|e| e.title().clone()).collect::<Vec<_>>(), strings(&["c"]));
}

#[test]
fn task_contexts_and_actions() {
    let c = ContextBuilder::new().entry_id(4).build();
    assert_eq!(c.entry_id, Some(4));
    assert!(c.feed_ref.is_none());
    let c = Context::with_feed_ref(FeedRef { id: FeedId(2), name: "f".to_string() });
    assert!(c.entry_id.is_none());
    let t = BackgroundTask::Update(BackgroundTaskUpdate::EntryTagUpdate { ctx: Context::with_entry_id(3), tags: vec![Tag::new("x")] });
    assert!(matches!(t.action(), BackgroundAction::StoreTags { entry_id: 3, .. }));
    let t = BackgroundTask::Update(BackgroundTaskUpdate::EntryTagUpdate { ctx: Context::default(), tags: vec![] });
    assert!(matches!(t.action(), BackgroundAction::Nothing));
    let mut r = CustomCommandResult::empty();
    r.exit_code = 2;
    let t = BackgroundTask::Update(BackgroundTaskUpdate::CommandUpdate { ctx: Context::default(), result: r });
    assert!(matches!(t.action(), BackgroundAction::StoreCommandResult { success: false, .. }));
}

#[test]
fn logger_buffers_while_not_writing() {
    let mut l = Logger::new();
    let out = l.write(b"one".to_vec());
    assert_eq!(out, vec![b"one".to_vec()]);
    assert!(l.set_writing(false).is_empty());
    assert!(l.write(b"two".to_vec()).is_empty());
    assert!(l.write(b"three".to_vec()).is_empty());
    assert_eq!(l.peek(1), strings(&["three"]));
    assert_eq!(l.peek(5), strings(&["two", "three"]));
    let flushed = l.set_writing(true);
    assert_eq!(flushed, vec![b"two".to_vec(), b"three".to_vec()]);
    assert!(l.peek(5).is_empty());
    assert!(l.set_writing(false).is_empty());
    for i in 0..300u32 {
        l.write(i.to_string().into_bytes());
    }
    let kept = l.peek(1000);
    assert_eq!(kept.len(), 255);
    assert_eq!(kept[0], "45");
    assert_eq!(kept[254], "299");
    assert_eq!(get_level_string(LogLevel::Warn), "WRN");
    assert_eq!(log_level(false, true), LogLevel::Debug);
}

#[test]
fn read_config_styles() {
    assert_eq!(ColorLiteral::White.color(), Color::Gray);
    assert_eq!(ColorLiteral::BrightBlack.color(), Color::DarkGray);
    assert_eq!(ColorLiteral::BrightWhite.color(), Color::White);
    let c = ColorConfig { fg: Some(ColorLiteral::Red), bg: None, underline: Some(ColorLiteral::Blue) };
    let mut s = Style::default();
    s.sub_modifier = UNDERLINED;
    c.apply_style(&mut s);
    assert_eq!(s.fg, Some(Color::Red));
    assert_eq!(s.bg, None);
    assert_eq!(s.add_modifier, UNDERLINED);
    assert_eq!(s.sub_modifier, 0);
    assert_eq!(s.underline_color, Some(Color::Blue));
    let st = c.style();
    assert_eq!(st.add_modifier, UNDERLINED);
    let f = FlagConfig { symbol: "★x".to_string(), color: Some(ColorLiteral::Yellow) };
    let span = f.as_span().unwrap();
    assert_eq!(span.content, "★");
    assert_eq!(span.style.fg, Some(Color::Yellow));
    assert!(FlagConfig { symbol: String::new(), color: None }.as_span().is_none());
    assert_eq!(PreviewFormat::default().layout(), vec![Constraint::Max(12), Constraint::Max(4), Constraint::Fill(1)]);
    assert_eq!(PreviewFormat(vec![PreviewToken::Summary]).layout(), vec![Constraint::Fill(1)]);
    let mut e = EntryBuilder::new().build();
    e.add_tag(&Tag::new("RustLang"));
    let tc = TagColor { tag: TagOrTags::Tags(strings(&["rust", "lang"])), color: c };
    assert!(tc.matches(&e));
    let tc = TagColor { tag: TagOrTags::Tag("go".to_string()), color: c };
    assert!(!tc.matches(&e));
}

#[test]
fn config_feeds_and_commands() {
    let mut config = Config::default();
    assert!(config.feed("a").is_none());
    config.add_feed("a".to_string(), FeedDefinition::from_feed(RawFeed::Raw { url: "https://a".to_string() }));
    config.add_feed("b".to_string(), FeedDefinition::from_feed(RawFeed::Aggregate { feeds: strings(&["a"]) }));
    config.add_feed("a".to_string(), FeedDefinition::from_feed(RawFeed::Raw { url: "https://a2".to_string() }));
    assert_eq!(config.feeds.as_ref().unwrap().len(), 2);
    assert!(matches!(config.feed("a").unwrap().feed(), RawFeed::Raw { url } if url == "https://a2"));
    config.add_feed("Ab".to_string(), FeedDefinition::from_feed(RawFeed::Raw { url: "https://ab".to_string() }));
    config.add_feed("ab".to_string(), FeedDefinition::from_feed(RawFeed::Raw { url: "https://ab2".to_string() }));
    let order: Vec<String> = config.feeds.as_ref().unwrap().iter().map(|(n, _)| n.clone()).collect();
    assert_eq!(order, strings(&["Ab", "a", "ab", "b"]));
    config.feeds.as_mut().unwrap().retain(|(n, _)| n == "a" || n == "b");
    config.commands.push(CustomCommand { name: "open".to_string(), command: strings(&["xdg-open"]), save: false });
    assert!(matches!(config.get_custom_command("open"), Commandish::CustomCommandFull(c) if c.name == "open"));
    assert!(matches!(config.get_custom_command("nope"), Commandish::Literal(ReadCommandLiteral::Noop)));
    config.read.bindings.push(("o".to_string(), Commandish::CustomCommandRef("open".to_string())));
    assert!(matches!(config.get_key_command("o"), Commandish::CustomCommandFull(_)));
    assert!(matches!(config.get_key_command("z"), Commandish::Literal(ReadCommandLiteral::Noop)));

    let (updater, names, global_filters, all) = config.build_updater();
    assert_eq!(names.len(), 2);
    assert_eq!(names[0].0, "a");
    assert_eq!(names[1].1 .0, 1);
    assert!(all.is_empty());
    assert!(global_filters.is_empty());
    assert_eq!(updater.get_feed(FeedId(1)).unwrap().attr.display_name, "b");
}

#[test]
fn config_time_zones() {
    let t = TimeZone::parse(" UTC ").unwrap();
    assert!(matches!(t.kind, TimeZoneKind::Utc));
    assert_eq!(t.timezone, "utc");
    assert!(matches!(TimeZone::parse("").unwrap().kind, TimeZoneKind::Local));
    assert!(matches!(TimeZone::parse("Local").unwrap().kind, TimeZoneKind::Local));
    assert!(TimeZone::parse("Nowhere/Special").is_err());
    assert!(matches!(TimeZone::default().kind, TimeZoneKind::Local));
    let t = TimeZone::parse("utc").unwrap();
    assert_eq!(t.format(&DateTime::epoch()), "1970-01-01 00:00:00 UTC");
}

#[test]
fn time_zone_format_named() {
    let paris = TimeZone { timezone: "paris".to_string(), kind: TimeZoneKind::Named("Europe/Paris".to_string()) };
    assert_eq!(paris.format(&DateTime::epoch()), "1970-01-01 01:00 CET");
    let unknown = TimeZone { timezone: "x".to_string(), kind: TimeZoneKind::Named("Nowhere/Special".to_string()) };
    assert_eq!(unknown.format(&DateTime::epoch()), "1970-01-01 00:00:00 UTC");
    let utc = TimeZone::parse("utc").unwrap();
    let last = DateTime::from_timestamp(8210266876799, 1_500_000_000).unwrap();
    assert!(utc.format(&last).contains("23:59:60"));
    let first = DateTime::from_timestamp(-8334601228800, 0).unwrap();
    assert_eq!(utc.format(&first), "-262143-01-01 00:00:00 UTC");
    assert!(DateTime::from_timestamp(-8334601228801, 0).is_none());
}

#[test]
fn feed_list_import_export() {
    let (name, def) = read_line("  https://example.com/feed  ").unwrap();
    assert_eq!(name, "example.com/feed");
    assert!(matches!(def.feed(), RawFeed::Raw { url } if url == "https://example.com/feed"));
    assert!(read_line("# comment").is_none());
    assert!(read_line("// comment").is_none());
    assert!(read_line("").is_none());
    let (name, _) = read_line("mastodon://mastodon.social/public/local").unwrap();
    assert_eq!(name, "mastodon.social-public");
    let (name, _) = read_line("mastodon://mastodon.social/home").unwrap();
    assert_eq!(name, "mastodon.social-home");
    let (name, def) = read_line("mastodon://mastodon.social/@Foo").unwrap();
    assert_eq!(name, "mastodon.social-Foo");
    assert!(matches!(def.feed(), RawFeed::MastodonUserStatuses { user, .. } if user == "@Foo"));

    let mut config = Config::default();
    import_list(&mut config, "https://a.org/rss\n# skip\nmastodon://m.org/home\n");
    assert_eq!(config.feeds.as_ref().unwrap().len(), 2);
    assert_eq!(export_list(&config), "https://a.org/rss\nmastodon://m.org/home");

    let mut config = Config::default();
    import_list(&mut config, "# c\nhttps://ex.io/rss\n\nmastodon://m.so/@Foo\nmastodon://m.so/public/local\nhttps://ex.io/rss");
    assert_eq!(config.feeds.as_ref().unwrap().len(), 3);
    assert!(matches!(config.feed("ex.io/rss").unwrap().feed(), RawFeed::Raw { url } if url == "https://ex.io/rss"));
    assert!(matches!(config.feed("m.so-Foo").unwrap().feed(),
        RawFeed::MastodonUserStatuses { mastodon, user, token: None } if mastodon == "m.so" && user == "@Foo"));
    assert!(matches!(config.feed("m.so-public").unwrap().feed(),
        RawFeed::MastodonStatuses { mastodon, feed_type: MastodonFeedType::PublicTimeline, token: None } if mastodon == "m.so"));
    assert!(config.feed("m.so-Foo").unwrap().tags().is_none());
}

#[test]
fn command_mode_commands() {
    assert_eq!(CommandParser::expand(" /rust "), "search rust");
    assert_eq!(CommandParser::expand("!open"), "command open");
    assert_eq!(CommandParser::expand("quit"), "quit");
    assert_eq!(CommandParser::parse_command("tag 'two words'").unwrap(), strings(&["__PARSER__", "tag", "two words"]));
    assert!(CommandParser::parse_command("tag 'open").is_none());
    let s = SearchContext {
        tag: strings(&["a"]),
        not_tag: vec![],
        feed: strings(&["f"]),
        not_feed: vec![],
        command: vec![],
        not_command: strings(&["c"]),
        raw: vec![],
        text: Some("hello".to_string()),
    };
    let c = s.criteria();
    assert_eq!(c.len(), 4);
    assert!(matches!(&c[0], DatabaseSearch::Tag(t) if t == "a"));
    assert!(matches!(&c[1], DatabaseSearch::Feed(t) if t == "f"));
    assert!(matches!(&c[2], DatabaseSearch::NotCommand(t) if t == "c"));
    assert!(matches!(&c[3], DatabaseSearch::Search(t) if t == "hello"));

    let mut e = EntryBuilder::new().build();
    toggle_tag(&mut e, &Tag::new("x"));
    assert!(e.has_tag("x"));
    toggle_tag(&mut e, &Tag::new("x"));
    assert!(!e.has_tag("x"));
}

#[test]
fn group_criteria() {
    let mut e = EntryBuilder::new().author("Jane Doe").build();
    e.add_feed(FeedRef { id: FeedId(0), name: "Tech News".to_string() });
    e.add_tag(&Tag::new("Rust"));
    assert!(GroupCriteria::Author("doe".to_string()).matches(&e));
    assert!(GroupCriteria::Feed("tech".to_string()).matches(&e));
    assert!(GroupCriteria::Tag("rus".to_string()).matches(&e));
    assert!(!GroupCriteria::Tag("go".to_string()).matches(&e));
}

#[test]
fn export_entries() {
    let mut e = EntryBuilder::new().title("T").content("a \\[b\\] c\\_d").source("https://s").build();
    e.add_feed(FeedRef { id: FeedId(0), name: "one".to_string() });
    e.add_feed(FeedRef { id: FeedId(1), name: "two".to_string() });
    e.add_tag(&Tag::new("x"));
    let x = ExportEntry::from_entry_markdown(&e, "today".to_string());
    assert_eq!(x.content, "a [b] c_d");
    assert_eq!(x.date, "today");
    assert_eq!(x.tags, strings(&["x"]));
    let h = ExportEntry::from_entry(&e, "today".to_string());
    assert!(h.content.contains("<p>"));

    let mut config = Config::default();
    config.serve.show_source_in_title = true;
    let a = e.to_atom(&config);
    assert_eq!(a.title, "[one, two] T");
    assert_eq!(a.content.content_type, "html");
    assert!(a.content.value.contains("<p>"));
    assert_eq!(a.links.len(), 1);
    assert_eq!(a.links[0].href, "https://s");
    assert_eq!(a.categories, strings(&["x"]));
}

#[test]
fn headers_and_modified_since() {
    let h = Headers::atom_headers();
    assert_eq!(h.0, vec![("content-type".to_string(), "application/atom+xml".to_string())]);
    let req = Headers(vec![("if-modified-since".to_string(), "Thu, 01 Jan 1970 00:01:00 GMT".to_string())]);
    assert_eq!(req.if_modified_since().unwrap().timestamp(), 60);
    let req = Headers(vec![]);
    assert!(req.if_modified_since().is_none());
}

#[test]
fn output_formats() {
    assert_eq!(FetchOutputFormat::from_name("md"), FetchOutputFormat::Markdown);
    assert_eq!(FetchOutputFormat::from_name("json"), FetchOutputFormat::Json);
    assert_eq!(FetchOutputFormat::from_name("tmpl"), FetchOutputFormat::Custom("tmpl".to_string()));
}

#[test]
fn entry_set_sorted_newest_first() {
    let mut s = EntrySet::new(2);
    s.add(dated("a", 10));
    s.add(dated("b", 30));
    s.add(dated("c", 20));
    s.add(dated("a", 10));
    assert_eq!(s.len(), 3);
    s.sort();
    assert_eq!(s.len(), 2);
    assert_eq!(s.get(0).title(), "b");
    assert_eq!(s.get(1).title(), "c");
}
