use slipstream::entry::{Entry, EntryBuilder, FeedId, FeedRef, Tag};
use slipstream::filters::{passes_filters, Filters};
use slipstream::transforms::{apply_transforms, TagMap, TransformsConfig};

fn test_set_a() -> Vec<Entry> {
    let mut entries = vec![
        EntryBuilder::new().title("Hello World 0").build(),
        EntryBuilder::new().title("Cool Stuff 1").build(),
        EntryBuilder::new().title("Hot Stuff 2").build(),
        EntryBuilder::new()
            .title("Business: A New Venture 3")
            .content("A worthy business venture for all money people.")
            .build(),
        EntryBuilder::new()
            .title("4")
            .source("https://business4.net/turtle")
            .content("Business if for cash turtles. Watch here: https://youtube.com/turtle-videos")
            .build(),
        EntryBuilder::new().title("5").source("https://pizza.business5.dev/hotdog").build(),
        EntryBuilder::new()
            .title("6: Coder Society")
            .source("https://coders.society.dev")
            .content("Rust week")
            .build(),
        EntryBuilder::new().title("7: Cool Cool Mountain").content("Rustic views").build(),
        EntryBuilder::new()
            .title("8: Adventure Island")
            .content("A fun new attraction at Theme Park 8!")
            .build(),
    ];
    for entry in entries.iter_mut() {
        if entry.title().to_lowercase().contains("coder") {
            entry.add_tag(&Tag::new("dev"));
        }
        if entry.content().to_lowercase().contains("rust ") {
            entry.add_tag(&Tag::new("Rust"));
        }
        if entry.content().to_lowercase().contains("rustic") {
            entry.add_tag(&Tag::new("rustic"));
        }
    }
    entries
}

fn words(ws: &[&str]) -> Option<Vec<String>> {
    Some(ws.iter().map(|w| w.to_string()).collect())
}

fn kept(filters: Filters) -> usize {
    let fs = filters.get_filters();
    test_set_a().iter().filter(|e| passes_filters(&fs, e)).count()
}

#[test]
fn test_filters() {
    let total = test_set_a().len();

    let mut f = Filters::default();
    f.exclude = words(&["hello", "hot"]);
    assert_eq!(kept(f), total - 3);
    let mut f = Filters::default();
    f.must_include = words(&["hello", "hot"]);
    assert_eq!(kept(f), 3);
    let mut f = Filters::default();
    f.exclude = words(&["hello", "hot"]);
    f.must_include = words(&["hello", "hot"]);
    assert_eq!(kept(f), 0);
    let mut f = Filters::default();
    f.include_all = words(&["stuff", "hot"]);
    assert_eq!(kept(f), 1);

    let mut f = Filters::default();
    f.exclude_titles = words(&["hello"]);
    assert_eq!(kept(f), total - 1);
    let mut f = Filters::default();
    f.include_titles = words(&["cool", "hot"]);
    assert_eq!(kept(f), 3);

    let mut f = Filters::default();
    f.exclude_re = words(&["[vV]enture"]);
    assert_eq!(kept(f), total - 2);
    let mut f = Filters::default();
    f.include_re = words(&[r"\.dev", r"[58]"]);
    assert_eq!(kept(f), 3);
    let mut f = Filters::default();
    f.include_re = words(&[r"[0-9]*"]);
    assert_eq!(kept(f), total);

    let mut f = Filters::default();
    f.exclude_contents = words(&["money"]);
    assert_eq!(kept(f), total - 1);

    let mut f = Filters::default();
    f.exclude_tags = words(&["rust"]);
    assert_eq!(kept(f), total - 2);
    let mut f = Filters::default();
    f.exclude_tags_strict = words(&["rust"]);
    assert_eq!(kept(f), total - 1);
    let mut f = Filters::default();
    f.include_tags = words(&["rust"]);
    assert_eq!(kept(f), 2);
    let mut f = Filters::default();
    f.include_tags_strict = words(&["rust"]);
    assert_eq!(kept(f), 1);
}

fn transform_set() -> Vec<Entry> {
    let mut entries = vec![
        EntryBuilder::new().title("Coding 0").author("Code Councel").build(),
        EntryBuilder::new().title("Rust 1").author("Joe Rustacean").build(),
        EntryBuilder::new().title("Zig 2").build(),
    ];
    entries[0].add_tag(&Tag::new("dev"));
    entries[1].add_tag(&Tag::new("rust"));
    entries[2].add_tag(&Tag::new("zig"));
    for e in entries.iter_mut() {
        e.add_feed(FeedRef { id: FeedId(0), name: "transformer".to_string() });
    }
    entries
}

fn transformed(config: &TransformsConfig) -> Vec<Entry> {
    let ts = config.get_transforms();
    let mut entries = transform_set();
    for e in entries.iter_mut() {
        apply_transforms(&ts, e);
    }
    entries
}

fn dev_map() -> TagMap {
    let mut m = TagMap::new();
    m.push(Tag::new("dev"), vec![Tag::new("rust"), Tag::new("zig")]);
    m
}

#[test]
fn test_derivations() {
    let config = TransformsConfig::default();
    let es = transformed(&config);
    assert_eq!(es.iter().filter(|e| e.has_tag_fuzzy("dev")).count(), 1);

    let mut config = TransformsConfig::default();
    config.tag_derivations = Some(dev_map());
    let es = transformed(&config);
    assert_eq!(es.iter().filter(|e| e.has_tag_fuzzy("dev")).count(), 3);

    let mut config = TransformsConfig::default();
    config.tag_aliases = Some(dev_map());
    let es = transformed(&config);
    assert_eq!(es.iter().filter(|e| e.has_tag_fuzzy("dev")).count(), 3);
    assert_eq!(es.iter().filter(|e| e.has_tag_fuzzy("rust")).count(), 0);
    assert_eq!(es.iter().filter(|e| e.has_tag_fuzzy("zig")).count(), 0);

    let mut config = TransformsConfig::default();
    config.author = Some("{feed}".to_string());
    let es = transformed(&config);
    assert_eq!(es.iter().filter(|e| e.author().contains("transformer")).count(), 3);
}
