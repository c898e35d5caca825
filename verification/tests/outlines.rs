use slipstream::config::{Config, FeedDefinition, RawFeed};
use slipstream::outlines::{export_opml, import_opml, import_outlines, opml_feeds, outline_feed, FeedOutline, OpmlExportError};

fn outline(text: &str, kind: Option<&str>, url: Option<&str>) -> FeedOutline {
    FeedOutline { text: text.to_string(), kind: kind.map(|k| k.to_string()), xml_url: url.map(|u| u.to_string()) }
}

#[test]
fn outlines_give_rss_feeds() {
    let (name, def) = outline_feed(&outline("News", Some("rss"), Some("https://n.org/rss"))).unwrap();
    assert_eq!(name, "News");
    assert!(matches!(def.feed(), RawFeed::Raw { url } if url == "https://n.org/rss"));
    assert!(def.tags().is_none());
    assert!(outline_feed(&outline("News", Some("atom"), Some("https://n.org/rss"))).is_none());
    assert!(outline_feed(&outline("News", Some("rss"), None)).is_none());
    assert!(outline_feed(&outline("News", None, Some("https://n.org/rss"))).is_none());
}

#[test]
fn outlines_import_and_export() {
    let mut config = Config::default();
    config.add_feed("agg".to_string(), FeedDefinition::from_feed(RawFeed::Aggregate { feeds: vec![] }));
    let outlines = vec![
        outline("Zed", Some("rss"), Some("https://z.org/rss")),
        outline("Group", None, None),
        outline("Alpha", Some("rss"), Some("https://a.org/rss")),
        outline("Zed", Some("rss"), Some("https://z2.org/rss")),
    ];
    import_outlines(&mut config, &outlines);
    let names: Vec<String> = config.feeds.as_ref().unwrap().iter().map(|(n, _)| n.clone()).collect();
    assert_eq!(names, vec!["Alpha", "Zed", "agg"]);
    assert!(matches!(config.feed("Zed").unwrap().feed(), RawFeed::Raw { url } if url == "https://z2.org/rss"));
    let feeds = opml_feeds(&config).unwrap();
    assert_eq!(
        feeds,
        vec![("Alpha".to_string(), "https://a.org/rss".to_string()), ("Zed".to_string(), "https://z2.org/rss".to_string())]
    );
    assert!(opml_feeds(&Config::default()).is_none());
}

#[test]
fn opml_import_reads_documents() {
    let text = "<opml version=\"1.0\"><head/><body>\
        <outline text=\"News\" type=\"rss\" xmlUrl=\"https://n.org/rss\"/>\
        <outline text=\"Site\" type=\"link\" url=\"https://s.org/\"/>\
        <outline text=\"Group\"/>\
        </body></opml>";
    let mut config = Config::default();
    let outlines = import_opml(&mut config, text).unwrap();
    assert_eq!(outlines.len(), 3);
    assert_eq!(outlines[0].kind.as_deref(), Some("rss"));
    assert_eq!(outlines[0].xml_url.as_deref(), Some("https://n.org/rss"));
    assert_eq!(outlines[1].kind.as_deref(), Some("link"));
    assert_eq!(outlines[2].text, "Group");
    assert!(outlines[2].kind.is_none());
    let names: Vec<String> = config.feeds.as_ref().unwrap().iter().map(|(n, _)| n.clone()).collect();
    assert_eq!(names, vec!["News"]);
    assert!(matches!(config.feed("News").unwrap().feed(), RawFeed::Raw { url } if url == "https://n.org/rss"));
}

#[test]
fn opml_import_refuses_other_text() {
    let mut config = Config::default();
    assert!(import_opml(&mut config, "not a document").is_none());
    assert!(import_opml(&mut config, "<opml version=\"3.0\"><head/><body><outline text=\"a\"/></body></opml>").is_none());
    assert!(import_opml(&mut config, "<opml version=\"2.0\"><head/><body/></opml>").is_none());
    assert!(config.feeds.is_none());
}

#[test]
fn opml_export_round_trip() {
    assert_eq!(export_opml(&Config::default()), Err(OpmlExportError::NoFeeds));
    let mut config = Config::default();
    config.add_feed("Beta".to_string(), FeedDefinition::from_feed(RawFeed::Raw { url: "https://b.org/rss".to_string() }));
    config.add_feed("Alpha".to_string(), FeedDefinition::from_feed(RawFeed::Raw { url: "https://a.org/rss".to_string() }));
    config.add_feed("all".to_string(), FeedDefinition::from_feed(RawFeed::Aggregate { feeds: vec![] }));
    let text = export_opml(&config).unwrap();
    assert!(text.contains("version=\"1.0\""));
    assert!(text.contains("type=\"rss\""));
    assert!(text.contains("xmlUrl=\"https://a.org/rss\""));
    assert!(text.find("Alpha").unwrap() < text.find("Beta").unwrap());
    assert!(!text.contains("all"));
    let mut back = Config::default();
    let outlines = import_opml(&mut back, &text).unwrap();
    assert_eq!(outlines.len(), 2);
    assert_eq!(opml_feeds(&back), opml_feeds(&config));
}
