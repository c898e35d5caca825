use slipstream::entry::{EntryBuilder, Tag};
use slipstream::transforms::{tag_aliases, TagMap};

#[test]
fn aliases_swap_every_listed_tag() {
    let mut m = TagMap::new();
    m.push(Tag::new("hacking"), vec![Tag::new("rust"), Tag::new("zig")]);
    let t = tag_aliases(&Some(m)).unwrap();
    let mut e = EntryBuilder::new().title("t").build();
    e.add_tag(&Tag::new("rust"));
    e.add_tag(&Tag::new("zig"));
    e.add_tag(&Tag::new("misc"));
    t.apply(&mut e);
    let mut tags: Vec<String> = e.tags().iter().map(|t| t.to_string()).collect();
    tags.sort();
    assert_eq!(tags, vec!["hacking".to_string(), "misc".to_string()]);
    assert_eq!(e.title(), "t");
    assert!(tag_aliases(&None).is_none());
}
