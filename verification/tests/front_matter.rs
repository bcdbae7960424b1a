//! Front-matter extraction, field reading and tag normalization.

use knowledge_server::frontmatter::{front_matter, read_metadata};
use knowledge_server::markdown::read;
use knowledge_server::text::{last_segment, split_tags, trim};

#[test]
fn front_matter_extraction() {
    assert_eq!(front_matter("---\na: 1\n---\nrest").as_deref(), Some("a: 1\n"));
    assert_eq!(front_matter("no front matter"), None);
    assert_eq!(front_matter("---\nunclosed: yes\n--"), None);
    assert_eq!(front_matter("---\n---\nrest").as_deref(), Some(""));
}

#[test]
fn tags_comma_string_form() {
    let meta = read_metadata("---\ntags: a, b ,c\n---\nbody\n");
    assert_eq!(meta.tags, Some(vec!["a".to_string(), "b".to_string(), "c".to_string()]));
}

#[test]
fn tags_sequence_form() {
    let meta = read_metadata("---\ntags: [a, \"b\", c]\n---\nbody\n");
    assert_eq!(meta.tags, Some(vec!["a".to_string(), "b".to_string(), "c".to_string()]));
}

#[test]
fn tags_capitalized_key() {
    let meta = read_metadata("---\nTags: x, y\n---\n");
    assert_eq!(meta.tags, Some(vec!["x".to_string(), "y".to_string()]));
}

#[test]
fn tags_empty_entries_dropped() {
    let meta = read_metadata("---\ntags: a,,b , ,\n---\n");
    assert_eq!(meta.tags, Some(vec!["a".to_string(), "b".to_string()]));
}

#[test]
fn tags_non_string_entries_dropped() {
    let meta = read_metadata("---\ntags: [a, 7, b]\n---\n");
    assert_eq!(meta.tags, Some(vec!["a".to_string(), "b".to_string()]));
}

#[test]
fn tags_absent() {
    let meta = read_metadata("---\ntitle: only a title\n---\n");
    assert_eq!(meta.tags, None);
    assert_eq!(meta.title.as_deref(), Some("only a title"));
}

#[test]
fn metadata_absent_without_front_matter() {
    let meta = read_metadata("# Just a document\n\nwith text.\n");
    assert_eq!(meta.title, None);
    assert_eq!(meta.description, None);
    assert_eq!(meta.tags, None);
}

#[test]
fn metadata_fields_are_trimmed() {
    let meta = read_metadata("---\ntitle: \" padded \"\ndescription: \"  d  \"\n---\n");
    assert_eq!(meta.title.as_deref(), Some("padded"));
    assert_eq!(meta.description.as_deref(), Some("d"));
}

#[test]
fn read_front_matter_takes_precedence() {
    let doc = "---\ntitle: FM Title\ndescription: FM Desc\ntags: t1, t2\n---\n# Body Title\n\nBody para.\n";
    let input = read("http://doc", doc);
    assert_eq!(input.url, "http://doc");
    assert_eq!(input.title, "FM Title");
    assert_eq!(input.description, "FM Desc");
    let tags = input.tags.unwrap();
    assert_eq!(tags.len(), 2);
    assert_eq!(tags[0].name, "t1");
    assert_eq!(tags[1].name, "t2");
    assert_eq!(tags[0].target_fragment, None);
    assert_eq!(input.content.as_deref(), Some(doc));
}

#[test]
fn read_falls_back_to_body() {
    let input = read("http://doc", "# Body Title\n\nBody para with [l](http://x).\n");
    assert_eq!(input.title, "Body Title");
    assert_eq!(input.description, "Body para with [l](http://x).");
    assert!(input.tags.is_none());
    let links = input.links.unwrap();
    assert_eq!(links.len(), 1);
    assert_eq!(links[0].target_url, "http://x");
}

#[test]
fn read_defaults_to_empty_text() {
    let input = read("http://doc", "plain words only\n");
    assert_eq!(input.title, "");
    assert_eq!(input.description, "plain words only");
    assert_eq!(input.cid, None);
    assert_eq!(input.icon, None);
    assert_eq!(input.image, None);
}

#[test]
fn text_helpers_exact_values() {
    assert_eq!(trim("  a b\t\n"), "a b");
    assert_eq!(trim(""), "");
    assert_eq!(trim(" \t "), "");
    assert_eq!(split_tags("a, b ,c"), vec!["a".to_string(), "b".to_string(), "c".to_string()]);
    assert_eq!(split_tags("   "), Vec::<String>::new());
    assert_eq!(split_tags("solo"), vec!["solo".to_string()]);
    assert_eq!(last_segment("http://h/a/b.md"), "b.md");
    assert_eq!(last_segment("plain"), "plain");
    assert_eq!(last_segment("ends/"), "");
}
