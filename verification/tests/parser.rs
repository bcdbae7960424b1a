//! Parser behaviour on concrete documents.

use knowledge_server::data::LinkKind;
use knowledge_server::markdown::{parse, MdLinkType};

#[test]
fn parse_captures_context_and_title() {
    let data = parse("# Title\n\nSee [link](http://x) for more.\n");
    assert_eq!(data.title.as_deref(), Some("Title"));
    assert_eq!(data.description.as_deref(), Some("See [link](http://x) for more."));
    assert_eq!(data.links.len(), 1);
    let link = &data.links[0];
    assert_eq!(link.referrer_fragment.as_deref(), Some("See [link](http://x) for more."));
    assert_eq!(link.target_url, "http://x");
    assert_eq!(link.referrer_location, None);
}

#[test]
fn parse_is_deterministic() {
    let doc = "# A\n\nPara with [one](http://1) and [two][t].\n\n[t]: http://2\n";
    let a = parse(doc);
    let b = parse(doc);
    assert_eq!(a.title, b.title);
    assert_eq!(a.description, b.description);
    assert_eq!(a.links.len(), b.links.len());
    for (la, lb) in a.links.iter().zip(b.links.iter()) {
        assert_eq!(la.target_url, lb.target_url);
        assert_eq!(la.name, lb.name);
        assert_eq!(la.title, lb.title);
        assert_eq!(la.identifier, lb.identifier);
        assert_eq!(la.referrer_fragment, lb.referrer_fragment);
        assert!(matches!(
            (la.kind, lb.kind),
            (LinkKind::Inline, LinkKind::Inline) | (LinkKind::Reference, LinkKind::Reference)
        ));
    }
}

#[test]
fn parse_reference_identifier_present() {
    let data = parse("[hello][world]\n\n[world]: http://w\n");
    assert_eq!(data.links.len(), 1);
    let link = &data.links[0];
    assert!(matches!(link.kind, LinkKind::Reference));
    assert_eq!(link.identifier.as_deref(), Some("world"));
    assert_eq!(link.target_url, "http://w");
}

#[test]
fn parse_inline_identifier_absent() {
    let data = parse("An inline [here](http://i) and an auto <http://a>.\n");
    assert_eq!(data.links.len(), 2);
    for link in &data.links {
        assert!(matches!(link.kind, LinkKind::Inline));
        assert_eq!(link.identifier, None);
    }
}

#[test]
fn parse_collapsed_reference_has_identifier() {
    let data = parse("[cats][]\n\n[cats]: http://c\n");
    assert_eq!(data.links.len(), 1);
    assert!(matches!(data.links[0].kind, LinkKind::Reference));
    assert!(data.links[0].identifier.is_some());
}

#[test]
fn parse_rebuilds_display_name() {
    let data = parse("See [*em* **st** ~~del~~ `co`](http://t) now.\n");
    assert_eq!(data.links.len(), 1);
    assert_eq!(data.links[0].name, "_em_ **st** ~~del~~ `co`");
    assert_eq!(data.links[0].title, "");
}

#[test]
fn parse_link_title_attribute() {
    let data = parse("A [named](http://t \"hover text\") link.\n");
    assert_eq!(data.links.len(), 1);
    assert_eq!(data.links[0].title, "hover text");
}

#[test]
fn parse_list_item_context() {
    let data = parse("- has [l](http://x)\n");
    assert_eq!(data.links.len(), 1);
    assert_eq!(data.links[0].referrer_fragment.as_deref(), Some("has [l](http://x)"));
}

#[test]
fn parse_block_quote_context_is_prefixed() {
    let data = parse("> quoted [l](http://x)\n");
    assert_eq!(data.links.len(), 1);
    // The slice's own marker is dropped before the prefix is added.
    assert_eq!(data.links[0].referrer_fragment.as_deref(), Some("> quoted [l](http://x)"));
}

#[test]
fn parse_setext_heading_title() {
    let data = parse("Title\n=====\n\nBody text.\n");
    assert_eq!(data.title.as_deref(), Some("Title"));
    assert_eq!(data.description.as_deref(), Some("Body text."));
}

#[test]
fn parse_ordered_item_context() {
    let data = parse("1. item [l](http://x)\n");
    assert_eq!(data.links.len(), 1);
    assert_eq!(data.links[0].referrer_fragment.as_deref(), Some("item [l](http://x)"));
}

#[test]
fn parse_deep_heading_marker() {
    let data = parse("### Sub [l](http://x)\n");
    assert_eq!(data.links.len(), 1);
    assert_eq!(data.links[0].referrer_fragment.as_deref(), Some("Sub [l](http://x)"));
    assert_eq!(data.title, None);
}

#[test]
fn parse_table_cell_context() {
    let data = parse("|a|b|\n|-|-|\n|[l](http://x)|y|\n");
    assert_eq!(data.links.len(), 1);
    assert_eq!(data.links[0].referrer_fragment.as_deref(), Some("[l](http://x)"));
}

#[test]
fn parse_second_level_heading_is_not_title() {
    let data = parse("## Sub\n\ntext\n\n# Main\n");
    assert_eq!(data.title.as_deref(), Some("Main"));
    assert_eq!(data.description.as_deref(), Some("text"));
}

#[test]
fn parse_empty_document() {
    let data = parse("");
    assert_eq!(data.title, None);
    assert_eq!(data.description, None);
    assert!(data.links.is_empty());
}

#[test]
fn link_kind_mapping() {
    assert!(matches!(LinkKind::from_type(MdLinkType::Inline), LinkKind::Inline));
    assert!(matches!(LinkKind::from_type(MdLinkType::Autolink), LinkKind::Inline));
    assert!(matches!(LinkKind::from_type(MdLinkType::Email), LinkKind::Inline));
    assert!(matches!(LinkKind::from_type(MdLinkType::Reference), LinkKind::Reference));
    assert!(matches!(LinkKind::from_type(MdLinkType::ReferenceUnknown), LinkKind::Reference));
    assert!(matches!(LinkKind::from_type(MdLinkType::Collapsed), LinkKind::Reference));
    assert!(matches!(LinkKind::from_type(MdLinkType::CollapsedUnknown), LinkKind::Reference));
    assert!(matches!(LinkKind::from_type(MdLinkType::Shortcut), LinkKind::Reference));
    assert!(matches!(LinkKind::from_type(MdLinkType::ShortcutUnknown), LinkKind::Reference));
}
