//! The store over a real in-memory database: round trips, cache
//! behaviour and the query counter.

use knowledge_server::data::{InputLink, InputResource, InputTag, LinkKind};
use knowledge_server::store::DataStore;

fn resource_input(url: &str, title: &str) -> InputResource {
    InputResource {
        url: url.to_string(),
        cid: Some("cid-1".to_string()),
        title: title.to_string(),
        description: "a description".to_string(),
        links: None,
        tags: None,
        icon: Some("icon.png".to_string()),
        image: None,
        content: None,
    }
}

#[test]
fn resource_round_trip() {
    let mut store = DataStore::memory().unwrap();
    let input = resource_input("http://r", "Title");
    let returned = store.insert_resource(&input).unwrap();
    assert_eq!(returned.url, "http://r");
    let info = store.find_resource_info("http://r").unwrap().unwrap();
    assert_eq!(info.title, "Title");
    assert_eq!(info.description, "a description");
    assert_eq!(info.cid.as_deref(), Some("cid-1"));
    assert_eq!(info.icon.as_deref(), Some("icon.png"));
    assert_eq!(info.image, None);
}

#[test]
fn resource_upsert_replaces_metadata() {
    let store = DataStore::memory().unwrap();
    store.insert_resource(&resource_input("http://r", "First")).unwrap();
    store.insert_resource(&resource_input("http://r", "Second")).unwrap();
    let mut scope = store.fresh_scope();
    let info = scope.find_resource_info("http://r").unwrap().unwrap();
    assert_eq!(info.title, "Second");
}

#[test]
fn missing_resource_is_none_not_error() {
    let mut store = DataStore::memory().unwrap();
    assert!(store.find_resource_info("http://absent").unwrap().is_none());
}

#[test]
fn missing_links_and_tags_read_empty() {
    let mut store = DataStore::memory().unwrap();
    assert!(store.find_links_by_referrer("http://a").unwrap().is_empty());
    assert!(store.find_links_by_target("http://a").unwrap().is_empty());
    assert!(store.find_tags_by_target("http://a").unwrap().is_empty());
    assert!(store.find_tags_by_name("tag").unwrap().is_empty());
}

#[test]
fn reads_are_cached_per_scope() {
    let mut store = DataStore::memory().unwrap();
    assert_eq!(store.query_count(), 0);
    let first = store.find_links_by_referrer("http://a").unwrap();
    assert_eq!(store.query_count(), 1);
    let second = store.find_links_by_referrer("http://a").unwrap();
    assert_eq!(store.query_count(), 1);
    assert_eq!(first.len(), second.len());
    // A different key costs its own single query.
    store.find_links_by_referrer("http://b").unwrap();
    assert_eq!(store.query_count(), 2);
    store.find_links_by_referrer("http://b").unwrap();
    assert_eq!(store.query_count(), 2);
}

#[test]
fn link_round_trip_with_snapshot() {
    let store = DataStore::memory().unwrap();
    store.insert_resource(&resource_input("http://r", "Referrer Title")).unwrap();
    let links = vec![
        InputLink {
            target_url: "http://t1".to_string(),
            referrer_fragment: Some("seen here".to_string()),
            referrer_location: None,
            kind: LinkKind::Inline,
            name: "one".to_string(),
            title: "".to_string(),
            identifier: None,
        },
        InputLink {
            target_url: "http://t2".to_string(),
            referrer_fragment: None,
            referrer_location: None,
            kind: LinkKind::Reference,
            name: "two".to_string(),
            title: "hover".to_string(),
            identifier: Some("label".to_string()),
        },
    ];
    store.insert_links("http://r", &links).unwrap();

    let mut scope = store.fresh_scope();
    let read = scope.find_links_by_referrer("http://r").unwrap();
    assert_eq!(read.len(), 2);
    let inline = read.iter().find(|l| matches!(l.kind, LinkKind::Inline)).unwrap();
    assert_eq!(inline.target_url, "http://t1");
    assert_eq!(inline.name, "one");
    assert_eq!(inline.identifier, None);
    assert_eq!(inline.referrer_fragment.as_deref(), Some("seen here"));
    assert_eq!(inline.referrer_url, "http://r");
    assert_eq!(inline.referrer_title, "Referrer Title");
    assert_eq!(inline.referrer_cid.as_deref(), Some("cid-1"));
    let reference = read.iter().find(|l| matches!(l.kind, LinkKind::Reference)).unwrap();
    assert_eq!(reference.identifier.as_deref(), Some("label"));
    assert_eq!(reference.title, "hover");

    let back = scope.find_links_by_target("http://t2").unwrap();
    assert_eq!(back.len(), 1);
    assert_eq!(back[0].referrer_url, "http://r");
}

#[test]
fn reference_link_without_label_stores_empty_identifier() {
    let store = DataStore::memory().unwrap();
    let links = vec![InputLink {
        target_url: "http://t".to_string(),
        referrer_fragment: None,
        referrer_location: None,
        kind: LinkKind::Reference,
        name: "n".to_string(),
        title: "".to_string(),
        identifier: None,
    }];
    store.insert_links("http://r", &links).unwrap();
    let mut scope = store.fresh_scope();
    let read = scope.find_links_by_referrer("http://r").unwrap();
    assert_eq!(read.len(), 1);
    assert_eq!(read[0].identifier.as_deref(), Some(""));
}

#[test]
fn reingest_appends_links() {
    let store = DataStore::memory().unwrap();
    let links = vec![InputLink {
        target_url: "http://t".to_string(),
        referrer_fragment: None,
        referrer_location: None,
        kind: LinkKind::Inline,
        name: "n".to_string(),
        title: "".to_string(),
        identifier: None,
    }];
    store.insert_links("http://r", &links).unwrap();
    store.insert_links("http://r", &links).unwrap();
    let mut scope = store.fresh_scope();
    assert_eq!(scope.find_links_by_referrer("http://r").unwrap().len(), 2);
}

#[test]
fn tag_round_trip_and_empty_fragment() {
    let store = DataStore::memory().unwrap();
    let tags = vec![
        InputTag { name: "plain".to_string(), target_fragment: None, target_location: None },
        InputTag {
            name: "scoped".to_string(),
            target_fragment: Some("part".to_string()),
            target_location: Some("loc".to_string()),
        },
    ];
    store.insert_tags("http://r", &tags).unwrap();
    let mut scope = store.fresh_scope();
    let read = scope.find_tags_by_target("http://r").unwrap();
    assert_eq!(read.len(), 2);
    let plain = read.iter().find(|t| t.name == "plain").unwrap();
    // An absent fragment is written as the empty string, never null.
    assert_eq!(plain.target_fragment.as_deref(), Some(""));
    assert_eq!(plain.target_location, None);
    let scoped = read.iter().find(|t| t.name == "scoped").unwrap();
    assert_eq!(scoped.target_fragment.as_deref(), Some("part"));
    assert_eq!(scoped.target_location.as_deref(), Some("loc"));

    let by_name = scope.find_tags_by_name("scoped").unwrap();
    assert_eq!(by_name.len(), 1);
    assert_eq!(by_name[0].target_url, "http://r");
}

#[test]
fn stale_scope_keeps_cached_reads() {
    let store = DataStore::memory().unwrap();
    let mut stale = store.fresh_scope();
    assert!(stale.find_links_by_referrer("http://r").unwrap().is_empty());
    let links = vec![InputLink {
        target_url: "http://t".to_string(),
        referrer_fragment: None,
        referrer_location: None,
        kind: LinkKind::Inline,
        name: "n".to_string(),
        title: "".to_string(),
        identifier: None,
    }];
    store.insert_links("http://r", &links).unwrap();
    // The old scope serves its cached (now stale) answer without a query.
    assert!(stale.find_links_by_referrer("http://r").unwrap().is_empty());
    assert_eq!(stale.query_count(), 1);
    // A fresh scope sees the new row.
    let mut fresh = stale.fresh_scope();
    assert_eq!(fresh.find_links_by_referrer("http://r").unwrap().len(), 1);
}

#[test]
fn read_twice_law_holds_at_runtime() {
    let mut store = DataStore::memory().unwrap();
    let (first, second) = knowledge_server::store::links_by_referrer_read_twice(&mut store, "http://a");
    assert_eq!(first.unwrap().len(), second.unwrap().len());
    assert_eq!(store.query_count(), 1);
}
