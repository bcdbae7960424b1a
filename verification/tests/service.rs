//! The ingestion orchestrator end to end: store and index agreeing on
//! what "ingested" means, plus the query-side resolvers.

use knowledge_server::data::{InputTag, ScanReport};
use knowledge_server::index::IndexService;
use knowledge_server::markdown::read;
use knowledge_server::schema::{Mutations, Query, State};
use knowledge_server::server::Headers;
use knowledge_server::store::DataStore;

fn make_state() -> State {
    State { store: DataStore::memory().unwrap(), index: IndexService::in_memory().unwrap() }
}

#[test]
fn ingest_writes_store_and_index() {
    let state = make_state();
    let input = read("http://doc", "# Doc Title\n\nAbout weasels [w](http://w).\n");
    let returned = Mutations::ingest(&state, &input).unwrap();
    assert_eq!(returned.url, "http://doc");
    assert_eq!(returned.info.as_ref().unwrap().title, "Doc Title");
    state.index.commit().unwrap();

    let mut state = state.next_scope();
    let links = state.store.find_links_by_referrer("http://doc").unwrap();
    assert_eq!(links.len(), 1);
    assert_eq!(links[0].target_url, "http://w");
    assert_eq!(links[0].referrer_title, "Doc Title");

    let keywords = state.index.extract_keywords("weasels", 5).unwrap();
    let similar = state.index.search_with_keywords(&keywords, 10).unwrap();
    assert!(similar.iter().any(|r| r.target_url == "http://doc"));
}

#[test]
fn ingest_with_front_matter_tags() {
    let state = make_state();
    let doc = "---\ntitle: Tagged\ntags: notes, animals\n---\nSome lynx text.\n";
    let mut input = read("http://tagged", doc);
    // The crawler may append its own tags to a document's.
    let mut tags = input.tags.take().unwrap();
    tags.push(InputTag::from_name("extra".to_string()));
    input.tags = Some(tags);
    Mutations::ingest(&state, &input).unwrap();

    let mut state = state.next_scope();
    let read_back = state.store.find_tags_by_target("http://tagged").unwrap();
    assert_eq!(read_back.len(), 3);
    assert!(read_back.iter().any(|t| t.name == "notes"));
    assert!(read_back.iter().any(|t| t.name == "animals"));
    assert!(read_back.iter().any(|t| t.name == "extra"));

    let by_name = Query::tags(&mut state, "extra").unwrap();
    assert_eq!(by_name.len(), 1);
    assert_eq!(by_name[0].target_url(), "http://tagged");
}

#[test]
fn resource_info_falls_back_to_url_segment() {
    let mut store = DataStore::memory().unwrap();
    let resource = Query::resource("http://host/docs/note.md");
    let info = resource.info(&mut store);
    assert_eq!(info.title, "note.md");
    assert_eq!(info.description, "");
    assert_eq!(info.cid, None);
}

#[test]
fn resource_info_prefers_stored_fields() {
    let state = make_state();
    let input = read("http://stored", "# Stored Title\n\nBody here.\n");
    Mutations::ingest(&state, &input).unwrap();
    let mut state = state.next_scope();
    let resource = Query::resource("http://stored");
    let info = resource.info(&mut state.store);
    assert_eq!(info.title, "Stored Title");
    assert_eq!(info.description, "Body here.");
}

#[test]
fn resource_info_carries_own_fields() {
    let state = make_state();
    let input = read("http://own", "# Own Title\n");
    let resource = Mutations::ingest(&state, &input).unwrap();
    let mut other = DataStore::memory().unwrap();
    // The returned resource already carries its info; no lookup happens.
    let info = resource.info(&mut other);
    assert_eq!(info.title, "Own Title");
    assert_eq!(other.query_count(), 0);
}

#[test]
fn resource_link_resolvers() {
    let state = make_state();
    let input = read("http://from", "Go [there](http://to).\n");
    Mutations::ingest(&state, &input).unwrap();
    let mut state = state.next_scope();

    let from = Query::resource("http://from");
    let links = from.links(&mut state).unwrap();
    assert_eq!(links.len(), 1);
    assert_eq!(links[0].target().url(), "http://to");
    assert_eq!(links[0].referrer().url(), "http://from");

    let to = Query::resource("http://to");
    let back = to.back_links(&mut state).unwrap();
    assert_eq!(back.len(), 1);
    assert_eq!(back[0].name(), "there");
}

#[test]
fn query_similar_returns_ranked_resources() {
    let state = make_state();
    let input = read("http://sim", "# Similar\n\nBadgers dig deep burrows.\n");
    Mutations::ingest(&state, &input).unwrap();
    state.index.commit().unwrap();
    let answer = Query::similar(&state, "badgers burrows", 5, 10).unwrap();
    assert!(answer.resources.iter().any(|r| r.target_url == "http://sim"));
    assert!(answer.keywords.len() >= 1);
}

#[test]
fn headers_accumulate_in_order() {
    let headers = Headers::new().set("Server", "Knowledge-Server").set("X-One", "1");
    let all = headers.all();
    assert_eq!(all.len(), 2);
    assert_eq!(all[0].key, "Server");
    assert_eq!(all[0].value, "Knowledge-Server");
    assert_eq!(all[1].key, "X-One");
}

#[test]
fn resource_from_file_path() {
    let resource = knowledge_server::data::Resource::from_file_path("/notes/a.md").unwrap();
    assert_eq!(resource.url(), "file:///notes/a.md");
    assert!(knowledge_server::data::Resource::from_file_path("relative.md").is_none());
}

#[test]
fn scan_report_counts() {
    let report = ScanReport { links: 2, tags: 1 };
    assert_eq!(report, ScanReport { links: 2, tags: 1 });
}

#[test]
fn link_and_tag_accessors() {
    let state = make_state();
    let doc = "---\ntags: one\n---\nSee [x][lbl].\n\n[lbl]: http://x\n";
    let input = read("http://acc", doc);
    Mutations::ingest(&state, &input).unwrap();
    let mut state = state.next_scope();

    let links = state.store.find_links_by_referrer("http://acc").unwrap();
    assert_eq!(links.len(), 1);
    assert_eq!(links[0].name(), "x");
    assert_eq!(links[0].identifier().map(|s| s.as_str()), Some("lbl"));
    assert_eq!(links[0].title(), "");
    assert!(links[0].fragment().is_some());
    assert!(links[0].location().is_none());

    let tags = state.store.find_tags_by_target("http://acc").unwrap();
    assert_eq!(tags.len(), 1);
    assert_eq!(tags[0].name(), "one");
    assert_eq!(tags[0].tag(), "one");
    assert_eq!(tags[0].fragment().map(|s| s.as_str()), Some(""));
    assert_eq!(tags[0].target().url(), "http://acc");
}
