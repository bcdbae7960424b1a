//! The search index over a real in-memory tantivy index: ingest and
//! commit semantics, keyword extraction and similarity search.

use knowledge_server::index::{token_length_limit, IndexService};

#[test]
fn search_finds_ingested_document() {
    let index = IndexService::in_memory().unwrap();
    index.ingest("a", "Cats", "cats are great pets").unwrap();
    index.commit().unwrap();
    let keywords = index.extract_keywords("I love cats", 5).unwrap();
    assert!(keywords.len() >= 1);
    let results = index.search_with_keywords(&keywords, 10).unwrap();
    assert!(results.iter().any(|r| r.target_url == "a"));
}

#[test]
fn all_ingests_visible_after_single_commit() {
    let index = IndexService::in_memory().unwrap();
    for i in 0..5 {
        let url = format!("u{}", i);
        index.ingest(&url, "t", "zebra habits noted").unwrap();
    }
    index.commit().unwrap();
    let keywords = index.extract_keywords("zebra habits", 5).unwrap();
    let results = index.search_with_keywords(&keywords, 10).unwrap();
    assert_eq!(results.len(), 5);
}

#[test]
fn uncommitted_ingest_is_invisible() {
    let index = IndexService::in_memory().unwrap();
    index.ingest("old", "t", "walrus colony").unwrap();
    index.commit().unwrap();
    index.ingest("new", "t", "walrus colony").unwrap();
    let keywords = index.extract_keywords("walrus colony", 5).unwrap();
    let results = index.search_with_keywords(&keywords, 10).unwrap();
    assert!(results.iter().any(|r| r.target_url == "old"));
    assert!(!results.iter().any(|r| r.target_url == "new"));
    // After the commit the pending ingest becomes visible.
    index.commit().unwrap();
    let results = index.search_with_keywords(&keywords, 10).unwrap();
    assert!(results.iter().any(|r| r.target_url == "new"));
}

#[test]
fn opstamps_advance() {
    let index = IndexService::in_memory().unwrap();
    index.ingest("a", "t", "first body").unwrap();
    let c1 = index.commit().unwrap();
    index.ingest("b", "t", "second body").unwrap();
    let c2 = index.commit().unwrap();
    assert!(c2 > c1);
}

#[test]
fn search_respects_limit() {
    let index = IndexService::in_memory().unwrap();
    for i in 0..4 {
        let url = format!("d{}", i);
        index.ingest(&url, "t", "ocelot sightings reported").unwrap();
    }
    index.commit().unwrap();
    let keywords = index.extract_keywords("ocelot sightings", 5).unwrap();
    let results = index.search_with_keywords(&keywords, 2).unwrap();
    assert_eq!(results.len(), 2);
    let none = index.search_with_keywords(&keywords, 0).unwrap();
    assert!(none.is_empty());
}

#[test]
fn scores_are_non_negative() {
    let index = IndexService::in_memory().unwrap();
    index.ingest("a", "t", "gibbon families sing").unwrap();
    index.commit().unwrap();
    let keywords = index.extract_keywords("gibbon families", 5).unwrap();
    let results = index.search_with_keywords(&keywords, 10).unwrap();
    assert!(!results.is_empty());
    for r in &results {
        let score = f32::from_bits(r.similarity_score_bits);
        assert!(score >= 0.0);
    }
}

#[test]
fn results_are_sorted_best_first() {
    let index = IndexService::in_memory().unwrap();
    index.ingest("close", "t", "heron heron heron by the pond").unwrap();
    index.ingest("far", "t", "heron mentioned once among many other words here").unwrap();
    index.commit().unwrap();
    let keywords = index.extract_keywords("heron pond", 5).unwrap();
    let results = index.search_with_keywords(&keywords, 10).unwrap();
    assert!(results.len() >= 2);
    for pair in results.windows(2) {
        assert!(pair[0].similarity_score_bits >= pair[1].similarity_score_bits);
    }
}

#[test]
fn stop_words_yield_no_keywords() {
    let index = IndexService::in_memory().unwrap();
    index.ingest("a", "t", "the and of it").unwrap();
    index.commit().unwrap();
    let keywords = index.extract_keywords("the and of", 5).unwrap();
    assert_eq!(keywords.len(), 0);
}

#[test]
fn token_limit_is_forty() {
    assert_eq!(token_length_limit(), 40);
}

