//! The ingestion orchestrator and the query operations over the store
//! and the search index: the one place where the two must agree on what
//! "ingested" means.

use vstd::prelude::*;

use crate::data::{
    InputResource, Resource, ResourceInfo, ResourceInfoView, Tag, resource_of_input,
};
use crate::index::IndexService;
use crate::store::DataStore;
use crate::text::{last_segment, last_segment_spec};

verus! {

/// The shared state of one unit of work: a per-scope store handle and
/// the index service.
pub struct State {
    pub store: DataStore,
    pub index: IndexService,
}

impl State {
    /// A state for the next unit of work: the same backing store under a
    /// fresh cache scope, and the same index.
    pub fn next_scope(self) -> (r: State)
        ensures
            r.store@ == crate::store::fresh_scope_view(),
    {
        State { store: self.store.fresh_scope(), index: self.index }
    }
}

/// The first failure among an ingestion's sub-steps.
#[derive(Clone, Debug)]
pub enum Error {
    Store(crate::store::Error),
    Index(crate::index::Error),
}

impl Error {
    /// A human-readable description of this failure.
    pub fn message(&self) -> String {
        match self {
            Error::Store(e) => e.message().to_owned(),
            Error::Index(e) => e.message(),
        }
    }
}

/// The mutation operations of the service.
#[derive(Clone, Copy, Debug)]
pub struct Mutations;

impl Mutations {
    /// Ingests a resource into the knowledge base: upserts its metadata,
    /// appends its tags and links, and — when body content is present —
    /// hands the body to the search index. The first failing sub-step
    /// aborts the remaining steps and is surfaced; sub-steps that
    /// already completed are not rolled back. On success the returned
    /// resource carries exactly the input's info fields.
    pub fn ingest(state: &State, input: &InputResource) -> (r: Result<Resource, Error>)
        ensures
            match r {
                Ok(res) => res@ == resource_of_input(input@),
                Err(_) => true,
            },
    {
        let resource = match state.store.insert_resource(input) {
            Ok(res) => res,
            Err(e) => {
                return Err(Error::Store(e));
            },
        };
        match &input.tags {
            Some(tags) => {
                match state.store.insert_tags(input.url.as_str(), tags) {
                    Ok(()) => {},
                    Err(e) => {
                        return Err(Error::Store(e));
                    },
                }
            },
            None => {},
        }
        match &input.links {
            Some(links) => {
                match state.store.insert_links(input.url.as_str(), links) {
                    Ok(()) => {},
                    Err(e) => {
                        return Err(Error::Store(e));
                    },
                }
            },
            None => {},
        }
        match &input.content {
            Some(content) => {
                match state.index.ingest(
                    input.url.as_str(),
                    input.title.as_str(),
                    content.as_str(),
                ) {
                    Ok(_) => {},
                    Err(e) => {
                        return Err(Error::Index(e));
                    },
                }
            },
            None => {},
        }
        Ok(resource)
    }
}

/// The query operations of the service.
#[derive(Clone, Copy, Debug)]
pub struct Query;

impl Query {
    /// The resource a URL denotes; its info fields are resolved lazily.
    pub fn resource(url: &str) -> (r: Resource)
        ensures
            r@.url == url@,
            r@.info is None,
    {
        Resource::from_url(url)
    }

    /// The tags with the given name, through the scope's cache: a key
    /// read before in this scope is served from the cache with no
    /// backing query; a fresh key costs one query and is cached when the
    /// read succeeds.
    pub fn tags(state: &mut State, name: &str) -> (r: Result<Vec<Tag>, crate::store::Error>)
        ensures
            old(state).store@.tags_by_name.contains_key(name@) ==> ({
                &&& final(state).store@ == old(state).store@
                &&& match r {
                    Ok(v) => v.deep_view() == old(state).store@.tags_by_name[name@],
                    Err(_) => false,
                }
            }),
            !old(state).store@.tags_by_name.contains_key(name@) ==> ({
                &&& final(state).store@.queries == crate::store::bump(old(state).store@.queries)
                &&& match r {
                    Ok(v) => final(state).store@.tags_by_name == old(
                        state,
                    ).store@.tags_by_name.insert(name@, v.deep_view()),
                    Err(_) => final(state).store@.tags_by_name == old(state).store@.tags_by_name,
                }
            }),
    {
        state.store.find_tags_by_name(name)
    }

    /// Resources similar to the input text: extracts the most relevant
    /// keywords of the input against the indexed corpus and ranks the
    /// committed documents by similarity, at most `limit` of them.
    pub fn similar(state: &State, input: &str, keyword_limit: usize, limit: usize) -> (r: Result<
        crate::index::SimilarResources,
        crate::index::Error,
    >)
        ensures
            match r {
                Ok(s) => s.resources@.len() <= limit && crate::index::ranked(
                    s.resources.deep_view(),
                ),
                Err(_) => true,
            },
    {
        let keywords = match state.index.extract_keywords(input, keyword_limit) {
            Ok(k) => k,
            Err(e) => {
                return Err(e);
            },
        };
        match state.index.search_with_keywords(&keywords, limit) {
            Ok(resources) => Ok(crate::index::SimilarResources { keywords, resources }),
            Err(e) => Err(e),
        }
    }
}

/// The info a resource falls back to when nothing is stored for it: the
/// last path segment of its URL as the title and an empty description.
pub open spec fn fallback_info(url: Seq<char>) -> ResourceInfoView {
    ResourceInfoView {
        title: last_segment_spec(url),
        description: Seq::empty(),
        cid: None,
        icon: None,
        image: None,
    }
}

impl Resource {
    /// This resource's info: the fields it already carries when present;
    /// otherwise the stored fields for its URL; otherwise the derived
    /// fallback — last path segment as title, empty description. A URL
    /// this scope has not read yet costs one backing query; whatever
    /// comes back, the result is the info now cached for the URL, or the
    /// fallback when no row is stored or the lookup failed.
    pub fn info(&self, store: &mut DataStore) -> (r: ResourceInfo)
        ensures
            match self@.info {
                Some(i) => r@ == i && final(store)@ == old(store)@,
                None => true,
            },
            self@.info is None && old(store)@.resource_info.contains_key(self@.url) ==> ({
                &&& final(store)@ == old(store)@
                &&& match old(store)@.resource_info[self@.url] {
                    Some(i) => r@ == i,
                    None => r@ == fallback_info(self@.url),
                }
            }),
            self@.info is None && !old(store)@.resource_info.contains_key(self@.url) ==> ({
                &&& final(store)@.queries == crate::store::bump(old(store)@.queries)
                &&& final(store)@.links_by_referrer == old(store)@.links_by_referrer
                &&& final(store)@.links_by_target == old(store)@.links_by_target
                &&& final(store)@.tags_by_target == old(store)@.tags_by_target
                &&& final(store)@.tags_by_name == old(store)@.tags_by_name
                &&& (final(store)@.resource_info.contains_key(self@.url)
                    ==> match final(store)@.resource_info[self@.url] {
                    Some(i) => r@ == i,
                    None => r@ == fallback_info(self@.url),
                })
                &&& (!final(store)@.resource_info.contains_key(self@.url) ==> r@
                    == fallback_info(self@.url))
            }),
    {
        match &self.info {
            Some(i) => i.duplicate(),
            None => {
                match store.find_resource_info(self.url.as_str()) {
                    Ok(Some(i)) => i,
                    Ok(None) => ResourceInfo {
                        title: last_segment(self.url.as_str()),
                        description: String::new(),
                        cid: None,
                        icon: None,
                        image: None,
                    },
                    Err(_) => ResourceInfo {
                        title: last_segment(self.url.as_str()),
                        description: String::new(),
                        cid: None,
                        icon: None,
                        image: None,
                    },
                }
            },
        }
    }

    /// The links going out of this resource, through the scope's cache:
    /// a cached key is served without a backing query; a fresh key costs
    /// one query and is cached when the read succeeds.
    pub fn links(&self, state: &mut State) -> (r: Result<
        Vec<crate::data::Link>,
        crate::store::Error,
    >)
        ensures
            old(state).store@.links_by_referrer.contains_key(self@.url) ==> ({
                &&& final(state).store@ == old(state).store@
                &&& match r {
                    Ok(v) => v.deep_view() == old(state).store@.links_by_referrer[self@.url],
                    Err(_) => false,
                }
            }),
            !old(state).store@.links_by_referrer.contains_key(self@.url) ==> ({
                &&& final(state).store@.queries == crate::store::bump(old(state).store@.queries)
                &&& match r {
                    Ok(v) => final(state).store@.links_by_referrer == old(
                        state,
                    ).store@.links_by_referrer.insert(self@.url, v.deep_view()),
                    Err(_) => final(state).store@.links_by_referrer == old(
                        state,
                    ).store@.links_by_referrer,
                }
            }),
    {
        state.store.find_links_by_referrer(self.url.as_str())
    }

    /// The links coming into this resource, through the scope's cache:
    /// a cached key is served without a backing query; a fresh key costs
    /// one query and is cached when the read succeeds.
    pub fn back_links(&self, state: &mut State) -> (r: Result<
        Vec<crate::data::Link>,
        crate::store::Error,
    >)
        ensures
            old(state).store@.links_by_target.contains_key(self@.url) ==> ({
                &&& final(state).store@ == old(state).store@
                &&& match r {
                    Ok(v) => v.deep_view() == old(state).store@.links_by_target[self@.url],
                    Err(_) => false,
                }
            }),
            !old(state).store@.links_by_target.contains_key(self@.url) ==> ({
                &&& final(state).store@.queries == crate::store::bump(old(state).store@.queries)
                &&& match r {
                    Ok(v) => final(state).store@.links_by_target == old(
                        state,
                    ).store@.links_by_target.insert(self@.url, v.deep_view()),
                    Err(_) => final(state).store@.links_by_target == old(
                        state,
                    ).store@.links_by_target,
                }
            }),
    {
        state.store.find_links_by_target(self.url.as_str())
    }

    /// The tags attached to this resource, through the scope's cache: a
    /// cached key is served without a backing query; a fresh key costs
    /// one query and is cached when the read succeeds.
    pub fn tags(&self, state: &mut State) -> (r: Result<Vec<Tag>, crate::store::Error>)
        ensures
            old(state).store@.tags_by_target.contains_key(self@.url) ==> ({
                &&& final(state).store@ == old(state).store@
                &&& match r {
                    Ok(v) => v.deep_view() == old(state).store@.tags_by_target[self@.url],
                    Err(_) => false,
                }
            }),
            !old(state).store@.tags_by_target.contains_key(self@.url) ==> ({
                &&& final(state).store@.queries == crate::store::bump(old(state).store@.queries)
                &&& match r {
                    Ok(v) => final(state).store@.tags_by_target == old(
                        state,
                    ).store@.tags_by_target.insert(self@.url, v.deep_view()),
                    Err(_) => final(state).store@.tags_by_target == old(
                        state,
                    ).store@.tags_by_target,
                }
            }),
    {
        state.store.find_tags_by_target(self.url.as_str())
    }
}

} // verus!
