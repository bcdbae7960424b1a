//! The search index: a full-text inverted index over resource bodies with
//! a custom tokenizer, keyword extraction against the corpus statistics,
//! and similarity search over a keyword set.
//!
//! All index behaviour lives in tantivy and tique behind trusted wrappers;
//! the writer is shared behind a reader-writer lock so that many ingests
//! may proceed together while a commit excludes them all.

use vstd::prelude::*;

use crate::data::SimilarResource;

verus! {

/// An index failure, surfaced per operation.
#[derive(Clone, Debug)]
pub enum Error {
    /// The engine reported an error; the message is its text.
    IndexError(String),
    /// The index directory could not be opened or created.
    OpenIndexError(String),
    /// The shared lock on the writer was poisoned.
    ReadLockError,
    /// The exclusive lock on the writer was poisoned.
    WriteLockError,
    /// A matched document carried no readable URL field.
    URLReadError,
}

impl Error {
    /// A human-readable description of this failure.
    pub fn message(&self) -> String {
        match self {
            Error::IndexError(m) => m.clone(),
            Error::OpenIndexError(m) => m.clone(),
            Error::ReadLockError => String::from_str("failed to take the shared writer lock"),
            Error::WriteLockError => String::from_str("failed to take the exclusive writer lock"),
            Error::URLReadError => String::from_str(
                "unable to read the url of an indexed document",
            ),
        }
    }
}

#[verifier::external_type_specification]
#[verifier::external_body]
pub struct ExKeywords(tique::topterms::Keywords);

#[verifier::external_type_specification]
#[verifier::external_body]
pub struct ExTextAnalyzer(tantivy::tokenizer::TextAnalyzer);

#[verifier::external_type_specification]
#[verifier::external_body]
pub struct ExTextOptions(tantivy::schema::TextOptions);

#[verifier::external_type_specification]
#[verifier::external_body]
pub struct ExTextFieldIndexing(tantivy::schema::TextFieldIndexing);

#[verifier::external_type_specification]
#[verifier::external_body]
pub struct ExField(tantivy::schema::Field);

#[verifier::external_type_specification]
#[verifier::external_body]
pub struct ExIndex(tantivy::Index);

/// The open index: schema fields, the index itself, the snapshot reader
/// and the writer behind its reader-writer lock. tantivy's index types
/// cannot all be declared to the verifier, so they live behind this
/// opaque struct and are touched only inside the trusted wrappers below.
#[verifier::external_body]
pub struct SearchHandle {
    url_field: tantivy::schema::Field,
    title_field: tantivy::schema::Field,
    body_field: tantivy::schema::Field,
    index: tantivy::Index,
    reader: tantivy::IndexReader,
    writer: std::sync::RwLock<tantivy::IndexWriter>,
}

/// Relies on tantivy's tokenizer pipeline: simple word-boundary
/// splitting, a cap on token length, lower-casing and stop-word removal.
/// No stemming: the term-extraction model already yields stems, and
/// stemming again would degrade matches.
#[verifier::external_body]
pub fn tokenizer(long_limit: usize, stop_words: Vec<String>) -> tantivy::tokenizer::TextAnalyzer {
    tantivy::tokenizer::TextAnalyzer::from(tantivy::tokenizer::SimpleTokenizer)
        .filter(tantivy::tokenizer::RemoveLongFilter::limit(long_limit))
        .filter(tantivy::tokenizer::LowerCaser)
        .filter(tantivy::tokenizer::StopWordFilter::remove(stop_words))
}

/// Relies on tantivy's TextFieldIndexing: tokenized indexing with term
/// frequencies and positions under the named tokenizer.
#[verifier::external_body]
pub fn indexer(tokenizer_name: &str) -> tantivy::schema::TextFieldIndexing {
    tantivy::schema::TextFieldIndexing::default().set_tokenizer(tokenizer_name).set_index_option(
        tantivy::schema::IndexRecordOption::WithFreqsAndPositions,
    )
}

/// Relies on tantivy's TextOptions: full-text options over the indexing
/// settings of `indexer`.
#[verifier::external_body]
pub fn text_options(tokenizer_name: &str) -> tantivy::schema::TextOptions {
    tantivy::schema::TextOptions::default().set_indexing_options(indexer(tokenizer_name))
}

/// Relies on stopwords::NLTK: the stop-word list for English.
#[verifier::external_body]
fn english_stop_words() -> Option<Vec<String>> {
    <stopwords::NLTK as stopwords::Stopwords>::stopwords(stopwords::Language::English).map(
        |words| words.iter().map(|w| w.to_string()).collect(),
    )
}

#[verifier::external_type_specification]
#[verifier::external_body]
pub struct ExSchema(tantivy::schema::Schema);

#[verifier::external_type_specification]
#[verifier::external_body]
pub struct ExSearcher(tantivy::Searcher);

#[verifier::external_type_specification]
#[verifier::external_body]
pub struct ExDocAddress(tantivy::DocAddress);

/// Relies on tantivy's schema builder: the three fields — an exact-match
/// stored URL, a tokenized stored title and a tokenized unstored body.
#[verifier::external_body]
fn build_schema(url_name: &str, title_name: &str, body_name: &str, options: tantivy::schema::TextOptions) -> (
    tantivy::schema::Schema,
    tantivy::schema::Field,
    tantivy::schema::Field,
    tantivy::schema::Field,
) {
    let mut builder = tantivy::schema::Schema::builder();
    let url = builder.add_text_field(url_name, tantivy::schema::STRING | tantivy::schema::STORED);
    let title = builder.add_text_field(title_name, options.clone().set_stored());
    let body = builder.add_text_field(body_name, options);
    (builder.build(), url, title, body)
}

/// Relies on MmapDirectory::open and the index builder's open_or_create:
/// the index over the directory at `path`; opening an initialized
/// directory keeps its segments. The doc store uses the snappy
/// compressor: the engine's default block compressor breaks a checked
/// invariant of the standard library on current toolchains.
#[verifier::external_body]
fn open_index(path: &str, schema: tantivy::schema::Schema) -> Result<tantivy::Index, Error> {
    let dir = tantivy::directory::MmapDirectory::open(std::path::Path::new(path)).map_err(
        |e| Error::OpenIndexError(e.to_string()),
    )?;
    let settings = tantivy::IndexSettings {
        sort_by_field: None,
        docstore_compression: tantivy::store::Compressor::Snappy,
    };
    tantivy::Index::builder().schema(schema).settings(settings).open_or_create(dir).map_err(
        |e| Error::IndexError(e.to_string()),
    )
}

/// Relies on the index builder's create_in_ram: an index living in
/// memory, with the same snappy doc-store choice as `open_index`.
#[verifier::external_body]
fn ram_index(schema: tantivy::schema::Schema) -> Result<tantivy::Index, Error> {
    let settings = tantivy::IndexSettings {
        sort_by_field: None,
        docstore_compression: tantivy::store::Compressor::Snappy,
    };
    tantivy::Index::builder().schema(schema).settings(settings).create_in_ram().map_err(
        |e| Error::IndexError(e.to_string()),
    )
}

/// Relies on TokenizerManager::register: makes the analyzer available to
/// the index under its name.
#[verifier::external_body]
fn register_tokenizer(index: &tantivy::Index, name: &str, analyzer: tantivy::tokenizer::TextAnalyzer) {
    index.tokenizers().register(name, analyzer);
}

/// Relies on Index::reader and Index::writer: the snapshot reader and
/// the writer put behind its reader-writer lock.
#[verifier::external_body]
fn finish_handle(
    index: tantivy::Index,
    url_field: tantivy::schema::Field,
    title_field: tantivy::schema::Field,
    body_field: tantivy::schema::Field,
    heap: usize,
) -> Result<SearchHandle, Error> {
    let reader = index.reader().map_err(|e| Error::IndexError(e.to_string()))?;
    let writer = index.writer(heap).map_err(|e| Error::IndexError(e.to_string()))?;
    Ok(
        SearchHandle {
            url_field,
            title_field,
            body_field,
            index,
            reader,
            writer: std::sync::RwLock::new(writer),
        },
    )
}

/// Relies on RwLock::read and IndexWriter::add_document: takes the shared
/// lock — many ingests may hold it together — builds the three-field
/// document and enqueues it, returning the operation stamp. The add can
/// abort only if the engine's own worker threads have already panicked,
/// a state no input of this call can bring about.
#[verifier::external_body]
fn handle_ingest(h: &SearchHandle, url: &str, title: &str, body: &str) -> Result<u64, Error> {
    let writer = h.writer.read().map_err(|_| Error::ReadLockError)?;
    let mut doc = tantivy::schema::Document::new();
    doc.add_text(h.url_field, url);
    doc.add_text(h.title_field, title);
    doc.add_text(h.body_field, body);
    Ok(writer.add_document(doc))
}

/// Relies on RwLock::write and IndexWriter::commit: takes the exclusive
/// lock — excluding every concurrent ingest — flushes the pending
/// documents and returns the commit's operation stamp. Every ingest whose
/// call completed before the commit began is covered by it.
#[verifier::external_body]
fn handle_commit(h: &SearchHandle) -> Result<u64, Error> {
    let mut writer = h.writer.write().map_err(|_| Error::WriteLockError)?;
    writer.commit().map_err(|e| Error::IndexError(e.to_string()))
}

/// Relies on tique's TopTerms: the `limit` most relevant terms of the
/// input, ranked against the corpus statistics as of the last commit; the
/// extraction model is built over a fresh snapshot of the body field.
#[verifier::external_body]
fn handle_extract(h: &SearchHandle, limit: usize, input: &str) -> Result<
    tique::topterms::Keywords,
    Error,
> {
    let topterms = tique::topterms::TopTerms::new(&h.index, vec![h.body_field]).map_err(
        |e| Error::IndexError(e.to_string()),
    )?;
    Ok(topterms.extract(limit, input))
}

/// A result list is ranked when every score has a clear sign bit — the
/// engine's relevance scores are non-negative — and the scores are
/// non-increasing, best match first. For non-negative IEEE
/// single-precision values the bit order is the numeric order, so both
/// facts are stated over the carried bits.
pub open spec fn ranked(v: Seq<crate::data::SimilarResourceView>) -> bool {
    &&& forall|i: int|
        0 <= i < v.len() ==> (#[trigger] v[i].similarity_score_bits) < 0x80000000u32
    &&& forall|i: int|
        0 <= i && i + 1 < v.len() ==> (#[trigger] v[i].similarity_score_bits)
            >= v[i + 1].similarity_score_bits
}

/// Relies on Searcher::doc and Value::text: reads the stored URL of one
/// match and pairs it with the score bits it was handed.
#[verifier::external_body]
fn hit_resource(searcher: &tantivy::Searcher, url_field: tantivy::schema::Field, score_bits: u32, address: tantivy::DocAddress) -> Result<SimilarResource, Error> {
    let doc = searcher.doc(address).map_err(|e| Error::IndexError(e.to_string()))?;
    let url = doc.get_first(url_field).and_then(|v| v.text()).ok_or(Error::URLReadError)?;
    Ok(SimilarResource { similarity_score_bits: score_bits, target_url: url.to_string() })
}

/// Relies on IndexReader::reload, then Searcher::search with a TopDocs
/// collector over the keyword set's disjunctive query: at most `limit`
/// matches among the documents committed so far, sorted best first by
/// the engine's non-negative relevance score; each score is carried out
/// as its raw bits, whose order is the numeric order. The collector
/// refuses a zero limit, so it is required away.
#[verifier::external_body]
fn handle_search(h: &SearchHandle, keywords: &tique::topterms::Keywords, limit: usize) -> (r:
    Result<Vec<SimilarResource>, Error>)
    requires
        limit >= 1,
    ensures
        match r {
            Ok(v) => v@.len() <= limit && ranked(v.deep_view()),
            Err(_) => true,
        },
{
    h.reader.reload().map_err(|e| Error::IndexError(e.to_string()))?;
    let searcher = h.reader.searcher();
    let query = keywords.clone().into_query();
    let top = searcher.search(&query, &tantivy::collector::TopDocs::with_limit(limit)).map_err(
        |e| Error::IndexError(e.to_string()),
    )?;
    let mut out = Vec::new();
    for (score, address) in top {
        out.push(hit_resource(&searcher, h.url_field, score.to_bits(), address)?);
    }
    Ok(out)
}

/// The length bound every token must meet to be indexed.
pub fn token_length_limit() -> (r: usize)
    ensures
        r == 40,
{
    40
}

/// The full-text index service: owns the inverted index, the
/// term-extraction model, and the reader/writer pair with explicit commit
/// semantics. Readers observe the snapshot as of the last commit;
/// uncommitted ingests stay invisible until a commit succeeds.
pub struct IndexService {
    handle: SearchHandle,
}

impl IndexService {
    fn build(path: Option<&str>) -> Result<IndexService, Error> {
        let words = match english_stop_words() {
            Some(ws) => ws,
            None => {
                return Err(Error::IndexError(String::from_str("no stop words for English")));
            },
        };
        let analyzer = tokenizer(token_length_limit(), words);
        let options = text_options("en_with_stopwords");
        let (schema, url_field, title_field, body_field) = build_schema(
            "url",
            "title",
            "body",
            options,
        );
        let index = match path {
            Some(p) => {
                match open_index(p, schema) {
                    Ok(ix) => ix,
                    Err(e) => {
                        return Err(e);
                    },
                }
            },
            None => {
                match ram_index(schema) {
                    Ok(ix) => ix,
                    Err(e) => {
                        return Err(e);
                    },
                }
            },
        };
        register_tokenizer(&index, "en_with_stopwords", analyzer);
        match finish_handle(index, url_field, title_field, body_field, 50000000) {
            Ok(h) => Ok(IndexService { handle: h }),
            Err(e) => Err(e),
        }
    }

    /// Opens (or creates) the index in the directory at `path` and
    /// registers the tokenizer. The caller makes sure the directory
    /// exists; a directory that cannot be opened is a fatal startup
    /// failure for the caller to propagate.
    pub fn activate(path: &str) -> Result<IndexService, Error> {
        IndexService::build(Some(path))
    }

    /// An index living in memory, for tests and ephemeral use.
    pub fn in_memory() -> Result<IndexService, Error> {
        IndexService::build(None)
    }

    /// Enqueues a document under the shared writer lock; the add is safe
    /// to interleave with other ingests. The document stays invisible to
    /// search until a later commit succeeds.
    pub fn ingest(&self, url: &str, title: &str, body: &str) -> Result<u64, Error> {
        handle_ingest(&self.handle, url, title, body)
    }

    /// Flushes every pending add under the exclusive writer lock and
    /// returns the monotonically advancing operation stamp. An ingest
    /// whose call completed before this commit began is covered by it.
    pub fn commit(&self) -> Result<u64, Error> {
        handle_commit(&self.handle)
    }

    /// Extracts the `limit` most important terms of the input, scored
    /// against the corpus as of the last commit; the result drives
    /// similarity search.
    pub fn extract_keywords(&self, input: &str, limit: usize) -> Result<
        tique::topterms::Keywords,
        Error,
    > {
        handle_extract(&self.handle, limit, input)
    }

    /// Ranks committed documents by similarity to the keyword set and
    /// returns at most `limit` of them, sorted best first by the
    /// engine's non-negative score, carried as raw bits whose order is
    /// the numeric order. A zero limit succeeds with no matches, without
    /// consulting the index.
    pub fn search_with_keywords(&self, keywords: &tique::topterms::Keywords, limit: usize) -> (r:
        Result<Vec<SimilarResource>, Error>)
        ensures
            match r {
                Ok(v) => v@.len() <= limit && ranked(v.deep_view()),
                Err(_) => true,
            },
            limit == 0 ==> (r matches Ok(v) && v@.len() == 0),
    {
        if limit == 0 {
            let empty: Vec<SimilarResource> = Vec::new();
            proof {
                assert(empty.deep_view() =~= Seq::<crate::data::SimilarResourceView>::empty());
            }
            Ok(empty)
        } else {
            handle_search(&self.handle, keywords, limit)
        }
    }
}

/// A similarity answer: the keywords that drove the match and the
/// resources ranked by them, best first.
pub struct SimilarResources {
    pub keywords: tique::topterms::Keywords,
    pub resources: Vec<SimilarResource>,
}

} // verus!
