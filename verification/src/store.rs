//! The knowledge store: persists resources, links and tags in an embedded
//! relational database behind pooled connections, and wraps every read in
//! a per-scope batching cache so that repeated reads of one key cost at
//! most one backing-store query.
//!
//! Statement execution goes through rusqlite behind trusted wrappers; row
//! decoding, parameter encoding, the cache and the query counter are
//! verified.

use vstd::prelude::*;

use crate::data::{
    InputLink, InputLinkView, InputResource, InputTag, InputTagView, Link, LinkKind, LinkView,
    Resource, ResourceInfo, ResourceInfoView, resource_of_input,
};

verus! {

/// A store failure: connection, statement or row-decode trouble, carried
/// as a human-readable message.
#[derive(Clone, Debug)]
pub enum Error {
    SQLError(String),
}

impl Error {
    /// The human-readable message of this failure.
    pub fn message(&self) -> (r: &str)
        ensures
            match self {
                Error::SQLError(m) => r@ == m@,
            },
    {
        match self {
            Error::SQLError(m) => m.as_str(),
        }
    }
}

/// One column of a row handed back by the backing store.
#[derive(Clone, Debug)]
pub enum ColValue {
    Null,
    Int(i64),
    Text(String),
}

#[verifier::ext_equal]
pub ghost enum ColValueView {
    Null,
    Int(i64),
    Text(Seq<char>),
}

impl View for ColValue {
    type V = ColValueView;

    open spec fn view(&self) -> ColValueView {
        match self {
            ColValue::Null => ColValueView::Null,
            ColValue::Int(x) => ColValueView::Int(*x),
            ColValue::Text(t) => ColValueView::Text(t@),
        }
    }
}

impl DeepView for ColValue {
    type V = ColValueView;

    open spec fn deep_view(&self) -> ColValueView {
        self@
    }
}

/// The pooled-connection handle onto the backing database. r2d2's pool
/// type is generic over a connection-manager trait that the verifier
/// cannot take as a bound, so the pool is held behind this opaque struct
/// and touched only inside the trusted wrappers below.
#[verifier::external_body]
pub struct Db {
    pool: r2d2::Pool<r2d2_sqlite::SqliteConnectionManager>,
}

/// Relies on r2d2::Pool::get, rusqlite's prepare_cached and
/// Statement::execute: checks out a connection and runs one parameterized
/// statement; the database alone decides the outcome.
#[verifier::external_body]
fn sql_execute(db: &Db, sql: &str, params: &Vec<Option<String>>) -> Result<usize, String> {
    let conn = db.pool.get().map_err(|e| e.to_string())?;
    let mut stmt = conn.prepare_cached(sql).map_err(|e| e.to_string())?;
    stmt.execute(rusqlite::params_from_iter(params.iter())).map_err(|e| e.to_string())
}

#[verifier::external_type_specification]
#[verifier::external_body]
pub struct ExRow<'a>(rusqlite::Row<'a>);

#[verifier::external_type_specification]
#[verifier::external_body]
pub struct ExValueRef<'a>(rusqlite::types::ValueRef<'a>);

/// Relies on rusqlite's ValueRef: tells the storage classes apart. This
/// schema holds only null, integer and text columns; any other storage
/// class reads as null.
#[verifier::external_body]
fn col_value(value: rusqlite::types::ValueRef<'_>) -> ColValue {
    match value {
        rusqlite::types::ValueRef::Null => ColValue::Null,
        rusqlite::types::ValueRef::Integer(x) => ColValue::Int(x),
        rusqlite::types::ValueRef::Text(t) => ColValue::Text(
            String::from_utf8_lossy(t).into_owned(),
        ),
        _ => ColValue::Null,
    }
}

/// Relies on rusqlite::Row::get_ref: one row's columns as plain values.
#[verifier::external_body]
fn row_values(row: &rusqlite::Row<'_>, ncols: usize) -> Result<Vec<ColValue>, String> {
    let mut rec: Vec<ColValue> = Vec::new();
    for i in 0..ncols {
        rec.push(col_value(row.get_ref(i).map_err(|e| e.to_string())?));
    }
    Ok(rec)
}

/// Relies on rusqlite's prepare_cached, Statement::query and Rows::next:
/// runs one parameterized query and converts every row to its column
/// values.
#[verifier::external_body]
fn sql_query(db: &Db, sql: &str, params: &Vec<Option<String>>) -> Result<
    Vec<Vec<ColValue>>,
    String,
> {
    let conn = db.pool.get().map_err(|e| e.to_string())?;
    let mut stmt = conn.prepare_cached(sql).map_err(|e| e.to_string())?;
    let ncols = stmt.column_count();
    let mut rows = stmt.query(rusqlite::params_from_iter(params.iter())).map_err(
        |e| e.to_string(),
    )?;
    let mut out: Vec<Vec<ColValue>> = Vec::new();
    while let Some(row) = rows.next().map_err(|e| e.to_string())? {
        out.push(row_values(row, ncols)?);
    }
    Ok(out)
}

/// Relies on rusqlite::Connection::execute_batch: runs a batch of
/// statements on one pooled connection; used for idempotent schema
/// creation.
#[verifier::external_body]
fn sql_execute_batch(db: &Db, sql: &str) -> Result<(), String> {
    let conn = db.pool.get().map_err(|e| e.to_string())?;
    conn.execute_batch(sql).map_err(|e| e.to_string())
}

/// Relies on SqliteConnectionManager::memory and r2d2's pool builder: a
/// pool holding a single connection onto an in-memory database, so that
/// the schema created over it is seen by every later statement.
#[verifier::external_body]
fn memory_pool() -> Result<Db, String> {
    let manager = r2d2_sqlite::SqliteConnectionManager::memory();
    r2d2::Pool::builder().max_size(1).build(manager).map(|pool| Db { pool }).map_err(
        |e| e.to_string(),
    )
}

/// Relies on r2d2::Pool::clone: a new handle onto the same pool.
#[verifier::external_body]
fn clone_pool(db: &Db) -> Db {
    Db { pool: db.pool.clone() }
}

/// Relies on SqliteConnectionManager::file and r2d2::Pool::new: a pool of
/// connections onto the database file at the given path.
#[verifier::external_body]
fn file_pool(path: &str) -> Result<Db, String> {
    let manager = r2d2_sqlite::SqliteConnectionManager::file(path);
    r2d2::Pool::new(manager).map(|pool| Db { pool }).map_err(|e| e.to_string())
}

fn create_tables_sql() -> &'static str {
    "CREATE TABLE IF NOT EXISTS resources(
  url TEXT PRIMARY KEY,
  title TEXT NOT NULL,
  description TEXT NOT NULL,
  cid TEXT,
  icon TEXT,
  image TEXT
);
CREATE TABLE IF NOT EXISTS inline_links(
  referrer_url TEXT NOT NULL,
  referrer_cid TEXT,
  referrer_title TEXT,
  referrer_description TEXT,
  referrer_icon TEXT,
  referrer_image TEXT,
  referrer_fragment TEXT,
  referrer_location TEXT,
  target_url TEXT NOT NULL,
  name TEXT NOT NULL,
  title TEXT NOT NULL
);
CREATE INDEX IF NOT EXISTS idx_inline_links_referrer ON inline_links (referrer_url);
CREATE INDEX IF NOT EXISTS idx_inline_links_target ON inline_links (target_url);
CREATE TABLE IF NOT EXISTS reference_links(
  referrer_url TEXT NOT NULL,
  referrer_cid TEXT,
  referrer_title TEXT,
  referrer_description TEXT,
  referrer_icon TEXT,
  referrer_image TEXT,
  referrer_fragment TEXT,
  referrer_location TEXT,
  target_url TEXT NOT NULL,
  identifier TEXT NOT NULL,
  name TEXT NOT NULL,
  title TEXT NOT NULL
);
CREATE INDEX IF NOT EXISTS idx_reference_links_referrer ON reference_links (referrer_url);
CREATE INDEX IF NOT EXISTS idx_reference_links_target ON reference_links (target_url);
CREATE TABLE IF NOT EXISTS tags(
  name TEXT NOT NULL,
  target_url TEXT NOT NULL,
  target_fragment TEXT NOT NULL,
  target_location TEXT
);
CREATE INDEX IF NOT EXISTS idx_tags_name ON tags (name);
CREATE INDEX IF NOT EXISTS idx_tags_target ON tags (target_url);"
}

fn insert_resource_sql() -> &'static str {
    "INSERT OR REPLACE INTO resources (url, title, description, cid, icon, image)
VALUES (?1, ?2, ?3, ?4, ?5, ?6);"
}

fn insert_inline_link_sql() -> &'static str {
    "INSERT INTO inline_links (referrer_url, referrer_cid, referrer_title,
  referrer_description, referrer_icon, referrer_image,
  referrer_fragment, referrer_location, target_url, name, title)
VALUES (?1,
  (SELECT cid FROM resources WHERE url = ?1),
  (SELECT title FROM resources WHERE url = ?1),
  (SELECT description FROM resources WHERE url = ?1),
  (SELECT icon FROM resources WHERE url = ?1),
  (SELECT image FROM resources WHERE url = ?1),
  ?2, ?3, ?4, ?5, ?6);"
}

fn insert_reference_link_sql() -> &'static str {
    "INSERT INTO reference_links (referrer_url, referrer_cid, referrer_title,
  referrer_description, referrer_icon, referrer_image,
  referrer_fragment, referrer_location, target_url, identifier, name, title)
VALUES (?1,
  (SELECT cid FROM resources WHERE url = ?1),
  (SELECT title FROM resources WHERE url = ?1),
  (SELECT description FROM resources WHERE url = ?1),
  (SELECT icon FROM resources WHERE url = ?1),
  (SELECT image FROM resources WHERE url = ?1),
  ?2, ?3, ?4, ?5, ?6, ?7);"
}

fn insert_tag_sql() -> &'static str {
    "INSERT INTO tags (name, target_url, target_fragment, target_location)
VALUES (?1, ?2, ?3, ?4);"
}

fn select_links_by_referrer_sql() -> &'static str {
    "SELECT 0 AS kind, referrer_url, referrer_cid, referrer_title, referrer_description,
  referrer_icon, referrer_image, referrer_fragment, referrer_location,
  target_url, NULL AS identifier, name, title
FROM inline_links WHERE referrer_url = ?1
UNION ALL
SELECT 1 AS kind, referrer_url, referrer_cid, referrer_title, referrer_description,
  referrer_icon, referrer_image, referrer_fragment, referrer_location,
  target_url, identifier, name, title
FROM reference_links WHERE referrer_url = ?1;"
}

fn select_links_by_target_sql() -> &'static str {
    "SELECT 0 AS kind, referrer_url, referrer_cid, referrer_title, referrer_description,
  referrer_icon, referrer_image, referrer_fragment, referrer_location,
  target_url, NULL AS identifier, name, title
FROM inline_links WHERE target_url = ?1
UNION ALL
SELECT 1 AS kind, referrer_url, referrer_cid, referrer_title, referrer_description,
  referrer_icon, referrer_image, referrer_fragment, referrer_location,
  target_url, identifier, name, title
FROM reference_links WHERE target_url = ?1;"
}

fn select_tags_by_target_sql() -> &'static str {
    "SELECT name, target_url, target_fragment, target_location FROM tags
WHERE target_url = ?1;"
}

fn select_tags_by_name_sql() -> &'static str {
    "SELECT name, target_url, target_fragment, target_location FROM tags
WHERE name = ?1;"
}

fn select_resource_by_url_sql() -> &'static str {
    "SELECT cid, title, description, icon, image FROM resources WHERE url = ?1;"
}

/// A text column that must be present: its characters, or nothing when
/// the column is null or of another storage class.
pub open spec fn col_req_text(c: ColValueView) -> Option<Seq<char>> {
    match c {
        ColValueView::Text(t) => Some(t),
        _ => None,
    }
}

/// A nullable text column: null decodes to `None`, text to `Some`, and
/// an integer is a decode failure.
pub open spec fn col_opt_text(c: ColValueView) -> Option<Option<Seq<char>>> {
    match c {
        ColValueView::Null => Some(None),
        ColValueView::Text(t) => Some(Some(t)),
        ColValueView::Int(_) => None,
    }
}

/// A snapshot text column: null reads as the empty string, because the
/// referrer's resource row may not have existed at link-write time.
pub open spec fn col_text_or_empty(c: ColValueView) -> Option<Seq<char>> {
    match c {
        ColValueView::Null => Some(Seq::empty()),
        ColValueView::Text(t) => Some(t),
        ColValueView::Int(_) => None,
    }
}

fn req_text(c: &ColValue) -> (r: Option<String>)
    ensures
        r.deep_view() == col_req_text(c@),
{
    match c {
        ColValue::Text(t) => Some(t.clone()),
        _ => None,
    }
}

fn opt_text(c: &ColValue) -> (r: Option<Option<String>>)
    ensures
        r.deep_view() == col_opt_text(c@),
{
    match c {
        ColValue::Null => Some(None),
        ColValue::Text(t) => Some(Some(t.clone())),
        ColValue::Int(_) => None,
    }
}

fn text_or_empty(c: &ColValue) -> (r: Option<String>)
    ensures
        r.deep_view() == col_text_or_empty(c@),
{
    match c {
        ColValue::Null => Some(String::new()),
        ColValue::Text(t) => Some(t.clone()),
        ColValue::Int(_) => None,
    }
}

/// What a 13-column link row decodes to: the kind discriminant followed
/// by the referrer snapshot, the place of the link in the referrer, and
/// the link fields; `None` on any column of the wrong shape.
pub open spec fn decode_link_row_spec(row: Seq<ColValueView>) -> Option<LinkView> {
    if row.len() != 13 {
        None
    } else {
        match (row[0], col_req_text(row[1]), col_opt_text(row[2]), col_text_or_empty(row[3]),
        col_text_or_empty(row[4]), col_opt_text(row[5]), col_opt_text(row[6]), col_opt_text(
            row[7],
        ), col_opt_text(row[8]), col_req_text(row[9]), col_opt_text(row[10]), col_req_text(
            row[11],
        ), col_req_text(row[12])) {
            (
                ColValueView::Int(k),
                Some(referrer_url),
                Some(referrer_cid),
                Some(referrer_title),
                Some(referrer_description),
                Some(referrer_icon),
                Some(referrer_image),
                Some(referrer_fragment),
                Some(referrer_location),
                Some(target_url),
                Some(identifier),
                Some(name),
                Some(title),
            ) => Some(
                LinkView {
                    kind: if k == 1 {
                        LinkKind::Reference
                    } else {
                        LinkKind::Inline
                    },
                    referrer_url,
                    referrer_cid,
                    referrer_title,
                    referrer_description,
                    referrer_icon,
                    referrer_image,
                    referrer_fragment,
                    referrer_location,
                    target_url,
                    name,
                    title,
                    identifier,
                },
            ),
            _ => None,
        }
    }
}

/// Decodes one link row.
fn decode_link_row(row: &Vec<ColValue>) -> (r: Option<Link>)
    ensures
        r.deep_view() == decode_link_row_spec(row.deep_view()),
{
    if row.len() != 13 {
        return None;
    }
    let kind = match &row[0] {
        ColValue::Int(k) => {
            if *k == 1 {
                LinkKind::Reference
            } else {
                LinkKind::Inline
            }
        },
        _ => {
            return None;
        },
    };
    let referrer_url = match req_text(&row[1]) {
        Some(v) => v,
        None => {
            return None;
        },
    };
    let referrer_cid = match opt_text(&row[2]) {
        Some(v) => v,
        None => {
            return None;
        },
    };
    let referrer_title = match text_or_empty(&row[3]) {
        Some(v) => v,
        None => {
            return None;
        },
    };
    let referrer_description = match text_or_empty(&row[4]) {
        Some(v) => v,
        None => {
            return None;
        },
    };
    let referrer_icon = match opt_text(&row[5]) {
        Some(v) => v,
        None => {
            return None;
        },
    };
    let referrer_image = match opt_text(&row[6]) {
        Some(v) => v,
        None => {
            return None;
        },
    };
    let referrer_fragment = match opt_text(&row[7]) {
        Some(v) => v,
        None => {
            return None;
        },
    };
    let referrer_location = match opt_text(&row[8]) {
        Some(v) => v,
        None => {
            return None;
        },
    };
    let target_url = match req_text(&row[9]) {
        Some(v) => v,
        None => {
            return None;
        },
    };
    let identifier = match opt_text(&row[10]) {
        Some(v) => v,
        None => {
            return None;
        },
    };
    let name = match req_text(&row[11]) {
        Some(v) => v,
        None => {
            return None;
        },
    };
    let title = match req_text(&row[12]) {
        Some(v) => v,
        None => {
            return None;
        },
    };
    Some(
        Link {
            kind,
            referrer_url,
            referrer_cid,
            referrer_title,
            referrer_description,
            referrer_icon,
            referrer_image,
            referrer_fragment,
            referrer_location,
            target_url,
            name,
            title,
            identifier,
        },
    )
}

/// What a 4-column tag row decodes to.
pub open spec fn decode_tag_row_spec(row: Seq<ColValueView>) -> Option<crate::data::TagView> {
    if row.len() != 4 {
        None
    } else {
        match (col_req_text(row[0]), col_req_text(row[1]), col_opt_text(row[2]), col_opt_text(
            row[3],
        )) {
            (Some(name), Some(target_url), Some(target_fragment), Some(target_location)) => Some(
                crate::data::TagView { name, target_url, target_fragment, target_location },
            ),
            _ => None,
        }
    }
}

/// Decodes one tag row.
fn decode_tag_row(row: &Vec<ColValue>) -> (r: Option<crate::data::Tag>)
    ensures
        r.deep_view() == decode_tag_row_spec(row.deep_view()),
{
    if row.len() != 4 {
        return None;
    }
    let name = match req_text(&row[0]) {
        Some(v) => v,
        None => {
            return None;
        },
    };
    let target_url = match req_text(&row[1]) {
        Some(v) => v,
        None => {
            return None;
        },
    };
    let target_fragment = match opt_text(&row[2]) {
        Some(v) => v,
        None => {
            return None;
        },
    };
    let target_location = match opt_text(&row[3]) {
        Some(v) => v,
        None => {
            return None;
        },
    };
    Some(crate::data::Tag { name, target_url, target_fragment, target_location })
}

/// What a 5-column resource-info row decodes to.
pub open spec fn decode_info_row_spec(row: Seq<ColValueView>) -> Option<ResourceInfoView> {
    if row.len() != 5 {
        None
    } else {
        match (col_opt_text(row[0]), col_req_text(row[1]), col_req_text(row[2]), col_opt_text(
            row[3],
        ), col_opt_text(row[4])) {
            (Some(cid), Some(title), Some(description), Some(icon), Some(image)) => Some(
                ResourceInfoView { title, description, cid, icon, image },
            ),
            _ => None,
        }
    }
}

/// Decodes one resource-info row.
fn decode_info_row(row: &Vec<ColValue>) -> (r: Option<ResourceInfo>)
    ensures
        r.deep_view() == decode_info_row_spec(row.deep_view()),
{
    if row.len() != 5 {
        return None;
    }
    let cid = match opt_text(&row[0]) {
        Some(v) => v,
        None => {
            return None;
        },
    };
    let title = match req_text(&row[1]) {
        Some(v) => v,
        None => {
            return None;
        },
    };
    let description = match req_text(&row[2]) {
        Some(v) => v,
        None => {
            return None;
        },
    };
    let icon = match opt_text(&row[3]) {
        Some(v) => v,
        None => {
            return None;
        },
    };
    let image = match opt_text(&row[4]) {
        Some(v) => v,
        None => {
            return None;
        },
    };
    Some(ResourceInfo { title, description, cid, icon, image })
}

/// What a whole result set of link rows decodes to: every row in order,
/// or nothing as soon as one row fails to decode.
pub open spec fn decode_link_rows_spec(rows: Seq<Seq<ColValueView>>) -> Option<Seq<LinkView>>
    decreases rows.len(),
{
    if rows.len() == 0 {
        Some(Seq::empty())
    } else {
        match (decode_link_rows_spec(rows.drop_last()), decode_link_row_spec(rows.last())) {
            (Some(s), Some(l)) => Some(s.push(l)),
            _ => None,
        }
    }
}

/// Decodes a result set of link rows; the first bad row fails the read.
fn decode_link_rows(rows: &Vec<Vec<ColValue>>) -> (r: Option<Vec<Link>>)
    ensures
        match r {
            Some(v) => decode_link_rows_spec(rows.deep_view()) == Some(v.deep_view()),
            None => decode_link_rows_spec(rows.deep_view()) is None,
        },
{
    let mut out: Vec<Link> = Vec::new();
    let n = rows.len();
    let mut i: usize = 0;
    proof {
        assert(rows.deep_view().take(0) =~= Seq::<Seq<ColValueView>>::empty());
        assert(out.deep_view() =~= Seq::<LinkView>::empty());
    }
    while i < n
        invariant
            0 <= i <= n,
            n == rows.len(),
            decode_link_rows_spec(rows.deep_view().take(i as int)) == Some(out.deep_view()),
        decreases n - i,
    {
        proof {
            assert(rows.deep_view().take(i as int + 1).drop_last() =~= rows.deep_view().take(
                i as int,
            ));
            assert(rows.deep_view().take(i as int + 1).last() == rows.deep_view()[i as int]);
        }
        match decode_link_row(&rows[i]) {
            Some(l) => {
                out.push(l);
                proof {
                    assert(out.deep_view() =~= decode_link_rows_spec(
                        rows.deep_view().take(i as int + 1),
                    )->Some_0);
                }
            },
            None => {
                proof {
                    lemma_decode_link_rows_prefix_none(rows.deep_view(), i as int + 1);
                }
                return None;
            },
        }
        i = i + 1;
    }
    proof {
        assert(rows.deep_view().take(n as int) =~= rows.deep_view());
    }
    Some(out)
}

proof fn lemma_decode_link_rows_prefix_none(rows: Seq<Seq<ColValueView>>, i: int)
    requires
        0 <= i <= rows.len(),
        decode_link_rows_spec(rows.take(i)) is None,
    ensures
        decode_link_rows_spec(rows) is None,
    decreases rows.len() - i,
{
    if i < rows.len() {
        assert(rows.take(i + 1).drop_last() =~= rows.take(i));
        lemma_decode_link_rows_prefix_none(rows, i + 1);
    } else {
        assert(rows.take(i) =~= rows);
    }
}

/// What a whole result set of tag rows decodes to.
pub open spec fn decode_tag_rows_spec(rows: Seq<Seq<ColValueView>>) -> Option<
    Seq<crate::data::TagView>,
>
    decreases rows.len(),
{
    if rows.len() == 0 {
        Some(Seq::empty())
    } else {
        match (decode_tag_rows_spec(rows.drop_last()), decode_tag_row_spec(rows.last())) {
            (Some(s), Some(t)) => Some(s.push(t)),
            _ => None,
        }
    }
}

/// Decodes a result set of tag rows; the first bad row fails the read.
fn decode_tag_rows(rows: &Vec<Vec<ColValue>>) -> (r: Option<Vec<crate::data::Tag>>)
    ensures
        match r {
            Some(v) => decode_tag_rows_spec(rows.deep_view()) == Some(v.deep_view()),
            None => decode_tag_rows_spec(rows.deep_view()) is None,
        },
{
    let mut out: Vec<crate::data::Tag> = Vec::new();
    let n = rows.len();
    let mut i: usize = 0;
    proof {
        assert(rows.deep_view().take(0) =~= Seq::<Seq<ColValueView>>::empty());
        assert(out.deep_view() =~= Seq::<crate::data::TagView>::empty());
    }
    while i < n
        invariant
            0 <= i <= n,
            n == rows.len(),
            decode_tag_rows_spec(rows.deep_view().take(i as int)) == Some(out.deep_view()),
        decreases n - i,
    {
        proof {
            assert(rows.deep_view().take(i as int + 1).drop_last() =~= rows.deep_view().take(
                i as int,
            ));
            assert(rows.deep_view().take(i as int + 1).last() == rows.deep_view()[i as int]);
        }
        match decode_tag_row(&rows[i]) {
            Some(t) => {
                out.push(t);
                proof {
                    assert(out.deep_view() =~= decode_tag_rows_spec(
                        rows.deep_view().take(i as int + 1),
                    )->Some_0);
                }
            },
            None => {
                proof {
                    lemma_decode_tag_rows_prefix_none(rows.deep_view(), i as int + 1);
                }
                return None;
            },
        }
        i = i + 1;
    }
    proof {
        assert(rows.deep_view().take(n as int) =~= rows.deep_view());
    }
    Some(out)
}

proof fn lemma_decode_tag_rows_prefix_none(rows: Seq<Seq<ColValueView>>, i: int)
    requires
        0 <= i <= rows.len(),
        decode_tag_rows_spec(rows.take(i)) is None,
    ensures
        decode_tag_rows_spec(rows) is None,
    decreases rows.len() - i,
{
    if i < rows.len() {
        assert(rows.take(i + 1).drop_last() =~= rows.take(i));
        lemma_decode_tag_rows_prefix_none(rows, i + 1);
    } else {
        assert(rows.take(i) =~= rows);
    }
}

/// Whether two string slices hold the same characters.
fn str_eq(a: &str, b: &str) -> (r: bool)
    ensures
        r == (a@ == b@),
{
    let sa = a.to_owned();
    let sb = b.to_owned();
    sa == sb
}

fn clone_opt(s: &Option<String>) -> (r: Option<String>)
    ensures
        r.deep_view() == s.deep_view(),
{
    match s {
        Some(x) => Some(x.clone()),
        None => None,
    }
}

impl Link {
    /// A field-for-field copy of this link.
    pub fn duplicate(&self) -> (r: Link)
        ensures
            r@ == self@,
    {
        Link {
            kind: self.kind,
            referrer_url: self.referrer_url.clone(),
            referrer_cid: clone_opt(&self.referrer_cid),
            referrer_title: self.referrer_title.clone(),
            referrer_description: self.referrer_description.clone(),
            referrer_icon: clone_opt(&self.referrer_icon),
            referrer_image: clone_opt(&self.referrer_image),
            referrer_fragment: clone_opt(&self.referrer_fragment),
            referrer_location: clone_opt(&self.referrer_location),
            target_url: self.target_url.clone(),
            name: self.name.clone(),
            title: self.title.clone(),
            identifier: clone_opt(&self.identifier),
        }
    }
}

impl crate::data::Tag {
    /// A field-for-field copy of this tag.
    pub fn duplicate(&self) -> (r: crate::data::Tag)
        ensures
            r@ == self@,
    {
        crate::data::Tag {
            name: self.name.clone(),
            target_url: self.target_url.clone(),
            target_fragment: clone_opt(&self.target_fragment),
            target_location: clone_opt(&self.target_location),
        }
    }
}

impl ResourceInfo {
    /// A field-for-field copy of this info record.
    pub fn duplicate(&self) -> (r: ResourceInfo)
        ensures
            r@ == self@,
    {
        ResourceInfo {
            title: self.title.clone(),
            description: self.description.clone(),
            cid: clone_opt(&self.cid),
            icon: clone_opt(&self.icon),
            image: clone_opt(&self.image),
        }
    }
}

fn copy_links(v: &Vec<Link>) -> (r: Vec<Link>)
    ensures
        r.deep_view() == v.deep_view(),
{
    let mut out: Vec<Link> = Vec::new();
    let n = v.len();
    let mut i: usize = 0;
    while i < n
        invariant
            0 <= i <= n,
            n == v.len(),
            out.deep_view() == v.deep_view().take(i as int),
        decreases n - i,
    {
        let d = v[i].duplicate();
        let ghost prev = out.deep_view();
        proof {
            assert(v.deep_view()[i as int] == v@[i as int]@);
        }
        out.push(d);
        proof {
            assert(out.deep_view() =~= prev.push(d@));
            assert(v.deep_view().take(i as int + 1) =~= prev.push(d@));
        }
        i = i + 1;
    }
    proof {
        assert(v.deep_view().take(n as int) =~= v.deep_view());
    }
    out
}

fn copy_tags(v: &Vec<crate::data::Tag>) -> (r: Vec<crate::data::Tag>)
    ensures
        r.deep_view() == v.deep_view(),
{
    let mut out: Vec<crate::data::Tag> = Vec::new();
    let n = v.len();
    let mut i: usize = 0;
    while i < n
        invariant
            0 <= i <= n,
            n == v.len(),
            out.deep_view() == v.deep_view().take(i as int),
        decreases n - i,
    {
        let d = v[i].duplicate();
        let ghost prev = out.deep_view();
        proof {
            assert(v.deep_view()[i as int] == v@[i as int]@);
        }
        out.push(d);
        proof {
            assert(out.deep_view() =~= prev.push(d@));
            assert(v.deep_view().take(i as int + 1) =~= prev.push(d@));
        }
        i = i + 1;
    }
    proof {
        assert(v.deep_view().take(n as int) =~= v.deep_view());
    }
    out
}

fn copy_opt_info(v: &Option<ResourceInfo>) -> (r: Option<ResourceInfo>)
    ensures
        r.deep_view() == v.deep_view(),
{
    match v {
        Some(info) => Some(info.duplicate()),
        None => None,
    }
}

/// The map a cache's entry list denotes: later entries shadow earlier
/// ones with the same key.
pub open spec fn entries_map<T: DeepView>(es: Seq<(String, T)>) -> Map<Seq<char>, T::V>
    decreases es.len(),
{
    if es.len() == 0 {
        Map::empty()
    } else {
        entries_map(es.drop_last()).insert(es.last().0@, es.last().1.deep_view())
    }
}

proof fn lemma_entries_map_absent<T: DeepView>(es: Seq<(String, T)>, key: Seq<char>)
    requires
        forall|j: int| 0 <= j < es.len() ==> (#[trigger] es[j].0)@ != key,
    ensures
        !entries_map(es).contains_key(key),
    decreases es.len(),
{
    if es.len() > 0 {
        lemma_entries_map_absent(es.drop_last(), key);
    }
}

proof fn lemma_entries_map_found<T: DeepView>(es: Seq<(String, T)>, key: Seq<char>, j: int)
    requires
        0 <= j < es.len(),
        es[j].0@ == key,
        forall|k: int| j < k < es.len() ==> (#[trigger] es[k].0)@ != key,
    ensures
        entries_map(es).contains_key(key),
        entries_map(es)[key] == es[j].1.deep_view(),
    decreases es.len(),
{
    if j < es.len() - 1 {
        lemma_entries_map_found(es.drop_last(), key, j);
    }
}

/// A per-scope memo for one keyed relation: each key's value is fetched
/// from the backing store at most once and then served from here.
pub struct KeyedCache<T> {
    entries: Vec<(String, T)>,
}

impl<T: DeepView> View for KeyedCache<T> {
    type V = Map<Seq<char>, T::V>;

    closed spec fn view(&self) -> Map<Seq<char>, T::V> {
        entries_map(self.entries@)
    }
}

impl<T: DeepView> KeyedCache<T> {
    /// An empty cache.
    pub fn new() -> (r: Self)
        ensures
            r@ == Map::<Seq<char>, T::V>::empty(),
    {
        let r = KeyedCache { entries: Vec::new() };
        proof {
            assert(r.entries@ =~= Seq::<(String, T)>::empty());
        }
        r
    }

    /// The cached value for a key, if this scope has read it before.
    pub fn get<'a>(&'a self, key: &str) -> (r: Option<&'a T>)
        ensures
            match r {
                Some(v) => self@.contains_key(key@) && v.deep_view() == self@[key@],
                None => !self@.contains_key(key@),
            },
    {
        let n = self.entries.len();
        let mut i: usize = n;
        while i > 0
            invariant
                0 <= i <= n,
                n == self.entries.len(),
                forall|j: int| i <= j < n ==> (#[trigger] self.entries@[j].0)@ != key@,
            decreases i,
        {
            let e = &self.entries[i - 1];
            if str_eq(e.0.as_str(), key) {
                proof {
                    lemma_entries_map_found(self.entries@, key@, i as int - 1);
                }
                return Some(&e.1);
            }
            i = i - 1;
        }
        proof {
            lemma_entries_map_absent(self.entries@, key@);
        }
        None
    }

    /// Remembers the value read for a key.
    pub fn insert(&mut self, key: String, value: T)
        ensures
            final(self)@ == old(self)@.insert(key@, value.deep_view()),
    {
        self.entries.push((key, value));
        proof {
            assert(self.entries@.drop_last() =~= old(self).entries@);
        }
    }
}

/// Increments the backing-store query counter, saturating at the top.
pub open spec fn bump(q: u64) -> u64 {
    if q == u64::MAX {
        q
    } else {
        (q + 1) as u64
    }
}

fn bump_exec(q: u64) -> (r: u64)
    ensures
        r == bump(q),
{
    if q == u64::MAX {
        q
    } else {
        q + 1
    }
}

#[verifier::ext_equal]
pub ghost struct DataStoreView {
    pub links_by_referrer: Map<Seq<char>, Seq<LinkView>>,
    pub links_by_target: Map<Seq<char>, Seq<LinkView>>,
    pub tags_by_target: Map<Seq<char>, Seq<crate::data::TagView>>,
    pub tags_by_name: Map<Seq<char>, Seq<crate::data::TagView>>,
    pub resource_info: Map<Seq<char>, Option<ResourceInfoView>>,
    pub queries: u64,
}

/// The store view of a fresh cache scope: nothing cached, no backing
/// query made yet.
pub open spec fn fresh_scope_view() -> DataStoreView {
    DataStoreView {
        links_by_referrer: Map::empty(),
        links_by_target: Map::empty(),
        tags_by_target: Map::empty(),
        tags_by_name: Map::empty(),
        resource_info: Map::empty(),
        queries: 0,
    }
}

/// The knowledge store handle: pooled connections onto the backing
/// database plus one batching cache per keyed read relation. A handle's
/// caches live for one unit of work; obtain a fresh scope per unit.
///
/// Only successful reads are memoized: a failing backing read leaves its
/// key uncached, so the next read of that key retries instead of serving
/// the failure for the rest of the scope — a deliberate choice, so that
/// one transient connection error does not poison a whole unit of work.
/// The one-query-per-key guarantee therefore covers reads whose first
/// attempt succeeded.
pub struct DataStore {
    db: Db,
    links_by_referrer: KeyedCache<Vec<Link>>,
    links_by_target: KeyedCache<Vec<Link>>,
    tags_by_target: KeyedCache<Vec<crate::data::Tag>>,
    tags_by_name: KeyedCache<Vec<crate::data::Tag>>,
    resource_info: KeyedCache<Option<ResourceInfo>>,
    queries: u64,
}

impl View for DataStore {
    type V = DataStoreView;

    closed spec fn view(&self) -> DataStoreView {
        DataStoreView {
            links_by_referrer: self.links_by_referrer@,
            links_by_target: self.links_by_target@,
            tags_by_target: self.tags_by_target@,
            tags_by_name: self.tags_by_name@,
            resource_info: self.resource_info@,
            queries: self.queries,
        }
    }
}

impl DataStore {
    fn with_db(db: Db) -> (r: DataStore)
        ensures
            r@ == fresh_scope_view(),
    {
        DataStore {
            db,
            links_by_referrer: KeyedCache::new(),
            links_by_target: KeyedCache::new(),
            tags_by_target: KeyedCache::new(),
            tags_by_name: KeyedCache::new(),
            resource_info: KeyedCache::new(),
            queries: 0,
        }
    }

    /// Opens a store over a fresh in-memory database with its schema
    /// created; every handle cloned from it shares the one database.
    pub fn memory() -> (r: Result<DataStore, Error>)
        ensures
            match r {
                Ok(s) => s@ == fresh_scope_view(),
                Err(_) => true,
            },
    {
        match memory_pool() {
            Ok(db) => {
                match sql_execute_batch(&db, create_tables_sql()) {
                    Ok(()) => Ok(DataStore::with_db(db)),
                    Err(e) => Err(Error::SQLError(e)),
                }
            },
            Err(e) => Err(Error::SQLError(e)),
        }
    }

    /// Opens a store over the database file at `path`, creating the
    /// schema when it is not there yet; opening an already-initialized
    /// file keeps its contents. The caller makes sure the directory
    /// exists.
    pub fn open(path: &str) -> (r: Result<DataStore, Error>)
        ensures
            match r {
                Ok(s) => s@ == fresh_scope_view(),
                Err(_) => true,
            },
    {
        match file_pool(path) {
            Ok(db) => {
                match sql_execute_batch(&db, create_tables_sql()) {
                    Ok(()) => Ok(DataStore::with_db(db)),
                    Err(e) => Err(Error::SQLError(e)),
                }
            },
            Err(e) => Err(Error::SQLError(e)),
        }
    }

    /// A fresh cache scope over the same backing store: nothing cached,
    /// query counter at zero. Use one scope per unit of work; reusing a
    /// scope across units would serve stale reads.
    pub fn fresh_scope(&self) -> (r: DataStore)
        ensures
            r@ == fresh_scope_view(),
    {
        DataStore::with_db(clone_pool(&self.db))
    }

    /// How many backing-store queries this scope has issued.
    pub fn query_count(&self) -> (r: u64)
        ensures
            r == self@.queries,
    {
        self.queries
    }

    /// Upserts a resource row: a later ingest of the same URL replaces
    /// the stored metadata. On success returns the resource the input
    /// denotes; the backing store alone decides success.
    pub fn insert_resource(&self, input: &InputResource) -> (r: Result<Resource, Error>)
        ensures
            match r {
                Ok(res) => res@ == resource_of_input(input@),
                Err(_) => true,
            },
    {
        let mut params: Vec<Option<String>> = Vec::new();
        params.push(Some(input.url.clone()));
        params.push(Some(input.title.clone()));
        params.push(Some(input.description.clone()));
        params.push(clone_opt(&input.cid));
        params.push(clone_opt(&input.icon));
        params.push(clone_opt(&input.image));
        match sql_execute(&self.db, insert_resource_sql(), &params) {
            Ok(_) => Ok(Resource::from_input(input)),
            Err(e) => Err(Error::SQLError(e)),
        }
    }

    /// Appends one row per link — inline and reference links each into
    /// their own table, chosen by the link's kind — every row carrying a
    /// snapshot of the referrer's current info and the parameter tuple
    /// that `link_params_spec` fixes. Earlier ingests are never
    /// retracted; the first failing statement aborts the rest of the
    /// batch and is surfaced, with the rows already written left in
    /// place. An empty batch asks nothing of the backing store and
    /// always succeeds.
    pub fn insert_links(&self, referrer_url: &str, links: &Vec<InputLink>) -> (r: Result<
        (),
        Error,
    >)
        ensures
            links@.len() == 0 ==> r is Ok,
    {
        let n = links.len();
        let mut i: usize = 0;
        while i < n
            invariant
                0 <= i <= n,
                n == links.len(),
            decreases n - i,
        {
            let link = &links[i];
            let params = link_params(referrer_url, link);
            let sql = match link.kind {
                LinkKind::Inline => insert_inline_link_sql(),
                LinkKind::Reference => insert_reference_link_sql(),
            };
            match sql_execute(&self.db, sql, &params) {
                Ok(_) => {},
                Err(e) => {
                    return Err(Error::SQLError(e));
                },
            }
            i = i + 1;
        }
        Ok(())
    }

    /// Appends one row per tag, with the parameter tuple that
    /// `tag_params_spec` fixes; an absent fragment is written as the
    /// empty string, never as null. The first failing statement aborts
    /// the rest of the batch and is surfaced, with the rows already
    /// written left in place. An empty batch asks nothing of the backing
    /// store and always succeeds.
    pub fn insert_tags(&self, target_url: &str, tags: &Vec<InputTag>) -> (r: Result<(), Error>)
        ensures
            tags@.len() == 0 ==> r is Ok,
    {
        let n = tags.len();
        let mut i: usize = 0;
        while i < n
            invariant
                0 <= i <= n,
                n == tags.len(),
            decreases n - i,
        {
            let params = tag_params(target_url, &tags[i]);
            match sql_execute(&self.db, insert_tag_sql(), &params) {
                Ok(_) => {},
                Err(e) => {
                    return Err(Error::SQLError(e));
                },
            }
            i = i + 1;
        }
        Ok(())
    }

    /// The links whose referrer is `url`. A key this scope has read
    /// before is served from the cache with no backing query and no
    /// state change; a fresh key costs exactly one backing query and is
    /// cached when the read succeeds — a failing read leaves the key
    /// uncached, to be retried.
    pub fn find_links_by_referrer(&mut self, url: &str) -> (r: Result<Vec<Link>, Error>)
        ensures
            old(self)@.links_by_referrer.contains_key(url@) ==> ({
                &&& final(self)@ == old(self)@
                &&& (match r {
                    Ok(v) => v.deep_view() == old(self)@.links_by_referrer[url@],
                    Err(_) => false,
                })
            }),
            !old(self)@.links_by_referrer.contains_key(url@) ==> ({
                &&& final(self)@.queries == bump(old(self)@.queries)
                &&& final(self)@.links_by_target == old(self)@.links_by_target
                &&& final(self)@.tags_by_target == old(self)@.tags_by_target
                &&& final(self)@.tags_by_name == old(self)@.tags_by_name
                &&& final(self)@.resource_info == old(self)@.resource_info
                &&& (match r {
                    Ok(v) => final(self)@.links_by_referrer == old(
                        self,
                    )@.links_by_referrer.insert(url@, v.deep_view()),
                    Err(_) => final(self)@.links_by_referrer == old(self)@.links_by_referrer,
                })
            }),
    {
        let hit = match self.links_by_referrer.get(url) {
            Some(v) => Some(copy_links(v)),
            None => None,
        };
        match hit {
            Some(v) => Ok(v),
            None => {
                let mut params: Vec<Option<String>> = Vec::new();
                params.push(Some(url.to_owned()));
                self.queries = bump_exec(self.queries);
                match sql_query(&self.db, select_links_by_referrer_sql(), &params) {
                    Err(e) => Err(Error::SQLError(e)),
                    Ok(rows) => {
                        match decode_link_rows(&rows) {
                            Some(links) => {
                                let out = copy_links(&links);
                                self.links_by_referrer.insert(url.to_owned(), links);
                                Ok(out)
                            },
                            None => Err(
                                Error::SQLError(String::from_str("failed to decode a link row")),
                            ),
                        }
                    },
                }
            },
        }
    }

    /// The links whose target is `url`; cached per scope as
    /// `find_links_by_referrer` is.
    pub fn find_links_by_target(&mut self, url: &str) -> (r: Result<Vec<Link>, Error>)
        ensures
            old(self)@.links_by_target.contains_key(url@) ==> ({
                &&& final(self)@ == old(self)@
                &&& (match r {
                    Ok(v) => v.deep_view() == old(self)@.links_by_target[url@],
                    Err(_) => false,
                })
            }),
            !old(self)@.links_by_target.contains_key(url@) ==> ({
                &&& final(self)@.queries == bump(old(self)@.queries)
                &&& final(self)@.links_by_referrer == old(self)@.links_by_referrer
                &&& final(self)@.tags_by_target == old(self)@.tags_by_target
                &&& final(self)@.tags_by_name == old(self)@.tags_by_name
                &&& final(self)@.resource_info == old(self)@.resource_info
                &&& (match r {
                    Ok(v) => final(self)@.links_by_target == old(self)@.links_by_target.insert(
                        url@,
                        v.deep_view(),
                    ),
                    Err(_) => final(self)@.links_by_target == old(self)@.links_by_target,
                })
            }),
    {
        let hit = match self.links_by_target.get(url) {
            Some(v) => Some(copy_links(v)),
            None => None,
        };
        match hit {
            Some(v) => Ok(v),
            None => {
                let mut params: Vec<Option<String>> = Vec::new();
                params.push(Some(url.to_owned()));
                self.queries = bump_exec(self.queries);
                match sql_query(&self.db, select_links_by_target_sql(), &params) {
                    Err(e) => Err(Error::SQLError(e)),
                    Ok(rows) => {
                        match decode_link_rows(&rows) {
                            Some(links) => {
                                let out = copy_links(&links);
                                self.links_by_target.insert(url.to_owned(), links);
                                Ok(out)
                            },
                            None => Err(
                                Error::SQLError(String::from_str("failed to decode a link row")),
                            ),
                        }
                    },
                }
            },
        }
    }

    /// The tags attached to the resource at `url`; cached per scope.
    pub fn find_tags_by_target(&mut self, url: &str) -> (r: Result<Vec<crate::data::Tag>, Error>)
        ensures
            old(self)@.tags_by_target.contains_key(url@) ==> ({
                &&& final(self)@ == old(self)@
                &&& (match r {
                    Ok(v) => v.deep_view() == old(self)@.tags_by_target[url@],
                    Err(_) => false,
                })
            }),
            !old(self)@.tags_by_target.contains_key(url@) ==> ({
                &&& final(self)@.queries == bump(old(self)@.queries)
                &&& final(self)@.links_by_referrer == old(self)@.links_by_referrer
                &&& final(self)@.links_by_target == old(self)@.links_by_target
                &&& final(self)@.tags_by_name == old(self)@.tags_by_name
                &&& final(self)@.resource_info == old(self)@.resource_info
                &&& (match r {
                    Ok(v) => final(self)@.tags_by_target == old(self)@.tags_by_target.insert(
                        url@,
                        v.deep_view(),
                    ),
                    Err(_) => final(self)@.tags_by_target == old(self)@.tags_by_target,
                })
            }),
    {
        let hit = match self.tags_by_target.get(url) {
            Some(v) => Some(copy_tags(v)),
            None => None,
        };
        match hit {
            Some(v) => Ok(v),
            None => {
                let mut params: Vec<Option<String>> = Vec::new();
                params.push(Some(url.to_owned()));
                self.queries = bump_exec(self.queries);
                match sql_query(&self.db, select_tags_by_target_sql(), &params) {
                    Err(e) => Err(Error::SQLError(e)),
                    Ok(rows) => {
                        match decode_tag_rows(&rows) {
                            Some(tags) => {
                                let out = copy_tags(&tags);
                                self.tags_by_target.insert(url.to_owned(), tags);
                                Ok(out)
                            },
                            None => Err(
                                Error::SQLError(String::from_str("failed to decode a tag row")),
                            ),
                        }
                    },
                }
            },
        }
    }

    /// The tags with the given name, over every resource; cached per
    /// scope.
    pub fn find_tags_by_name(&mut self, name: &str) -> (r: Result<Vec<crate::data::Tag>, Error>)
        ensures
            old(self)@.tags_by_name.contains_key(name@) ==> ({
                &&& final(self)@ == old(self)@
                &&& (match r {
                    Ok(v) => v.deep_view() == old(self)@.tags_by_name[name@],
                    Err(_) => false,
                })
            }),
            !old(self)@.tags_by_name.contains_key(name@) ==> ({
                &&& final(self)@.queries == bump(old(self)@.queries)
                &&& final(self)@.links_by_referrer == old(self)@.links_by_referrer
                &&& final(self)@.links_by_target == old(self)@.links_by_target
                &&& final(self)@.tags_by_target == old(self)@.tags_by_target
                &&& final(self)@.resource_info == old(self)@.resource_info
                &&& (match r {
                    Ok(v) => final(self)@.tags_by_name == old(self)@.tags_by_name.insert(
                        name@,
                        v.deep_view(),
                    ),
                    Err(_) => final(self)@.tags_by_name == old(self)@.tags_by_name,
                })
            }),
    {
        let hit = match self.tags_by_name.get(name) {
            Some(v) => Some(copy_tags(v)),
            None => None,
        };
        match hit {
            Some(v) => Ok(v),
            None => {
                let mut params: Vec<Option<String>> = Vec::new();
                params.push(Some(name.to_owned()));
                self.queries = bump_exec(self.queries);
                match sql_query(&self.db, select_tags_by_name_sql(), &params) {
                    Err(e) => Err(Error::SQLError(e)),
                    Ok(rows) => {
                        match decode_tag_rows(&rows) {
                            Some(tags) => {
                                let out = copy_tags(&tags);
                                self.tags_by_name.insert(name.to_owned(), tags);
                                Ok(out)
                            },
                            None => Err(
                                Error::SQLError(String::from_str("failed to decode a tag row")),
                            ),
                        }
                    },
                }
            },
        }
    }

    /// The stored info of the resource at `url`: `Ok(None)` when no row
    /// is stored — callers can tell "no data" from a failed lookup.
    /// Cached per scope, the not-found answer included.
    pub fn find_resource_info(&mut self, url: &str) -> (r: Result<Option<ResourceInfo>, Error>)
        ensures
            old(self)@.resource_info.contains_key(url@) ==> ({
                &&& final(self)@ == old(self)@
                &&& (match r {
                    Ok(v) => v.deep_view() == old(self)@.resource_info[url@],
                    Err(_) => false,
                })
            }),
            !old(self)@.resource_info.contains_key(url@) ==> ({
                &&& final(self)@.queries == bump(old(self)@.queries)
                &&& final(self)@.links_by_referrer == old(self)@.links_by_referrer
                &&& final(self)@.links_by_target == old(self)@.links_by_target
                &&& final(self)@.tags_by_target == old(self)@.tags_by_target
                &&& final(self)@.tags_by_name == old(self)@.tags_by_name
                &&& (match r {
                    Ok(v) => final(self)@.resource_info == old(self)@.resource_info.insert(
                        url@,
                        v.deep_view(),
                    ),
                    Err(_) => final(self)@.resource_info == old(self)@.resource_info,
                })
            }),
    {
        let hit = match self.resource_info.get(url) {
            Some(v) => Some(copy_opt_info(v)),
            None => None,
        };
        match hit {
            Some(v) => Ok(v),
            None => {
                let mut params: Vec<Option<String>> = Vec::new();
                params.push(Some(url.to_owned()));
                self.queries = bump_exec(self.queries);
                match sql_query(&self.db, select_resource_by_url_sql(), &params) {
                    Err(e) => Err(Error::SQLError(e)),
                    Ok(rows) => {
                        if rows.len() == 0 {
                            self.resource_info.insert(url.to_owned(), None);
                            Ok(None)
                        } else {
                            match decode_info_row(&rows[0]) {
                                Some(info) => {
                                    let out = Some(info.duplicate());
                                    self.resource_info.insert(url.to_owned(), Some(info));
                                    Ok(out)
                                },
                                None => Err(
                                    Error::SQLError(
                                        String::from_str("failed to decode a resource row"),
                                    ),
                                ),
                            }
                        }
                    },
                }
            },
        }
    }
}

/// The parameter row sent for one link: referrer, fragment, location and
/// target, then — for reference links only — the identifier with an
/// absent one written as the empty string, then name and title.
pub open spec fn link_params_spec(referrer: Seq<char>, l: InputLinkView) -> Seq<
    Option<Seq<char>>,
> {
    if l.kind == LinkKind::Reference {
        seq![
            Some(referrer),
            l.referrer_fragment,
            l.referrer_location,
            Some(l.target_url),
            Some(
                match l.identifier {
                    Some(id) => id,
                    None => Seq::empty(),
                },
            ),
            Some(l.name),
            Some(l.title),
        ]
    } else {
        seq![
            Some(referrer),
            l.referrer_fragment,
            l.referrer_location,
            Some(l.target_url),
            Some(l.name),
            Some(l.title),
        ]
    }
}

/// Encodes one link as its parameter row.
pub fn link_params(referrer_url: &str, link: &InputLink) -> (r: Vec<Option<String>>)
    ensures
        r.deep_view() == link_params_spec(referrer_url@, link@),
{
    let mut params: Vec<Option<String>> = Vec::new();
    params.push(Some(referrer_url.to_owned()));
    params.push(clone_opt(&link.referrer_fragment));
    params.push(clone_opt(&link.referrer_location));
    params.push(Some(link.target_url.clone()));
    match link.kind {
        LinkKind::Reference => {
            let ident = match &link.identifier {
                Some(id) => id.clone(),
                None => String::new(),
            };
            params.push(Some(ident));
        },
        LinkKind::Inline => {},
    }
    params.push(Some(link.name.clone()));
    params.push(Some(link.title.clone()));
    proof {
        assert(params.deep_view() =~= link_params_spec(referrer_url@, link@));
    }
    params
}

/// The parameter row sent for one tag: name, target, the fragment with
/// an absent one written as the empty string — never null — and the
/// location.
pub open spec fn tag_params_spec(target: Seq<char>, t: InputTagView) -> Seq<Option<Seq<char>>> {
    seq![
        Some(t.name),
        Some(target),
        Some(
            match t.target_fragment {
                Some(f) => f,
                None => Seq::empty(),
            },
        ),
        t.target_location,
    ]
}

/// Encodes one tag as its parameter row.
pub fn tag_params(target_url: &str, tag: &InputTag) -> (r: Vec<Option<String>>)
    ensures
        r.deep_view() == tag_params_spec(target_url@, tag@),
{
    let mut params: Vec<Option<String>> = Vec::new();
    params.push(Some(tag.name.clone()));
    params.push(Some(target_url.to_owned()));
    let fragment = match &tag.target_fragment {
        Some(f) => f.clone(),
        None => String::new(),
    };
    params.push(Some(fragment));
    params.push(clone_opt(&tag.target_location));
    proof {
        assert(params.deep_view() =~= tag_params_spec(target_url@, tag@));
    }
    params
}

/// Law: the fragment column written for a tag is always present — an
/// absent fragment becomes the empty string on write, never null.
pub proof fn lemma_tag_fragment_never_null(target: Seq<char>, t: InputTagView)
    ensures
        tag_params_spec(target, t)[2] is Some,
{
}

/// Law: reads are idempotent within one cache scope. When a first read of
/// a key succeeds, a second read of the same key with no intervening
/// write returns exactly the same links, and the two reads together cost
/// at most one backing-store query.
pub fn links_by_referrer_read_twice(store: &mut DataStore, url: &str) -> (r: (
    Result<Vec<Link>, Error>,
    Result<Vec<Link>, Error>,
))
    ensures
        match r.0 {
            Ok(a) => match r.1 {
                Ok(b) => a.deep_view() == b.deep_view() && final(store)@.queries <= bump(
                    old(store)@.queries,
                ),
                Err(_) => false,
            },
            Err(_) => true,
        },
{
    let first = store.find_links_by_referrer(url);
    let second = store.find_links_by_referrer(url);
    (first, second)
}

} // verus!
