//! Front matter: the optional YAML key/value block at the start of a
//! document, delimited by `---` lines.
//!
//! Locating the block is verified exactly; decoding its values goes
//! through yaml-rust behind trusted wrappers, after which the trimming
//! and filtering of tag entries is verified again.

use vstd::prelude::*;

use crate::text::{
    normalize_entries, normalize_entries_spec, split_tags, tags_normalized, tags_of_string, trim,
    trim_spec,
};
use crate::text::lemma_entry_tags_normalized;
use crate::text::lemma_string_tags_normalized;
use crate::text::lemma_trim_idempotent;

verus! {

/// The delimiter line that opens and closes a front-matter block.
pub open spec fn fm_marker() -> Seq<char> {
    seq!['-', '-', '-', '\n']
}

/// The delimiter occurs at position `i`.
pub open spec fn marker_at(s: Seq<char>, i: int) -> bool {
    0 <= i && i + 4 <= s.len() && s.subrange(i, i + 4) == fm_marker()
}

/// The position of the first delimiter occurrence, if any.
pub open spec fn find_marker(s: Seq<char>) -> Option<int>
    decreases s.len(),
{
    if s.len() < 4 {
        None
    } else if s.subrange(0, 4) == fm_marker() {
        Some(0)
    } else {
        match find_marker(s.drop_first()) {
            Some(i) => Some(i + 1),
            None => None,
        }
    }
}

/// The front-matter text of a document: the characters between an opening
/// delimiter at the very start and the next delimiter occurrence; `None`
/// when the document does not open with the delimiter or never closes it.
pub open spec fn front_matter_spec(s: Seq<char>) -> Option<Seq<char>> {
    if s.len() >= 4 && s.subrange(0, 4) == fm_marker() {
        match find_marker(s.skip(4)) {
            Some(i) => Some(s.skip(4).take(i)),
            None => None,
        }
    } else {
        None
    }
}

proof fn lemma_marker_at_shift(s: Seq<char>)
    requires
        s.len() >= 1,
    ensures
        forall|j: int| 0 <= j ==> marker_at(s.drop_first(), j) == marker_at(s, j + 1),
{
    assert forall|j: int| 0 <= j implies marker_at(s.drop_first(), j) == marker_at(s, j + 1) by {
        if j + 4 <= s.len() - 1 {
            assert(s.drop_first().subrange(j, j + 4) =~= s.subrange(j + 1, j + 5));
        }
    }
}

proof fn lemma_find_marker_some(s: Seq<char>, i: int)
    requires
        marker_at(s, i),
        forall|j: int| 0 <= j < i ==> !marker_at(s, j),
    ensures
        find_marker(s) == Some(i),
    decreases i,
{
    if i == 0 {
    } else {
        assert(!marker_at(s, 0));
        lemma_marker_at_shift(s);
        lemma_find_marker_some(s.drop_first(), i - 1);
    }
}

proof fn lemma_find_marker_none(s: Seq<char>)
    requires
        forall|j: int| !marker_at(s, j),
    ensures
        find_marker(s) is None,
    decreases s.len(),
{
    if s.len() >= 4 {
        assert(!marker_at(s, 0));
        lemma_marker_at_shift(s);
        lemma_find_marker_none(s.drop_first());
    }
}

fn marker_at_exec(s: &str, i: usize, n: usize) -> (r: bool)
    requires
        n == s@.len(),
        i + 4 <= n,
    ensures
        r == marker_at(s@, i as int),
{
    let r = s.get_char(i) == '-' && s.get_char(i + 1) == '-' && s.get_char(i + 2) == '-'
        && s.get_char(i + 3) == '\n';
    proof {
        let sub = s@.subrange(i as int, i as int + 4);
        assert(sub[0] == s@[i as int]);
        assert(sub[1] == s@[i as int + 1]);
        assert(sub[2] == s@[i as int + 2]);
        assert(sub[3] == s@[i as int + 3]);
        if r {
            assert(sub =~= fm_marker());
        } else {
            assert(sub != fm_marker());
        }
    }
    r
}

fn find_marker_exec(s: &str) -> (r: Option<usize>)
    ensures
        match r {
            Some(i) => find_marker(s@) == Some(i as int),
            None => find_marker(s@) is None,
        },
{
    let n = s.unicode_len();
    if n < 4 {
        proof {
            lemma_find_marker_none(s@);
        }
        return None;
    }
    let mut i: usize = 0;
    while i <= n - 4
        invariant
            n == s@.len(),
            4 <= n,
            0 <= i <= n - 3,
            forall|j: int| 0 <= j < i ==> !marker_at(s@, j),
        decreases n - i,
    {
        if marker_at_exec(s, i, n) {
            proof {
                lemma_find_marker_some(s@, i as int);
            }
            return Some(i);
        }
        i = i + 1;
    }
    proof {
        assert forall|j: int| !marker_at(s@, j) by {
            if 0 <= j && j + 4 <= n {
                assert(j < i);
            }
        }
        lemma_find_marker_none(s@);
    }
    None
}

/// Extracts the front-matter text of a document, when a block delimited
/// by `---` lines opens it.
pub fn front_matter(s: &str) -> (r: Option<String>)
    ensures
        r.deep_view() == front_matter_spec(s@),
{
    let n = s.unicode_len();
    if n >= 4 && marker_at_exec(s, 0, n) {
        let rest = s.substring_char(4, n);
        proof {
            assert(rest@ =~= s@.skip(4));
        }
        match find_marker_exec(rest) {
            Some(i) => {
                proof {
                    assert(marker_at(s@.skip(4), i as int) || find_marker(s@.skip(4)) == Some(
                        i as int,
                    ));
                    lemma_find_marker_in_range(s@.skip(4), i as int);
                    assert(rest@.subrange(0, i as int) =~= s@.skip(4).take(i as int));
                }
                Some(rest.substring_char(0, i).to_owned())
            },
            None => None,
        }
    } else {
        None
    }
}

proof fn lemma_find_marker_in_range(s: Seq<char>, i: int)
    requires
        find_marker(s) == Some(i),
    ensures
        0 <= i && i + 4 <= s.len(),
        marker_at(s, i),
    decreases s.len(),
{
    if s.len() >= 4 && s.subrange(0, 4) == fm_marker() {
    } else if s.len() >= 4 {
        lemma_find_marker_in_range(s.drop_first(), i - 1);
        lemma_marker_at_shift(s);
    }
}

/// The metadata supplied by a document's front matter.
#[derive(Clone, Debug)]
pub struct Metadata {
    pub title: Option<String>,
    pub description: Option<String>,
    pub tags: Option<Vec<String>>,
}

#[verifier::ext_equal]
pub ghost struct MetadataView {
    pub title: Option<Seq<char>>,
    pub description: Option<Seq<char>>,
    pub tags: Option<Seq<Seq<char>>>,
}

impl View for Metadata {
    type V = MetadataView;

    open spec fn view(&self) -> MetadataView {
        MetadataView {
            title: self.title.deep_view(),
            description: self.description.deep_view(),
            tags: self.tags.deep_view(),
        }
    }
}

impl DeepView for Metadata {
    type V = MetadataView;

    open spec fn deep_view(&self) -> MetadataView {
        self@
    }
}

pub open spec fn empty_metadata() -> MetadataView {
    MetadataView { title: None, description: None, tags: None }
}

#[verifier::external_type_specification]
#[verifier::external_body]
pub struct ExYaml(yaml_rust::Yaml);

/// A front-matter tags value as the YAML decoder hands it over: absent
/// (or of an undecodable shape), a single comma-delimited string, or a
/// sequence whose entries may or may not be strings.
#[derive(Clone, Debug)]
pub enum TagsValue {
    Absent,
    Text(String),
    List(Vec<Option<String>>),
}

#[verifier::ext_equal]
pub ghost enum TagsValueView {
    Absent,
    Text(Seq<char>),
    List(Seq<Option<Seq<char>>>),
}

impl View for TagsValue {
    type V = TagsValueView;

    open spec fn view(&self) -> TagsValueView {
        match self {
            TagsValue::Absent => TagsValueView::Absent,
            TagsValue::Text(s) => TagsValueView::Text(s@),
            TagsValue::List(es) => TagsValueView::List(es.deep_view()),
        }
    }
}

impl DeepView for TagsValue {
    type V = TagsValueView;

    open spec fn deep_view(&self) -> TagsValueView {
        self@
    }
}

/// The raw values the YAML decoder reads out of a front-matter text:
/// the title and description strings and the tags value, all untrimmed.
#[derive(Clone, Debug)]
pub struct YamlFields {
    pub title: Option<String>,
    pub description: Option<String>,
    pub tags: TagsValue,
}

#[verifier::ext_equal]
pub ghost struct YamlFieldsView {
    pub title: Option<Seq<char>>,
    pub description: Option<Seq<char>>,
    pub tags: TagsValueView,
}

impl View for YamlFields {
    type V = YamlFieldsView;

    open spec fn view(&self) -> YamlFieldsView {
        YamlFieldsView {
            title: self.title.deep_view(),
            description: self.description.deep_view(),
            tags: self.tags@,
        }
    }
}

impl DeepView for YamlFields {
    type V = YamlFieldsView;

    open spec fn deep_view(&self) -> YamlFieldsView {
        self@
    }
}

/// What the YAML decoder yields for a front-matter text and the four
/// field keys: a function of its arguments alone, so the name stands for
/// every run on the same text. Text that is not valid YAML, or whose
/// last document is not a hash, yields no fields.
pub uninterp spec fn yaml_fields_of(
    text: Seq<char>,
    title_key: Seq<char>,
    description_key: Seq<char>,
    tags_key: Seq<char>,
    tags_key_alt: Seq<char>,
) -> YamlFieldsView;

/// Relies on yaml_rust's Yaml variants: a sequence becomes the list of
/// its entries read as strings (non-strings marked absent), a string
/// stays a string, anything else counts as no tags value.
#[verifier::external_body]
fn tags_value_of(value: &yaml_rust::Yaml) -> TagsValue {
    match value {
        yaml_rust::Yaml::Array(items) => TagsValue::List(
            items.iter().map(|y| y.as_str().map(String::from)).collect(),
        ),
        yaml_rust::Yaml::String(s) => TagsValue::Text(s.clone()),
        _ => TagsValue::Absent,
    }
}

/// Relies on yaml_rust's Index over string keys and Yaml::as_str: the
/// raw title and description strings and the raw tags value of one
/// document; the alternate tags key is consulted only when the primary
/// key is absent (the BadValue sentinel), matching the case-insensitive
/// `tags`/`Tags` contract.
#[verifier::external_body]
fn doc_fields(
    doc: &yaml_rust::Yaml,
    title_key: &str,
    description_key: &str,
    tags_key: &str,
    tags_key_alt: &str,
) -> YamlFields {
    let tags_value = if matches!(doc[tags_key], yaml_rust::Yaml::BadValue) {
        &doc[tags_key_alt]
    } else {
        &doc[tags_key]
    };
    YamlFields {
        title: doc[title_key].as_str().map(String::from),
        description: doc[description_key].as_str().map(String::from),
        tags: tags_value_of(tags_value),
    }
}

/// Relies on yaml_rust::YamlLoader::load_from_str: parses the
/// front-matter text and reads the fields of its last document; a scan
/// error or an empty document list yields no fields. The whole decode
/// depends on the text and keys alone, so its result carries the name
/// `yaml_fields_of`.
#[verifier::external_body]
fn yaml_fields(
    text: &str,
    title_key: &str,
    description_key: &str,
    tags_key: &str,
    tags_key_alt: &str,
) -> (r: YamlFields)
    ensures
        r@ == yaml_fields_of(text@, title_key@, description_key@, tags_key@, tags_key_alt@),
{
    let docs = match yaml_rust::YamlLoader::load_from_str(text) {
        Ok(docs) => docs,
        Err(_) => Vec::new(),
    };
    match docs.last() {
        Some(doc) => doc_fields(doc, title_key, description_key, tags_key, tags_key_alt),
        None => YamlFields { title: None, description: None, tags: TagsValue::Absent },
    }
}

/// The metadata the raw YAML fields denote: title and description
/// trimmed, and the tags value decoded — a string is split at commas, a
/// sequence keeps its string entries — with every tag trimmed and empty
/// entries dropped.
pub open spec fn metadata_of_fields(f: YamlFieldsView) -> MetadataView {
    MetadataView {
        title: match f.title {
            Some(t) => Some(trim_spec(t)),
            None => None,
        },
        description: match f.description {
            Some(d) => Some(trim_spec(d)),
            None => None,
        },
        tags: match f.tags {
            TagsValueView::Absent => None,
            TagsValueView::Text(s) => Some(tags_of_string(s)),
            TagsValueView::List(es) => Some(normalize_entries_spec(es)),
        },
    }
}

/// The metadata a whole document denotes: nothing without a front-matter
/// block, else the decoded fields of the block's YAML.
pub open spec fn metadata_spec(source: Seq<char>) -> MetadataView {
    match front_matter_spec(source) {
        Some(fm) => metadata_of_fields(
            yaml_fields_of(fm, "title"@, "description"@, "tags"@, "Tags"@),
        ),
        None => empty_metadata(),
    }
}

/// Reads a document's front matter: its title and description fields,
/// trimmed, and its tags under the case-insensitive key `tags`/`Tags`,
/// trimmed with empty entries dropped. A document without a front-matter
/// block, or with one that is not valid YAML, yields no metadata — a
/// malformed block never fails the read.
pub fn read_metadata(source: &str) -> (r: Metadata)
    ensures
        r@ == metadata_spec(source@),
        match r@.title {
            Some(t) => trim_spec(t) == t,
            None => true,
        },
        match r@.description {
            Some(d) => trim_spec(d) == d,
            None => true,
        },
        match r@.tags {
            Some(ts) => tags_normalized(ts),
            None => true,
        },
{
    match front_matter(source) {
        None => Metadata { title: None, description: None, tags: None },
        Some(text) => {
            let fields = yaml_fields(text.as_str(), "title", "description", "tags", "Tags");
            let title = match fields.title {
                Some(t) => {
                    proof {
                        lemma_trim_idempotent(t@);
                    }
                    Some(trim(t.as_str()))
                },
                None => None,
            };
            let description = match fields.description {
                Some(d) => {
                    proof {
                        lemma_trim_idempotent(d@);
                    }
                    Some(trim(d.as_str()))
                },
                None => None,
            };
            let tags = match fields.tags {
                TagsValue::Absent => None,
                TagsValue::Text(s) => {
                    proof {
                        lemma_string_tags_normalized(s@);
                    }
                    Some(split_tags(s.as_str()))
                },
                TagsValue::List(es) => {
                    proof {
                        lemma_entry_tags_normalized(es.deep_view());
                    }
                    Some(normalize_entries(&es))
                },
            };
            Metadata { title, description, tags }
        },
    }
}

} // verus!
