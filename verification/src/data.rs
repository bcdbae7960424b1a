//! Core data model: resources, links and tags of the knowledge graph.
//!
//! A resource is identified by its URL; a link is a directed edge from a
//! referrer resource to a target URL; a tag attaches a name to a resource.
//! Each type carries a ghost view over sequences of characters so that
//! contracts can speak about the contents of its string fields.

use vstd::prelude::*;

verus! {

/// Whether a link was written inline or resolved through a reference label.
#[derive(Clone, Copy, Debug, PartialEq, Eq, Structural)]
pub enum LinkKind {
    Inline,
    Reference,
}

impl View for LinkKind {
    type V = LinkKind;

    open spec fn view(&self) -> LinkKind {
        *self
    }
}

impl DeepView for LinkKind {
    type V = LinkKind;

    open spec fn deep_view(&self) -> LinkKind {
        *self
    }
}

/// A link edge as read back from the store, carrying the denormalized
/// snapshot of the referrer resource.
#[derive(Clone, Debug)]
pub struct Link {
    pub kind: LinkKind,
    pub referrer_url: String,
    pub referrer_cid: Option<String>,
    pub referrer_title: String,
    pub referrer_description: String,
    pub referrer_icon: Option<String>,
    pub referrer_image: Option<String>,

    pub referrer_fragment: Option<String>,
    pub referrer_location: Option<String>,

    pub target_url: String,
    pub name: String,
    pub title: String,
    pub identifier: Option<String>,
}

#[verifier::ext_equal]
pub ghost struct LinkView {
    pub kind: LinkKind,
    pub referrer_url: Seq<char>,
    pub referrer_cid: Option<Seq<char>>,
    pub referrer_title: Seq<char>,
    pub referrer_description: Seq<char>,
    pub referrer_icon: Option<Seq<char>>,
    pub referrer_image: Option<Seq<char>>,
    pub referrer_fragment: Option<Seq<char>>,
    pub referrer_location: Option<Seq<char>>,
    pub target_url: Seq<char>,
    pub name: Seq<char>,
    pub title: Seq<char>,
    pub identifier: Option<Seq<char>>,
}

impl View for Link {
    type V = LinkView;

    open spec fn view(&self) -> LinkView {
        LinkView {
            kind: self.kind,
            referrer_url: self.referrer_url@,
            referrer_cid: self.referrer_cid.deep_view(),
            referrer_title: self.referrer_title@,
            referrer_description: self.referrer_description@,
            referrer_icon: self.referrer_icon.deep_view(),
            referrer_image: self.referrer_image.deep_view(),
            referrer_fragment: self.referrer_fragment.deep_view(),
            referrer_location: self.referrer_location.deep_view(),
            target_url: self.target_url@,
            name: self.name@,
            title: self.title@,
            identifier: self.identifier.deep_view(),
        }
    }
}

impl DeepView for Link {
    type V = LinkView;

    open spec fn deep_view(&self) -> LinkView {
        self@
    }
}

/// A tag association between a name and a target resource URL.
#[derive(Clone, Debug)]
pub struct Tag {
    pub name: String,
    pub target_url: String,
    pub target_fragment: Option<String>,
    pub target_location: Option<String>,
}

#[verifier::ext_equal]
pub ghost struct TagView {
    pub name: Seq<char>,
    pub target_url: Seq<char>,
    pub target_fragment: Option<Seq<char>>,
    pub target_location: Option<Seq<char>>,
}

impl View for Tag {
    type V = TagView;

    open spec fn view(&self) -> TagView {
        TagView {
            name: self.name@,
            target_url: self.target_url@,
            target_fragment: self.target_fragment.deep_view(),
            target_location: self.target_location.deep_view(),
        }
    }
}

impl DeepView for Tag {
    type V = TagView;

    open spec fn deep_view(&self) -> TagView {
        self@
    }
}

/// Descriptive fields of a resource; present only when supplied or indexed.
#[derive(Clone, Debug)]
pub struct ResourceInfo {
    pub title: String,
    pub description: String,
    pub cid: Option<String>,
    pub icon: Option<String>,
    pub image: Option<String>,
}

#[verifier::ext_equal]
pub ghost struct ResourceInfoView {
    pub title: Seq<char>,
    pub description: Seq<char>,
    pub cid: Option<Seq<char>>,
    pub icon: Option<Seq<char>>,
    pub image: Option<Seq<char>>,
}

impl View for ResourceInfo {
    type V = ResourceInfoView;

    open spec fn view(&self) -> ResourceInfoView {
        ResourceInfoView {
            title: self.title@,
            description: self.description@,
            cid: self.cid.deep_view(),
            icon: self.icon.deep_view(),
            image: self.image.deep_view(),
        }
    }
}

impl DeepView for ResourceInfo {
    type V = ResourceInfoView;

    open spec fn deep_view(&self) -> ResourceInfoView {
        self@
    }
}

/// A URL-identified document or bookmark tracked by the system.
#[derive(Clone, Debug)]
pub struct Resource {
    pub url: String,
    pub info: Option<ResourceInfo>,
}

#[verifier::ext_equal]
pub ghost struct ResourceView {
    pub url: Seq<char>,
    pub info: Option<ResourceInfoView>,
}

impl View for Resource {
    type V = ResourceView;

    open spec fn view(&self) -> ResourceView {
        ResourceView { url: self.url@, info: self.info.deep_view() }
    }
}

impl DeepView for Resource {
    type V = ResourceView;

    open spec fn deep_view(&self) -> ResourceView {
        self@
    }
}

/// A search hit: the URL of a similar resource and the engine's relevance
/// score, carried as the raw bits of the underlying non-negative IEEE
/// single-precision value. For non-negative scores the bit order agrees
/// with the numeric order, so callers may rank by this integer directly.
#[derive(Clone, Debug)]
pub struct SimilarResource {
    pub similarity_score_bits: u32,
    pub target_url: String,
}

#[verifier::ext_equal]
pub ghost struct SimilarResourceView {
    pub similarity_score_bits: u32,
    pub target_url: Seq<char>,
}

impl View for SimilarResource {
    type V = SimilarResourceView;

    open spec fn view(&self) -> SimilarResourceView {
        SimilarResourceView {
            similarity_score_bits: self.similarity_score_bits,
            target_url: self.target_url@,
        }
    }
}

impl DeepView for SimilarResource {
    type V = SimilarResourceView;

    open spec fn deep_view(&self) -> SimilarResourceView {
        self@
    }
}

/// A link as produced by the parser, before the referrer snapshot is known.
#[derive(Clone, Debug)]
pub struct InputLink {
    pub target_url: String,

    pub referrer_fragment: Option<String>,
    pub referrer_location: Option<String>,

    pub kind: LinkKind,
    pub name: String,
    pub title: String,
    pub identifier: Option<String>,
}

#[verifier::ext_equal]
pub ghost struct InputLinkView {
    pub target_url: Seq<char>,
    pub referrer_fragment: Option<Seq<char>>,
    pub referrer_location: Option<Seq<char>>,
    pub kind: LinkKind,
    pub name: Seq<char>,
    pub title: Seq<char>,
    pub identifier: Option<Seq<char>>,
}

impl View for InputLink {
    type V = InputLinkView;

    open spec fn view(&self) -> InputLinkView {
        InputLinkView {
            target_url: self.target_url@,
            referrer_fragment: self.referrer_fragment.deep_view(),
            referrer_location: self.referrer_location.deep_view(),
            kind: self.kind,
            name: self.name@,
            title: self.title@,
            identifier: self.identifier.deep_view(),
        }
    }
}

impl DeepView for InputLink {
    type V = InputLinkView;

    open spec fn deep_view(&self) -> InputLinkView {
        self@
    }
}

/// A tag as supplied to ingestion.
#[derive(Clone, Debug)]
pub struct InputTag {
    pub name: String,
    pub target_fragment: Option<String>,
    pub target_location: Option<String>,
}

#[verifier::ext_equal]
pub ghost struct InputTagView {
    pub name: Seq<char>,
    pub target_fragment: Option<Seq<char>>,
    pub target_location: Option<Seq<char>>,
}

impl View for InputTag {
    type V = InputTagView;

    open spec fn view(&self) -> InputTagView {
        InputTagView {
            name: self.name@,
            target_fragment: self.target_fragment.deep_view(),
            target_location: self.target_location.deep_view(),
        }
    }
}

impl DeepView for InputTag {
    type V = InputTagView;

    open spec fn deep_view(&self) -> InputTagView {
        self@
    }
}

/// A full document handed to ingestion: resource metadata plus the links
/// and tags extracted from its content.
#[derive(Clone, Debug)]
pub struct InputResource {
    pub url: String,
    pub cid: Option<String>,
    pub title: String,
    pub description: String,
    pub links: Option<Vec<InputLink>>,
    pub tags: Option<Vec<InputTag>>,
    pub icon: Option<String>,
    pub image: Option<String>,

    pub content: Option<String>,
}

#[verifier::ext_equal]
pub ghost struct InputResourceView {
    pub url: Seq<char>,
    pub cid: Option<Seq<char>>,
    pub title: Seq<char>,
    pub description: Seq<char>,
    pub links: Option<Seq<InputLinkView>>,
    pub tags: Option<Seq<InputTagView>>,
    pub icon: Option<Seq<char>>,
    pub image: Option<Seq<char>>,
    pub content: Option<Seq<char>>,
}

impl View for InputResource {
    type V = InputResourceView;

    open spec fn view(&self) -> InputResourceView {
        InputResourceView {
            url: self.url@,
            cid: self.cid.deep_view(),
            title: self.title@,
            description: self.description@,
            links: self.links.deep_view(),
            tags: self.tags.deep_view(),
            icon: self.icon.deep_view(),
            image: self.image.deep_view(),
            content: self.content.deep_view(),
        }
    }
}

impl DeepView for InputResource {
    type V = InputResourceView;

    open spec fn deep_view(&self) -> InputResourceView {
        self@
    }
}

/// Outcome of asking the host system to open a resource.
#[derive(Clone, Copy, Debug)]
pub struct Open {
    pub open_ok: bool,
    pub exit_ok: bool,
    pub code: Option<i32>,
}

/// A similarity query: optional source URL plus the text to match against.
#[derive(Clone, Debug)]
pub struct InputSimilar {
    pub url: Option<String>,
    pub content: String,
}

/// The spec-level resource that an ingestion input denotes: the URL with
/// all info fields taken over from the input.
pub open spec fn resource_of_input(input: InputResourceView) -> ResourceView {
    ResourceView {
        url: input.url,
        info: Some(
            ResourceInfoView {
                cid: input.cid,
                title: input.title,
                description: input.description,
                icon: input.icon,
                image: input.image,
            },
        ),
    }
}

impl Resource {
    /// Builds the resource that an ingestion input denotes.
    pub fn from_input(input: &InputResource) -> (r: Resource)
        ensures
            r@ == resource_of_input(input@),
    {
        Resource {
            url: input.url.clone(),
            info: Some(
                ResourceInfo {
                    cid: input.cid.clone(),
                    title: input.title.clone(),
                    description: input.description.clone(),
                    icon: input.icon.clone(),
                    image: input.image.clone(),
                },
            ),
        }
    }

    /// Builds a bare resource for a URL, with no info fields.
    pub fn from_url(url: &str) -> (r: Resource)
        ensures
            r@ == (ResourceView { url: url@, info: None }),
    {
        Resource { url: url.to_owned(), info: None }
    }

    /// The URL identifying this resource.
    pub fn url(&self) -> (r: &str)
        ensures
            r@ == self@.url,
    {
        self.url.as_str()
    }

    /// Builds the resource a file denotes, keyed by its file URL; `None`
    /// when the path cannot be one (a relative path, or one no file URL
    /// can carry).
    pub fn from_file_path(path: &str) -> (r: Option<Resource>)
        ensures
            match r {
                Some(res) => res@.info is None,
                None => true,
            },
    {
        match file_url(path) {
            Some(url) => Some(Resource { url, info: None }),
            None => None,
        }
    }
}

/// Relies on url::Url::from_file_path: the file URL denoting an absolute
/// path; a relative or otherwise unrepresentable path is refused.
#[verifier::external_body]
fn file_url(path: &str) -> Option<String> {
    url::Url::from_file_path(std::path::Path::new(path)).map(String::from).ok()
}

/// The input tag a bare name denotes: the name alone, with no fragment
/// and no location.
pub open spec fn input_tag_of_name(name: Seq<char>) -> InputTagView {
    InputTagView { name: name, target_fragment: None, target_location: None }
}

impl InputTag {
    /// Wraps a bare name as a tag input.
    pub fn from_name(name: String) -> (r: InputTag)
        ensures
            r@ == input_tag_of_name(name@),
    {
        InputTag { name, target_fragment: None, target_location: None }
    }
}

/// Wraps each name as a tag input, keeping the order.
pub fn tags_to_input(names: Vec<String>) -> (r: Vec<InputTag>)
    ensures
        r.deep_view() == names.deep_view().map_values(|n: Seq<char>| input_tag_of_name(n)),
{
    let mut out: Vec<InputTag> = Vec::new();
    let n = names.len();
    let mut i: usize = 0;
    while i < n
        invariant
            0 <= i <= n,
            n == names.len(),
            out.deep_view() == names.deep_view().take(i as int).map_values(
                |nm: Seq<char>| input_tag_of_name(nm),
            ),
        decreases n - i,
    {
        let tag = InputTag::from_name(names[i].clone());
        let ghost prev = out.deep_view();
        out.push(tag);
        proof {
            assert(names.deep_view()[i as int] == names@[i as int]@);
            assert(out.deep_view() =~= prev.push(tag@));
            assert(names.deep_view().take(i as int + 1).map_values(
                |nm: Seq<char>| input_tag_of_name(nm),
            ) =~= prev.push(tag@));
        }
        i = i + 1;
    }
    proof {
        assert(names.deep_view().take(n as int) =~= names.deep_view());
    }
    out
}

impl Link {
    /// The link's kind: inline or resolved through a reference label.
    pub fn kind(&self) -> (r: LinkKind)
        ensures
            r == self@.kind,
    {
        self.kind
    }

    /// The display name the link was encountered by.
    pub fn name(&self) -> (r: &str)
        ensures
            r@ == self@.name,
    {
        self.name.as_str()
    }

    /// The hover title the link was encountered by.
    pub fn title(&self) -> (r: &str)
        ensures
            r@ == self@.title,
    {
        self.title.as_str()
    }

    /// The reference label the link resolves through, when it has one.
    pub fn identifier(&self) -> (r: Option<&String>)
        ensures
            r.deep_view() == self@.identifier,
    {
        self.identifier.as_ref()
    }

    /// The excerpt of the referrer where the link was discovered.
    pub fn fragment(&self) -> (r: Option<&String>)
        ensures
            r.deep_view() == self@.referrer_fragment,
    {
        self.referrer_fragment.as_ref()
    }

    /// The location in the referrer where the link was discovered.
    pub fn location(&self) -> (r: Option<&String>)
        ensures
            r.deep_view() == self@.referrer_location,
    {
        self.referrer_location.as_ref()
    }

    /// The resource the link points at.
    pub fn target(&self) -> (r: Resource)
        ensures
            r@ == (ResourceView { url: self@.target_url, info: None }),
    {
        Resource::from_url(self.target_url.as_str())
    }

    /// The referring resource, rebuilt from the denormalized snapshot
    /// this link carries, so no further lookup is needed.
    pub fn referrer(&self) -> (r: Resource)
        ensures
            r@.url == self@.referrer_url,
            r@.info == Some(
                ResourceInfoView {
                    title: self@.referrer_title,
                    description: self@.referrer_description,
                    cid: self@.referrer_cid,
                    icon: self@.referrer_icon,
                    image: self@.referrer_image,
                },
            ),
    {
        Resource {
            url: self.referrer_url.clone(),
            info: Some(
                ResourceInfo {
                    title: self.referrer_title.clone(),
                    description: self.referrer_description.clone(),
                    cid: match &self.referrer_cid {
                        Some(s) => Some(s.clone()),
                        None => None,
                    },
                    icon: match &self.referrer_icon {
                        Some(s) => Some(s.clone()),
                        None => None,
                    },
                    image: match &self.referrer_image {
                        Some(s) => Some(s.clone()),
                        None => None,
                    },
                },
            ),
        }
    }
}

impl Tag {
    /// The tag's name.
    pub fn name(&self) -> (r: &str)
        ensures
            r@ == self@.name,
    {
        self.name.as_str()
    }

    /// A synonym accessor for the tag's name.
    pub fn tag(&self) -> (r: &str)
        ensures
            r@ == self@.name,
    {
        self.name.as_str()
    }

    /// The URL of the resource the tag is attached to.
    pub fn target_url(&self) -> (r: &str)
        ensures
            r@ == self@.target_url,
    {
        self.target_url.as_str()
    }

    /// The fragment narrowing where in the resource the tag attaches.
    pub fn fragment(&self) -> (r: Option<&String>)
        ensures
            r.deep_view() == self@.target_fragment,
    {
        self.target_fragment.as_ref()
    }

    /// The location narrowing where in the resource the tag attaches.
    pub fn location(&self) -> (r: Option<&String>)
        ensures
            r.deep_view() == self@.target_location,
    {
        self.target_location.as_ref()
    }

    /// The resource the tag is attached to.
    pub fn target(&self) -> (r: Resource)
        ensures
            r@ == (ResourceView { url: self@.target_url, info: None }),
    {
        Resource::from_url(self.target_url.as_str())
    }
}

/// What one scan over a directory ingested.
#[derive(Clone, Copy, Debug, PartialEq, Eq, Structural)]
pub struct ScanReport {
    pub links: usize,
    pub tags: usize,
}

} // verus!
