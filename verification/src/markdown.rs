//! Document parser: turns markdown text into links, a title and a
//! description, tracking the innermost enclosing block as the context of
//! every link.
//!
//! Tokenization is delegated to pulldown-cmark behind a trusted boundary;
//! the token stream it returns for a given text is named by `md_tokens_of`.
//! Everything after tokenization — context tracking, title and description
//! capture, link-name reconstruction and link emission — is verified
//! against the `step_spec`/`run_spec` state machine below.

use vstd::prelude::*;

use crate::data::{InputLink, InputLinkView, LinkKind};
use crate::text::{
    heading_text, heading_text_exec, item_text, item_text_exec, quote_text, quote_text_exec,
    strip_eol, strip_eol_exec, trim, trim_spec,
};
use pulldown_cmark::Event as CmEvent;
use pulldown_cmark::HeadingLevel as CmHeadingLevel;
use pulldown_cmark::LinkType as CmLinkType;
use pulldown_cmark::Tag as CmTag;
use pulldown_cmark::TagEnd as CmTagEnd;

verus! {

/// The tokenizer's native classification of a link.
#[derive(Clone, Copy, Debug, PartialEq, Eq, Structural)]
pub enum MdLinkType {
    Inline,
    Reference,
    ReferenceUnknown,
    Collapsed,
    CollapsedUnknown,
    Shortcut,
    ShortcutUnknown,
    Autolink,
    Email,
    WikiLink,
}

/// One token of the structural event stream over a document.
///
/// Block-start tokens carry the raw source slice spanned by the block;
/// link-start tokens carry the resolved target, title and reference label.
#[derive(Clone, Debug)]
pub enum MdToken {
    HeadingStart { level: u32, text: String },
    HeadingEnd,
    ParagraphStart { text: String },
    ParagraphEnd,
    BlockQuoteStart { text: String },
    BlockQuoteEnd,
    ItemStart { text: String },
    ItemEnd,
    TableCellStart { text: String },
    TableCellEnd,
    LinkStart { link_type: MdLinkType, url: String, title: String, identifier: String },
    LinkEnd,
    EmphasisMark,
    StrongMark,
    StrikeMark,
    TextRun { text: String },
    CodeRun { text: String },
    Other,
}

#[verifier::ext_equal]
pub ghost enum MdTokenView {
    HeadingStart { level: u32, text: Seq<char> },
    HeadingEnd,
    ParagraphStart { text: Seq<char> },
    ParagraphEnd,
    BlockQuoteStart { text: Seq<char> },
    BlockQuoteEnd,
    ItemStart { text: Seq<char> },
    ItemEnd,
    TableCellStart { text: Seq<char> },
    TableCellEnd,
    LinkStart { link_type: MdLinkType, url: Seq<char>, title: Seq<char>, identifier: Seq<char> },
    LinkEnd,
    EmphasisMark,
    StrongMark,
    StrikeMark,
    TextRun { text: Seq<char> },
    CodeRun { text: Seq<char> },
    Other,
}

impl View for MdToken {
    type V = MdTokenView;

    open spec fn view(&self) -> MdTokenView {
        match self {
            MdToken::HeadingStart { level, text } => (MdTokenView::HeadingStart {
                level: *level,
                text: text@,
            }),
            MdToken::HeadingEnd => MdTokenView::HeadingEnd,
            MdToken::ParagraphStart { text } => (MdTokenView::ParagraphStart { text: text@ }),
            MdToken::ParagraphEnd => MdTokenView::ParagraphEnd,
            MdToken::BlockQuoteStart { text } => (MdTokenView::BlockQuoteStart { text: text@ }),
            MdToken::BlockQuoteEnd => MdTokenView::BlockQuoteEnd,
            MdToken::ItemStart { text } => (MdTokenView::ItemStart { text: text@ }),
            MdToken::ItemEnd => MdTokenView::ItemEnd,
            MdToken::TableCellStart { text } => (MdTokenView::TableCellStart { text: text@ }),
            MdToken::TableCellEnd => MdTokenView::TableCellEnd,
            MdToken::LinkStart { link_type, url, title, identifier } => (MdTokenView::LinkStart {
                link_type: *link_type,
                url: url@,
                title: title@,
                identifier: identifier@,
            }),
            MdToken::LinkEnd => MdTokenView::LinkEnd,
            MdToken::EmphasisMark => MdTokenView::EmphasisMark,
            MdToken::StrongMark => MdTokenView::StrongMark,
            MdToken::StrikeMark => MdTokenView::StrikeMark,
            MdToken::TextRun { text } => (MdTokenView::TextRun { text: text@ }),
            MdToken::CodeRun { text } => (MdTokenView::CodeRun { text: text@ }),
            MdToken::Other => MdTokenView::Other,
        }
    }
}

impl DeepView for MdToken {
    type V = MdTokenView;

    open spec fn deep_view(&self) -> MdTokenView {
        self@
    }
}

#[verifier::external_type_specification]
#[verifier::external_body]
pub struct ExEvent<'a>(pulldown_cmark::Event<'a>);

#[verifier::external_type_specification]
#[verifier::external_body]
pub struct ExTagEnd(pulldown_cmark::TagEnd);

#[verifier::external_type_specification]
#[verifier::external_body]
pub struct ExLinkType(pulldown_cmark::LinkType);

#[verifier::external_type_specification]
#[verifier::external_body]
pub struct ExHeadingLevel(pulldown_cmark::HeadingLevel);

/// Relies on pulldown_cmark::LinkType: renames each variant, moving nothing.
#[verifier::external_body]
fn md_link_type(t: CmLinkType) -> MdLinkType {
    match t {
        CmLinkType::Inline => MdLinkType::Inline,
        CmLinkType::Reference => MdLinkType::Reference,
        CmLinkType::ReferenceUnknown => MdLinkType::ReferenceUnknown,
        CmLinkType::Collapsed => MdLinkType::Collapsed,
        CmLinkType::CollapsedUnknown => MdLinkType::CollapsedUnknown,
        CmLinkType::Shortcut => MdLinkType::Shortcut,
        CmLinkType::ShortcutUnknown => MdLinkType::ShortcutUnknown,
        CmLinkType::Autolink => MdLinkType::Autolink,
        CmLinkType::Email => MdLinkType::Email,
        CmLinkType::WikiLink { .. } => MdLinkType::WikiLink,
    }
}

/// Relies on pulldown_cmark::HeadingLevel: the numeric level of a heading.
#[verifier::external_body]
fn heading_level_num(level: CmHeadingLevel) -> u32 {
    match level {
        CmHeadingLevel::H1 => 1,
        CmHeadingLevel::H2 => 2,
        CmHeadingLevel::H3 => 3,
        CmHeadingLevel::H4 => 4,
        CmHeadingLevel::H5 => 5,
        CmHeadingLevel::H6 => 6,
    }
}

/// Relies on str::get: the source slice covered by an event's range.
#[verifier::external_body]
fn slice_of(source: &str, range: &core::ops::Range<usize>) -> String {
    source.get(range.start..range.end).unwrap_or("").to_string()
}

/// Relies on pulldown_cmark::TagEnd: renames each end event the parser
/// reads; all others map to `Other`.
#[verifier::external_body]
fn md_end_token(tag: CmTagEnd) -> MdToken {
    match tag {
        CmTagEnd::Heading(_) => MdToken::HeadingEnd,
        CmTagEnd::Paragraph => MdToken::ParagraphEnd,
        CmTagEnd::BlockQuote(_) => MdToken::BlockQuoteEnd,
        CmTagEnd::Item => MdToken::ItemEnd,
        CmTagEnd::TableCell => MdToken::TableCellEnd,
        CmTagEnd::Emphasis => MdToken::EmphasisMark,
        CmTagEnd::Strong => MdToken::StrongMark,
        CmTagEnd::Strikethrough => MdToken::StrikeMark,
        CmTagEnd::Link => MdToken::LinkEnd,
        _ => MdToken::Other,
    }
}

/// Relies on pulldown_cmark's start tags, discriminated through their
/// `TagEnd` shape: renames each block or span start the parser reads,
/// pairing block starts with their source slice; all others map to
/// `Other`. A link start keeps its fields only on the full tag, so it is
/// handled in `md_token`.
#[verifier::external_body]
fn md_start_token(source: &str, tag: CmTagEnd, range: core::ops::Range<usize>) -> MdToken {
    let text = slice_of(source, &range);
    match tag {
        CmTagEnd::Heading(level) => MdToken::HeadingStart { level: heading_level_num(level), text },
        CmTagEnd::Paragraph => MdToken::ParagraphStart { text },
        CmTagEnd::BlockQuote(_) => MdToken::BlockQuoteStart { text },
        CmTagEnd::Item => MdToken::ItemStart { text },
        CmTagEnd::TableCell => MdToken::TableCellStart { text },
        CmTagEnd::Emphasis => MdToken::EmphasisMark,
        CmTagEnd::Strong => MdToken::StrongMark,
        CmTagEnd::Strikethrough => MdToken::StrikeMark,
        _ => MdToken::Other,
    }
}

/// Relies on pulldown_cmark::Event: renames each event the parser reads,
/// handing the text of text and code runs through unchanged.
#[verifier::external_body]
fn md_token(source: &str, event: CmEvent<'_>, range: core::ops::Range<usize>) -> MdToken {
    match event {
        CmEvent::Start(CmTag::Link { link_type, dest_url, title, id }) => MdToken::LinkStart {
            link_type: md_link_type(link_type),
            url: dest_url.into_string(),
            title: title.into_string(),
            identifier: id.into_string(),
        },
        CmEvent::Start(tag) => md_start_token(source, tag.to_end(), range),
        CmEvent::End(tag) => md_end_token(tag),
        CmEvent::Text(t) => MdToken::TextRun { text: t.into_string() },
        CmEvent::Code(t) => MdToken::CodeRun { text: t.into_string() },
        _ => MdToken::Other,
    }
}

/// The token stream that the tokenizer yields for a document text. The
/// stream is a function of the text alone, so the name stands for every
/// run on the same text.
pub uninterp spec fn md_tokens_of(source: Seq<char>) -> Seq<MdTokenView>;

/// Relies on pulldown_cmark::Parser (tables and strikethrough enabled) and
/// its offset iterator: the event stream with source ranges depends on the
/// document text alone; its conversion to tokens is `md_tokens_of`.
#[verifier::external_body]
fn md_tokenize(source: &str) -> (r: Vec<MdToken>)
    ensures
        r.deep_view() == md_tokens_of(source@),
{
    let options = pulldown_cmark::Options::ENABLE_TABLES
        | pulldown_cmark::Options::ENABLE_STRIKETHROUGH;
    let mut tokens = Vec::new();
    for (event, range) in pulldown_cmark::Parser::new_ext(source, options).into_offset_iter() {
        tokens.push(md_token(source, event, range));
    }
    tokens
}

/// The stored kind that a native link classification maps to: plain
/// inline links, autolinks and emails are inline; everything resolved
/// through a bracket reference, shortcut or collapsed reference — and a
/// wiki-style bracket link — is a reference.
pub open spec fn kind_of_type(t: MdLinkType) -> LinkKind {
    match t {
        MdLinkType::Inline => LinkKind::Inline,
        MdLinkType::Autolink => LinkKind::Inline,
        MdLinkType::Email => LinkKind::Inline,
        MdLinkType::Reference => LinkKind::Reference,
        MdLinkType::ReferenceUnknown => LinkKind::Reference,
        MdLinkType::Collapsed => LinkKind::Reference,
        MdLinkType::CollapsedUnknown => LinkKind::Reference,
        MdLinkType::Shortcut => LinkKind::Reference,
        MdLinkType::ShortcutUnknown => LinkKind::Reference,
        MdLinkType::WikiLink => LinkKind::Reference,
    }
}

impl LinkKind {
    /// Translates the tokenizer's link classification to the stored kind.
    pub fn from_type(link_type: MdLinkType) -> (r: LinkKind)
        ensures
            r == kind_of_type(link_type),
    {
        match link_type {
            MdLinkType::Inline => LinkKind::Inline,
            MdLinkType::Autolink => LinkKind::Inline,
            MdLinkType::Email => LinkKind::Inline,
            MdLinkType::Reference => LinkKind::Reference,
            MdLinkType::ReferenceUnknown => LinkKind::Reference,
            MdLinkType::Collapsed => LinkKind::Reference,
            MdLinkType::CollapsedUnknown => LinkKind::Reference,
            MdLinkType::Shortcut => LinkKind::Reference,
            MdLinkType::ShortcutUnknown => LinkKind::Reference,
            MdLinkType::WikiLink => LinkKind::Reference,
        }
    }
}

/// The block kinds that can serve as the context of a link.
#[derive(Clone, Copy, Debug, PartialEq, Eq, Structural)]
pub enum BlockKind {
    Heading,
    Paragraph,
    BlockQuote,
    ListItem,
    TableCell,
}

/// The innermost enclosing block: its kind and its already-derived
/// context text.
#[derive(Clone, Debug)]
pub struct ContextSlot {
    pub kind: BlockKind,
    pub text: String,
}

#[verifier::ext_equal]
pub ghost struct ContextView {
    pub kind: BlockKind,
    pub text: Seq<char>,
}

impl View for ContextSlot {
    type V = ContextView;

    open spec fn view(&self) -> ContextView {
        ContextView { kind: self.kind, text: self.text@ }
    }
}

impl DeepView for ContextSlot {
    type V = ContextView;

    open spec fn deep_view(&self) -> ContextView {
        self@
    }
}

/// A link whose start has been seen but whose end has not.
#[derive(Clone, Debug)]
pub struct PendingLink {
    pub link_type: MdLinkType,
    pub url: String,
    pub title: String,
    pub identifier: String,
}

#[verifier::ext_equal]
pub ghost struct PendingView {
    pub link_type: MdLinkType,
    pub url: Seq<char>,
    pub title: Seq<char>,
    pub identifier: Seq<char>,
}

impl View for PendingLink {
    type V = PendingView;

    open spec fn view(&self) -> PendingView {
        PendingView {
            link_type: self.link_type,
            url: self.url@,
            title: self.title@,
            identifier: self.identifier@,
        }
    }
}

impl DeepView for PendingLink {
    type V = PendingView;

    open spec fn deep_view(&self) -> PendingView {
        self@
    }
}

/// What a parse yields: a best-effort title and description plus every
/// link found in the document.
#[derive(Clone, Debug)]
pub struct ParseData {
    pub title: Option<String>,
    pub description: Option<String>,
    pub links: Vec<InputLink>,
}

#[verifier::ext_equal]
pub ghost struct ParseDataView {
    pub title: Option<Seq<char>>,
    pub description: Option<Seq<char>>,
    pub links: Seq<InputLinkView>,
}

impl View for ParseData {
    type V = ParseDataView;

    open spec fn view(&self) -> ParseDataView {
        ParseDataView {
            title: self.title.deep_view(),
            description: self.description.deep_view(),
            links: self.links.deep_view(),
        }
    }
}

impl DeepView for ParseData {
    type V = ParseDataView;

    open spec fn deep_view(&self) -> ParseDataView {
        self@
    }
}

#[verifier::ext_equal]
pub ghost struct ParserStateView {
    pub title: Option<Seq<char>>,
    pub description: Option<Seq<char>>,
    pub context: Option<ContextView>,
    pub pending: Option<PendingView>,
    pub name_buf: Seq<char>,
    pub links: Seq<InputLinkView>,
}

pub open spec fn init_state() -> ParserStateView {
    ParserStateView {
        title: None,
        description: None,
        context: None,
        pending: None,
        name_buf: Seq::empty(),
        links: Seq::empty(),
    }
}

/// The link emitted when a link span closes: the reconstructed display
/// name, the enclosing context as the referrer fragment, and an
/// identifier exactly when the kind is `Reference`.
pub open spec fn emitted_link(st: ParserStateView, p: PendingView) -> InputLinkView {
    InputLinkView {
        target_url: p.url,
        referrer_fragment: match st.context {
            Some(c) => Some(c.text),
            None => None,
        },
        referrer_location: None,
        kind: kind_of_type(p.link_type),
        name: st.name_buf,
        title: p.title,
        identifier: if kind_of_type(p.link_type) == LinkKind::Reference {
            Some(p.identifier)
        } else {
            None
        },
    }
}

/// One transition of the parser: how a single token changes the state.
pub open spec fn step_spec(st: ParserStateView, t: MdTokenView) -> ParserStateView {
    match t {
        MdTokenView::HeadingStart { level, text } => (ParserStateView {
            title: if st.title is None && level == 1 {
                Some(trim_spec(heading_text(text)))
            } else {
                st.title
            },
            context: Some(
                ContextView { kind: BlockKind::Heading, text: strip_eol(heading_text(text)) },
            ),
            ..st
        }),
        MdTokenView::HeadingEnd => (ParserStateView { context: None, ..st }),
        MdTokenView::ParagraphStart { text } => (ParserStateView {
            description: if st.description is None {
                Some(trim_spec(text))
            } else {
                st.description
            },
            context: if st.context is None {
                Some(ContextView { kind: BlockKind::Paragraph, text: strip_eol(text) })
            } else {
                st.context
            },
            ..st
        }),
        MdTokenView::ParagraphEnd => {
            match st.context {
                Some(c) => if c.kind == BlockKind::Paragraph {
                    ParserStateView { context: None, ..st }
                } else {
                    st
                },
                None => st,
            }
        },
        MdTokenView::BlockQuoteStart { text } => (ParserStateView {
            context: Some(
                ContextView {
                    kind: BlockKind::BlockQuote,
                    text: "> "@ + strip_eol(quote_text(text)),
                },
            ),
            ..st
        }),
        MdTokenView::BlockQuoteEnd => (ParserStateView { context: None, ..st }),
        MdTokenView::ItemStart { text } => (ParserStateView {
            context: Some(
                ContextView { kind: BlockKind::ListItem, text: strip_eol(item_text(text)) },
            ),
            ..st
        }),
        MdTokenView::ItemEnd => (ParserStateView { context: None, ..st }),
        MdTokenView::TableCellStart { text } => (ParserStateView {
            context: Some(ContextView { kind: BlockKind::TableCell, text: strip_eol(text) }),
            ..st
        }),
        MdTokenView::TableCellEnd => (ParserStateView { context: None, ..st }),
        MdTokenView::LinkStart { link_type, url, title, identifier } => (ParserStateView {
            pending: Some(PendingView { link_type, url, title, identifier }),
            name_buf: Seq::empty(),
            ..st
        }),
        MdTokenView::LinkEnd => {
            match st.pending {
                Some(p) => (ParserStateView {
                    pending: None,
                    name_buf: Seq::empty(),
                    links: st.links.push(emitted_link(st, p)),
                    ..st
                }),
                None => st,
            }
        },
        MdTokenView::EmphasisMark => {
            if st.pending is Some {
                ParserStateView { name_buf: st.name_buf + "_"@, ..st }
            } else {
                st
            }
        },
        MdTokenView::StrongMark => {
            if st.pending is Some {
                ParserStateView { name_buf: st.name_buf + "**"@, ..st }
            } else {
                st
            }
        },
        MdTokenView::StrikeMark => {
            if st.pending is Some {
                ParserStateView { name_buf: st.name_buf + "~~"@, ..st }
            } else {
                st
            }
        },
        MdTokenView::TextRun { text } => {
            if st.pending is Some {
                ParserStateView { name_buf: st.name_buf + text, ..st }
            } else {
                st
            }
        },
        MdTokenView::CodeRun { text } => {
            if st.pending is Some {
                ParserStateView { name_buf: st.name_buf + "`"@ + text + "`"@, ..st }
            } else {
                st
            }
        },
        MdTokenView::Other => st,
    }
}

/// The state after running the parser over a whole token stream.
pub open spec fn run_spec(ts: Seq<MdTokenView>) -> ParserStateView
    decreases ts.len(),
{
    if ts.len() == 0 {
        init_state()
    } else {
        step_spec(run_spec(ts.drop_last()), ts.last())
    }
}

pub open spec fn finish(st: ParserStateView) -> ParseDataView {
    ParseDataView { title: st.title, description: st.description, links: st.links }
}

/// What parsing a document text denotes.
pub open spec fn parse_spec(source: Seq<char>) -> ParseDataView {
    finish(run_spec(md_tokens_of(source)))
}

struct ParserState {
    title: Option<String>,
    description: Option<String>,
    context: Option<ContextSlot>,
    pending: Option<PendingLink>,
    name_buf: String,
    links: Vec<InputLink>,
}

impl View for ParserState {
    type V = ParserStateView;

    closed spec fn view(&self) -> ParserStateView {
        ParserStateView {
            title: self.title.deep_view(),
            description: self.description.deep_view(),
            context: self.context.deep_view(),
            pending: self.pending.deep_view(),
            name_buf: self.name_buf@,
            links: self.links.deep_view(),
        }
    }
}

fn step(st: &mut ParserState, t: &MdToken)
    ensures
        final(st)@ == step_spec(old(st)@, t@),
{
    match t {
        MdToken::HeadingStart { level, text } => {
            if st.title.is_none() && *level == 1 {
                let marked = heading_text_exec(text.as_str());
                st.title = Some(trim(marked.as_str()));
            }
            let marked = heading_text_exec(text.as_str());
            st.context = Some(
                ContextSlot { kind: BlockKind::Heading, text: strip_eol_exec(marked.as_str()) },
            );
        },
        MdToken::HeadingEnd => {
            st.context = None;
        },
        MdToken::ParagraphStart { text } => {
            if st.description.is_none() {
                st.description = Some(trim(text.as_str()));
            }
            if st.context.is_none() {
                st.context = Some(
                    ContextSlot { kind: BlockKind::Paragraph, text: strip_eol_exec(text.as_str()) },
                );
            }
        },
        MdToken::ParagraphEnd => {
            let clear = match &st.context {
                Some(c) => c.kind == BlockKind::Paragraph,
                None => false,
            };
            if clear {
                st.context = None;
            }
        },
        MdToken::BlockQuoteStart { text } => {
            let mut quoted = String::from_str("> ");
            let marked = quote_text_exec(text.as_str());
            let stripped = strip_eol_exec(marked.as_str());
            quoted.append(stripped.as_str());
            st.context = Some(ContextSlot { kind: BlockKind::BlockQuote, text: quoted });
        },
        MdToken::BlockQuoteEnd => {
            st.context = None;
        },
        MdToken::ItemStart { text } => {
            let marked = item_text_exec(text.as_str());
            st.context = Some(
                ContextSlot { kind: BlockKind::ListItem, text: strip_eol_exec(marked.as_str()) },
            );
        },
        MdToken::ItemEnd => {
            st.context = None;
        },
        MdToken::TableCellStart { text } => {
            st.context = Some(
                ContextSlot { kind: BlockKind::TableCell, text: strip_eol_exec(text.as_str()) },
            );
        },
        MdToken::TableCellEnd => {
            st.context = None;
        },
        MdToken::LinkStart { link_type, url, title, identifier } => {
            st.pending = Some(
                PendingLink {
                    link_type: *link_type,
                    url: url.clone(),
                    title: title.clone(),
                    identifier: identifier.clone(),
                },
            );
            st.name_buf = String::new();
        },
        MdToken::LinkEnd => {
            let taken = st.pending.take();
            match taken {
                Some(p) => {
                    let kind = LinkKind::from_type(p.link_type);
                    let identifier = if kind == LinkKind::Reference {
                        Some(p.identifier)
                    } else {
                        None
                    };
                    let referrer_fragment = match &st.context {
                        Some(c) => Some(c.text.clone()),
                        None => None,
                    };
                    let name = st.name_buf.clone();
                    st.name_buf = String::new();
                    let link = InputLink {
                        target_url: p.url,
                        referrer_fragment,
                        referrer_location: None,
                        kind,
                        name,
                        title: p.title,
                        identifier,
                    };
                    st.links.push(link);
                    proof {
                        assert(st.links.deep_view() =~= old(st).links.deep_view().push(
                            emitted_link(old(st)@, old(st)@.pending->Some_0),
                        ));
                    }
                },
                None => {},
            }
        },
        MdToken::EmphasisMark => {
            if st.pending.is_some() {
                st.name_buf.append("_");
            }
        },
        MdToken::StrongMark => {
            if st.pending.is_some() {
                st.name_buf.append("**");
            }
        },
        MdToken::StrikeMark => {
            if st.pending.is_some() {
                st.name_buf.append("~~");
            }
        },
        MdToken::TextRun { text } => {
            if st.pending.is_some() {
                st.name_buf.append(text.as_str());
            }
        },
        MdToken::CodeRun { text } => {
            if st.pending.is_some() {
                st.name_buf.append("`");
                st.name_buf.append(text.as_str());
                st.name_buf.append("`");
            }
        },
        MdToken::Other => {},
    }
}

fn run_tokens(tokens: &Vec<MdToken>) -> (r: ParseData)
    ensures
        r@ == finish(run_spec(tokens.deep_view())),
{
    let mut st = ParserState {
        title: None,
        description: None,
        context: None,
        pending: None,
        name_buf: String::new(),
        links: Vec::new(),
    };
    let n = tokens.len();
    let mut i: usize = 0;
    proof {
        assert(tokens.deep_view().take(0) =~= Seq::<MdTokenView>::empty());
        assert(st@.links =~= Seq::<InputLinkView>::empty());
        assert(st@ == init_state());
    }
    while i < n
        invariant
            0 <= i <= n,
            n == tokens.len(),
            st@ == run_spec(tokens.deep_view().take(i as int)),
        decreases n - i,
    {
        proof {
            assert(tokens.deep_view().take(i as int + 1).drop_last() =~= tokens.deep_view().take(
                i as int,
            ));
            assert(tokens.deep_view().take(i as int + 1).last() == tokens.deep_view()[i as int]);
        }
        step(&mut st, &tokens[i]);
        i = i + 1;
    }
    proof {
        assert(tokens.deep_view().take(n as int) =~= tokens.deep_view());
    }
    ParseData { title: st.title, description: st.description, links: st.links }
}

/// Parses a document: returns its links, each carrying the context text
/// of the innermost enclosing block, plus the first level-one heading as
/// the title and the first paragraph as the description.
pub fn parse(source: &str) -> (r: ParseData)
    ensures
        r@ == parse_spec(source@),
{
    let tokens = md_tokenize(source);
    run_tokens(&tokens)
}

/// Law: parsing is deterministic — the result is a function of the
/// document text alone, so equal texts denote equal titles, descriptions
/// and link lists.
pub proof fn lemma_parse_deterministic(a: Seq<char>, b: Seq<char>)
    requires
        a == b,
    ensures
        parse_spec(a) == parse_spec(b),
{
}

/// An identifier is present exactly on reference links.
pub open spec fn identifier_matches_kind(l: InputLinkView) -> bool {
    &&& (l.kind == LinkKind::Reference <==> l.identifier is Some)
    &&& (l.kind == LinkKind::Inline <==> l.identifier is None)
}

proof fn lemma_run_identifier(ts: Seq<MdTokenView>)
    ensures
        forall|i: int|
            0 <= i < run_spec(ts).links.len() ==> identifier_matches_kind(
                #[trigger] run_spec(ts).links[i],
            ),
    decreases ts.len(),
{
    if ts.len() > 0 {
        lemma_run_identifier(ts.drop_last());
    }
}

/// Law: every reference-kind link produced by the parser carries an
/// identifier (possibly empty), and every inline-kind link carries none.
pub proof fn lemma_reference_links_have_identifier(source: Seq<char>)
    ensures
        forall|i: int|
            0 <= i < parse_spec(source).links.len() ==> identifier_matches_kind(
                #[trigger] parse_spec(source).links[i],
            ),
{
    lemma_run_identifier(md_tokens_of(source));
}

/// The text used for a field with a front-matter value, a body-derived
/// value, or neither: front matter wins, then the body, then empty.
pub open spec fn chosen_text(meta: Option<Seq<char>>, body: Option<Seq<char>>) -> Seq<char> {
    match meta {
        Some(t) => t,
        None => match body {
            Some(t) => t,
            None => Seq::empty(),
        },
    }
}

/// The tag inputs a front-matter tag list denotes: each name wrapped
/// bare, with no fragment and no location.
pub open spec fn tags_input_of(tags: Option<Seq<Seq<char>>>) -> Option<
    Seq<crate::data::InputTagView>,
> {
    match tags {
        Some(names) => Some(
            names.map_values(|n: Seq<char>| crate::data::input_tag_of_name(n)),
        ),
        None => None,
    }
}

/// Reads a document into an ingestion input: parses its content into
/// links, title and description, reads its front matter, and lets
/// front-matter title, description and tags take precedence over
/// body-derived ones. The body text itself is carried along for the
/// search index.
pub fn read(url: &str, content: &str) -> (r: crate::data::InputResource)
    ensures
        r@.url == url@,
        r@.cid is None,
        r@.icon is None,
        r@.image is None,
        r@.links == Some(parse_spec(content@).links),
        r@.content == Some(content@),
        r@.title == chosen_text(
            crate::frontmatter::metadata_spec(content@).title,
            parse_spec(content@).title,
        ),
        r@.description == chosen_text(
            crate::frontmatter::metadata_spec(content@).description,
            parse_spec(content@).description,
        ),
        r@.tags == tags_input_of(crate::frontmatter::metadata_spec(content@).tags),
{
    let metadata = crate::frontmatter::read_metadata(content);
    let data = parse(content);
    let ParseData { title: body_title, description: body_description, links } = data;
    let title = match metadata.title {
        Some(t) => t,
        None => match body_title {
            Some(t) => t,
            None => String::new(),
        },
    };
    let description = match metadata.description {
        Some(d) => d,
        None => match body_description {
            Some(d) => d,
            None => String::new(),
        },
    };
    let tags = match metadata.tags {
        Some(names) => {
            let wrapped = crate::data::tags_to_input(names);
            proof {
                assert(Some(wrapped.deep_view()) =~~= tags_input_of(
                    crate::frontmatter::metadata_spec(content@).tags,
                ));
            }
            Some(wrapped)
        },
        None => None,
    };
    crate::data::InputResource {
        url: url.to_owned(),
        cid: None,
        title,
        description,
        links: Some(links),
        tags,
        icon: None,
        image: None,
        content: Some(content.to_owned()),
    }
}

} // verus!
