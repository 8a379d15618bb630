//! Markup tokens and the classification of their attributes into hyperlink
//! references and embedded resources.

use html5ever::tendril::StrTendril;
use html5ever::tokenizer::{
    BufferQueue, EndTag, StartTag, Token, TokenSink, TokenSinkResult, Tokenizer, TokenizerOpts,
};
use vstd::prelude::*;
use vstd::string::StringSliceAdditionalSpecFns;
use vstd::utf8::{encode_utf8, encode_utf8_decode_utf8};

verus! {

/// Whether a tag opens or closes an element.
#[derive(Clone, Copy, Debug, PartialEq, Eq, Structural)]
pub enum TagKind {
    Open,
    Close,
}

/// One attribute of a tag: its local name and its value.
#[derive(Clone, Debug, PartialEq, Eq)]
pub struct Attribute {
    pub name: String,
    pub value: String,
}

/// The mathematical content of an [`Attribute`].
pub struct AttributeView {
    pub name: Seq<char>,
    pub value: Seq<char>,
}

impl DeepView for Attribute {
    type V = AttributeView;

    open spec fn deep_view(&self) -> AttributeView {
        AttributeView { name: self.name@, value: self.value@ }
    }
}

/// A tag with its attributes in document order.
#[derive(Clone, Debug, PartialEq, Eq)]
pub struct Tag {
    pub kind: TagKind,
    pub attrs: Vec<Attribute>,
}

/// The mathematical content of a [`Tag`].
pub struct TagView {
    pub kind: TagKind,
    pub attrs: Seq<AttributeView>,
}

impl DeepView for Tag {
    type V = TagView;

    open spec fn deep_view(&self) -> TagView {
        TagView { kind: self.kind, attrs: self.attrs.deep_view() }
    }
}

/// One event of the token stream of a document. Only tags carry what the
/// classification reads.
#[derive(Clone, Debug, PartialEq, Eq)]
pub enum MarkupToken {
    Doctype,
    Tag(Tag),
    Comment,
    Characters,
    NullCharacter,
    EndOfInput,
    ParseError,
}

/// The mathematical content of a [`MarkupToken`].
pub enum MarkupTokenView {
    Doctype,
    Tag(TagView),
    Comment,
    Characters,
    NullCharacter,
    EndOfInput,
    ParseError,
}

impl DeepView for MarkupToken {
    type V = MarkupTokenView;

    open spec fn deep_view(&self) -> MarkupTokenView {
        match self {
            MarkupToken::Doctype => MarkupTokenView::Doctype,
            MarkupToken::Tag(tag) => MarkupTokenView::Tag(tag.deep_view()),
            MarkupToken::Comment => MarkupTokenView::Comment,
            MarkupToken::Characters => MarkupTokenView::Characters,
            MarkupToken::NullCharacter => MarkupTokenView::NullCharacter,
            MarkupToken::EndOfInput => MarkupTokenView::EndOfInput,
            MarkupToken::ParseError => MarkupTokenView::ParseError,
        }
    }
}

/// What the value of an attribute is taken for.
#[derive(Clone, Copy, Debug, PartialEq, Eq, Structural)]
pub enum LinkKind {
    /// A hyperlink target.
    Reference,
    /// The address of an embedded resource.
    Resource,
}

/// The classification table: the value of an `href` attribute is a
/// reference, that of a `src` attribute a resource, on whatever tag they
/// stand. No other attribute counts.
pub open spec fn classification(name: Seq<char>) -> Option<LinkKind> {
    if name == "href"@ {
        Some(LinkKind::Reference)
    } else if name == "src"@ {
        Some(LinkKind::Resource)
    } else {
        None
    }
}

/// The values of the attributes of one kind, in order.
pub open spec fn values_of(attrs: Seq<AttributeView>, kind: LinkKind) -> Seq<Seq<char>> {
    attrs.filter_map(
        |a: AttributeView|
            if classification(a.name) == Some(kind) {
                Some(a.value)
            } else {
                None
            },
    )
}

/// What one token contributes to the links of one kind: the values of the
/// attributes of an opening tag that are of that kind, nothing for any
/// other token.
pub open spec fn token_links(token: MarkupTokenView, kind: LinkKind) -> Seq<Seq<char>> {
    match token {
        MarkupTokenView::Tag(tag) if tag.kind == TagKind::Open => values_of(tag.attrs, kind),
        _ => Seq::empty(),
    }
}

/// The links of one kind in a token stream, in document order and without
/// deduplication.
pub open spec fn stream_links(tokens: Seq<MarkupTokenView>, kind: LinkKind) -> Seq<Seq<char>> {
    tokens.map_values(|t: MarkupTokenView| token_links(t, kind)).flatten()
}

/// The links of a stream are those of its first part followed by those of
/// its second part: document order is kept.
pub proof fn lemma_stream_links_concat(
    first: Seq<MarkupTokenView>,
    second: Seq<MarkupTokenView>,
    kind: LinkKind,
)
    ensures
        stream_links(first + second, kind) == stream_links(first, kind) + stream_links(
            second,
            kind,
        ),
{
    let per_token = |t: MarkupTokenView| token_links(t, kind);
    assert((first + second).map_values(per_token) =~= first.map_values(per_token)
        + second.map_values(per_token));
    vstd::seq_lib::lemma_flatten_concat(first.map_values(per_token), second.map_values(per_token));
}

/// Whether two strings hold the same text.
fn same_text(a: &str, b: &str) -> (same: bool)
    ensures
        same == (a@ == b@),
{
    let left = a.as_bytes();
    let right = b.as_bytes();
    proof {
        encode_utf8_decode_utf8(a@);
        encode_utf8_decode_utf8(b@);
    }
    if left.len() != right.len() {
        return false;
    }
    for i in 0..left.len()
        invariant
            left@.len() == right@.len(),
            left@ == encode_utf8(a@),
            right@ == encode_utf8(b@),
            forall|j: int| 0 <= j < i ==> left@[j] == right@[j],
    {
        if left[i] != right[i] {
            return false;
        }
    }
    assert(left@ =~= right@);
    true
}

/// Looks an attribute name up in the classification table.
pub fn classify(name: &str) -> (kind: Option<LinkKind>)
    ensures
        kind == classification(name@),
{
    if same_text(name, "href") {
        Some(LinkKind::Reference)
    } else if same_text(name, "src") {
        Some(LinkKind::Resource)
    } else {
        None
    }
}

/// Collects the link targets of a token stream: the values of `href`
/// attributes as references, those of `src` attributes as resources.
#[derive(Clone, Debug, PartialEq, Eq)]
pub struct UrlTokenParser {
    pub in_char_run: bool,
    pub resources: Vec<String>,
    pub references: Vec<String>,
}

impl UrlTokenParser {
    /// A parser that has seen no token.
    pub fn new() -> (parser: UrlTokenParser)
        ensures
            !parser.in_char_run,
            parser.references@.len() == 0,
            parser.resources@.len() == 0,
    {
        UrlTokenParser { in_char_run: false, resources: Vec::new(), references: Vec::new() }
    }

    /// Takes the attributes of an opening tag: each value is appended to
    /// the list that the classification table names for it.
    fn take_attributes(&mut self, attrs: &Vec<Attribute>)
        ensures
            final(self).references.deep_view() == old(self).references.deep_view() + values_of(
                attrs.deep_view(),
                LinkKind::Reference,
            ),
            final(self).resources.deep_view() == old(self).resources.deep_view() + values_of(
                attrs.deep_view(),
                LinkKind::Resource,
            ),
            final(self).in_char_run == old(self).in_char_run,
    {
        let ghost all = attrs.deep_view();
        let ghost hrefs = |a: AttributeView|
            if classification(a.name) == Some(LinkKind::Reference) {
                Some(a.value)
            } else {
                None
            };
        let ghost srcs = |a: AttributeView|
            if classification(a.name) == Some(LinkKind::Resource) {
                Some(a.value)
            } else {
                None
            };
        for i in 0..attrs.len()
            invariant
                all == attrs.deep_view(),
                hrefs == (|a: AttributeView|
                    if classification(a.name) == Some(LinkKind::Reference) {
                        Some(a.value)
                    } else {
                        None
                    }),
                srcs == (|a: AttributeView|
                    if classification(a.name) == Some(LinkKind::Resource) {
                        Some(a.value)
                    } else {
                        None
                    }),
                self.references.deep_view() == old(self).references.deep_view() + all.take(
                    i as int,
                ).filter_map(hrefs),
                self.resources.deep_view() == old(self).resources.deep_view() + all.take(
                    i as int,
                ).filter_map(srcs),
                self.in_char_run == old(self).in_char_run,
        {
            let ghost references = self.references.deep_view();
            let ghost resources = self.resources.deep_view();
            proof {
                all.lemma_filter_map_take_succ(hrefs, i as int);
                all.lemma_filter_map_take_succ(srcs, i as int);
                assert(all[i as int] == attrs[i as int].deep_view());
            }
            match classify(attrs[i].name.as_str()) {
                Some(LinkKind::Reference) => {
                    self.references.push(attrs[i].value.clone());
                    assert(self.references.deep_view() =~= references + seq![all[i as int].value]);
                },
                Some(LinkKind::Resource) => {
                    self.resources.push(attrs[i].value.clone());
                    assert(self.resources.deep_view() =~= resources + seq![all[i as int].value]);
                },
                None => {},
            }
        }
        assert(all.take(attrs.len() as int) == all);
    }

    /// Takes one token of the stream: each `href` value of an opening tag
    /// is appended to the references, each `src` value to the resources.
    /// Every other token leaves the parser as it was.
    pub fn process_token(&mut self, token: &MarkupToken, _line_number: u64)
        ensures
            final(self).references.deep_view() == old(self).references.deep_view() + token_links(
                token.deep_view(),
                LinkKind::Reference,
            ),
            final(self).resources.deep_view() == old(self).resources.deep_view() + token_links(
                token.deep_view(),
                LinkKind::Resource,
            ),
            final(self).in_char_run == old(self).in_char_run,
    {
        match token {
            MarkupToken::Tag(tag) => {
                match tag.kind {
                    TagKind::Open => {
                        self.take_attributes(&tag.attrs);
                    },
                    TagKind::Close => {},
                }
            },
            _ => {},
        }
    }
}

/// The longest text, in bytes, that is handed to the tokenizer. The
/// tokenizer keeps its strings in buffers with 32-bit lengths and may
/// replace one byte of input by three of output, so the bound leaves room
/// for that.
pub const MAX_MARKUP_BYTES: usize = 0x2000_0000;

/// The tokens that html5ever's tokenizer emits for `body`: the body is fed
/// as one chunk to a tokenizer with default options whose sink always
/// asks it to continue, and the input is then ended.
pub uninterp spec fn markup_tokens(body: Seq<char>) -> Seq<MarkupTokenView>;

/// `html5ever::tokenizer::Token`, of which the verifier sees nothing.
#[verifier::external_type_specification]
#[verifier::external_body]
pub struct ExToken(Token);

/// `html5ever::tokenizer::TokenSinkResult`, of which the verifier sees
/// nothing.
#[verifier::external_type_specification]
#[verifier::external_body]
#[verifier::reject_recursive_types(Handle)]
pub struct ExTokenSinkResult<Handle>(TokenSinkResult<Handle>);

/// The sink that records the tokenizer's output.
struct TokenLog {
    tokens: Vec<MarkupToken>,
}

impl TokenSink for TokenLog {
    type Handle = ();

    /// Called by html5ever's tokenizer for each token. Trusted: it appends
    /// the token to the log, keeping for a tag its kind and each
    /// attribute's local name and value, and always answers `Continue`.
    #[verifier::external_body]
    fn process_token(&mut self, token: Token, _line_number: u64) -> TokenSinkResult<()> {
        self.tokens.push(match token {
            Token::DoctypeToken(_) => MarkupToken::Doctype,
            Token::TagToken(tag) => MarkupToken::Tag(Tag {
                kind: match tag.kind { StartTag => TagKind::Open, EndTag => TagKind::Close },
                attrs: tag.attrs.into_iter().map(|a| Attribute { name: a.name.local.to_string(), value: a.value.to_string() }).collect(),
            }),
            Token::CommentToken(_) => MarkupToken::Comment,
            Token::CharacterTokens(_) => MarkupToken::Characters,
            Token::NullCharacterToken => MarkupToken::NullCharacter,
            Token::EOFToken => MarkupToken::EndOfInput,
            Token::ParseError(_) => MarkupToken::ParseError,
        });
        TokenSinkResult::Continue
    }
}

/// Runs html5ever's `Tokenizer` (`new`, `feed`, `end`) over `body` with a
/// [`TokenLog`] as its sink. Trusted: the tokenizer is deterministic, so
/// the recorded tokens are the value that `markup_tokens` names. The bound
/// keeps every buffer of the tokenizer within its 32-bit length.
#[verifier::external_body]
fn tokenize(body: &str) -> (tokens: Vec<MarkupToken>)
    requires
        body.spec_bytes().len() <= MAX_MARKUP_BYTES,
    ensures
        tokens.deep_view() == markup_tokens(body@),
{
    let mut input = BufferQueue::new();
    input.push_back(StrTendril::from_slice(body));
    let mut tokenizer = Tokenizer::new(TokenLog { tokens: Vec::new() }, TokenizerOpts::default());
    let _ = tokenizer.feed(&mut input);
    tokenizer.end();
    tokenizer.sink.tokens
}

/// Classifies a whole token stream.
pub fn collect_links(tokens: &Vec<MarkupToken>) -> (parser: UrlTokenParser)
    ensures
        parser.references.deep_view() == stream_links(tokens.deep_view(), LinkKind::Reference),
        parser.resources.deep_view() == stream_links(tokens.deep_view(), LinkKind::Resource),
        !parser.in_char_run,
{
    let mut parser = UrlTokenParser::new();
    let ghost all = tokens.deep_view();
    let ghost hrefs = |t: MarkupTokenView| token_links(t, LinkKind::Reference);
    let ghost srcs = |t: MarkupTokenView| token_links(t, LinkKind::Resource);
    for i in 0..tokens.len()
        invariant
            all == tokens.deep_view(),
            hrefs == (|t: MarkupTokenView| token_links(t, LinkKind::Reference)),
            srcs == (|t: MarkupTokenView| token_links(t, LinkKind::Resource)),
            parser.references.deep_view() == all.take(i as int).map_values(hrefs).flatten(),
            parser.resources.deep_view() == all.take(i as int).map_values(srcs).flatten(),
            !parser.in_char_run,
    {
        proof {
            let seen = all.take(i as int);
            assert(all.take(i + 1) =~= seen.push(all[i as int]));
            assert(seen.push(all[i as int]).map_values(hrefs) =~= seen.map_values(hrefs).push(
                hrefs(all[i as int]),
            ));
            assert(seen.push(all[i as int]).map_values(srcs) =~= seen.map_values(srcs).push(
                srcs(all[i as int]),
            ));
            seen.map_values(hrefs).lemma_flatten_push(hrefs(all[i as int]));
            seen.map_values(srcs).lemma_flatten_push(srcs(all[i as int]));
            assert(all[i as int] == tokens[i as int].deep_view());
        }
        parser.process_token(&tokens[i], 0);
    }
    assert(all.take(tokens.len() as int) == all);
    parser
}

/// Tokenizes `body` and classifies its tokens. `None` where the body is
/// longer than [`MAX_MARKUP_BYTES`].
pub fn extract(body: &str) -> (links: Option<UrlTokenParser>)
    ensures
        links is Some <==> body.spec_bytes().len() <= MAX_MARKUP_BYTES,
        links matches Some(parser) ==> {
            &&& parser.references.deep_view() == stream_links(
                markup_tokens(body@),
                LinkKind::Reference,
            )
            &&& parser.resources.deep_view() == stream_links(
                markup_tokens(body@),
                LinkKind::Resource,
            )
            &&& !parser.in_char_run
        },
{
    if body.as_bytes().len() > MAX_MARKUP_BYTES {
        return None;
    }
    let tokens = tokenize(body);
    Some(collect_links(&tokens))
}

} // verus!
