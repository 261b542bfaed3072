use vstd::prelude::*;

use crate::Span;
use crate::tokens::{TokenType, TokenTypeV, TokenV, copy_token, lemma_tokens_view_index};
use crate::tokens::punct::TokenPunct;

use super::{Parse, ParseError, ParseErrorV, ParseResult, Spanned, parsed, result_view, through_cursor, tok_at, unexpected};
use super::stream::{ParseStream, Parser, TokenCursor};

verus! {

/// What the parser of the punctuation `kind` (named `name`) does at the token `t`,
/// the cursor having moved `m`.
pub open spec fn punct_outcome(kind: TokenPunct, name: Seq<char>, t: TokenV, m: nat) -> (Result<Span, ParseErrorV>, nat) {
    if t.content == TokenTypeV::Punct(kind) {
        (Ok(t.span), m + 1)
    } else {
        (unexpected(name, t), m)
    }
}

/// The token punctuation that a punctuation type stands for.
pub trait PunctKind: Sized + View<V = Span> {
    spec fn kind_spec() -> TokenPunct;

    spec fn name_spec() -> Seq<char>;

    /// The token punctuation it stands for.
    fn kind() -> (k: TokenPunct)
        ensures
            k == Self::kind_spec(),
    ;

    /// Its name, as parse errors report it.
    fn name() -> (s: &'static str)
        ensures
            s@ == Self::name_spec(),
    ;

    fn new(span: Span) -> (p: Self)
        ensures
            p@ == span,
    ;
}

/// A punctuation token; its value is the span it was read from.
pub trait Punct: Parse + PunctKind {
    /// Parsing takes the punctuation token when it is there, and nothing else.
    proof fn lemma_parse_spec(ts: Seq<TokenV>, eof: TokenV)
        ensures
            Self::parse_spec(ts, eof) == through_cursor(
                punct_outcome(Self::kind_spec(), Self::name_spec(), tok_at(ts, eof, 0), 0),
            ),
    ;
}

/// Reads the punctuation `P` at the cursor.
pub struct PunctParser<P>(std::marker::PhantomData<P>);

impl<P: PunctKind> Parser<P> for PunctParser<P> {
    open spec fn outcome(&self, ts: Seq<TokenV>, eof: TokenV, moved: nat) -> (Result<Span, ParseErrorV>, nat) {
        punct_outcome(P::kind_spec(), P::name_spec(), tok_at(ts, eof, moved as int), moved)
    }

    fn parse(self, cursor: &mut TokenCursor) -> (r: ParseResult<P>) {
        proof {
            lemma_tokens_view_index(cursor.stream().tokens(), cursor.moved() as int);
            cursor.stream().lemma_len_bound();
        }
        let token = copy_token(cursor.current());
        let matched = match &token.content {
            TokenType::Punct(punct) => *punct == P::kind(),
            _ => false,
        };
        if matched {
            cursor.advance();
            Ok(P::new(token.span))
        } else {
            Err(ParseError::UnexpectedToken { expected: P::name(), got: token })
        }
    }
}

/// Parses the punctuation `P` at the front of the stream.
pub fn parse_punct<P: PunctKind>(stream: &mut ParseStream) -> (r: ParseResult<P>)
    requires
        old(stream).wf(),
    ensures
        final(stream).wf(),
        parsed(
            *old(stream),
            *final(stream),
            result_view(r),
            through_cursor(punct_outcome(P::kind_spec(), P::name_spec(), tok_at(old(stream)@.0, old(stream)@.1, 0), 0)),
        ),
{
    stream.parse_with(PunctParser::<P>(std::marker::PhantomData))
}

/// Whether the punctuation `P` is at the front of the stream.
pub fn could_parse_punct<P: PunctKind>(stream: &mut ParseStream) -> (b: bool)
    ensures
        *final(stream) == *old(stream),
        b == (tok_at(old(stream)@.0, old(stream)@.1, 0).content == TokenTypeV::Punct(P::kind_spec())),
{
    match &stream.current().content {
        TokenType::Punct(punct) => *punct == P::kind(),
        _ => false,
    }
}

/// The punctuation `+`.
#[derive(Debug, Clone, PartialEq, Eq)]
pub struct Plus(Span);

impl View for Plus {
    type V = Span;

    closed spec fn view(&self) -> Span {
        self.0
    }
}

impl Spanned for Plus {
    open spec fn has_span(&self) -> bool {
        true
    }

    open spec fn span_of(&self) -> Span {
        self@
    }

    fn span(&self) -> (s: Span) {
        self.0
    }
}

impl Parse for Plus {
    open spec fn parse_spec(ts: Seq<TokenV>, eof: TokenV) -> (Result<Span, ParseErrorV>, nat) {
        through_cursor(punct_outcome(TokenPunct::Plus, "Plus"@, tok_at(ts, eof, 0), 0))
    }

    open spec fn could_parse_spec(ts: Seq<TokenV>, eof: TokenV) -> bool {
        tok_at(ts, eof, 0).content == TokenTypeV::Punct(TokenPunct::Plus)
    }

    fn parse(stream: &mut ParseStream) -> (r: ParseResult<Self>) {
        parse_punct::<Self>(stream)
    }

    fn could_parse(stream: &mut ParseStream) -> (b: bool) {
        could_parse_punct::<Self>(stream)
    }
}

impl PunctKind for Plus {
    open spec fn kind_spec() -> TokenPunct {
        TokenPunct::Plus
    }

    open spec fn name_spec() -> Seq<char> {
        "Plus"@
    }

    fn kind() -> (k: TokenPunct) {
        TokenPunct::Plus
    }

    fn name() -> (s: &'static str) {
        "Plus"
    }

    fn new(span: Span) -> (p: Self) {
        Plus(span)
    }
}

impl Punct for Plus {
    proof fn lemma_parse_spec(ts: Seq<TokenV>, eof: TokenV) {
    }
}

/// The punctuation `-`.
#[derive(Debug, Clone, PartialEq, Eq)]
pub struct Minus(Span);

impl View for Minus {
    type V = Span;

    closed spec fn view(&self) -> Span {
        self.0
    }
}

impl Spanned for Minus {
    open spec fn has_span(&self) -> bool {
        true
    }

    open spec fn span_of(&self) -> Span {
        self@
    }

    fn span(&self) -> (s: Span) {
        self.0
    }
}

impl Parse for Minus {
    open spec fn parse_spec(ts: Seq<TokenV>, eof: TokenV) -> (Result<Span, ParseErrorV>, nat) {
        through_cursor(punct_outcome(TokenPunct::Minus, "Minus"@, tok_at(ts, eof, 0), 0))
    }

    open spec fn could_parse_spec(ts: Seq<TokenV>, eof: TokenV) -> bool {
        tok_at(ts, eof, 0).content == TokenTypeV::Punct(TokenPunct::Minus)
    }

    fn parse(stream: &mut ParseStream) -> (r: ParseResult<Self>) {
        parse_punct::<Self>(stream)
    }

    fn could_parse(stream: &mut ParseStream) -> (b: bool) {
        could_parse_punct::<Self>(stream)
    }
}

impl PunctKind for Minus {
    open spec fn kind_spec() -> TokenPunct {
        TokenPunct::Minus
    }

    open spec fn name_spec() -> Seq<char> {
        "Minus"@
    }

    fn kind() -> (k: TokenPunct) {
        TokenPunct::Minus
    }

    fn name() -> (s: &'static str) {
        "Minus"
    }

    fn new(span: Span) -> (p: Self) {
        Minus(span)
    }
}

impl Punct for Minus {
    proof fn lemma_parse_spec(ts: Seq<TokenV>, eof: TokenV) {
    }
}

/// The punctuation `*`.
#[derive(Debug, Clone, PartialEq, Eq)]
pub struct Star(Span);

impl View for Star {
    type V = Span;

    closed spec fn view(&self) -> Span {
        self.0
    }
}

impl Spanned for Star {
    open spec fn has_span(&self) -> bool {
        true
    }

    open spec fn span_of(&self) -> Span {
        self@
    }

    fn span(&self) -> (s: Span) {
        self.0
    }
}

impl Parse for Star {
    open spec fn parse_spec(ts: Seq<TokenV>, eof: TokenV) -> (Result<Span, ParseErrorV>, nat) {
        through_cursor(punct_outcome(TokenPunct::Star, "Star"@, tok_at(ts, eof, 0), 0))
    }

    open spec fn could_parse_spec(ts: Seq<TokenV>, eof: TokenV) -> bool {
        tok_at(ts, eof, 0).content == TokenTypeV::Punct(TokenPunct::Star)
    }

    fn parse(stream: &mut ParseStream) -> (r: ParseResult<Self>) {
        parse_punct::<Self>(stream)
    }

    fn could_parse(stream: &mut ParseStream) -> (b: bool) {
        could_parse_punct::<Self>(stream)
    }
}

impl PunctKind for Star {
    open spec fn kind_spec() -> TokenPunct {
        TokenPunct::Star
    }

    open spec fn name_spec() -> Seq<char> {
        "Star"@
    }

    fn kind() -> (k: TokenPunct) {
        TokenPunct::Star
    }

    fn name() -> (s: &'static str) {
        "Star"
    }

    fn new(span: Span) -> (p: Self) {
        Star(span)
    }
}

impl Punct for Star {
    proof fn lemma_parse_spec(ts: Seq<TokenV>, eof: TokenV) {
    }
}

/// The punctuation `/`.
#[derive(Debug, Clone, PartialEq, Eq)]
pub struct Slash(Span);

impl View for Slash {
    type V = Span;

    closed spec fn view(&self) -> Span {
        self.0
    }
}

impl Spanned for Slash {
    open spec fn has_span(&self) -> bool {
        true
    }

    open spec fn span_of(&self) -> Span {
        self@
    }

    fn span(&self) -> (s: Span) {
        self.0
    }
}

impl Parse for Slash {
    open spec fn parse_spec(ts: Seq<TokenV>, eof: TokenV) -> (Result<Span, ParseErrorV>, nat) {
        through_cursor(punct_outcome(TokenPunct::Slash, "Slash"@, tok_at(ts, eof, 0), 0))
    }

    open spec fn could_parse_spec(ts: Seq<TokenV>, eof: TokenV) -> bool {
        tok_at(ts, eof, 0).content == TokenTypeV::Punct(TokenPunct::Slash)
    }

    fn parse(stream: &mut ParseStream) -> (r: ParseResult<Self>) {
        parse_punct::<Self>(stream)
    }

    fn could_parse(stream: &mut ParseStream) -> (b: bool) {
        could_parse_punct::<Self>(stream)
    }
}

impl PunctKind for Slash {
    open spec fn kind_spec() -> TokenPunct {
        TokenPunct::Slash
    }

    open spec fn name_spec() -> Seq<char> {
        "Slash"@
    }

    fn kind() -> (k: TokenPunct) {
        TokenPunct::Slash
    }

    fn name() -> (s: &'static str) {
        "Slash"
    }

    fn new(span: Span) -> (p: Self) {
        Slash(span)
    }
}

impl Punct for Slash {
    proof fn lemma_parse_spec(ts: Seq<TokenV>, eof: TokenV) {
    }
}

/// The punctuation `%`.
#[derive(Debug, Clone, PartialEq, Eq)]
pub struct Percent(Span);

impl View for Percent {
    type V = Span;

    closed spec fn view(&self) -> Span {
        self.0
    }
}

impl Spanned for Percent {
    open spec fn has_span(&self) -> bool {
        true
    }

    open spec fn span_of(&self) -> Span {
        self@
    }

    fn span(&self) -> (s: Span) {
        self.0
    }
}

impl Parse for Percent {
    open spec fn parse_spec(ts: Seq<TokenV>, eof: TokenV) -> (Result<Span, ParseErrorV>, nat) {
        through_cursor(punct_outcome(TokenPunct::Percent, "Percent"@, tok_at(ts, eof, 0), 0))
    }

    open spec fn could_parse_spec(ts: Seq<TokenV>, eof: TokenV) -> bool {
        tok_at(ts, eof, 0).content == TokenTypeV::Punct(TokenPunct::Percent)
    }

    fn parse(stream: &mut ParseStream) -> (r: ParseResult<Self>) {
        parse_punct::<Self>(stream)
    }

    fn could_parse(stream: &mut ParseStream) -> (b: bool) {
        could_parse_punct::<Self>(stream)
    }
}

impl PunctKind for Percent {
    open spec fn kind_spec() -> TokenPunct {
        TokenPunct::Percent
    }

    open spec fn name_spec() -> Seq<char> {
        "Percent"@
    }

    fn kind() -> (k: TokenPunct) {
        TokenPunct::Percent
    }

    fn name() -> (s: &'static str) {
        "Percent"
    }

    fn new(span: Span) -> (p: Self) {
        Percent(span)
    }
}

impl Punct for Percent {
    proof fn lemma_parse_spec(ts: Seq<TokenV>, eof: TokenV) {
    }
}

/// The punctuation `^`.
#[derive(Debug, Clone, PartialEq, Eq)]
pub struct Caret(Span);

impl View for Caret {
    type V = Span;

    closed spec fn view(&self) -> Span {
        self.0
    }
}

impl Spanned for Caret {
    open spec fn has_span(&self) -> bool {
        true
    }

    open spec fn span_of(&self) -> Span {
        self@
    }

    fn span(&self) -> (s: Span) {
        self.0
    }
}

impl Parse for Caret {
    open spec fn parse_spec(ts: Seq<TokenV>, eof: TokenV) -> (Result<Span, ParseErrorV>, nat) {
        through_cursor(punct_outcome(TokenPunct::Caret, "Caret"@, tok_at(ts, eof, 0), 0))
    }

    open spec fn could_parse_spec(ts: Seq<TokenV>, eof: TokenV) -> bool {
        tok_at(ts, eof, 0).content == TokenTypeV::Punct(TokenPunct::Caret)
    }

    fn parse(stream: &mut ParseStream) -> (r: ParseResult<Self>) {
        parse_punct::<Self>(stream)
    }

    fn could_parse(stream: &mut ParseStream) -> (b: bool) {
        could_parse_punct::<Self>(stream)
    }
}

impl PunctKind for Caret {
    open spec fn kind_spec() -> TokenPunct {
        TokenPunct::Caret
    }

    open spec fn name_spec() -> Seq<char> {
        "Caret"@
    }

    fn kind() -> (k: TokenPunct) {
        TokenPunct::Caret
    }

    fn name() -> (s: &'static str) {
        "Caret"
    }

    fn new(span: Span) -> (p: Self) {
        Caret(span)
    }
}

impl Punct for Caret {
    proof fn lemma_parse_spec(ts: Seq<TokenV>, eof: TokenV) {
    }
}

/// The punctuation `&`.
#[derive(Debug, Clone, PartialEq, Eq)]
pub struct Ampersand(Span);

impl View for Ampersand {
    type V = Span;

    closed spec fn view(&self) -> Span {
        self.0
    }
}

impl Spanned for Ampersand {
    open spec fn has_span(&self) -> bool {
        true
    }

    open spec fn span_of(&self) -> Span {
        self@
    }

    fn span(&self) -> (s: Span) {
        self.0
    }
}

impl Parse for Ampersand {
    open spec fn parse_spec(ts: Seq<TokenV>, eof: TokenV) -> (Result<Span, ParseErrorV>, nat) {
        through_cursor(punct_outcome(TokenPunct::Ampersand, "Ampersand"@, tok_at(ts, eof, 0), 0))
    }

    open spec fn could_parse_spec(ts: Seq<TokenV>, eof: TokenV) -> bool {
        tok_at(ts, eof, 0).content == TokenTypeV::Punct(TokenPunct::Ampersand)
    }

    fn parse(stream: &mut ParseStream) -> (r: ParseResult<Self>) {
        parse_punct::<Self>(stream)
    }

    fn could_parse(stream: &mut ParseStream) -> (b: bool) {
        could_parse_punct::<Self>(stream)
    }
}

impl PunctKind for Ampersand {
    open spec fn kind_spec() -> TokenPunct {
        TokenPunct::Ampersand
    }

    open spec fn name_spec() -> Seq<char> {
        "Ampersand"@
    }

    fn kind() -> (k: TokenPunct) {
        TokenPunct::Ampersand
    }

    fn name() -> (s: &'static str) {
        "Ampersand"
    }

    fn new(span: Span) -> (p: Self) {
        Ampersand(span)
    }
}

impl Punct for Ampersand {
    proof fn lemma_parse_spec(ts: Seq<TokenV>, eof: TokenV) {
    }
}

/// The punctuation `|`.
#[derive(Debug, Clone, PartialEq, Eq)]
pub struct Pipe(Span);

impl View for Pipe {
    type V = Span;

    closed spec fn view(&self) -> Span {
        self.0
    }
}

impl Spanned for Pipe {
    open spec fn has_span(&self) -> bool {
        true
    }

    open spec fn span_of(&self) -> Span {
        self@
    }

    fn span(&self) -> (s: Span) {
        self.0
    }
}

impl Parse for Pipe {
    open spec fn parse_spec(ts: Seq<TokenV>, eof: TokenV) -> (Result<Span, ParseErrorV>, nat) {
        through_cursor(punct_outcome(TokenPunct::Pipe, "Pipe"@, tok_at(ts, eof, 0), 0))
    }

    open spec fn could_parse_spec(ts: Seq<TokenV>, eof: TokenV) -> bool {
        tok_at(ts, eof, 0).content == TokenTypeV::Punct(TokenPunct::Pipe)
    }

    fn parse(stream: &mut ParseStream) -> (r: ParseResult<Self>) {
        parse_punct::<Self>(stream)
    }

    fn could_parse(stream: &mut ParseStream) -> (b: bool) {
        could_parse_punct::<Self>(stream)
    }
}

impl PunctKind for Pipe {
    open spec fn kind_spec() -> TokenPunct {
        TokenPunct::Pipe
    }

    open spec fn name_spec() -> Seq<char> {
        "Pipe"@
    }

    fn kind() -> (k: TokenPunct) {
        TokenPunct::Pipe
    }

    fn name() -> (s: &'static str) {
        "Pipe"
    }

    fn new(span: Span) -> (p: Self) {
        Pipe(span)
    }
}

impl Punct for Pipe {
    proof fn lemma_parse_spec(ts: Seq<TokenV>, eof: TokenV) {
    }
}

/// The punctuation `||`.
#[derive(Debug, Clone, PartialEq, Eq)]
pub struct DoublePipe(Span);

impl View for DoublePipe {
    type V = Span;

    closed spec fn view(&self) -> Span {
        self.0
    }
}

impl Spanned for DoublePipe {
    open spec fn has_span(&self) -> bool {
        true
    }

    open spec fn span_of(&self) -> Span {
        self@
    }

    fn span(&self) -> (s: Span) {
        self.0
    }
}

impl Parse for DoublePipe {
    open spec fn parse_spec(ts: Seq<TokenV>, eof: TokenV) -> (Result<Span, ParseErrorV>, nat) {
        through_cursor(punct_outcome(TokenPunct::DoublePipe, "DoublePipe"@, tok_at(ts, eof, 0), 0))
    }

    open spec fn could_parse_spec(ts: Seq<TokenV>, eof: TokenV) -> bool {
        tok_at(ts, eof, 0).content == TokenTypeV::Punct(TokenPunct::DoublePipe)
    }

    fn parse(stream: &mut ParseStream) -> (r: ParseResult<Self>) {
        parse_punct::<Self>(stream)
    }

    fn could_parse(stream: &mut ParseStream) -> (b: bool) {
        could_parse_punct::<Self>(stream)
    }
}

impl PunctKind for DoublePipe {
    open spec fn kind_spec() -> TokenPunct {
        TokenPunct::DoublePipe
    }

    open spec fn name_spec() -> Seq<char> {
        "DoublePipe"@
    }

    fn kind() -> (k: TokenPunct) {
        TokenPunct::DoublePipe
    }

    fn name() -> (s: &'static str) {
        "DoublePipe"
    }

    fn new(span: Span) -> (p: Self) {
        DoublePipe(span)
    }
}

impl Punct for DoublePipe {
    proof fn lemma_parse_spec(ts: Seq<TokenV>, eof: TokenV) {
    }
}

/// The punctuation `+=`.
#[derive(Debug, Clone, PartialEq, Eq)]
pub struct PlusEq(Span);

impl View for PlusEq {
    type V = Span;

    closed spec fn view(&self) -> Span {
        self.0
    }
}

impl Spanned for PlusEq {
    open spec fn has_span(&self) -> bool {
        true
    }

    open spec fn span_of(&self) -> Span {
        self@
    }

    fn span(&self) -> (s: Span) {
        self.0
    }
}

impl Parse for PlusEq {
    open spec fn parse_spec(ts: Seq<TokenV>, eof: TokenV) -> (Result<Span, ParseErrorV>, nat) {
        through_cursor(punct_outcome(TokenPunct::PlusEq, "PlusEq"@, tok_at(ts, eof, 0), 0))
    }

    open spec fn could_parse_spec(ts: Seq<TokenV>, eof: TokenV) -> bool {
        tok_at(ts, eof, 0).content == TokenTypeV::Punct(TokenPunct::PlusEq)
    }

    fn parse(stream: &mut ParseStream) -> (r: ParseResult<Self>) {
        parse_punct::<Self>(stream)
    }

    fn could_parse(stream: &mut ParseStream) -> (b: bool) {
        could_parse_punct::<Self>(stream)
    }
}

impl PunctKind for PlusEq {
    open spec fn kind_spec() -> TokenPunct {
        TokenPunct::PlusEq
    }

    open spec fn name_spec() -> Seq<char> {
        "PlusEq"@
    }

    fn kind() -> (k: TokenPunct) {
        TokenPunct::PlusEq
    }

    fn name() -> (s: &'static str) {
        "PlusEq"
    }

    fn new(span: Span) -> (p: Self) {
        PlusEq(span)
    }
}

impl Punct for PlusEq {
    proof fn lemma_parse_spec(ts: Seq<TokenV>, eof: TokenV) {
    }
}

/// The punctuation `-=`.
#[derive(Debug, Clone, PartialEq, Eq)]
pub struct MinusEq(Span);

impl View for MinusEq {
    type V = Span;

    closed spec fn view(&self) -> Span {
        self.0
    }
}

impl Spanned for MinusEq {
    open spec fn has_span(&self) -> bool {
        true
    }

    open spec fn span_of(&self) -> Span {
        self@
    }

    fn span(&self) -> (s: Span) {
        self.0
    }
}

impl Parse for MinusEq {
    open spec fn parse_spec(ts: Seq<TokenV>, eof: TokenV) -> (Result<Span, ParseErrorV>, nat) {
        through_cursor(punct_outcome(TokenPunct::MinusEq, "MinusEq"@, tok_at(ts, eof, 0), 0))
    }

    open spec fn could_parse_spec(ts: Seq<TokenV>, eof: TokenV) -> bool {
        tok_at(ts, eof, 0).content == TokenTypeV::Punct(TokenPunct::MinusEq)
    }

    fn parse(stream: &mut ParseStream) -> (r: ParseResult<Self>) {
        parse_punct::<Self>(stream)
    }

    fn could_parse(stream: &mut ParseStream) -> (b: bool) {
        could_parse_punct::<Self>(stream)
    }
}

impl PunctKind for MinusEq {
    open spec fn kind_spec() -> TokenPunct {
        TokenPunct::MinusEq
    }

    open spec fn name_spec() -> Seq<char> {
        "MinusEq"@
    }

    fn kind() -> (k: TokenPunct) {
        TokenPunct::MinusEq
    }

    fn name() -> (s: &'static str) {
        "MinusEq"
    }

    fn new(span: Span) -> (p: Self) {
        MinusEq(span)
    }
}

impl Punct for MinusEq {
    proof fn lemma_parse_spec(ts: Seq<TokenV>, eof: TokenV) {
    }
}

/// The punctuation `*=`.
#[derive(Debug, Clone, PartialEq, Eq)]
pub struct StarEq(Span);

impl View for StarEq {
    type V = Span;

    closed spec fn view(&self) -> Span {
        self.0
    }
}

impl Spanned for StarEq {
    open spec fn has_span(&self) -> bool {
        true
    }

    open spec fn span_of(&self) -> Span {
        self@
    }

    fn span(&self) -> (s: Span) {
        self.0
    }
}

impl Parse for StarEq {
    open spec fn parse_spec(ts: Seq<TokenV>, eof: TokenV) -> (Result<Span, ParseErrorV>, nat) {
        through_cursor(punct_outcome(TokenPunct::StarEq, "StarEq"@, tok_at(ts, eof, 0), 0))
    }

    open spec fn could_parse_spec(ts: Seq<TokenV>, eof: TokenV) -> bool {
        tok_at(ts, eof, 0).content == TokenTypeV::Punct(TokenPunct::StarEq)
    }

    fn parse(stream: &mut ParseStream) -> (r: ParseResult<Self>) {
        parse_punct::<Self>(stream)
    }

    fn could_parse(stream: &mut ParseStream) -> (b: bool) {
        could_parse_punct::<Self>(stream)
    }
}

impl PunctKind for StarEq {
    open spec fn kind_spec() -> TokenPunct {
        TokenPunct::StarEq
    }

    open spec fn name_spec() -> Seq<char> {
        "StarEq"@
    }

    fn kind() -> (k: TokenPunct) {
        TokenPunct::StarEq
    }

    fn name() -> (s: &'static str) {
        "StarEq"
    }

    fn new(span: Span) -> (p: Self) {
        StarEq(span)
    }
}

impl Punct for StarEq {
    proof fn lemma_parse_spec(ts: Seq<TokenV>, eof: TokenV) {
    }
}

/// The punctuation `/=`.
#[derive(Debug, Clone, PartialEq, Eq)]
pub struct SlashEq(Span);

impl View for SlashEq {
    type V = Span;

    closed spec fn view(&self) -> Span {
        self.0
    }
}

impl Spanned for SlashEq {
    open spec fn has_span(&self) -> bool {
        true
    }

    open spec fn span_of(&self) -> Span {
        self@
    }

    fn span(&self) -> (s: Span) {
        self.0
    }
}

impl Parse for SlashEq {
    open spec fn parse_spec(ts: Seq<TokenV>, eof: TokenV) -> (Result<Span, ParseErrorV>, nat) {
        through_cursor(punct_outcome(TokenPunct::SlashEq, "SlashEq"@, tok_at(ts, eof, 0), 0))
    }

    open spec fn could_parse_spec(ts: Seq<TokenV>, eof: TokenV) -> bool {
        tok_at(ts, eof, 0).content == TokenTypeV::Punct(TokenPunct::SlashEq)
    }

    fn parse(stream: &mut ParseStream) -> (r: ParseResult<Self>) {
        parse_punct::<Self>(stream)
    }

    fn could_parse(stream: &mut ParseStream) -> (b: bool) {
        could_parse_punct::<Self>(stream)
    }
}

impl PunctKind for SlashEq {
    open spec fn kind_spec() -> TokenPunct {
        TokenPunct::SlashEq
    }

    open spec fn name_spec() -> Seq<char> {
        "SlashEq"@
    }

    fn kind() -> (k: TokenPunct) {
        TokenPunct::SlashEq
    }

    fn name() -> (s: &'static str) {
        "SlashEq"
    }

    fn new(span: Span) -> (p: Self) {
        SlashEq(span)
    }
}

impl Punct for SlashEq {
    proof fn lemma_parse_spec(ts: Seq<TokenV>, eof: TokenV) {
    }
}

/// The punctuation `%=`.
#[derive(Debug, Clone, PartialEq, Eq)]
pub struct PercentEq(Span);

impl View for PercentEq {
    type V = Span;

    closed spec fn view(&self) -> Span {
        self.0
    }
}

impl Spanned for PercentEq {
    open spec fn has_span(&self) -> bool {
        true
    }

    open spec fn span_of(&self) -> Span {
        self@
    }

    fn span(&self) -> (s: Span) {
        self.0
    }
}

impl Parse for PercentEq {
    open spec fn parse_spec(ts: Seq<TokenV>, eof: TokenV) -> (Result<Span, ParseErrorV>, nat) {
        through_cursor(punct_outcome(TokenPunct::PercentEq, "PercentEq"@, tok_at(ts, eof, 0), 0))
    }

    open spec fn could_parse_spec(ts: Seq<TokenV>, eof: TokenV) -> bool {
        tok_at(ts, eof, 0).content == TokenTypeV::Punct(TokenPunct::PercentEq)
    }

    fn parse(stream: &mut ParseStream) -> (r: ParseResult<Self>) {
        parse_punct::<Self>(stream)
    }

    fn could_parse(stream: &mut ParseStream) -> (b: bool) {
        could_parse_punct::<Self>(stream)
    }
}

impl PunctKind for PercentEq {
    open spec fn kind_spec() -> TokenPunct {
        TokenPunct::PercentEq
    }

    open spec fn name_spec() -> Seq<char> {
        "PercentEq"@
    }

    fn kind() -> (k: TokenPunct) {
        TokenPunct::PercentEq
    }

    fn name() -> (s: &'static str) {
        "PercentEq"
    }

    fn new(span: Span) -> (p: Self) {
        PercentEq(span)
    }
}

impl Punct for PercentEq {
    proof fn lemma_parse_spec(ts: Seq<TokenV>, eof: TokenV) {
    }
}

/// The punctuation `^=`.
#[derive(Debug, Clone, PartialEq, Eq)]
pub struct CaretEq(Span);

impl View for CaretEq {
    type V = Span;

    closed spec fn view(&self) -> Span {
        self.0
    }
}

impl Spanned for CaretEq {
    open spec fn has_span(&self) -> bool {
        true
    }

    open spec fn span_of(&self) -> Span {
        self@
    }

    fn span(&self) -> (s: Span) {
        self.0
    }
}

impl Parse for CaretEq {
    open spec fn parse_spec(ts: Seq<TokenV>, eof: TokenV) -> (Result<Span, ParseErrorV>, nat) {
        through_cursor(punct_outcome(TokenPunct::CaretEq, "CaretEq"@, tok_at(ts, eof, 0), 0))
    }

    open spec fn could_parse_spec(ts: Seq<TokenV>, eof: TokenV) -> bool {
        tok_at(ts, eof, 0).content == TokenTypeV::Punct(TokenPunct::CaretEq)
    }

    fn parse(stream: &mut ParseStream) -> (r: ParseResult<Self>) {
        parse_punct::<Self>(stream)
    }

    fn could_parse(stream: &mut ParseStream) -> (b: bool) {
        could_parse_punct::<Self>(stream)
    }
}

impl PunctKind for CaretEq {
    open spec fn kind_spec() -> TokenPunct {
        TokenPunct::CaretEq
    }

    open spec fn name_spec() -> Seq<char> {
        "CaretEq"@
    }

    fn kind() -> (k: TokenPunct) {
        TokenPunct::CaretEq
    }

    fn name() -> (s: &'static str) {
        "CaretEq"
    }

    fn new(span: Span) -> (p: Self) {
        CaretEq(span)
    }
}

impl Punct for CaretEq {
    proof fn lemma_parse_spec(ts: Seq<TokenV>, eof: TokenV) {
    }
}

/// The punctuation `&=`.
#[derive(Debug, Clone, PartialEq, Eq)]
pub struct AmpersandEq(Span);

impl View for AmpersandEq {
    type V = Span;

    closed spec fn view(&self) -> Span {
        self.0
    }
}

impl Spanned for AmpersandEq {
    open spec fn has_span(&self) -> bool {
        true
    }

    open spec fn span_of(&self) -> Span {
        self@
    }

    fn span(&self) -> (s: Span) {
        self.0
    }
}

impl Parse for AmpersandEq {
    open spec fn parse_spec(ts: Seq<TokenV>, eof: TokenV) -> (Result<Span, ParseErrorV>, nat) {
        through_cursor(punct_outcome(TokenPunct::AmpersandEq, "AmpersandEq"@, tok_at(ts, eof, 0), 0))
    }

    open spec fn could_parse_spec(ts: Seq<TokenV>, eof: TokenV) -> bool {
        tok_at(ts, eof, 0).content == TokenTypeV::Punct(TokenPunct::AmpersandEq)
    }

    fn parse(stream: &mut ParseStream) -> (r: ParseResult<Self>) {
        parse_punct::<Self>(stream)
    }

    fn could_parse(stream: &mut ParseStream) -> (b: bool) {
        could_parse_punct::<Self>(stream)
    }
}

impl PunctKind for AmpersandEq {
    open spec fn kind_spec() -> TokenPunct {
        TokenPunct::AmpersandEq
    }

    open spec fn name_spec() -> Seq<char> {
        "AmpersandEq"@
    }

    fn kind() -> (k: TokenPunct) {
        TokenPunct::AmpersandEq
    }

    fn name() -> (s: &'static str) {
        "AmpersandEq"
    }

    fn new(span: Span) -> (p: Self) {
        AmpersandEq(span)
    }
}

impl Punct for AmpersandEq {
    proof fn lemma_parse_spec(ts: Seq<TokenV>, eof: TokenV) {
    }
}

/// The punctuation `&&=`.
#[derive(Debug, Clone, PartialEq, Eq)]
pub struct DoubleAmpersandEq(Span);

impl View for DoubleAmpersandEq {
    type V = Span;

    closed spec fn view(&self) -> Span {
        self.0
    }
}

impl Spanned for DoubleAmpersandEq {
    open spec fn has_span(&self) -> bool {
        true
    }

    open spec fn span_of(&self) -> Span {
        self@
    }

    fn span(&self) -> (s: Span) {
        self.0
    }
}

impl Parse for DoubleAmpersandEq {
    open spec fn parse_spec(ts: Seq<TokenV>, eof: TokenV) -> (Result<Span, ParseErrorV>, nat) {
        through_cursor(punct_outcome(TokenPunct::DoubleAmpersandEq, "DoubleAmpersandEq"@, tok_at(ts, eof, 0), 0))
    }

    open spec fn could_parse_spec(ts: Seq<TokenV>, eof: TokenV) -> bool {
        tok_at(ts, eof, 0).content == TokenTypeV::Punct(TokenPunct::DoubleAmpersandEq)
    }

    fn parse(stream: &mut ParseStream) -> (r: ParseResult<Self>) {
        parse_punct::<Self>(stream)
    }

    fn could_parse(stream: &mut ParseStream) -> (b: bool) {
        could_parse_punct::<Self>(stream)
    }
}

impl PunctKind for DoubleAmpersandEq {
    open spec fn kind_spec() -> TokenPunct {
        TokenPunct::DoubleAmpersandEq
    }

    open spec fn name_spec() -> Seq<char> {
        "DoubleAmpersandEq"@
    }

    fn kind() -> (k: TokenPunct) {
        TokenPunct::DoubleAmpersandEq
    }

    fn name() -> (s: &'static str) {
        "DoubleAmpersandEq"
    }

    fn new(span: Span) -> (p: Self) {
        DoubleAmpersandEq(span)
    }
}

impl Punct for DoubleAmpersandEq {
    proof fn lemma_parse_spec(ts: Seq<TokenV>, eof: TokenV) {
    }
}

/// The punctuation `|=`.
#[derive(Debug, Clone, PartialEq, Eq)]
pub struct PipeEq(Span);

impl View for PipeEq {
    type V = Span;

    closed spec fn view(&self) -> Span {
        self.0
    }
}

impl Spanned for PipeEq {
    open spec fn has_span(&self) -> bool {
        true
    }

    open spec fn span_of(&self) -> Span {
        self@
    }

    fn span(&self) -> (s: Span) {
        self.0
    }
}

impl Parse for PipeEq {
    open spec fn parse_spec(ts: Seq<TokenV>, eof: TokenV) -> (Result<Span, ParseErrorV>, nat) {
        through_cursor(punct_outcome(TokenPunct::PipeEq, "PipeEq"@, tok_at(ts, eof, 0), 0))
    }

    open spec fn could_parse_spec(ts: Seq<TokenV>, eof: TokenV) -> bool {
        tok_at(ts, eof, 0).content == TokenTypeV::Punct(TokenPunct::PipeEq)
    }

    fn parse(stream: &mut ParseStream) -> (r: ParseResult<Self>) {
        parse_punct::<Self>(stream)
    }

    fn could_parse(stream: &mut ParseStream) -> (b: bool) {
        could_parse_punct::<Self>(stream)
    }
}

impl PunctKind for PipeEq {
    open spec fn kind_spec() -> TokenPunct {
        TokenPunct::PipeEq
    }

    open spec fn name_spec() -> Seq<char> {
        "PipeEq"@
    }

    fn kind() -> (k: TokenPunct) {
        TokenPunct::PipeEq
    }

    fn name() -> (s: &'static str) {
        "PipeEq"
    }

    fn new(span: Span) -> (p: Self) {
        PipeEq(span)
    }
}

impl Punct for PipeEq {
    proof fn lemma_parse_spec(ts: Seq<TokenV>, eof: TokenV) {
    }
}

/// The punctuation `||=`.
#[derive(Debug, Clone, PartialEq, Eq)]
pub struct DoublePipeEq(Span);

impl View for DoublePipeEq {
    type V = Span;

    closed spec fn view(&self) -> Span {
        self.0
    }
}

impl Spanned for DoublePipeEq {
    open spec fn has_span(&self) -> bool {
        true
    }

    open spec fn span_of(&self) -> Span {
        self@
    }

    fn span(&self) -> (s: Span) {
        self.0
    }
}

impl Parse for DoublePipeEq {
    open spec fn parse_spec(ts: Seq<TokenV>, eof: TokenV) -> (Result<Span, ParseErrorV>, nat) {
        through_cursor(punct_outcome(TokenPunct::DoublePipeEq, "DoublePipeEq"@, tok_at(ts, eof, 0), 0))
    }

    open spec fn could_parse_spec(ts: Seq<TokenV>, eof: TokenV) -> bool {
        tok_at(ts, eof, 0).content == TokenTypeV::Punct(TokenPunct::DoublePipeEq)
    }

    fn parse(stream: &mut ParseStream) -> (r: ParseResult<Self>) {
        parse_punct::<Self>(stream)
    }

    fn could_parse(stream: &mut ParseStream) -> (b: bool) {
        could_parse_punct::<Self>(stream)
    }
}

impl PunctKind for DoublePipeEq {
    open spec fn kind_spec() -> TokenPunct {
        TokenPunct::DoublePipeEq
    }

    open spec fn name_spec() -> Seq<char> {
        "DoublePipeEq"@
    }

    fn kind() -> (k: TokenPunct) {
        TokenPunct::DoublePipeEq
    }

    fn name() -> (s: &'static str) {
        "DoublePipeEq"
    }

    fn new(span: Span) -> (p: Self) {
        DoublePipeEq(span)
    }
}

impl Punct for DoublePipeEq {
    proof fn lemma_parse_spec(ts: Seq<TokenV>, eof: TokenV) {
    }
}

/// The punctuation `~`.
#[derive(Debug, Clone, PartialEq, Eq)]
pub struct Tilde(Span);

impl View for Tilde {
    type V = Span;

    closed spec fn view(&self) -> Span {
        self.0
    }
}

impl Spanned for Tilde {
    open spec fn has_span(&self) -> bool {
        true
    }

    open spec fn span_of(&self) -> Span {
        self@
    }

    fn span(&self) -> (s: Span) {
        self.0
    }
}

impl Parse for Tilde {
    open spec fn parse_spec(ts: Seq<TokenV>, eof: TokenV) -> (Result<Span, ParseErrorV>, nat) {
        through_cursor(punct_outcome(TokenPunct::Tilde, "Tilde"@, tok_at(ts, eof, 0), 0))
    }

    open spec fn could_parse_spec(ts: Seq<TokenV>, eof: TokenV) -> bool {
        tok_at(ts, eof, 0).content == TokenTypeV::Punct(TokenPunct::Tilde)
    }

    fn parse(stream: &mut ParseStream) -> (r: ParseResult<Self>) {
        parse_punct::<Self>(stream)
    }

    fn could_parse(stream: &mut ParseStream) -> (b: bool) {
        could_parse_punct::<Self>(stream)
    }
}

impl PunctKind for Tilde {
    open spec fn kind_spec() -> TokenPunct {
        TokenPunct::Tilde
    }

    open spec fn name_spec() -> Seq<char> {
        "Tilde"@
    }

    fn kind() -> (k: TokenPunct) {
        TokenPunct::Tilde
    }

    fn name() -> (s: &'static str) {
        "Tilde"
    }

    fn new(span: Span) -> (p: Self) {
        Tilde(span)
    }
}

impl Punct for Tilde {
    proof fn lemma_parse_spec(ts: Seq<TokenV>, eof: TokenV) {
    }
}

/// The punctuation `?`.
#[derive(Debug, Clone, PartialEq, Eq)]
pub struct Question(Span);

impl View for Question {
    type V = Span;

    closed spec fn view(&self) -> Span {
        self.0
    }
}

impl Spanned for Question {
    open spec fn has_span(&self) -> bool {
        true
    }

    open spec fn span_of(&self) -> Span {
        self@
    }

    fn span(&self) -> (s: Span) {
        self.0
    }
}

impl Parse for Question {
    open spec fn parse_spec(ts: Seq<TokenV>, eof: TokenV) -> (Result<Span, ParseErrorV>, nat) {
        through_cursor(punct_outcome(TokenPunct::Question, "Question"@, tok_at(ts, eof, 0), 0))
    }

    open spec fn could_parse_spec(ts: Seq<TokenV>, eof: TokenV) -> bool {
        tok_at(ts, eof, 0).content == TokenTypeV::Punct(TokenPunct::Question)
    }

    fn parse(stream: &mut ParseStream) -> (r: ParseResult<Self>) {
        parse_punct::<Self>(stream)
    }

    fn could_parse(stream: &mut ParseStream) -> (b: bool) {
        could_parse_punct::<Self>(stream)
    }
}

impl PunctKind for Question {
    open spec fn kind_spec() -> TokenPunct {
        TokenPunct::Question
    }

    open spec fn name_spec() -> Seq<char> {
        "Question"@
    }

    fn kind() -> (k: TokenPunct) {
        TokenPunct::Question
    }

    fn name() -> (s: &'static str) {
        "Question"
    }

    fn new(span: Span) -> (p: Self) {
        Question(span)
    }
}

impl Punct for Question {
    proof fn lemma_parse_spec(ts: Seq<TokenV>, eof: TokenV) {
    }
}

/// The punctuation `!`.
#[derive(Debug, Clone, PartialEq, Eq)]
pub struct Exclamation(Span);

impl View for Exclamation {
    type V = Span;

    closed spec fn view(&self) -> Span {
        self.0
    }
}

impl Spanned for Exclamation {
    open spec fn has_span(&self) -> bool {
        true
    }

    open spec fn span_of(&self) -> Span {
        self@
    }

    fn span(&self) -> (s: Span) {
        self.0
    }
}

impl Parse for Exclamation {
    open spec fn parse_spec(ts: Seq<TokenV>, eof: TokenV) -> (Result<Span, ParseErrorV>, nat) {
        through_cursor(punct_outcome(TokenPunct::Exclamation, "Exclamation"@, tok_at(ts, eof, 0), 0))
    }

    open spec fn could_parse_spec(ts: Seq<TokenV>, eof: TokenV) -> bool {
        tok_at(ts, eof, 0).content == TokenTypeV::Punct(TokenPunct::Exclamation)
    }

    fn parse(stream: &mut ParseStream) -> (r: ParseResult<Self>) {
        parse_punct::<Self>(stream)
    }

    fn could_parse(stream: &mut ParseStream) -> (b: bool) {
        could_parse_punct::<Self>(stream)
    }
}

impl PunctKind for Exclamation {
    open spec fn kind_spec() -> TokenPunct {
        TokenPunct::Exclamation
    }

    open spec fn name_spec() -> Seq<char> {
        "Exclamation"@
    }

    fn kind() -> (k: TokenPunct) {
        TokenPunct::Exclamation
    }

    fn name() -> (s: &'static str) {
        "Exclamation"
    }

    fn new(span: Span) -> (p: Self) {
        Exclamation(span)
    }
}

impl Punct for Exclamation {
    proof fn lemma_parse_spec(ts: Seq<TokenV>, eof: TokenV) {
    }
}

/// The punctuation `.`.
#[derive(Debug, Clone, PartialEq, Eq)]
pub struct Dot(Span);

impl View for Dot {
    type V = Span;

    closed spec fn view(&self) -> Span {
        self.0
    }
}

impl Spanned for Dot {
    open spec fn has_span(&self) -> bool {
        true
    }

    open spec fn span_of(&self) -> Span {
        self@
    }

    fn span(&self) -> (s: Span) {
        self.0
    }
}

impl Parse for Dot {
    open spec fn parse_spec(ts: Seq<TokenV>, eof: TokenV) -> (Result<Span, ParseErrorV>, nat) {
        through_cursor(punct_outcome(TokenPunct::Dot, "Dot"@, tok_at(ts, eof, 0), 0))
    }

    open spec fn could_parse_spec(ts: Seq<TokenV>, eof: TokenV) -> bool {
        tok_at(ts, eof, 0).content == TokenTypeV::Punct(TokenPunct::Dot)
    }

    fn parse(stream: &mut ParseStream) -> (r: ParseResult<Self>) {
        parse_punct::<Self>(stream)
    }

    fn could_parse(stream: &mut ParseStream) -> (b: bool) {
        could_parse_punct::<Self>(stream)
    }
}

impl PunctKind for Dot {
    open spec fn kind_spec() -> TokenPunct {
        TokenPunct::Dot
    }

    open spec fn name_spec() -> Seq<char> {
        "Dot"@
    }

    fn kind() -> (k: TokenPunct) {
        TokenPunct::Dot
    }

    fn name() -> (s: &'static str) {
        "Dot"
    }

    fn new(span: Span) -> (p: Self) {
        Dot(span)
    }
}

impl Punct for Dot {
    proof fn lemma_parse_spec(ts: Seq<TokenV>, eof: TokenV) {
    }
}

/// The punctuation `,`.
#[derive(Debug, Clone, PartialEq, Eq)]
pub struct Comma(Span);

impl View for Comma {
    type V = Span;

    closed spec fn view(&self) -> Span {
        self.0
    }
}

impl Spanned for Comma {
    open spec fn has_span(&self) -> bool {
        true
    }

    open spec fn span_of(&self) -> Span {
        self@
    }

    fn span(&self) -> (s: Span) {
        self.0
    }
}

impl Parse for Comma {
    open spec fn parse_spec(ts: Seq<TokenV>, eof: TokenV) -> (Result<Span, ParseErrorV>, nat) {
        through_cursor(punct_outcome(TokenPunct::Comma, "Comma"@, tok_at(ts, eof, 0), 0))
    }

    open spec fn could_parse_spec(ts: Seq<TokenV>, eof: TokenV) -> bool {
        tok_at(ts, eof, 0).content == TokenTypeV::Punct(TokenPunct::Comma)
    }

    fn parse(stream: &mut ParseStream) -> (r: ParseResult<Self>) {
        parse_punct::<Self>(stream)
    }

    fn could_parse(stream: &mut ParseStream) -> (b: bool) {
        could_parse_punct::<Self>(stream)
    }
}

impl PunctKind for Comma {
    open spec fn kind_spec() -> TokenPunct {
        TokenPunct::Comma
    }

    open spec fn name_spec() -> Seq<char> {
        "Comma"@
    }

    fn kind() -> (k: TokenPunct) {
        TokenPunct::Comma
    }

    fn name() -> (s: &'static str) {
        "Comma"
    }

    fn new(span: Span) -> (p: Self) {
        Comma(span)
    }
}

impl Punct for Comma {
    proof fn lemma_parse_spec(ts: Seq<TokenV>, eof: TokenV) {
    }
}

/// The punctuation `:`.
#[derive(Debug, Clone, PartialEq, Eq)]
pub struct Colon(Span);

impl View for Colon {
    type V = Span;

    closed spec fn view(&self) -> Span {
        self.0
    }
}

impl Spanned for Colon {
    open spec fn has_span(&self) -> bool {
        true
    }

    open spec fn span_of(&self) -> Span {
        self@
    }

    fn span(&self) -> (s: Span) {
        self.0
    }
}

impl Parse for Colon {
    open spec fn parse_spec(ts: Seq<TokenV>, eof: TokenV) -> (Result<Span, ParseErrorV>, nat) {
        through_cursor(punct_outcome(TokenPunct::Colon, "Colon"@, tok_at(ts, eof, 0), 0))
    }

    open spec fn could_parse_spec(ts: Seq<TokenV>, eof: TokenV) -> bool {
        tok_at(ts, eof, 0).content == TokenTypeV::Punct(TokenPunct::Colon)
    }

    fn parse(stream: &mut ParseStream) -> (r: ParseResult<Self>) {
        parse_punct::<Self>(stream)
    }

    fn could_parse(stream: &mut ParseStream) -> (b: bool) {
        could_parse_punct::<Self>(stream)
    }
}

impl PunctKind for Colon {
    open spec fn kind_spec() -> TokenPunct {
        TokenPunct::Colon
    }

    open spec fn name_spec() -> Seq<char> {
        "Colon"@
    }

    fn kind() -> (k: TokenPunct) {
        TokenPunct::Colon
    }

    fn name() -> (s: &'static str) {
        "Colon"
    }

    fn new(span: Span) -> (p: Self) {
        Colon(span)
    }
}

impl Punct for Colon {
    proof fn lemma_parse_spec(ts: Seq<TokenV>, eof: TokenV) {
    }
}

/// The punctuation `;`.
#[derive(Debug, Clone, PartialEq, Eq)]
pub struct SemiColon(Span);

impl View for SemiColon {
    type V = Span;

    closed spec fn view(&self) -> Span {
        self.0
    }
}

impl Spanned for SemiColon {
    open spec fn has_span(&self) -> bool {
        true
    }

    open spec fn span_of(&self) -> Span {
        self@
    }

    fn span(&self) -> (s: Span) {
        self.0
    }
}

impl Parse for SemiColon {
    open spec fn parse_spec(ts: Seq<TokenV>, eof: TokenV) -> (Result<Span, ParseErrorV>, nat) {
        through_cursor(punct_outcome(TokenPunct::SemiColon, "SemiColon"@, tok_at(ts, eof, 0), 0))
    }

    open spec fn could_parse_spec(ts: Seq<TokenV>, eof: TokenV) -> bool {
        tok_at(ts, eof, 0).content == TokenTypeV::Punct(TokenPunct::SemiColon)
    }

    fn parse(stream: &mut ParseStream) -> (r: ParseResult<Self>) {
        parse_punct::<Self>(stream)
    }

    fn could_parse(stream: &mut ParseStream) -> (b: bool) {
        could_parse_punct::<Self>(stream)
    }
}

impl PunctKind for SemiColon {
    open spec fn kind_spec() -> TokenPunct {
        TokenPunct::SemiColon
    }

    open spec fn name_spec() -> Seq<char> {
        "SemiColon"@
    }

    fn kind() -> (k: TokenPunct) {
        TokenPunct::SemiColon
    }

    fn name() -> (s: &'static str) {
        "SemiColon"
    }

    fn new(span: Span) -> (p: Self) {
        SemiColon(span)
    }
}

impl Punct for SemiColon {
    proof fn lemma_parse_spec(ts: Seq<TokenV>, eof: TokenV) {
    }
}

/// The punctuation `=`.
#[derive(Debug, Clone, PartialEq, Eq)]
pub struct Eq(Span);

impl View for Eq {
    type V = Span;

    closed spec fn view(&self) -> Span {
        self.0
    }
}

impl Spanned for Eq {
    open spec fn has_span(&self) -> bool {
        true
    }

    open spec fn span_of(&self) -> Span {
        self@
    }

    fn span(&self) -> (s: Span) {
        self.0
    }
}

impl Parse for Eq {
    open spec fn parse_spec(ts: Seq<TokenV>, eof: TokenV) -> (Result<Span, ParseErrorV>, nat) {
        through_cursor(punct_outcome(TokenPunct::Eq, "Eq"@, tok_at(ts, eof, 0), 0))
    }

    open spec fn could_parse_spec(ts: Seq<TokenV>, eof: TokenV) -> bool {
        tok_at(ts, eof, 0).content == TokenTypeV::Punct(TokenPunct::Eq)
    }

    fn parse(stream: &mut ParseStream) -> (r: ParseResult<Self>) {
        parse_punct::<Self>(stream)
    }

    fn could_parse(stream: &mut ParseStream) -> (b: bool) {
        could_parse_punct::<Self>(stream)
    }
}

impl PunctKind for Eq {
    open spec fn kind_spec() -> TokenPunct {
        TokenPunct::Eq
    }

    open spec fn name_spec() -> Seq<char> {
        "Eq"@
    }

    fn kind() -> (k: TokenPunct) {
        TokenPunct::Eq
    }

    fn name() -> (s: &'static str) {
        "Eq"
    }

    fn new(span: Span) -> (p: Self) {
        Eq(span)
    }
}

impl Punct for Eq {
    proof fn lemma_parse_spec(ts: Seq<TokenV>, eof: TokenV) {
    }
}

/// The punctuation `==`.
#[derive(Debug, Clone, PartialEq, Eq)]
pub struct DoubleEq(Span);

impl View for DoubleEq {
    type V = Span;

    closed spec fn view(&self) -> Span {
        self.0
    }
}

impl Spanned for DoubleEq {
    open spec fn has_span(&self) -> bool {
        true
    }

    open spec fn span_of(&self) -> Span {
        self@
    }

    fn span(&self) -> (s: Span) {
        self.0
    }
}

impl Parse for DoubleEq {
    open spec fn parse_spec(ts: Seq<TokenV>, eof: TokenV) -> (Result<Span, ParseErrorV>, nat) {
        through_cursor(punct_outcome(TokenPunct::DoubleEq, "DoubleEq"@, tok_at(ts, eof, 0), 0))
    }

    open spec fn could_parse_spec(ts: Seq<TokenV>, eof: TokenV) -> bool {
        tok_at(ts, eof, 0).content == TokenTypeV::Punct(TokenPunct::DoubleEq)
    }

    fn parse(stream: &mut ParseStream) -> (r: ParseResult<Self>) {
        parse_punct::<Self>(stream)
    }

    fn could_parse(stream: &mut ParseStream) -> (b: bool) {
        could_parse_punct::<Self>(stream)
    }
}

impl PunctKind for DoubleEq {
    open spec fn kind_spec() -> TokenPunct {
        TokenPunct::DoubleEq
    }

    open spec fn name_spec() -> Seq<char> {
        "DoubleEq"@
    }

    fn kind() -> (k: TokenPunct) {
        TokenPunct::DoubleEq
    }

    fn name() -> (s: &'static str) {
        "DoubleEq"
    }

    fn new(span: Span) -> (p: Self) {
        DoubleEq(span)
    }
}

impl Punct for DoubleEq {
    proof fn lemma_parse_spec(ts: Seq<TokenV>, eof: TokenV) {
    }
}

/// The punctuation `!=`.
#[derive(Debug, Clone, PartialEq, Eq)]
pub struct NotEq(Span);

impl View for NotEq {
    type V = Span;

    closed spec fn view(&self) -> Span {
        self.0
    }
}

impl Spanned for NotEq {
    open spec fn has_span(&self) -> bool {
        true
    }

    open spec fn span_of(&self) -> Span {
        self@
    }

    fn span(&self) -> (s: Span) {
        self.0
    }
}

impl Parse for NotEq {
    open spec fn parse_spec(ts: Seq<TokenV>, eof: TokenV) -> (Result<Span, ParseErrorV>, nat) {
        through_cursor(punct_outcome(TokenPunct::NotEq, "NotEq"@, tok_at(ts, eof, 0), 0))
    }

    open spec fn could_parse_spec(ts: Seq<TokenV>, eof: TokenV) -> bool {
        tok_at(ts, eof, 0).content == TokenTypeV::Punct(TokenPunct::NotEq)
    }

    fn parse(stream: &mut ParseStream) -> (r: ParseResult<Self>) {
        parse_punct::<Self>(stream)
    }

    fn could_parse(stream: &mut ParseStream) -> (b: bool) {
        could_parse_punct::<Self>(stream)
    }
}

impl PunctKind for NotEq {
    open spec fn kind_spec() -> TokenPunct {
        TokenPunct::NotEq
    }

    open spec fn name_spec() -> Seq<char> {
        "NotEq"@
    }

    fn kind() -> (k: TokenPunct) {
        TokenPunct::NotEq
    }

    fn name() -> (s: &'static str) {
        "NotEq"
    }

    fn new(span: Span) -> (p: Self) {
        NotEq(span)
    }
}

impl Punct for NotEq {
    proof fn lemma_parse_spec(ts: Seq<TokenV>, eof: TokenV) {
    }
}

/// The punctuation `<`.
#[derive(Debug, Clone, PartialEq, Eq)]
pub struct Lt(Span);

impl View for Lt {
    type V = Span;

    closed spec fn view(&self) -> Span {
        self.0
    }
}

impl Spanned for Lt {
    open spec fn has_span(&self) -> bool {
        true
    }

    open spec fn span_of(&self) -> Span {
        self@
    }

    fn span(&self) -> (s: Span) {
        self.0
    }
}

impl Parse for Lt {
    open spec fn parse_spec(ts: Seq<TokenV>, eof: TokenV) -> (Result<Span, ParseErrorV>, nat) {
        through_cursor(punct_outcome(TokenPunct::Lt, "Lt"@, tok_at(ts, eof, 0), 0))
    }

    open spec fn could_parse_spec(ts: Seq<TokenV>, eof: TokenV) -> bool {
        tok_at(ts, eof, 0).content == TokenTypeV::Punct(TokenPunct::Lt)
    }

    fn parse(stream: &mut ParseStream) -> (r: ParseResult<Self>) {
        parse_punct::<Self>(stream)
    }

    fn could_parse(stream: &mut ParseStream) -> (b: bool) {
        could_parse_punct::<Self>(stream)
    }
}

impl PunctKind for Lt {
    open spec fn kind_spec() -> TokenPunct {
        TokenPunct::Lt
    }

    open spec fn name_spec() -> Seq<char> {
        "Lt"@
    }

    fn kind() -> (k: TokenPunct) {
        TokenPunct::Lt
    }

    fn name() -> (s: &'static str) {
        "Lt"
    }

    fn new(span: Span) -> (p: Self) {
        Lt(span)
    }
}

impl Punct for Lt {
    proof fn lemma_parse_spec(ts: Seq<TokenV>, eof: TokenV) {
    }
}

/// The punctuation `<<`.
#[derive(Debug, Clone, PartialEq, Eq)]
pub struct DoubleLt(Span);

impl View for DoubleLt {
    type V = Span;

    closed spec fn view(&self) -> Span {
        self.0
    }
}

impl Spanned for DoubleLt {
    open spec fn has_span(&self) -> bool {
        true
    }

    open spec fn span_of(&self) -> Span {
        self@
    }

    fn span(&self) -> (s: Span) {
        self.0
    }
}

impl Parse for DoubleLt {
    open spec fn parse_spec(ts: Seq<TokenV>, eof: TokenV) -> (Result<Span, ParseErrorV>, nat) {
        through_cursor(punct_outcome(TokenPunct::DoubleLt, "DoubleLt"@, tok_at(ts, eof, 0), 0))
    }

    open spec fn could_parse_spec(ts: Seq<TokenV>, eof: TokenV) -> bool {
        tok_at(ts, eof, 0).content == TokenTypeV::Punct(TokenPunct::DoubleLt)
    }

    fn parse(stream: &mut ParseStream) -> (r: ParseResult<Self>) {
        parse_punct::<Self>(stream)
    }

    fn could_parse(stream: &mut ParseStream) -> (b: bool) {
        could_parse_punct::<Self>(stream)
    }
}

impl PunctKind for DoubleLt {
    open spec fn kind_spec() -> TokenPunct {
        TokenPunct::DoubleLt
    }

    open spec fn name_spec() -> Seq<char> {
        "DoubleLt"@
    }

    fn kind() -> (k: TokenPunct) {
        TokenPunct::DoubleLt
    }

    fn name() -> (s: &'static str) {
        "DoubleLt"
    }

    fn new(span: Span) -> (p: Self) {
        DoubleLt(span)
    }
}

impl Punct for DoubleLt {
    proof fn lemma_parse_spec(ts: Seq<TokenV>, eof: TokenV) {
    }
}

/// The punctuation `<<=`.
#[derive(Debug, Clone, PartialEq, Eq)]
pub struct DoubleLtEq(Span);

impl View for DoubleLtEq {
    type V = Span;

    closed spec fn view(&self) -> Span {
        self.0
    }
}

impl Spanned for DoubleLtEq {
    open spec fn has_span(&self) -> bool {
        true
    }

    open spec fn span_of(&self) -> Span {
        self@
    }

    fn span(&self) -> (s: Span) {
        self.0
    }
}

impl Parse for DoubleLtEq {
    open spec fn parse_spec(ts: Seq<TokenV>, eof: TokenV) -> (Result<Span, ParseErrorV>, nat) {
        through_cursor(punct_outcome(TokenPunct::DoubleLtEq, "DoubleLtEq"@, tok_at(ts, eof, 0), 0))
    }

    open spec fn could_parse_spec(ts: Seq<TokenV>, eof: TokenV) -> bool {
        tok_at(ts, eof, 0).content == TokenTypeV::Punct(TokenPunct::DoubleLtEq)
    }

    fn parse(stream: &mut ParseStream) -> (r: ParseResult<Self>) {
        parse_punct::<Self>(stream)
    }

    fn could_parse(stream: &mut ParseStream) -> (b: bool) {
        could_parse_punct::<Self>(stream)
    }
}

impl PunctKind for DoubleLtEq {
    open spec fn kind_spec() -> TokenPunct {
        TokenPunct::DoubleLtEq
    }

    open spec fn name_spec() -> Seq<char> {
        "DoubleLtEq"@
    }

    fn kind() -> (k: TokenPunct) {
        TokenPunct::DoubleLtEq
    }

    fn name() -> (s: &'static str) {
        "DoubleLtEq"
    }

    fn new(span: Span) -> (p: Self) {
        DoubleLtEq(span)
    }
}

impl Punct for DoubleLtEq {
    proof fn lemma_parse_spec(ts: Seq<TokenV>, eof: TokenV) {
    }
}

/// The punctuation `<=`.
#[derive(Debug, Clone, PartialEq, Eq)]
pub struct LtEq(Span);

impl View for LtEq {
    type V = Span;

    closed spec fn view(&self) -> Span {
        self.0
    }
}

impl Spanned for LtEq {
    open spec fn has_span(&self) -> bool {
        true
    }

    open spec fn span_of(&self) -> Span {
        self@
    }

    fn span(&self) -> (s: Span) {
        self.0
    }
}

impl Parse for LtEq {
    open spec fn parse_spec(ts: Seq<TokenV>, eof: TokenV) -> (Result<Span, ParseErrorV>, nat) {
        through_cursor(punct_outcome(TokenPunct::LtEq, "LtEq"@, tok_at(ts, eof, 0), 0))
    }

    open spec fn could_parse_spec(ts: Seq<TokenV>, eof: TokenV) -> bool {
        tok_at(ts, eof, 0).content == TokenTypeV::Punct(TokenPunct::LtEq)
    }

    fn parse(stream: &mut ParseStream) -> (r: ParseResult<Self>) {
        parse_punct::<Self>(stream)
    }

    fn could_parse(stream: &mut ParseStream) -> (b: bool) {
        could_parse_punct::<Self>(stream)
    }
}

impl PunctKind for LtEq {
    open spec fn kind_spec() -> TokenPunct {
        TokenPunct::LtEq
    }

    open spec fn name_spec() -> Seq<char> {
        "LtEq"@
    }

    fn kind() -> (k: TokenPunct) {
        TokenPunct::LtEq
    }

    fn name() -> (s: &'static str) {
        "LtEq"
    }

    fn new(span: Span) -> (p: Self) {
        LtEq(span)
    }
}

impl Punct for LtEq {
    proof fn lemma_parse_spec(ts: Seq<TokenV>, eof: TokenV) {
    }
}

/// The punctuation `>`.
#[derive(Debug, Clone, PartialEq, Eq)]
pub struct Gt(Span);

impl View for Gt {
    type V = Span;

    closed spec fn view(&self) -> Span {
        self.0
    }
}

impl Spanned for Gt {
    open spec fn has_span(&self) -> bool {
        true
    }

    open spec fn span_of(&self) -> Span {
        self@
    }

    fn span(&self) -> (s: Span) {
        self.0
    }
}

impl Parse for Gt {
    open spec fn parse_spec(ts: Seq<TokenV>, eof: TokenV) -> (Result<Span, ParseErrorV>, nat) {
        through_cursor(punct_outcome(TokenPunct::Gt, "Gt"@, tok_at(ts, eof, 0), 0))
    }

    open spec fn could_parse_spec(ts: Seq<TokenV>, eof: TokenV) -> bool {
        tok_at(ts, eof, 0).content == TokenTypeV::Punct(TokenPunct::Gt)
    }

    fn parse(stream: &mut ParseStream) -> (r: ParseResult<Self>) {
        parse_punct::<Self>(stream)
    }

    fn could_parse(stream: &mut ParseStream) -> (b: bool) {
        could_parse_punct::<Self>(stream)
    }
}

impl PunctKind for Gt {
    open spec fn kind_spec() -> TokenPunct {
        TokenPunct::Gt
    }

    open spec fn name_spec() -> Seq<char> {
        "Gt"@
    }

    fn kind() -> (k: TokenPunct) {
        TokenPunct::Gt
    }

    fn name() -> (s: &'static str) {
        "Gt"
    }

    fn new(span: Span) -> (p: Self) {
        Gt(span)
    }
}

impl Punct for Gt {
    proof fn lemma_parse_spec(ts: Seq<TokenV>, eof: TokenV) {
    }
}

/// The punctuation `>>`.
#[derive(Debug, Clone, PartialEq, Eq)]
pub struct DoubleGt(Span);

impl View for DoubleGt {
    type V = Span;

    closed spec fn view(&self) -> Span {
        self.0
    }
}

impl Spanned for DoubleGt {
    open spec fn has_span(&self) -> bool {
        true
    }

    open spec fn span_of(&self) -> Span {
        self@
    }

    fn span(&self) -> (s: Span) {
        self.0
    }
}

impl Parse for DoubleGt {
    open spec fn parse_spec(ts: Seq<TokenV>, eof: TokenV) -> (Result<Span, ParseErrorV>, nat) {
        through_cursor(punct_outcome(TokenPunct::DoubleGt, "DoubleGt"@, tok_at(ts, eof, 0), 0))
    }

    open spec fn could_parse_spec(ts: Seq<TokenV>, eof: TokenV) -> bool {
        tok_at(ts, eof, 0).content == TokenTypeV::Punct(TokenPunct::DoubleGt)
    }

    fn parse(stream: &mut ParseStream) -> (r: ParseResult<Self>) {
        parse_punct::<Self>(stream)
    }

    fn could_parse(stream: &mut ParseStream) -> (b: bool) {
        could_parse_punct::<Self>(stream)
    }
}

impl PunctKind for DoubleGt {
    open spec fn kind_spec() -> TokenPunct {
        TokenPunct::DoubleGt
    }

    open spec fn name_spec() -> Seq<char> {
        "DoubleGt"@
    }

    fn kind() -> (k: TokenPunct) {
        TokenPunct::DoubleGt
    }

    fn name() -> (s: &'static str) {
        "DoubleGt"
    }

    fn new(span: Span) -> (p: Self) {
        DoubleGt(span)
    }
}

impl Punct for DoubleGt {
    proof fn lemma_parse_spec(ts: Seq<TokenV>, eof: TokenV) {
    }
}

/// The punctuation `>>=`.
#[derive(Debug, Clone, PartialEq, Eq)]
pub struct DoubleGtEq(Span);

impl View for DoubleGtEq {
    type V = Span;

    closed spec fn view(&self) -> Span {
        self.0
    }
}

impl Spanned for DoubleGtEq {
    open spec fn has_span(&self) -> bool {
        true
    }

    open spec fn span_of(&self) -> Span {
        self@
    }

    fn span(&self) -> (s: Span) {
        self.0
    }
}

impl Parse for DoubleGtEq {
    open spec fn parse_spec(ts: Seq<TokenV>, eof: TokenV) -> (Result<Span, ParseErrorV>, nat) {
        through_cursor(punct_outcome(TokenPunct::DoubleGtEq, "DoubleGtEq"@, tok_at(ts, eof, 0), 0))
    }

    open spec fn could_parse_spec(ts: Seq<TokenV>, eof: TokenV) -> bool {
        tok_at(ts, eof, 0).content == TokenTypeV::Punct(TokenPunct::DoubleGtEq)
    }

    fn parse(stream: &mut ParseStream) -> (r: ParseResult<Self>) {
        parse_punct::<Self>(stream)
    }

    fn could_parse(stream: &mut ParseStream) -> (b: bool) {
        could_parse_punct::<Self>(stream)
    }
}

impl PunctKind for DoubleGtEq {
    open spec fn kind_spec() -> TokenPunct {
        TokenPunct::DoubleGtEq
    }

    open spec fn name_spec() -> Seq<char> {
        "DoubleGtEq"@
    }

    fn kind() -> (k: TokenPunct) {
        TokenPunct::DoubleGtEq
    }

    fn name() -> (s: &'static str) {
        "DoubleGtEq"
    }

    fn new(span: Span) -> (p: Self) {
        DoubleGtEq(span)
    }
}

impl Punct for DoubleGtEq {
    proof fn lemma_parse_spec(ts: Seq<TokenV>, eof: TokenV) {
    }
}

/// The punctuation `>=`.
#[derive(Debug, Clone, PartialEq, Eq)]
pub struct GtEq(Span);

impl View for GtEq {
    type V = Span;

    closed spec fn view(&self) -> Span {
        self.0
    }
}

impl Spanned for GtEq {
    open spec fn has_span(&self) -> bool {
        true
    }

    open spec fn span_of(&self) -> Span {
        self@
    }

    fn span(&self) -> (s: Span) {
        self.0
    }
}

impl Parse for GtEq {
    open spec fn parse_spec(ts: Seq<TokenV>, eof: TokenV) -> (Result<Span, ParseErrorV>, nat) {
        through_cursor(punct_outcome(TokenPunct::GtEq, "GtEq"@, tok_at(ts, eof, 0), 0))
    }

    open spec fn could_parse_spec(ts: Seq<TokenV>, eof: TokenV) -> bool {
        tok_at(ts, eof, 0).content == TokenTypeV::Punct(TokenPunct::GtEq)
    }

    fn parse(stream: &mut ParseStream) -> (r: ParseResult<Self>) {
        parse_punct::<Self>(stream)
    }

    fn could_parse(stream: &mut ParseStream) -> (b: bool) {
        could_parse_punct::<Self>(stream)
    }
}

impl PunctKind for GtEq {
    open spec fn kind_spec() -> TokenPunct {
        TokenPunct::GtEq
    }

    open spec fn name_spec() -> Seq<char> {
        "GtEq"@
    }

    fn kind() -> (k: TokenPunct) {
        TokenPunct::GtEq
    }

    fn name() -> (s: &'static str) {
        "GtEq"
    }

    fn new(span: Span) -> (p: Self) {
        GtEq(span)
    }
}

impl Punct for GtEq {
    proof fn lemma_parse_spec(ts: Seq<TokenV>, eof: TokenV) {
    }
}

/// The punctuation `->`.
#[derive(Debug, Clone, PartialEq, Eq)]
pub struct Arrow(Span);

impl View for Arrow {
    type V = Span;

    closed spec fn view(&self) -> Span {
        self.0
    }
}

impl Spanned for Arrow {
    open spec fn has_span(&self) -> bool {
        true
    }

    open spec fn span_of(&self) -> Span {
        self@
    }

    fn span(&self) -> (s: Span) {
        self.0
    }
}

impl Parse for Arrow {
    open spec fn parse_spec(ts: Seq<TokenV>, eof: TokenV) -> (Result<Span, ParseErrorV>, nat) {
        through_cursor(punct_outcome(TokenPunct::Arrow, "Arrow"@, tok_at(ts, eof, 0), 0))
    }

    open spec fn could_parse_spec(ts: Seq<TokenV>, eof: TokenV) -> bool {
        tok_at(ts, eof, 0).content == TokenTypeV::Punct(TokenPunct::Arrow)
    }

    fn parse(stream: &mut ParseStream) -> (r: ParseResult<Self>) {
        parse_punct::<Self>(stream)
    }

    fn could_parse(stream: &mut ParseStream) -> (b: bool) {
        could_parse_punct::<Self>(stream)
    }
}

impl PunctKind for Arrow {
    open spec fn kind_spec() -> TokenPunct {
        TokenPunct::Arrow
    }

    open spec fn name_spec() -> Seq<char> {
        "Arrow"@
    }

    fn kind() -> (k: TokenPunct) {
        TokenPunct::Arrow
    }

    fn name() -> (s: &'static str) {
        "Arrow"
    }

    fn new(span: Span) -> (p: Self) {
        Arrow(span)
    }
}

impl Punct for Arrow {
    proof fn lemma_parse_spec(ts: Seq<TokenV>, eof: TokenV) {
    }
}

/// The punctuation `=>`.
#[derive(Debug, Clone, PartialEq, Eq)]
pub struct FatArrow(Span);

impl View for FatArrow {
    type V = Span;

    closed spec fn view(&self) -> Span {
        self.0
    }
}

impl Spanned for FatArrow {
    open spec fn has_span(&self) -> bool {
        true
    }

    open spec fn span_of(&self) -> Span {
        self@
    }

    fn span(&self) -> (s: Span) {
        self.0
    }
}

impl Parse for FatArrow {
    open spec fn parse_spec(ts: Seq<TokenV>, eof: TokenV) -> (Result<Span, ParseErrorV>, nat) {
        through_cursor(punct_outcome(TokenPunct::FatArrow, "FatArrow"@, tok_at(ts, eof, 0), 0))
    }

    open spec fn could_parse_spec(ts: Seq<TokenV>, eof: TokenV) -> bool {
        tok_at(ts, eof, 0).content == TokenTypeV::Punct(TokenPunct::FatArrow)
    }

    fn parse(stream: &mut ParseStream) -> (r: ParseResult<Self>) {
        parse_punct::<Self>(stream)
    }

    fn could_parse(stream: &mut ParseStream) -> (b: bool) {
        could_parse_punct::<Self>(stream)
    }
}

impl PunctKind for FatArrow {
    open spec fn kind_spec() -> TokenPunct {
        TokenPunct::FatArrow
    }

    open spec fn name_spec() -> Seq<char> {
        "FatArrow"@
    }

    fn kind() -> (k: TokenPunct) {
        TokenPunct::FatArrow
    }

    fn name() -> (s: &'static str) {
        "FatArrow"
    }

    fn new(span: Span) -> (p: Self) {
        FatArrow(span)
    }
}

impl Punct for FatArrow {
    proof fn lemma_parse_spec(ts: Seq<TokenV>, eof: TokenV) {
    }
}

/// The punctuation `$`.
#[derive(Debug, Clone, PartialEq, Eq)]
pub struct Dollar(Span);

impl View for Dollar {
    type V = Span;

    closed spec fn view(&self) -> Span {
        self.0
    }
}

impl Spanned for Dollar {
    open spec fn has_span(&self) -> bool {
        true
    }

    open spec fn span_of(&self) -> Span {
        self@
    }

    fn span(&self) -> (s: Span) {
        self.0
    }
}

impl Parse for Dollar {
    open spec fn parse_spec(ts: Seq<TokenV>, eof: TokenV) -> (Result<Span, ParseErrorV>, nat) {
        through_cursor(punct_outcome(TokenPunct::Dollar, "Dollar"@, tok_at(ts, eof, 0), 0))
    }

    open spec fn could_parse_spec(ts: Seq<TokenV>, eof: TokenV) -> bool {
        tok_at(ts, eof, 0).content == TokenTypeV::Punct(TokenPunct::Dollar)
    }

    fn parse(stream: &mut ParseStream) -> (r: ParseResult<Self>) {
        parse_punct::<Self>(stream)
    }

    fn could_parse(stream: &mut ParseStream) -> (b: bool) {
        could_parse_punct::<Self>(stream)
    }
}

impl PunctKind for Dollar {
    open spec fn kind_spec() -> TokenPunct {
        TokenPunct::Dollar
    }

    open spec fn name_spec() -> Seq<char> {
        "Dollar"@
    }

    fn kind() -> (k: TokenPunct) {
        TokenPunct::Dollar
    }

    fn name() -> (s: &'static str) {
        "Dollar"
    }

    fn new(span: Span) -> (p: Self) {
        Dollar(span)
    }
}

impl Punct for Dollar {
    proof fn lemma_parse_spec(ts: Seq<TokenV>, eof: TokenV) {
    }
}

/// The punctuation `\`.
#[derive(Debug, Clone, PartialEq, Eq)]
pub struct Backslash(Span);

impl View for Backslash {
    type V = Span;

    closed spec fn view(&self) -> Span {
        self.0
    }
}

impl Spanned for Backslash {
    open spec fn has_span(&self) -> bool {
        true
    }

    open spec fn span_of(&self) -> Span {
        self@
    }

    fn span(&self) -> (s: Span) {
        self.0
    }
}

impl Parse for Backslash {
    open spec fn parse_spec(ts: Seq<TokenV>, eof: TokenV) -> (Result<Span, ParseErrorV>, nat) {
        through_cursor(punct_outcome(TokenPunct::Backslash, "Backslash"@, tok_at(ts, eof, 0), 0))
    }

    open spec fn could_parse_spec(ts: Seq<TokenV>, eof: TokenV) -> bool {
        tok_at(ts, eof, 0).content == TokenTypeV::Punct(TokenPunct::Backslash)
    }

    fn parse(stream: &mut ParseStream) -> (r: ParseResult<Self>) {
        parse_punct::<Self>(stream)
    }

    fn could_parse(stream: &mut ParseStream) -> (b: bool) {
        could_parse_punct::<Self>(stream)
    }
}

impl PunctKind for Backslash {
    open spec fn kind_spec() -> TokenPunct {
        TokenPunct::Backslash
    }

    open spec fn name_spec() -> Seq<char> {
        "Backslash"@
    }

    fn kind() -> (k: TokenPunct) {
        TokenPunct::Backslash
    }

    fn name() -> (s: &'static str) {
        "Backslash"
    }

    fn new(span: Span) -> (p: Self) {
        Backslash(span)
    }
}

impl Punct for Backslash {
    proof fn lemma_parse_spec(ts: Seq<TokenV>, eof: TokenV) {
    }
}

/// The punctuation `&&`.
#[derive(Debug, Clone, PartialEq, Eq)]
pub struct DoubleAmpersand(Span);

impl View for DoubleAmpersand {
    type V = Span;

    closed spec fn view(&self) -> Span {
        self.0
    }
}

impl Spanned for DoubleAmpersand {
    open spec fn has_span(&self) -> bool {
        true
    }

    open spec fn span_of(&self) -> Span {
        self@
    }

    fn span(&self) -> (s: Span) {
        self.0
    }
}

impl Parse for DoubleAmpersand {
    open spec fn parse_spec(ts: Seq<TokenV>, eof: TokenV) -> (Result<Span, ParseErrorV>, nat) {
        through_cursor(punct_outcome(TokenPunct::DoubleAmpersand, "DoubleAmpersand"@, tok_at(ts, eof, 0), 0))
    }

    open spec fn could_parse_spec(ts: Seq<TokenV>, eof: TokenV) -> bool {
        tok_at(ts, eof, 0).content == TokenTypeV::Punct(TokenPunct::DoubleAmpersand)
    }

    fn parse(stream: &mut ParseStream) -> (r: ParseResult<Self>) {
        parse_punct::<Self>(stream)
    }

    fn could_parse(stream: &mut ParseStream) -> (b: bool) {
        could_parse_punct::<Self>(stream)
    }
}

impl PunctKind for DoubleAmpersand {
    open spec fn kind_spec() -> TokenPunct {
        TokenPunct::DoubleAmpersand
    }

    open spec fn name_spec() -> Seq<char> {
        "DoubleAmpersand"@
    }

    fn kind() -> (k: TokenPunct) {
        TokenPunct::DoubleAmpersand
    }

    fn name() -> (s: &'static str) {
        "DoubleAmpersand"
    }

    fn new(span: Span) -> (p: Self) {
        DoubleAmpersand(span)
    }
}

impl Punct for DoubleAmpersand {
    proof fn lemma_parse_spec(ts: Seq<TokenV>, eof: TokenV) {
    }
}

} // verus!
