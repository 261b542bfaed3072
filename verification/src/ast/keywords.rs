use vstd::prelude::*;

use std::marker::PhantomData;

use crate::Span;
use crate::text::str_eq;
use crate::tokens::{Token, TokenType, TokenTypeV, TokenV, lemma_tokens_view_index};

use super::{Parse, ParseError, ParseErrorV, ParseResult, Spanned, through_cursor, tok_at, unexpected};
use super::stream::{ParseStream, Parser, TokenCursor};

verus! {

/// The span of the token `t` when it is the keyword `name`, written unescaped.
pub open spec fn keyword_span(name: Seq<char>, t: TokenV) -> Option<Span> {
    match t.content {
        TokenTypeV::Ident(iv) => if !iv.escaped && iv.name == name {
            Some(t.span)
        } else {
            None
        },
        _ => None,
    }
}

/// What the parser of the keyword `name` does at the token `t`, the cursor having
/// moved `m`.
pub open spec fn keyword_outcome(name: Seq<char>, t: TokenV, m: nat) -> (Result<Span, ParseErrorV>, nat) {
    match keyword_span(name, t) {
        Some(sp) => (Ok(sp), m + 1),
        None => (unexpected(name, t), m),
    }
}

/// A reserved word; its value is the span it was read from.
pub trait Keyword: Sized + Spanned + View<V = Span> {
    spec fn name_spec() -> Seq<char>;

    /// The word.
    fn name() -> (s: &'static str)
        ensures
            s@ == Self::name_spec(),
    ;

    fn new(span: Span) -> (k: Self)
        ensures
            k@ == span,
    ;

    /// The keyword that `token` is, if it is this one.
    fn from_token(token: &Token) -> (r: Option<Self>)
        ensures
            match keyword_span(Self::name_spec(), token@) {
                Some(sp) => r matches Some(k) && k@ == sp,
                None => r is None,
            },
    {
        match &token.content {
            TokenType::Ident(ident) => {
                if !ident.escaped && str_eq(ident.name.as_str(), Self::name()) {
                    Some(Self::new(token.span))
                } else {
                    None
                }
            },
            _ => None,
        }
    }
}

/// Reads the keyword `K` at the cursor.
pub struct KeywordParser<K>(PhantomData<K>);

impl<K: Keyword> Parser<K> for KeywordParser<K> {
    open spec fn outcome(&self, ts: Seq<TokenV>, eof: TokenV, moved: nat) -> (Result<Span, ParseErrorV>, nat) {
        keyword_outcome(K::name_spec(), tok_at(ts, eof, moved as int), moved)
    }

    fn parse(self, cursor: &mut TokenCursor) -> (r: ParseResult<K>) {
        proof {
            lemma_tokens_view_index(cursor.stream().tokens(), cursor.moved() as int);
            cursor.stream().lemma_len_bound();
        }
        let token = cursor.current();
        match K::from_token(token) {
            Some(keyword) => {
                cursor.advance();
                Ok(keyword)
            },
            None => Err(ParseError::UnexpectedToken { expected: K::name(), got: token.clone() }),
        }
    }
}

impl<K: Keyword> Parse for K {
    open spec fn parse_spec(ts: Seq<TokenV>, eof: TokenV) -> (Result<Span, ParseErrorV>, nat) {
        through_cursor(keyword_outcome(K::name_spec(), tok_at(ts, eof, 0), 0))
    }

    open spec fn could_parse_spec(ts: Seq<TokenV>, eof: TokenV) -> bool {
        keyword_span(K::name_spec(), tok_at(ts, eof, 0)) is Some
    }

    fn parse(stream: &mut ParseStream) -> (r: ParseResult<Self>) {
        stream.parse_with(KeywordParser(PhantomData))
    }

    fn could_parse(stream: &mut ParseStream) -> (b: bool) {
        K::from_token(stream.current()).is_some()
    }
}

/// The keyword `if`.
#[derive(Debug, PartialEq, Eq, Clone)]
pub struct If(pub(crate) Span);

impl View for If {
    type V = Span;

    closed spec fn view(&self) -> Span {
        self.0
    }
}

impl Spanned for If {
    open spec fn has_span(&self) -> bool {
        true
    }

    open spec fn span_of(&self) -> Span {
        self@
    }

    fn span(&self) -> (s: Span) {
        self.0
    }
}

impl Keyword for If {
    open spec fn name_spec() -> Seq<char> {
        "if"@
    }

    fn name() -> (s: &'static str) {
        "if"
    }

    fn new(span: Span) -> (k: Self) {
        Self(span)
    }
}

/// The keyword `mut`.
#[derive(Debug, PartialEq, Eq, Clone)]
pub struct Mut(pub(crate) Span);

impl View for Mut {
    type V = Span;

    closed spec fn view(&self) -> Span {
        self.0
    }
}

impl Spanned for Mut {
    open spec fn has_span(&self) -> bool {
        true
    }

    open spec fn span_of(&self) -> Span {
        self@
    }

    fn span(&self) -> (s: Span) {
        self.0
    }
}

impl Keyword for Mut {
    open spec fn name_spec() -> Seq<char> {
        "mut"@
    }

    fn name() -> (s: &'static str) {
        "mut"
    }

    fn new(span: Span) -> (k: Self) {
        Self(span)
    }
}

/// The keyword `else`.
#[derive(Debug, PartialEq, Eq, Clone)]
pub struct Else(pub(crate) Span);

impl View for Else {
    type V = Span;

    closed spec fn view(&self) -> Span {
        self.0
    }
}

impl Spanned for Else {
    open spec fn has_span(&self) -> bool {
        true
    }

    open spec fn span_of(&self) -> Span {
        self@
    }

    fn span(&self) -> (s: Span) {
        self.0
    }
}

impl Keyword for Else {
    open spec fn name_spec() -> Seq<char> {
        "else"@
    }

    fn name() -> (s: &'static str) {
        "else"
    }

    fn new(span: Span) -> (k: Self) {
        Self(span)
    }
}

/// The keyword `elif`.
#[derive(Debug, PartialEq, Eq, Clone)]
pub struct ElseIf(pub(crate) Span);

impl View for ElseIf {
    type V = Span;

    closed spec fn view(&self) -> Span {
        self.0
    }
}

impl Spanned for ElseIf {
    open spec fn has_span(&self) -> bool {
        true
    }

    open spec fn span_of(&self) -> Span {
        self@
    }

    fn span(&self) -> (s: Span) {
        self.0
    }
}

impl Keyword for ElseIf {
    open spec fn name_spec() -> Seq<char> {
        "elif"@
    }

    fn name() -> (s: &'static str) {
        "elif"
    }

    fn new(span: Span) -> (k: Self) {
        Self(span)
    }
}

/// The keyword `while`.
#[derive(Debug, PartialEq, Eq, Clone)]
pub struct While(pub(crate) Span);

impl View for While {
    type V = Span;

    closed spec fn view(&self) -> Span {
        self.0
    }
}

impl Spanned for While {
    open spec fn has_span(&self) -> bool {
        true
    }

    open spec fn span_of(&self) -> Span {
        self@
    }

    fn span(&self) -> (s: Span) {
        self.0
    }
}

impl Keyword for While {
    open spec fn name_spec() -> Seq<char> {
        "while"@
    }

    fn name() -> (s: &'static str) {
        "while"
    }

    fn new(span: Span) -> (k: Self) {
        Self(span)
    }
}

/// The keyword `for`.
#[derive(Debug, PartialEq, Eq, Clone)]
pub struct For(pub(crate) Span);

impl View for For {
    type V = Span;

    closed spec fn view(&self) -> Span {
        self.0
    }
}

impl Spanned for For {
    open spec fn has_span(&self) -> bool {
        true
    }

    open spec fn span_of(&self) -> Span {
        self@
    }

    fn span(&self) -> (s: Span) {
        self.0
    }
}

impl Keyword for For {
    open spec fn name_spec() -> Seq<char> {
        "for"@
    }

    fn name() -> (s: &'static str) {
        "for"
    }

    fn new(span: Span) -> (k: Self) {
        Self(span)
    }
}

/// The keyword `in`.
#[derive(Debug, PartialEq, Eq, Clone)]
pub struct In(pub(crate) Span);

impl View for In {
    type V = Span;

    closed spec fn view(&self) -> Span {
        self.0
    }
}

impl Spanned for In {
    open spec fn has_span(&self) -> bool {
        true
    }

    open spec fn span_of(&self) -> Span {
        self@
    }

    fn span(&self) -> (s: Span) {
        self.0
    }
}

impl Keyword for In {
    open spec fn name_spec() -> Seq<char> {
        "in"@
    }

    fn name() -> (s: &'static str) {
        "in"
    }

    fn new(span: Span) -> (k: Self) {
        Self(span)
    }
}

/// The keyword `break`.
#[derive(Debug, PartialEq, Eq, Clone)]
pub struct Break(pub(crate) Span);

impl View for Break {
    type V = Span;

    closed spec fn view(&self) -> Span {
        self.0
    }
}

impl Spanned for Break {
    open spec fn has_span(&self) -> bool {
        true
    }

    open spec fn span_of(&self) -> Span {
        self@
    }

    fn span(&self) -> (s: Span) {
        self.0
    }
}

impl Keyword for Break {
    open spec fn name_spec() -> Seq<char> {
        "break"@
    }

    fn name() -> (s: &'static str) {
        "break"
    }

    fn new(span: Span) -> (k: Self) {
        Self(span)
    }
}

/// The keyword `continue`.
#[derive(Debug, PartialEq, Eq, Clone)]
pub struct Continue(pub(crate) Span);

impl View for Continue {
    type V = Span;

    closed spec fn view(&self) -> Span {
        self.0
    }
}

impl Spanned for Continue {
    open spec fn has_span(&self) -> bool {
        true
    }

    open spec fn span_of(&self) -> Span {
        self@
    }

    fn span(&self) -> (s: Span) {
        self.0
    }
}

impl Keyword for Continue {
    open spec fn name_spec() -> Seq<char> {
        "continue"@
    }

    fn name() -> (s: &'static str) {
        "continue"
    }

    fn new(span: Span) -> (k: Self) {
        Self(span)
    }
}

/// The keyword `return`.
#[derive(Debug, PartialEq, Eq, Clone)]
pub struct Return(pub(crate) Span);

impl View for Return {
    type V = Span;

    closed spec fn view(&self) -> Span {
        self.0
    }
}

impl Spanned for Return {
    open spec fn has_span(&self) -> bool {
        true
    }

    open spec fn span_of(&self) -> Span {
        self@
    }

    fn span(&self) -> (s: Span) {
        self.0
    }
}

impl Keyword for Return {
    open spec fn name_spec() -> Seq<char> {
        "return"@
    }

    fn name() -> (s: &'static str) {
        "return"
    }

    fn new(span: Span) -> (k: Self) {
        Self(span)
    }
}

/// The keyword `fn`.
#[derive(Debug, PartialEq, Eq, Clone)]
pub struct Fn(pub(crate) Span);

impl View for Fn {
    type V = Span;

    closed spec fn view(&self) -> Span {
        self.0
    }
}

impl Spanned for Fn {
    open spec fn has_span(&self) -> bool {
        true
    }

    open spec fn span_of(&self) -> Span {
        self@
    }

    fn span(&self) -> (s: Span) {
        self.0
    }
}

impl Keyword for Fn {
    open spec fn name_spec() -> Seq<char> {
        "fn"@
    }

    fn name() -> (s: &'static str) {
        "fn"
    }

    fn new(span: Span) -> (k: Self) {
        Self(span)
    }
}

/// The keyword `let`.
#[derive(Debug, PartialEq, Eq, Clone)]
pub struct Let(pub(crate) Span);

impl View for Let {
    type V = Span;

    closed spec fn view(&self) -> Span {
        self.0
    }
}

impl Spanned for Let {
    open spec fn has_span(&self) -> bool {
        true
    }

    open spec fn span_of(&self) -> Span {
        self@
    }

    fn span(&self) -> (s: Span) {
        self.0
    }
}

impl Keyword for Let {
    open spec fn name_spec() -> Seq<char> {
        "let"@
    }

    fn name() -> (s: &'static str) {
        "let"
    }

    fn new(span: Span) -> (k: Self) {
        Self(span)
    }
}

/// The keyword `class`.
#[derive(Debug, PartialEq, Eq, Clone)]
pub struct Class(pub(crate) Span);

impl View for Class {
    type V = Span;

    closed spec fn view(&self) -> Span {
        self.0
    }
}

impl Spanned for Class {
    open spec fn has_span(&self) -> bool {
        true
    }

    open spec fn span_of(&self) -> Span {
        self@
    }

    fn span(&self) -> (s: Span) {
        self.0
    }
}

impl Keyword for Class {
    open spec fn name_spec() -> Seq<char> {
        "class"@
    }

    fn name() -> (s: &'static str) {
        "class"
    }

    fn new(span: Span) -> (k: Self) {
        Self(span)
    }
}

/// The keyword `enum`.
#[derive(Debug, PartialEq, Eq, Clone)]
pub struct Enum(pub(crate) Span);

impl View for Enum {
    type V = Span;

    closed spec fn view(&self) -> Span {
        self.0
    }
}

impl Spanned for Enum {
    open spec fn has_span(&self) -> bool {
        true
    }

    open spec fn span_of(&self) -> Span {
        self@
    }

    fn span(&self) -> (s: Span) {
        self.0
    }
}

impl Keyword for Enum {
    open spec fn name_spec() -> Seq<char> {
        "enum"@
    }

    fn name() -> (s: &'static str) {
        "enum"
    }

    fn new(span: Span) -> (k: Self) {
        Self(span)
    }
}

/// The keyword `struct`.
#[derive(Debug, PartialEq, Eq, Clone)]
pub struct Struct(pub(crate) Span);

impl View for Struct {
    type V = Span;

    closed spec fn view(&self) -> Span {
        self.0
    }
}

impl Spanned for Struct {
    open spec fn has_span(&self) -> bool {
        true
    }

    open spec fn span_of(&self) -> Span {
        self@
    }

    fn span(&self) -> (s: Span) {
        self.0
    }
}

impl Keyword for Struct {
    open spec fn name_spec() -> Seq<char> {
        "struct"@
    }

    fn name() -> (s: &'static str) {
        "struct"
    }

    fn new(span: Span) -> (k: Self) {
        Self(span)
    }
}

/// The keyword `impl`.
#[derive(Debug, PartialEq, Eq, Clone)]
pub struct Impl(pub(crate) Span);

impl View for Impl {
    type V = Span;

    closed spec fn view(&self) -> Span {
        self.0
    }
}

impl Spanned for Impl {
    open spec fn has_span(&self) -> bool {
        true
    }

    open spec fn span_of(&self) -> Span {
        self@
    }

    fn span(&self) -> (s: Span) {
        self.0
    }
}

impl Keyword for Impl {
    open spec fn name_spec() -> Seq<char> {
        "impl"@
    }

    fn name() -> (s: &'static str) {
        "impl"
    }

    fn new(span: Span) -> (k: Self) {
        Self(span)
    }
}

/// The keyword `this`.
#[derive(Debug, PartialEq, Eq, Clone)]
pub struct This(pub(crate) Span);

impl View for This {
    type V = Span;

    closed spec fn view(&self) -> Span {
        self.0
    }
}

impl Spanned for This {
    open spec fn has_span(&self) -> bool {
        true
    }

    open spec fn span_of(&self) -> Span {
        self@
    }

    fn span(&self) -> (s: Span) {
        self.0
    }
}

impl Keyword for This {
    open spec fn name_spec() -> Seq<char> {
        "this"@
    }

    fn name() -> (s: &'static str) {
        "this"
    }

    fn new(span: Span) -> (k: Self) {
        Self(span)
    }
}

/// The keyword `super`.
#[derive(Debug, PartialEq, Eq, Clone)]
pub struct Super(pub(crate) Span);

impl View for Super {
    type V = Span;

    closed spec fn view(&self) -> Span {
        self.0
    }
}

impl Spanned for Super {
    open spec fn has_span(&self) -> bool {
        true
    }

    open spec fn span_of(&self) -> Span {
        self@
    }

    fn span(&self) -> (s: Span) {
        self.0
    }
}

impl Keyword for Super {
    open spec fn name_spec() -> Seq<char> {
        "super"@
    }

    fn name() -> (s: &'static str) {
        "super"
    }

    fn new(span: Span) -> (k: Self) {
        Self(span)
    }
}

/// The keyword `loop`.
#[derive(Debug, PartialEq, Eq, Clone)]
pub struct Loop(pub(crate) Span);

impl View for Loop {
    type V = Span;

    closed spec fn view(&self) -> Span {
        self.0
    }
}

impl Spanned for Loop {
    open spec fn has_span(&self) -> bool {
        true
    }

    open spec fn span_of(&self) -> Span {
        self@
    }

    fn span(&self) -> (s: Span) {
        self.0
    }
}

impl Keyword for Loop {
    open spec fn name_spec() -> Seq<char> {
        "loop"@
    }

    fn name() -> (s: &'static str) {
        "loop"
    }

    fn new(span: Span) -> (k: Self) {
        Self(span)
    }
}

/// The keyword `mod`.
#[derive(Debug, PartialEq, Eq, Clone)]
pub struct Mod(pub(crate) Span);

impl View for Mod {
    type V = Span;

    closed spec fn view(&self) -> Span {
        self.0
    }
}

impl Spanned for Mod {
    open spec fn has_span(&self) -> bool {
        true
    }

    open spec fn span_of(&self) -> Span {
        self@
    }

    fn span(&self) -> (s: Span) {
        self.0
    }
}

impl Keyword for Mod {
    open spec fn name_spec() -> Seq<char> {
        "mod"@
    }

    fn name() -> (s: &'static str) {
        "mod"
    }

    fn new(span: Span) -> (k: Self) {
        Self(span)
    }
}

/// The keyword `use`.
#[derive(Debug, PartialEq, Eq, Clone)]
pub struct Use(pub(crate) Span);

impl View for Use {
    type V = Span;

    closed spec fn view(&self) -> Span {
        self.0
    }
}

impl Spanned for Use {
    open spec fn has_span(&self) -> bool {
        true
    }

    open spec fn span_of(&self) -> Span {
        self@
    }

    fn span(&self) -> (s: Span) {
        self.0
    }
}

impl Keyword for Use {
    open spec fn name_spec() -> Seq<char> {
        "use"@
    }

    fn name() -> (s: &'static str) {
        "use"
    }

    fn new(span: Span) -> (k: Self) {
        Self(span)
    }
}

} // verus!
