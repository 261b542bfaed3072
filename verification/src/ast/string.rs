use vstd::prelude::*;

use crate::Span;
use crate::tokens::{TokenType, TokenTypeV, TokenV, copy_token, lemma_tokens_view_index};
use crate::tokens::literal::{TokenLiteral, TokenLiteralV};

use super::{Parse, ParseError, ParseErrorV, ParseResult, Spanned, through_cursor, tok_at, unexpected};
use super::stream::{ParseStream, Parser, TokenCursor};

verus! {

/// A string literal: its content and its span.
#[derive(Debug, PartialEq, Eq)]
pub struct LitString {
    pub value: String,
    span: Span,
}

impl View for LitString {
    type V = (Seq<char>, Span);

    closed spec fn view(&self) -> (Seq<char>, Span) {
        (self.value@, self.span)
    }
}

impl Clone for LitString {
    fn clone(&self) -> (r: Self)
        ensures
            r@ == self@,
    {
        LitString { value: self.value.clone(), span: self.span }
    }
}

impl LitString {
    /// The content, as the view has it.
    pub fn as_str(&self) -> (s: &str)
        ensures
            s@ == self@.0,
    {
        self.value.as_str()
    }
}

impl Spanned for LitString {
    open spec fn has_span(&self) -> bool {
        true
    }

    open spec fn span_of(&self) -> Span {
        self@.1
    }

    fn span(&self) -> (s: Span) {
        self.span
    }
}

/// What the string-literal parser does at the token `t`, the cursor having moved `m`.
pub open spec fn lit_string_outcome(t: TokenV, m: nat) -> (Result<(Seq<char>, Span), ParseErrorV>, nat) {
    match t.content {
        TokenTypeV::Literal(TokenLiteralV::String(_, content)) => (Ok((content, t.span)), m + 1),
        _ => (unexpected("string literal"@, t), m),
    }
}

/// Reads a string literal at the cursor.
pub struct LitStringParser;

impl Parser<LitString> for LitStringParser {
    open spec fn outcome(&self, ts: Seq<TokenV>, eof: TokenV, moved: nat) -> (Result<(Seq<char>, Span), ParseErrorV>, nat) {
        lit_string_outcome(tok_at(ts, eof, moved as int), moved)
    }

    fn parse(self, cursor: &mut TokenCursor) -> (r: ParseResult<LitString>) {
        proof {
            lemma_tokens_view_index(cursor.stream().tokens(), cursor.moved() as int);
            cursor.stream().lemma_len_bound();
        }
        let token = copy_token(cursor.current());
        match &token.content {
            TokenType::Literal(TokenLiteral::String(string)) => {
                let value = string.content.clone();
                cursor.advance();
                Ok(LitString { value, span: token.span })
            },
            _ => Err(ParseError::UnexpectedToken { expected: "string literal", got: token }),
        }
    }
}

impl Parse for LitString {
    open spec fn parse_spec(ts: Seq<TokenV>, eof: TokenV) -> (Result<(Seq<char>, Span), ParseErrorV>, nat) {
        through_cursor(lit_string_outcome(tok_at(ts, eof, 0), 0))
    }

    open spec fn could_parse_spec(ts: Seq<TokenV>, eof: TokenV) -> bool {
        tok_at(ts, eof, 0).content matches TokenTypeV::Literal(TokenLiteralV::String(_, _))
    }

    fn parse(stream: &mut ParseStream) -> (r: ParseResult<Self>) {
        stream.parse_with(LitStringParser)
    }

    fn could_parse(stream: &mut ParseStream) -> (b: bool) {
        match &stream.current().content {
            TokenType::Literal(TokenLiteral::String(_)) => true,
            _ => false,
        }
    }
}

} // verus!
