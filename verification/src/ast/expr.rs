use vstd::prelude::*;

use crate::Span;
use crate::text::str_eq;
use crate::tokens::{TokenType, TokenTypeV, TokenV, copy_token, lemma_tokens_view_index};

use super::{Parse, ParseError, ParseErrorV, ParseResult, Spanned, through_cursor, tok_at, unexpected};
use super::stream::{ParseStream, Parser, TokenCursor};

verus! {

/// A boolean literal: `true` or `false`, unescaped.
#[derive(Debug, Clone, Copy, PartialEq, Eq, Structural)]
pub struct LitBool {
    pub value: bool,
    pub span: Span,
}

impl View for LitBool {
    type V = (bool, Span);

    open spec fn view(&self) -> (bool, Span) {
        (self.value, self.span)
    }
}

impl Spanned for LitBool {
    open spec fn has_span(&self) -> bool {
        true
    }

    open spec fn span_of(&self) -> Span {
        self.span
    }

    fn span(&self) -> (s: Span) {
        self.span
    }
}

/// Whether the token `t` is the word `true` or `false`, unescaped.
pub open spec fn bool_token(t: TokenV) -> bool {
    t.content matches TokenTypeV::Ident(iv) && !iv.escaped && (iv.name == "true"@ || iv.name
        == "false"@)
}

/// What the boolean parser does at the token `t`, the cursor having moved `m`.
pub open spec fn lit_bool_outcome(t: TokenV, m: nat) -> (Result<(bool, Span), ParseErrorV>, nat) {
    match t.content {
        TokenTypeV::Ident(iv) => if bool_token(t) {
            (Ok((iv.name == "true"@, t.span)), m + 1)
        } else {
            (unexpected("bool"@, t), m)
        },
        _ => (unexpected("bool"@, t), m),
    }
}

/// Reads a boolean literal at the cursor.
pub struct LitBoolParser;

impl Parser<LitBool> for LitBoolParser {
    open spec fn outcome(&self, ts: Seq<TokenV>, eof: TokenV, moved: nat) -> (Result<(bool, Span), ParseErrorV>, nat) {
        lit_bool_outcome(tok_at(ts, eof, moved as int), moved)
    }

    fn parse(self, cursor: &mut TokenCursor) -> (r: ParseResult<LitBool>) {
        proof {
            lemma_tokens_view_index(cursor.stream().tokens(), cursor.moved() as int);
            cursor.stream().lemma_len_bound();
        }
        let token = copy_token(cursor.current());
        match &token.content {
            TokenType::Ident(ident) => {
                let name = ident.name.as_str();
                if !ident.escaped && (str_eq(name, "true") || str_eq(name, "false")) {
                    let value = str_eq(name, "true");
                    cursor.advance();
                    Ok(LitBool { value, span: token.span })
                } else {
                    Err(ParseError::UnexpectedToken { expected: "bool", got: token })
                }
            },
            _ => Err(ParseError::UnexpectedToken { expected: "bool", got: token }),
        }
    }
}

impl Parse for LitBool {
    open spec fn parse_spec(ts: Seq<TokenV>, eof: TokenV) -> (Result<(bool, Span), ParseErrorV>, nat) {
        through_cursor(lit_bool_outcome(tok_at(ts, eof, 0), 0))
    }

    open spec fn could_parse_spec(ts: Seq<TokenV>, eof: TokenV) -> bool {
        bool_token(tok_at(ts, eof, 0))
    }

    fn parse(stream: &mut ParseStream) -> (r: ParseResult<Self>) {
        stream.parse_with(LitBoolParser)
    }

    fn could_parse(stream: &mut ParseStream) -> (b: bool) {
        match &stream.current().content {
            TokenType::Ident(ident) => !ident.escaped && (str_eq(ident.name.as_str(), "true")
                || str_eq(ident.name.as_str(), "false")),
            _ => false,
        }
    }
}

} // verus!
