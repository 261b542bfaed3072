use vstd::prelude::*;

use crate::Span;
use crate::text::{str_eq, push_char, push_str};
use crate::tokens::{TokenType, TokenTypeV, TokenV, copy_token, lemma_tokens_view_index};

use super::{Parse, ParseError, ParseErrorV, ParseResult, Spanned, through_cursor, tok_at, unexpected};
use super::stream::{ParseStream, Parser, TokenCursor};

verus! {

/// A name: an identifier token that is not a keyword, unless it is escaped.
#[derive(Debug)]
pub struct Ident {
    pub name: String,
    span: Span,
}

impl View for Ident {
    type V = (Seq<char>, Span);

    closed spec fn view(&self) -> (Seq<char>, Span) {
        (self.name@, self.span)
    }
}

impl PartialEq for Ident {
    fn eq(&self, other: &Self) -> (r: bool) {
        self.name == other.name
    }
}

impl vstd::std_specs::cmp::PartialEqSpecImpl for Ident {
    open spec fn obeys_eq_spec() -> bool {
        true
    }

    closed spec fn eq_spec(&self, other: &Self) -> bool {
        self.name@ == other.name@
    }
}

impl Eq for Ident {

}

impl Clone for Ident {
    fn clone(&self) -> (r: Self)
        ensures
            r@ == self@,
    {
        Ident { name: self.name.clone(), span: self.span }
    }
}

impl Ident {
    /// The name, as the view has it.
    pub fn as_str(&self) -> (s: &str)
        ensures
            s@ == self@.0,
    {
        self.name.as_str()
    }

    /// The name between backquotes, as messages show it.
    pub fn display(&self) -> (s: String)
        ensures
            s@ == seq!['`'] + self@.0 + seq!['`'],
    {
        let mut s = String::new();
        push_char(&mut s, '`');
        push_str(&mut s, self.name.as_str());
        push_char(&mut s, '`');
        s
    }
}

impl Spanned for Ident {
    open spec fn has_span(&self) -> bool {
        true
    }

    open spec fn span_of(&self) -> Span {
        self@.1
    }

    fn span(&self) -> (s: Span) {
        self.span
    }
}

/// The words that only an escaped identifier can use as a name.
pub open spec fn keyword_name(s: Seq<char>) -> bool {
    ||| s == "let"@
    ||| s == "fn"@
    ||| s == "if"@
    ||| s == "else"@
    ||| s == "while"@
    ||| s == "for"@
    ||| s == "in"@
    ||| s == "return"@
    ||| s == "break"@
    ||| s == "continue"@
    ||| s == "mut"@
    ||| s == "true"@
    ||| s == "false"@
}

/// Whether `ident` is a keyword.
pub fn is_keyword(ident: &str) -> (b: bool)
    ensures
        b == keyword_name(ident@),
{
    str_eq(ident, "let") || str_eq(ident, "fn") || str_eq(ident, "if") || str_eq(ident, "else")
        || str_eq(ident, "while") || str_eq(ident, "for") || str_eq(ident, "in") || str_eq(
        ident,
        "return",
    ) || str_eq(ident, "break") || str_eq(ident, "continue") || str_eq(ident, "mut") || str_eq(
        ident,
        "true",
    ) || str_eq(ident, "false")
}

/// What the identifier parser does at the token `t`, the cursor having moved `m`.
pub open spec fn ident_outcome(t: TokenV, m: nat) -> (Result<(Seq<char>, Span), ParseErrorV>, nat) {
    match t.content {
        TokenTypeV::Ident(iv) => if keyword_name(iv.name) && !iv.escaped {
            (unexpected("identifier"@, t), m)
        } else {
            (Ok((iv.name, t.span)), m + 1)
        },
        _ => (unexpected("identifier"@, t), m),
    }
}

/// An identifier token reads as a name exactly when it is escaped or is no keyword,
/// and a name that is read takes one token.
pub proof fn law_escaped_names_are_identifiers(t: TokenV, m: nat)
    ensures
        t.content matches TokenTypeV::Ident(iv) ==> (ident_outcome(t, m).0 is Ok <==> (iv.escaped
            || !keyword_name(iv.name))),
        !(t.content is Ident) ==> ident_outcome(t, m).0 is Err,
        ident_outcome(t, m).0 is Ok ==> ident_outcome(t, m).1 == m + 1,
        ident_outcome(t, m).0 is Err ==> ident_outcome(t, m).1 == m,
{
}

/// Reads an identifier at the cursor.
pub struct IdentParser;

impl Parser<Ident> for IdentParser {
    open spec fn outcome(&self, ts: Seq<TokenV>, eof: TokenV, moved: nat) -> (Result<(Seq<char>, Span), ParseErrorV>, nat) {
        ident_outcome(tok_at(ts, eof, moved as int), moved)
    }

    fn parse(self, cursor: &mut TokenCursor) -> (r: ParseResult<Ident>) {
        proof {
            lemma_tokens_view_index(cursor.stream().tokens(), cursor.moved() as int);
            cursor.stream().lemma_len_bound();
        }
        let token = copy_token(cursor.current());
        match &token.content {
            TokenType::Ident(ident) => {
                if is_keyword(ident.name.as_str()) && !ident.escaped {
                    return Err(ParseError::UnexpectedToken { expected: "identifier", got: token });
                }
                let name = ident.name.clone();
                cursor.advance();
                Ok(Ident { name, span: token.span })
            },
            _ => Err(ParseError::UnexpectedToken { expected: "identifier", got: token }),
        }
    }
}

impl Parse for Ident {
    open spec fn parse_spec(ts: Seq<TokenV>, eof: TokenV) -> (Result<(Seq<char>, Span), ParseErrorV>, nat) {
        through_cursor(ident_outcome(tok_at(ts, eof, 0), 0))
    }

    open spec fn could_parse_spec(ts: Seq<TokenV>, eof: TokenV) -> bool {
        tok_at(ts, eof, 0).content matches TokenTypeV::Ident(iv) && !iv.escaped && !keyword_name(iv.name)
    }

    fn parse(stream: &mut ParseStream) -> (r: ParseResult<Self>) {
        stream.parse_with(IdentParser)
    }

    fn could_parse(stream: &mut ParseStream) -> (b: bool) {
        match &stream.current().content {
            TokenType::Ident(ident) => !ident.escaped && !is_keyword(ident.name.as_str()),
            _ => false,
        }
    }
}

} // verus!
