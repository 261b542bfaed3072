use vstd::prelude::*;

use crate::Span;
use crate::tokens::{TokenType, TokenTypeV, TokenV, copy_token, lemma_tokens_view_index, lemma_all_within_index, tokens_within, token_within};
use crate::tokens::group::Delim;
use crate::tokens::stream::{TokenStream, end_token_after};

use super::{Parse, ParseError, ParseErrorV, ParseResult, Spanned, through_cursor, tok_at, unexpected};
use super::stream::{ParseStream, Parser, TokenCursor};

verus! {

/// What the parser of a group delimited by `delim` (named `name`) does at the token
/// `t`, the cursor having moved `m`: the group's tokens, as a stream of their own.
pub open spec fn group_outcome(delim: Delim, name: Seq<char>, t: TokenV, m: nat) -> (Result<(Seq<TokenV>, TokenV), ParseErrorV>, nat) {
    match t.content {
        TokenTypeV::Group(d, inner) => if d == delim {
            (Ok((inner, end_token_after(inner))), m + 1)
        } else {
            (unexpected(name, t), m)
        },
        _ => (unexpected(name, t), m),
    }
}

/// What parsing a `C` inside a group delimited by `delim` (named `name`) does on the
/// tokens `ts`: the group token is taken, then a `C` is parsed from the group's tokens.
pub open spec fn grouped_spec<C: Parse>(delim: Delim, name: Seq<char>, ts: Seq<TokenV>, eof: TokenV) -> (Result<C::V, ParseErrorV>, nat) {
    let (o, n) = through_cursor(group_outcome(delim, name, tok_at(ts, eof, 0), 0));
    match o {
        Ok(inner) => (C::parse_spec(inner.0, inner.1).0, n),
        Err(e) => (Err(e), n),
    }
}

/// The tokens of a group at the front of a stream whose spans all start below
/// `usize::MAX` form a stream of the same kind.
pub proof fn lemma_group_stream(delim: Delim, name: Seq<char>, ts: Seq<TokenV>, eof: TokenV)
    requires
        tokens_within(ts, usize::MAX - 1),
        token_within(eof, usize::MAX - 1),
    ensures
        group_outcome(delim, name, tok_at(ts, eof, 0), 0).0 matches Ok(sv) ==> tokens_within(
            sv.0,
            usize::MAX - 1,
        ) && token_within(sv.1, usize::MAX - 1) && sv.1.content is EOF,
{
    if ts.len() > 0 {
        lemma_all_within_index(ts, usize::MAX - 1, 0);
    }
    if let TokenTypeV::Group(d, inner) = tok_at(ts, eof, 0).content {
        if inner.len() > 0 {
            lemma_all_within_index(inner, usize::MAX - 1, inner.len() - 1);
        }
    }
}

/// Reads a group token with the delimiter `delim` at the cursor and gives its tokens
/// as a stream.
pub struct GroupParser {
    pub delim: Delim,
    pub name: &'static str,
}

impl Parser<ParseStream> for GroupParser {
    open spec fn outcome(&self, ts: Seq<TokenV>, eof: TokenV, moved: nat) -> (Result<(Seq<TokenV>, TokenV), ParseErrorV>, nat) {
        group_outcome(self.delim, self.name@, tok_at(ts, eof, moved as int), moved)
    }

    fn parse(self, cursor: &mut TokenCursor) -> (r: ParseResult<ParseStream>) {
        proof {
            lemma_tokens_view_index(cursor.stream().tokens(), cursor.moved() as int);
            cursor.stream().lemma_len_bound();
            if cursor.moved() < cursor.stream().tokens().len() {
                lemma_all_within_index(cursor.stream()@.0, usize::MAX - 1, cursor.moved() as int);
            }
        }
        let token = copy_token(cursor.current());
        match token.content {
            TokenType::Group(group) => {
                if group.delim == self.delim {
                    let ghost inner = crate::tokens::tokens_view(group.tokens@);
                    proof {
                        lemma_tokens_view_index(group.tokens@, group.tokens@.len() - 1);
                        if inner.len() > 0 {
                            lemma_all_within_index(inner, usize::MAX - 1, inner.len() - 1);
                        }
                    }
                    cursor.advance();
                    let tokens = TokenStream::from_vec(group.tokens);
                    Ok(ParseStream::new(tokens))
                } else {
                    Err(ParseError::UnexpectedToken { expected: self.name, got: cursor.current().clone() })
                }
            },
            _ => Err(ParseError::UnexpectedToken { expected: self.name, got: cursor.current().clone() }),
        }
    }
}

/// Parses a `C` from the tokens of a group delimited by `delim` at the front of the
/// stream.
pub fn parse_grouped<C: Parse>(stream: &mut ParseStream, delim: Delim, name: &'static str) -> (r: ParseResult<C>)
    requires
        old(stream).wf(),
    ensures
        final(stream).wf(),
        super::parsed(
            *old(stream),
            *final(stream),
            super::result_view(r),
            grouped_spec::<C>(delim, name@, old(stream)@.0, old(stream)@.1),
        ),
{
    proof {
        lemma_group_stream(delim, name@, stream@.0, stream@.1);
    }
    let mut inner = match stream.parse_with(GroupParser { delim, name }) {
        Ok(s) => s,
        Err(e) => return Err(e),
    };
    proof {
        inner.lemma_wf_from_view();
    }
    inner.parse::<C>()
}

/// Whether a group delimited by `delim` is at the front of the stream.
pub fn could_parse_grouped(stream: &mut ParseStream, delim: Delim) -> (b: bool)
    ensures
        *final(stream) == *old(stream),
        b == (tok_at(old(stream)@.0, old(stream)@.1, 0).content matches TokenTypeV::Group(d, _) && d == delim),
{
    match &stream.current().content {
        TokenType::Group(group) => group.delim == delim,
        _ => false,
    }
}

/// A `C` read from the tokens inside parentheses.
#[derive(Debug, PartialEq, Eq)]
pub struct Parenthesized<C: Parse>(pub Box<C>);

impl<C: Parse> View for Parenthesized<C> {
    type V = C::V;

    open spec fn view(&self) -> C::V {
        self.0@
    }
}

impl<C: Parse> Spanned for Parenthesized<C> {
    open spec fn has_span(&self) -> bool {
        self.0.has_span()
    }

    open spec fn span_of(&self) -> Span {
        self.0.span_of()
    }

    fn span(&self) -> (s: Span) {
        self.0.span()
    }
}

impl<C: Parse> Parse for Parenthesized<C> {
    open spec fn parse_spec(ts: Seq<TokenV>, eof: TokenV) -> (Result<C::V, ParseErrorV>, nat) {
        grouped_spec::<C>(Delim::Paren, "Parenthesized"@, ts, eof)
    }

    open spec fn could_parse_spec(ts: Seq<TokenV>, eof: TokenV) -> bool {
        tok_at(ts, eof, 0).content matches TokenTypeV::Group(d, _) && d == Delim::Paren
    }

    fn parse(stream: &mut ParseStream) -> (r: ParseResult<Self>) {
        match parse_grouped::<C>(stream, Delim::Paren, "Parenthesized") {
            Ok(c) => Ok(Parenthesized(Box::new(c))),
            Err(e) => Err(e),
        }
    }

    fn could_parse(stream: &mut ParseStream) -> (b: bool) {
        could_parse_grouped(stream, Delim::Paren)
    }
}

/// A `C` read from the tokens inside brackets.
#[derive(Debug, PartialEq, Eq)]
pub struct Bracketed<C: Parse>(pub Box<C>);

impl<C: Parse> View for Bracketed<C> {
    type V = C::V;

    open spec fn view(&self) -> C::V {
        self.0@
    }
}

impl<C: Parse> Spanned for Bracketed<C> {
    open spec fn has_span(&self) -> bool {
        self.0.has_span()
    }

    open spec fn span_of(&self) -> Span {
        self.0.span_of()
    }

    fn span(&self) -> (s: Span) {
        self.0.span()
    }
}

impl<C: Parse> Parse for Bracketed<C> {
    open spec fn parse_spec(ts: Seq<TokenV>, eof: TokenV) -> (Result<C::V, ParseErrorV>, nat) {
        grouped_spec::<C>(Delim::Bracket, "Bracketed"@, ts, eof)
    }

    open spec fn could_parse_spec(ts: Seq<TokenV>, eof: TokenV) -> bool {
        tok_at(ts, eof, 0).content matches TokenTypeV::Group(d, _) && d == Delim::Bracket
    }

    fn parse(stream: &mut ParseStream) -> (r: ParseResult<Self>) {
        match parse_grouped::<C>(stream, Delim::Bracket, "Bracketed") {
            Ok(c) => Ok(Bracketed(Box::new(c))),
            Err(e) => Err(e),
        }
    }

    fn could_parse(stream: &mut ParseStream) -> (b: bool) {
        could_parse_grouped(stream, Delim::Bracket)
    }
}

/// A `C` read from the tokens inside braces.
#[derive(Debug, PartialEq, Eq)]
pub struct Braced<C: Parse>(pub Box<C>);

impl<C: Parse> View for Braced<C> {
    type V = C::V;

    open spec fn view(&self) -> C::V {
        self.0@
    }
}

impl<C: Parse> Spanned for Braced<C> {
    open spec fn has_span(&self) -> bool {
        self.0.has_span()
    }

    open spec fn span_of(&self) -> Span {
        self.0.span_of()
    }

    fn span(&self) -> (s: Span) {
        self.0.span()
    }
}

impl<C: Parse> Parse for Braced<C> {
    open spec fn parse_spec(ts: Seq<TokenV>, eof: TokenV) -> (Result<C::V, ParseErrorV>, nat) {
        grouped_spec::<C>(Delim::Brace, "Braced"@, ts, eof)
    }

    open spec fn could_parse_spec(ts: Seq<TokenV>, eof: TokenV) -> bool {
        tok_at(ts, eof, 0).content matches TokenTypeV::Group(d, _) && d == Delim::Brace
    }

    fn parse(stream: &mut ParseStream) -> (r: ParseResult<Self>) {
        match parse_grouped::<C>(stream, Delim::Brace, "Braced") {
            Ok(c) => Ok(Braced(Box::new(c))),
            Err(e) => Err(e),
        }
    }

    fn could_parse(stream: &mut ParseStream) -> (b: bool) {
        could_parse_grouped(stream, Delim::Brace)
    }
}

/// The view of a grouped construct: which delimiter, and the view of what is inside.
pub enum ExprGroupedV<V> {
    Parenthesized(V),
    Bracketed(V),
    Braced(V),
}

/// A `C` inside parentheses, brackets or braces.
#[derive(Debug, PartialEq, Eq)]
pub enum ExprGrouped<C: Parse> {
    Parenthesized(Parenthesized<C>),
    Bracketed(Bracketed<C>),
    Braced(Braced<C>),
}

impl<C: Parse> View for ExprGrouped<C> {
    type V = ExprGroupedV<C::V>;

    open spec fn view(&self) -> ExprGroupedV<C::V> {
        match self {
            ExprGrouped::Parenthesized(p) => ExprGroupedV::Parenthesized(p@),
            ExprGrouped::Bracketed(b) => ExprGroupedV::Bracketed(b@),
            ExprGrouped::Braced(b) => ExprGroupedV::Braced(b@),
        }
    }
}

impl<C: Parse> Spanned for ExprGrouped<C> {
    open spec fn has_span(&self) -> bool {
        match self {
            ExprGrouped::Parenthesized(p) => p.has_span(),
            ExprGrouped::Bracketed(b) => b.has_span(),
            ExprGrouped::Braced(b) => b.has_span(),
        }
    }

    open spec fn span_of(&self) -> Span {
        match self {
            ExprGrouped::Parenthesized(p) => p.span_of(),
            ExprGrouped::Bracketed(b) => b.span_of(),
            ExprGrouped::Braced(b) => b.span_of(),
        }
    }

    fn span(&self) -> (s: Span) {
        match self {
            ExprGrouped::Parenthesized(p) => p.span(),
            ExprGrouped::Bracketed(b) => b.span(),
            ExprGrouped::Braced(b) => b.span(),
        }
    }
}

/// What parsing a grouped `C` does: parentheses are tried, then brackets, then braces,
/// each on what the tries before it left.
pub open spec fn expr_grouped_spec<C: Parse>(ts: Seq<TokenV>, eof: TokenV) -> (Result<ExprGroupedV<C::V>, ParseErrorV>, nat) {
    let o1 = grouped_spec::<C>(Delim::Paren, "Parenthesized"@, ts, eof);
    let ts1 = ts.skip(o1.1 as int);
    let o2 = grouped_spec::<C>(Delim::Bracket, "Bracketed"@, ts1, eof);
    let ts2 = ts1.skip(o2.1 as int);
    let o3 = grouped_spec::<C>(Delim::Brace, "Braced"@, ts2, eof);
    if o1.0 is Ok {
        (Ok(ExprGroupedV::Parenthesized(o1.0->Ok_0)), o1.1)
    } else if o2.0 is Ok {
        (Ok(ExprGroupedV::Bracketed(o2.0->Ok_0)), o1.1 + o2.1)
    } else if o3.0 is Ok {
        (Ok(ExprGroupedV::Braced(o3.0->Ok_0)), o1.1 + o2.1 + o3.1)
    } else {
        (Err(o3.0->Err_0), o1.1 + o2.1 + o3.1)
    }
}

impl<C: Parse> Parse for ExprGrouped<C> {
    open spec fn parse_spec(ts: Seq<TokenV>, eof: TokenV) -> (Result<ExprGroupedV<C::V>, ParseErrorV>, nat) {
        expr_grouped_spec::<C>(ts, eof)
    }

    open spec fn could_parse_spec(ts: Seq<TokenV>, eof: TokenV) -> bool {
        tok_at(ts, eof, 0).content matches TokenTypeV::Group(d, _) && (d == Delim::Paren || d
            == Delim::Bracket || d == Delim::Brace)
    }

    fn parse(stream: &mut ParseStream) -> (r: ParseResult<Self>) {
        let ghost ts = stream@.0;
        let ghost eof = stream@.1;
        let ghost n1 = Parenthesized::<C>::parse_spec(ts, eof).1;
        if let Ok(paren) = stream.parse::<Parenthesized<C>>() {
            return Ok(Self::Parenthesized(paren));
        }
        let ghost ts1 = stream@.0;
        let ghost n2 = Bracketed::<C>::parse_spec(ts1, eof).1;
        if let Ok(bracket) = stream.parse::<Bracketed<C>>() {
            proof {
                assert(ts1.skip(n2 as int) =~= ts.skip((n1 + n2) as int));
            }
            return Ok(Self::Bracketed(bracket));
        }
        let ghost ts2 = stream@.0;
        let ghost n3 = Braced::<C>::parse_spec(ts2, eof).1;
        let r = match stream.parse::<Braced<C>>() {
            Ok(brace) => Ok(Self::Braced(brace)),
            Err(e) => Err(e),
        };
        proof {
            assert(ts2.skip(n3 as int) =~= ts.skip((n1 + n2 + n3) as int));
        }
        r
    }

    fn could_parse(stream: &mut ParseStream) -> (b: bool) {
        Parenthesized::<C>::could_parse(stream) || Bracketed::<C>::could_parse(stream)
            || Braced::<C>::could_parse(stream)
    }
}

} // verus!
