use vstd::prelude::*;

use crate::Span;
use crate::tokens::{Token, TokenV};

use self::stream::ParseStream;

pub mod stream;
pub mod ident;
pub mod keywords;
pub mod punct;
pub mod string;
pub mod expr;
pub mod number;
pub mod grouped;
pub mod separated;
pub mod path;
pub mod modules;
pub mod operations;
pub mod simple;

verus! {

/// Why a parse failed.
#[derive(Debug, PartialEq, Eq)]
pub enum ParseError {
    /// The token `got` stands where the named construct was expected.
    UnexpectedToken { expected: &'static str, got: Token },
    /// A literal that does not stand for a value.
    BadLiteral(String),
}

/// The mathematical value of a parse error.
pub enum ParseErrorV {
    UnexpectedToken { expected: Seq<char>, got: TokenV },
    BadLiteral(Seq<char>),
}

impl View for ParseError {
    type V = ParseErrorV;

    open spec fn view(&self) -> ParseErrorV {
        match self {
            ParseError::UnexpectedToken { expected, got } => ParseErrorV::UnexpectedToken {
                expected: expected@,
                got: got@,
            },
            ParseError::BadLiteral(s) => ParseErrorV::BadLiteral(s@),
        }
    }
}

pub type ParseResult<T> = Result<T, ParseError>;

/// The result `r` taken by its view.
pub open spec fn result_view<T: View>(r: ParseResult<T>) -> Result<T::V, ParseErrorV> {
    match r {
        Ok(v) => Ok(v@),
        Err(e) => Err(e@),
    }
}

/// The token at `i` of the tokens `ts` left in a stream, or the stream's end token `eof`
/// past them.
pub open spec fn tok_at(ts: Seq<TokenV>, eof: TokenV, i: int) -> TokenV {
    if 0 <= i < ts.len() {
        ts[i]
    } else {
        eof
    }
}

/// The error that a parse expecting `expected` reports on the token `got`.
pub open spec fn unexpected<V>(expected: Seq<char>, got: TokenV) -> Result<V, ParseErrorV> {
    Err(ParseErrorV::UnexpectedToken { expected, got })
}

/// What a parse through a cursor takes from the stream: the tokens the cursor moved
/// over when it succeeds, none when it fails.
pub open spec fn through_cursor<V>(o: (Result<V, ParseErrorV>, nat)) -> (Result<V, ParseErrorV>, nat) {
    (o.0, if o.0 is Ok {
        o.1
    } else {
        0
    })
}

/// A parse of the stream `before` ended in `after`, with the result `r`, as the
/// outcome `o` (a result and the number of tokens taken) says.
pub open spec fn parsed<V>(
    before: ParseStream,
    after: ParseStream,
    r: Result<V, ParseErrorV>,
    o: (Result<V, ParseErrorV>, nat),
) -> bool {
    &&& r == o.0
    &&& o.1 <= before@.0.len()
    &&& after@.0 == before@.0.skip(o.1 as int)
    &&& after@.1 == before@.1
}

/// Something that covers a stretch of the source.
pub trait Spanned {
    /// Whether the value has a span (a value without parts has none).
    spec fn has_span(&self) -> bool;

    /// The span of the value.
    spec fn span_of(&self) -> Span;

    fn span(&self) -> (s: Span)
        requires
            self.has_span(),
        ensures
            s == self.span_of(),
    ;
}

/// A construct that can be parsed from a token stream.
pub trait Parse: Sized + View + Spanned {
    /// What parsing does on the tokens `ts` left in a stream whose end token is `eof`:
    /// the result and the number of tokens taken (also when it fails).
    spec fn parse_spec(ts: Seq<TokenV>, eof: TokenV) -> (Result<Self::V, ParseErrorV>, nat);

    /// Whether the construct starts at the first token.
    spec fn could_parse_spec(ts: Seq<TokenV>, eof: TokenV) -> bool;

    fn parse(stream: &mut ParseStream) -> (r: ParseResult<Self>)
        requires
            old(stream).wf(),
        ensures
            final(stream).wf(),
            parsed(
                *old(stream),
                *final(stream),
                result_view(r),
                Self::parse_spec(old(stream)@.0, old(stream)@.1),
            ),
    ;

    fn could_parse(stream: &mut ParseStream) -> (b: bool)
        requires
            old(stream).wf(),
        ensures
            *final(stream) == *old(stream),
            b == Self::could_parse_spec(old(stream)@.0, old(stream)@.1),
    ;
}

} // verus!
