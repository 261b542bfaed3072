use vstd::prelude::*;

use crate::tokens::{Token, TokenType, TokenV};
use crate::tokens::stream::TokenStream;

use super::{Parse, ParseErrorV, ParseResult, parsed, result_view, tok_at, through_cursor};

verus! {

/// The tokens that the parsers read, front first.
pub struct ParseStream {
    tokens: TokenStream,
}

/// A token that a parser did not expect, and what it expected instead.
pub struct UnexpectedToken(String, Token);

impl View for ParseStream {
    type V = (Seq<TokenV>, TokenV);

    open spec fn view(&self) -> (Seq<TokenV>, TokenV) {
        self.token_stream()@
    }
}

/// The number of line breaks at the front of `ts`.
pub open spec fn newline_run(ts: Seq<TokenV>) -> nat
    decreases ts.len(),
{
    if ts.len() > 0 && ts[0].content is Newline {
        1 + newline_run(ts.drop_first())
    } else {
        0
    }
}

impl ParseStream {
    /// The tokens the stream holds.
    pub closed spec fn token_stream(&self) -> TokenStream {
        self.tokens
    }

    /// The end token is one, and every span starts below `usize::MAX`.
    pub open spec fn wf(&self) -> bool {
        &&& self.token_stream().wf()
        &&& self.token_stream().bounded()
    }

    /// A stream is well formed when its view says so.
    pub proof fn lemma_wf_from_view(&self)
        requires
            self@.1.content is EOF,
            crate::tokens::tokens_within(self@.0, usize::MAX - 1),
            crate::tokens::token_within(self@.1, usize::MAX - 1),
        ensures
            self.wf(),
    {
    }

    pub fn new(tokens: TokenStream) -> (stream: Self)
        requires
            tokens.wf(),
            tokens.bounded(),
        ensures
            stream.wf(),
            stream.token_stream() == tokens,
    {
        Self { tokens }
    }

    /// Parses a `T` from the front of the stream.
    pub fn parse<T: Parse>(&mut self) -> (r: ParseResult<T>)
        requires
            old(self).wf(),
        ensures
            final(self).wf(),
            parsed(*old(self), *final(self), result_view(r), T::parse_spec(old(self)@.0, old(self)@.1)),
    {
        T::parse(self)
    }

    /// A cursor at the front of the stream.
    pub fn cursor(&self) -> (c: TokenCursor<'_>)
        ensures
            c.stream() == self.token_stream(),
            c.moved() == 0,
    {
        TokenCursor::new(&self.tokens)
    }

    /// Runs `parser` on a cursor at the front of the stream; when it succeeds, the
    /// stream drops the tokens the cursor moved over.
    pub fn parse_with<T: View, P: Parser<T>>(&mut self, parser: P) -> (r: ParseResult<T>)
        requires
            old(self).wf(),
            parser.outcome(old(self)@.0, old(self)@.1, 0).0 is Ok ==> parser.outcome(
                old(self)@.0,
                old(self)@.1,
                0,
            ).1 <= old(self)@.0.len(),
        ensures
            final(self).wf(),
            parsed(
                *old(self),
                *final(self),
                result_view(r),
                through_cursor(parser.outcome(old(self)@.0, old(self)@.1, 0)),
            ),
    {
        let ghost old_ts = self.tokens@.0;
        proof {
            crate::tokens::lemma_tokens_view_index(self.tokens.tokens(), 0);
        }
        let mut cursor = TokenCursor::new(&self.tokens);
        let result = parser.parse(&mut cursor);
        let moved = cursor.moved;
        if result.is_ok() {
            self.tokens.advance_to(moved);
            proof {
                crate::tokens::lemma_tokens_view_skip(old(self).token_stream().tokens(), moved as int);
                crate::tokens::lemma_tokens_within_skip(old_ts, moved as int, usize::MAX - 1);
            }
        } else {
            assert(old_ts.skip(0) =~= old_ts);
        }
        result
    }

    /// Drops the first token, where one is left.
    pub(crate) fn drop_first(&mut self)
        requires
            old(self).wf(),
        ensures
            final(self).wf(),
            final(self)@.0 == old(self)@.0.skip(if old(self)@.0.len() > 0 {
                1int
            } else {
                0int
            }),
            final(self)@.1 == old(self)@.1,
    {
        let ghost old_ts = self.tokens@.0;
        if self.tokens.len() > 0 {
            self.tokens.advance_to(1);
            proof {
                crate::tokens::lemma_tokens_view_skip(old(self).token_stream().tokens(), 1);
                crate::tokens::lemma_tokens_within_skip(old_ts, 1, usize::MAX - 1);
            }
        } else {
            assert(old_ts.skip(0) =~= old_ts);
        }
    }

    /// Drops the line breaks at the front of the stream.
    pub fn skip_newlines(&mut self)
        requires
            old(self).wf(),
        ensures
            final(self).wf(),
            final(self)@.0 == old(self)@.0.skip(newline_run(old(self)@.0) as int),
            final(self)@.1 == old(self)@.1,
    {
        let ghost start = self.tokens@.0;
        let ghost mut k: nat = 0;
        proof {
            assert(start.skip(0) =~= start);
        }
        while matches!(self.tokens.current().content, TokenType::Newline)
            invariant
                self.wf(),
                self.tokens@.1 == old(self)@.1,
                start == old(self)@.0,
                k <= start.len(),
                self.tokens@.0 == start.skip(k as int),
                newline_run(start) == k + newline_run(start.skip(k as int)),
            decreases self.tokens.tokens().len(),
        {
            let ghost before = self.tokens.tokens();
            proof {
                crate::tokens::lemma_tokens_view_index(before, 0);
                crate::tokens::lemma_tokens_view_skip(before, 1);
                crate::tokens::lemma_tokens_within_skip(self.tokens@.0, 1, usize::MAX - 1);
                assert(start.skip(k as int).drop_first() =~= start.skip(k + 1int));
                assert(start.skip(k as int).skip(1) =~= start.skip(k + 1int));
            }
            self.tokens.advance();
            proof {
                k = k + 1;
            }
        }
        proof {
            crate::tokens::lemma_tokens_view_index(self.tokens.tokens(), 0);
        }
    }

    /// The first token, or the end token when none is left.
    pub fn current(&self) -> (t: &Token)
        ensures
            t@ == tok_at(self@.0, self@.1, 0),
    {
        proof {
            crate::tokens::lemma_tokens_view_index(self.tokens.tokens(), 0);
        }
        self.tokens.current()
    }

    /// A copy of the stream.
    pub fn copy(&self) -> (r: Self)
        ensures
            r@ == self@,
            self.wf() ==> r.wf(),
    {
        ParseStream { tokens: self.tokens.copy() }
    }
}

impl Clone for ParseStream {
    fn clone(&self) -> (r: Self)
        ensures
            r@ == self@,
            self.wf() ==> r.wf(),
    {
        self.copy()
    }
}

/// Reads a `T` through a cursor.
pub trait Parser<T: View>: Sized {
    /// What the parser does from a cursor that has moved `moved` tokens into the
    /// tokens `ts` (whose end token is `eof`): the result and where the cursor stops.
    spec fn outcome(&self, ts: Seq<TokenV>, eof: TokenV, moved: nat) -> (Result<T::V, ParseErrorV>, nat);

    fn parse(self, cursor: &mut TokenCursor) -> (r: ParseResult<T>)
        requires
            old(cursor).stream().wf(),
            old(cursor).stream().bounded(),
        ensures
            final(cursor).stream() == old(cursor).stream(),
            (result_view(r), final(cursor).moved()) == self.outcome(
                old(cursor).stream()@.0,
                old(cursor).stream()@.1,
                old(cursor).moved(),
            ),
    ;
}

/// A read position in a token stream that the stream does not see.
#[derive(Clone, Copy)]
pub struct TokenCursor<'a> {
    tokenstream: &'a TokenStream,
    moved: usize,
}

impl<'a> TokenCursor<'a> {
    /// The stream the cursor reads.
    pub closed spec fn stream(&self) -> TokenStream {
        *self.tokenstream
    }

    /// How many tokens the cursor has moved over.
    pub closed spec fn moved(&self) -> nat {
        self.moved as nat
    }

    fn new(tokenstream: &'a TokenStream) -> (c: Self)
        ensures
            c.stream() == *tokenstream,
            c.moved() == 0,
    {
        Self { tokenstream, moved: 0 }
    }

    /// The token at the cursor.
    pub fn current(&self) -> (t: &Token)
        ensures
            *t == self.stream().token_at(self.moved() as int),
    {
        self.tokenstream.nth(self.moved)
    }

    /// The token after the cursor.
    pub fn next(&self) -> (t: &Token)
        requires
            self.moved() < usize::MAX,
        ensures
            *t == self.stream().token_at(self.moved() + 1int),
    {
        self.tokenstream.nth(self.moved + 1)
    }

    /// The token `n` places after the cursor.
    pub fn nth(&self, n: usize) -> (t: &Token)
        requires
            self.moved() + n <= usize::MAX,
        ensures
            *t == self.stream().token_at(self.moved() + n as int),
    {
        self.tokenstream.nth(self.moved + n)
    }

    /// Moves one token on; tells whether the cursor then stands before a token other
    /// than the end.
    pub fn advance(&mut self) -> (b: bool)
        requires
            old(self).moved() < usize::MAX,
        ensures
            final(self).stream() == old(self).stream(),
            final(self).moved() == old(self).moved() + 1,
            b == !(final(self).stream().token_at(final(self).moved() as int).content is EOF),
    {
        self.moved = self.moved + 1;
        match &self.current().content {
            TokenType::EOF => false,
            _ => true,
        }
    }

    /// Runs `parser` on a copy of the cursor and moves on with it only when it succeeds.
    pub fn split<T: View, P: Parser<T>>(&mut self, parser: P) -> (r: ParseResult<T>)
        requires
            old(self).stream().wf(),
            old(self).stream().bounded(),
        ensures
            final(self).stream() == old(self).stream(),
            ({
                let (o, m) = parser.outcome(old(self).stream()@.0, old(self).stream()@.1, old(self).moved());
                &&& result_view(r) == o
                &&& final(self).moved() == if o is Ok {
                    m
                } else {
                    old(self).moved()
                }
            }),
    {
        let mut cursor = *self;
        let result = parser.parse(&mut cursor);
        if result.is_ok() {
            self.moved = cursor.moved;
        }
        result
    }

    /// Moves the cursor back to the front of the stream.
    pub fn reset(&mut self)
        ensures
            final(self).stream() == old(self).stream(),
            final(self).moved() == 0,
    {
        self.moved = 0;
    }
}

} // verus!
