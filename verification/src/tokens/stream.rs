use vstd::prelude::*;

use crate::Span;
use crate::file::SourceCursor;

use super::{Token, TokenError, TokenType, TokenTypeV, TokenV, Scan, lex_token, lemma_lex_token, tokens_view, room, token_within, tokens_within, lemma_within_mono, lemma_all_within_push, copy_tokens, copy_token};

verus! {

/// A sequence of tokens read from a text, and the end-of-text token after them.
#[derive(Debug, PartialEq, Eq)]
pub struct TokenStream {
    inner: Vec<Token>,
    eof: Token,
}

/// What the tokenizer reads from index `i` of `s` on, when the cursor has been
/// advanced `abs` times and `acc` has been read before: every token up to the first
/// end-of-text token, and that token; or the first error.
pub open spec fn lex_all(s: Seq<char>, i: int, abs: int, acc: Seq<TokenV>) -> Scan<(Seq<TokenV>, TokenV)>
    decreases s.len() - i,
{
    if !(0 <= i <= s.len()) {
        Scan::Stuck
    } else {
        let (t, e, a) = lex_token(s, i, abs);
        match t {
            Scan::Read(v) => if v.content is EOF {
                Scan::Read((acc, v))
            } else if i < e <= s.len() {
                lex_all(s, e, a, acc.push(v))
            } else {
                Scan::Stuck
            },
            Scan::Fail(err) => Scan::Fail(err),
            _ => Scan::Stuck,
        }
    }
}

/// Every token that `lex_all` reads from a position with room to spare has its
/// spans below `usize::MAX`.
pub proof fn lemma_lex_all(s: Seq<char>, i: int, abs: int, acc: Seq<TokenV>)
    requires
        0 <= i <= s.len(),
        0 <= abs,
        room(s, i, abs),
        tokens_within(acc, usize::MAX - 1),
    ensures
        lex_all(s, i, abs, acc) matches Scan::Read(v) ==> tokens_within(v.0, usize::MAX - 1)
            && token_within(v.1, usize::MAX - 1),
    decreases s.len() - i,
{
    lemma_lex_token(s, i, abs);
    let (t, e, a) = lex_token(s, i, abs);
    if let Scan::Read(v) = t {
        lemma_within_mono(v, a, usize::MAX - 1);
        if !(v.content is EOF) && i < e <= s.len() {
            lemma_all_within_push(acc, v, usize::MAX - 1);
            lemma_lex_all(s, e, a, acc.push(v));
        }
    }
}

/// The end-of-text token of a stream made of the tokens `ts`: it spans the one
/// position at the start of the last token (position 0 when there is none).
pub open spec fn end_token_after(ts: Seq<TokenV>) -> TokenV {
    let last: int = if ts.len() > 0 {
        ts.last().span.start as int
    } else {
        0
    };
    TokenV { content: TokenTypeV::EOF, span: Span { start: last as usize, end: (last + 1) as usize } }
}

/// Each token of `ts` ends at or before the start of the next.
pub open spec fn in_source_order(ts: Seq<TokenV>) -> bool {
    forall|k: int| 0 <= k < ts.len() - 1 ==> #[trigger] ts[k].span.end <= ts[k + 1].span.start
}

/// No token of `ts` is an end-of-text token.
pub open spec fn no_end_token(ts: Seq<TokenV>) -> bool {
    forall|k: int| 0 <= k < ts.len() ==> !(#[trigger] ts[k].content is EOF)
}

/// Reading a whole text gives its tokens in source order, none of them an end-of-text
/// token, followed by one end-of-text token that starts where the last token ends or
/// later; the tokens read before are kept in front.
pub proof fn law_lex_all_in_order(s: Seq<char>, i: int, abs: int, acc: Seq<TokenV>)
    requires
        0 <= i <= s.len(),
        0 <= abs,
        room(s, i, abs),
        in_source_order(acc),
        no_end_token(acc),
        acc.len() > 0 ==> acc.last().span.end <= abs,
    ensures
        lex_all(s, i, abs, acc) matches Scan::Read(v) ==> {
            &&& in_source_order(v.0)
            &&& no_end_token(v.0)
            &&& v.1.content is EOF
            &&& v.0.len() > 0 ==> v.0.last().span.end <= v.1.span.start
            &&& acc.len() <= v.0.len()
            &&& v.0.take(acc.len() as int) == acc
        },
    decreases s.len() - i,
{
    lemma_lex_token(s, i, abs);
    let (t, e, a) = lex_token(s, i, abs);
    if let Scan::Read(v) = t {
        if !(v.content is EOF) && i < e <= s.len() {
            let acc2 = acc.push(v);
            assert(in_source_order(acc2)) by {
                assert forall|k: int| 0 <= k < acc2.len() - 1 implies #[trigger] acc2[k].span.end
                    <= acc2[k + 1].span.start by {
                    if k < acc.len() - 1 {
                        assert(acc2[k] == acc[k] && acc2[k + 1] == acc[k + 1]);
                    }
                }
            }
            law_lex_all_in_order(s, e, a, acc2);
            if let Scan::Read(w) = lex_all(s, e, a, acc2) {
                assert(w.0.take(acc.len() as int) =~= w.0.take(acc2.len() as int).take(acc.len() as int));
                assert(acc2.take(acc.len() as int) =~= acc);
            }
        } else if v.content is EOF {
            assert(acc.take(acc.len() as int) =~= acc);
        }
    }
}

impl View for TokenStream {
    type V = (Seq<TokenV>, TokenV);

    open spec fn view(&self) -> (Seq<TokenV>, TokenV) {
        (tokens_view(self.tokens()), self.eof_token()@)
    }
}

impl TokenStream {
    /// The tokens not yet taken.
    pub closed spec fn tokens(&self) -> Seq<Token> {
        self.inner@
    }

    /// The token handed out once the others are taken.
    pub closed spec fn eof_token(&self) -> Token {
        self.eof
    }

    /// A stream holds at most `usize::MAX` tokens.
    pub proof fn lemma_len_bound(&self)
        ensures
            self.tokens().len() <= usize::MAX,
    {
        assert(self.inner.len() == self.inner@.len());
    }

    /// The end-of-text token is one.
    pub open spec fn wf(&self) -> bool {
        self.eof_token().content is EOF
    }

    /// Every span in the stream starts below `usize::MAX`.
    pub open spec fn bounded(&self) -> bool {
        &&& tokens_within(self@.0, usize::MAX - 1)
        &&& token_within(self@.1, usize::MAX - 1)
    }

    /// The token at `n`, or the end-of-text token past the last one.
    pub open spec fn token_at(&self, n: int) -> Token {
        if 0 <= n < self.tokens().len() {
            self.tokens()[n]
        } else {
            self.eof_token()
        }
    }

    /// A stream of the tokens of `vec`; its end-of-text token spans the one position
    /// at the start of the last token (position 0 when there is none).
    pub fn from_vec(vec: Vec<Token>) -> (stream: Self)
        requires
            vec@.len() > 0 ==> vec@.last().span.start < usize::MAX,
        ensures
            stream.wf(),
            stream.tokens() == vec@,
            ({
                let last: int = if vec@.len() > 0 {
                    vec@.last().span.start as int
                } else {
                    0
                };
                stream.eof_token().span == Span { start: last as usize, end: (last + 1) as usize }
            }),
            stream@ == (tokens_view(vec@), end_token_after(tokens_view(vec@))),
    {
        proof {
            crate::tokens::lemma_tokens_view_index(vec@, vec@.len() - 1);
        }
        let last: usize = if vec.len() > 0 {
            vec[vec.len() - 1].span.start
        } else {
            0
        };
        let eof = Token { span: Span::from(last..last + 1), content: TokenType::EOF };
        Self { inner: vec, eof }
    }

    /// Reads every token of `string`, up to the end of the text.
    pub fn from_string(string: &str) -> (r: Result<Self, TokenError>)
        requires
            2 * string@.len() + 6 <= usize::MAX,
            !(lex_all(string@, 0, 0, Seq::empty()) is Stuck),
        ensures
            match lex_all(string@, 0, 0, Seq::empty()) {
                Scan::Read(v) => r matches Ok(stream) && stream@ == v && stream.wf() && stream.bounded(),
                Scan::Fail(e) => r == Err::<Self, TokenError>(e),
                _ => false,
            },
    {
        let mut cursor = SourceCursor::new(string);
        let ghost s = string@;
        proof {
            lemma_lex_all(s, 0, 0, Seq::empty());
        }
        let mut vec: Vec<Token> = Vec::new();
        let ghost target = lex_all(s, 0, 0, Seq::empty());
        assert(tokens_view(vec@) =~= Seq::<TokenV>::empty());
        loop
            invariant
                cursor.wf(),
                cursor.text() == s,
                s == string@,
                2 * s.len() + 6 <= usize::MAX,
                target == lex_all(s, 0, 0, Seq::empty()),
                !(target is Stuck),
                target matches Scan::Read(v) ==> tokens_within(v.0, usize::MAX - 1) && token_within(
                    v.1,
                    usize::MAX - 1,
                ),
                target == lex_all(s, cursor.index() as int, cursor.absolute() as int, tokens_view(vec@)),
                cursor.index() < s.len() ==> cursor.absolute() == cursor.index(),
                cursor.index() == s.len() ==> cursor.absolute() <= 2 * s.len() + 2,
            decreases s.len() - cursor.index(),
        {
            let ghost k = cursor.index() as int;
            let ghost ak = cursor.absolute() as int;
            proof {
                lemma_lex_token(s, k, ak);
            }
            let token = match Token::try_read(&mut cursor) {
                Ok(t) => t,
                Err(e) => return Err(e),
            };
            if let TokenType::EOF = token.content {
                let stream = Self { inner: vec, eof: token };
                proof {
                    assert(stream@ == (tokens_view(vec@), token@));
                }
                return Ok(stream);
            }
            let ghost before = vec@;
            vec.push(token);
            proof {
                assert(vec@.drop_last() =~= before);
            }
        }
    }

    pub fn push(&mut self, token: Token)
        ensures
            final(self).tokens() == old(self).tokens().push(token),
            final(self).eof_token() == old(self).eof_token(),
    {
        self.inner.push(token);
    }

    /// The first token, or the end-of-text token when none is left.
    pub fn current(&self) -> (t: &Token)
        ensures
            *t == self.token_at(0),
    {
        self.nth(0)
    }

    /// The second token, or the end-of-text token when there is none.
    pub fn next(&self) -> (t: &Token)
        ensures
            *t == self.token_at(1),
    {
        self.nth(1)
    }

    /// The token at `n`, or the end-of-text token when there is none.
    pub fn nth(&self, n: usize) -> (t: &Token)
        ensures
            *t == self.token_at(n as int),
    {
        if n < self.inner.len() {
            &self.inner[n]
        } else {
            &self.eof
        }
    }

    /// Takes the first token; when none is left, a copy of the end-of-text token.
    pub fn advance(&mut self) -> (t: Token)
        ensures
            final(self).eof_token() == old(self).eof_token(),
            old(self).tokens().len() > 0 ==> t == old(self).tokens()[0] && final(self).tokens()
                == old(self).tokens().drop_first(),
            old(self).tokens().len() == 0 ==> t@ == old(self).eof_token()@ && final(self).tokens()
                == old(self).tokens(),
    {
        if self.inner.len() == 0 {
            self.eof.clone()
        } else {
            let t = self.inner.remove(0);
            proof {
                assert(self.inner@ =~= old(self).inner@.drop_first());
            }
            t
        }
    }

    /// Takes the first `n` tokens.
    pub fn advance_to(&mut self, n: usize) -> (taken: Vec<Token>)
        requires
            n <= old(self).tokens().len(),
        ensures
            taken@ == old(self).tokens().take(n as int),
            final(self).tokens() == old(self).tokens().skip(n as int),
            final(self).eof_token() == old(self).eof_token(),
    {
        let mut rest = self.inner.split_off(n);
        std::mem::swap(&mut self.inner, &mut rest);
        proof {
            assert(rest@ =~= old(self).inner@.take(n as int));
            assert(self.inner@ =~= old(self).inner@.skip(n as int));
        }
        rest
    }

    /// The number of tokens not yet taken.
    pub fn len(&self) -> (n: usize)
        ensures
            n == self.tokens().len(),
    {
        self.inner.len()
    }

    /// A copy of the stream, its tokens copied down to their groups' tokens.
    pub fn copy(&self) -> (r: Self)
        ensures
            r@ == self@,
            self.wf() ==> r.wf(),
    {
        TokenStream { inner: copy_tokens(&self.inner), eof: copy_token(&self.eof) }
    }

    /// The tokens not yet taken, in order.
    pub fn into_tokens(self) -> (v: Vec<Token>)
        ensures
            v@ == self.tokens(),
    {
        self.inner
    }
}

impl Clone for TokenStream {
    fn clone(&self) -> (r: Self)
        ensures
            r@ == self@,
            self.wf() ==> r.wf(),
    {
        self.copy()
    }
}

} // verus!
