use vstd::prelude::*;

use crate::file::{SourceCursor, moved_to};

use super::{Token, TokenResult, TokenV, Scan, result_is, tokens_view, group_at, group_items, group_delim, lemma_lex_token};

verus! {

#[derive(Debug, Clone, Copy, PartialEq, Eq, Structural)]
pub enum Delim {
    Paren,
    Bracket,
    Brace,
    Angle,
}

#[derive(Debug, PartialEq, Eq)]
pub struct TokenGroup {
    pub delim: Delim,
    pub tokens: Vec<Token>,
}

impl View for TokenGroup {
    type V = (Delim, Seq<TokenV>);

    open spec fn view(&self) -> (Delim, Seq<TokenV>) {
        (self.delim, tokens_view(self.tokens@))
    }
}

impl TokenGroup {
    /// Reads a group: an opening `(`, `[`, `{` or `<`, the tokens up to the matching
    /// closing character, and that character. A group that the text ends inside is no
    /// group: the result is then `None`, with the cursor at the end of the text.
    pub fn try_read(cursor: &mut SourceCursor) -> (r: TokenResult<Self>)
        requires
            old(cursor).wf(),
            old(cursor).has_room(),
            !(group_at(old(cursor).text(), old(cursor).index() as int, old(cursor).absolute() as int).0 is Stuck),
        ensures
            ({
                let (o, e, a) = group_at(
                    old(cursor).text(),
                    old(cursor).index() as int,
                    old(cursor).absolute() as int,
                );
                &&& result_is(r, o)
                &&& moved_to(*final(cursor), *old(cursor), e, a)
            }),
        decreases old(cursor).text().len() - old(cursor).index(), 0int,
    {
        let ghost s = cursor.text();
        let ghost i = cursor.index() as int;
        let ghost abs = cursor.absolute() as int;
        let c = cursor.current();
        let (delim, close) = if c == '(' {
            (Delim::Paren, ')')
        } else if c == '[' {
            (Delim::Bracket, ']')
        } else if c == '{' {
            (Delim::Brace, '}')
        } else if c == '<' {
            (Delim::Angle, '>')
        } else {
            return Ok(None);
        };
        assert(group_delim(s[i]) == Some((delim, close)));
        cursor.advance();
        let mut tokens: Vec<Token> = Vec::new();
        let ghost target = group_at(s, i, abs);
        assert(tokens_view(tokens@) =~= Seq::<TokenV>::empty());
        loop
            invariant_except_break
                cursor.index() < s.len() ==> cursor.absolute() == abs + (cursor.index() - i),
                target == group_items(
                    s,
                    cursor.index() as int,
                    cursor.absolute() as int,
                    delim,
                    close,
                    tokens_view(tokens@),
                ),
                i + 1 <= cursor.index() <= s.len(),
            invariant
                cursor.wf(),
                cursor.text() == s,
                s == old(cursor).text(),
                i == old(cursor).index(),
                abs == old(cursor).absolute(),
                0 <= i < s.len(),
                close != crate::file::EOF,
                target == group_at(s, i, abs),
                !(target.0 is Stuck),
                abs - 2 * i + 2 * s.len() + 4 <= usize::MAX,
            ensures
                cursor.wf(),
                cursor.text() == s,
                cursor.index() < s.len() ==> cursor.absolute() == abs + (cursor.index() - i),
                cursor.index() <= s.len(),
                cursor.index() < s.len() ==> cursor.spec_current() == close,
                cursor.index() >= s.len() ==> target == (
                    Scan::<(Delim, Seq<TokenV>)>::Absent,
                    cursor.index() as int,
                    cursor.absolute() as int,
                ),
                cursor.index() < s.len() ==> target == (
                    Scan::Read((delim, tokens_view(tokens@))),
                    cursor.index() + 1int,
                    cursor.absolute() + 1int,
                ),
            decreases s.len() - cursor.index(),
        {
            let ghost k = cursor.index() as int;
            let ghost ak = cursor.absolute() as int;
            proof {
                crate::file::lemma_blank_run_end(s, k);
                cursor.lemma_absolute_bound();
            }
            cursor.skip_whitespaces();
            if cursor.current() == close || cursor.eof() {
                break;
            }
            let ghost j = cursor.index() as int;
            let ghost aj = cursor.absolute() as int;
            proof {
                lemma_lex_token(s, j, aj);
            }
            let t = match Token::try_read(cursor) {
                Ok(t) => t,
                Err(e) => return Err(e),
            };
            let ghost before = tokens@;
            tokens.push(t);
            proof {
                assert(tokens@.drop_last() =~= before);
            }
        }
        if cursor.eof() {
            return Ok(None);
        }
        cursor.advance();
        Ok(Some(TokenGroup { delim, tokens }))
    }
}

} // verus!
