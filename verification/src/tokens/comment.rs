use vstd::prelude::*;

use crate::file::{Cursor, char_at, run_end, lemma_run_end};
use crate::text::push_char;
use super::{Scan, TokenError, TokenResult, result_is};

verus! {

#[derive(Debug, PartialEq, Eq, Clone)]
pub enum TokenComment {
    Line(String),
    Block(String),
    Doc(String),
}

pub enum TokenCommentV {
    Line(Seq<char>),
    Block(Seq<char>),
    Doc(Seq<char>),
}

impl View for TokenComment {
    type V = TokenCommentV;

    open spec fn view(&self) -> TokenCommentV {
        match self {
            TokenComment::Line(s) => TokenCommentV::Line(s@),
            TokenComment::Block(s) => TokenCommentV::Block(s@),
            TokenComment::Doc(s) => TokenCommentV::Doc(s@),
        }
    }
}

impl TokenComment {
    pub fn copy(&self) -> (r: Self)
        ensures
            r@ == self@,
    {
        match self {
            TokenComment::Line(s) => TokenComment::Line(s.clone()),
            TokenComment::Block(s) => TokenComment::Block(s.clone()),
            TokenComment::Doc(s) => TokenComment::Doc(s.clone()),
        }
    }
}


/// Where the body of a doc comment (`#! ... !#`) that starts at `j` stops: at the
/// first `!`, at the character before the first `#`, or at the end of the text.
pub open spec fn doc_stop(s: Seq<char>, j: int) -> int
    decreases s.len() - j,
{
    if 0 <= j < s.len() && !(s[j] == '!' || char_at(s, j + 1) == '#') {
        doc_stop(s, j + 1)
    } else {
        j
    }
}

/// Where the body of a block comment (`#- ... -#`) that starts at `j` stops: at the
/// first `-`, at the character before the first `#`, or at the end of the text.
pub open spec fn block_stop(s: Seq<char>, j: int) -> int
    decreases s.len() - j,
{
    if 0 <= j < s.len() && !(s[j] == '-' || char_at(s, j + 1) == '#') {
        block_stop(s, j + 1)
    } else {
        j
    }
}

proof fn lemma_doc_stop(s: Seq<char>, j: int)
    requires
        0 <= j <= s.len(),
    ensures
        j <= doc_stop(s, j) <= s.len(),
        doc_stop(s, j) < s.len() ==> (s[doc_stop(s, j)] == '!' || char_at(s, doc_stop(s, j) + 1) == '#'),
    decreases s.len() - j,
{
    if j < s.len() && !(s[j] == '!' || char_at(s, j + 1) == '#') {
        lemma_doc_stop(s, j + 1);
    }
}

proof fn lemma_block_stop(s: Seq<char>, j: int)
    requires
        0 <= j <= s.len(),
    ensures
        j <= block_stop(s, j) <= s.len(),
        block_stop(s, j) < s.len() ==> (s[block_stop(s, j)] == '-' || char_at(s, block_stop(s, j) + 1) == '#'),
    decreases s.len() - j,
{
    if j < s.len() && !(s[j] == '-' || char_at(s, j + 1) == '#') {
        lemma_block_stop(s, j + 1);
    }
}

/// The comment at `i`, the index after it, and how many of the cursor's steps
/// over it fall past the end of the text.
///
/// `#! ... !#` is a doc comment, `#- ... -#` a block comment, and `#` starts a
/// comment that runs to the end of the line; the closing marks and the line break
/// are not part of the content.
pub open spec fn comment_at(s: Seq<char>, i: int) -> (Scan<TokenCommentV>, int, nat) {
    if char_at(s, i) != '#' {
        (Scan::Absent, i, 0)
    } else if char_at(s, i + 1) == '!' {
        let j = doc_stop(s, i + 2);
        if j < s.len() {
            (Scan::Read(TokenCommentV::Doc(s.subrange(i + 2, j))), j, 0)
        } else {
            (Scan::Fail(TokenError::UnexpectedEof), j, 0)
        }
    } else if char_at(s, i + 1) == '-' {
        let j = block_stop(s, i + 2);
        let end = if j + 2 <= s.len() {
            j + 2
        } else {
            s.len() as int
        };
        (Scan::Read(TokenCommentV::Block(s.subrange(i + 2, j))), end, (j + 2 - end) as nat)
    } else {
        let j = run_end(s, i + 1, |c: char| c != '\n');
        if j < s.len() {
            (Scan::Read(TokenCommentV::Line(s.subrange(i + 1, j))), j + 1, 0)
        } else {
            (Scan::Read(TokenCommentV::Line(s.subrange(i + 1, j))), j, 1)
        }
    }
}

pub proof fn lemma_comment_at(s: Seq<char>, j: int)
    requires
        0 <= j <= s.len(),
    ensures
        ({
            let (o, e, x) = comment_at(s, j);
            &&& o is Absent ==> e == j && x == 0
            &&& !(o is Absent) ==> j < e <= s.len() && x <= e - j
            &&& e < s.len() ==> x == 0
            &&& !(o is Stuck)
        }),
{
    if j + 2 <= s.len() {
        lemma_doc_stop(s, j + 2);
        lemma_block_stop(s, j + 2);
    }
    if j + 1 <= s.len() {
        lemma_run_end(s, j + 1, |c: char| c != '\n');
    }
}

impl TokenComment {
    /// Reads a comment at the cursor, if one starts there.
    pub fn try_read(cursor: &mut Cursor) -> (r: TokenResult<Self>)
        requires
            old(cursor).wf(),
            old(cursor).absolute() + old(cursor).text().len() - old(cursor).index() + 2 <= usize::MAX,
        ensures
            ({
                let (sc, end, extra) = comment_at(old(cursor).text(), old(cursor).index() as int);
                &&& result_is(r, sc)
                &&& final(cursor).wf()
                &&& final(cursor).text() == old(cursor).text()
                &&& final(cursor).index() == end
                &&& final(cursor).absolute() == old(cursor).absolute() + (end - old(cursor).index())
                    + extra
            }),
    {
        let ghost s = cursor.text();
        let ghost i = cursor.index() as int;
        if cursor.current() == '#' {
            let mut content = String::new();
            let n = cursor.next();
            if n == '!' {
                cursor.advance();
                cursor.advance();
                proof {
                    lemma_doc_stop(s, i + 2);
                }
                while cursor.current() != '!' && cursor.next() != '#'
                    invariant
                        cursor.wf(),
                        cursor.text() == s,
                        s == old(cursor).text(),
                        i == old(cursor).index(),
                        char_at(s, i) == '#',
                        char_at(s, i + 1) == '!',
                        i + 2 <= cursor.index() <= doc_stop(s, i + 2),
                        doc_stop(s, cursor.index() as int) == doc_stop(s, i + 2),
                        doc_stop(s, i + 2) <= s.len(),
                        cursor.absolute() == old(cursor).absolute() + cursor.index() - i,
                        old(cursor).absolute() + s.len() - i + 2 <= usize::MAX,
                        content@ == s.subrange(i + 2, cursor.index() as int),
                    decreases s.len() - cursor.index(),
                {
                    if cursor.eof() {
                        proof {
                            assert(doc_stop(s, cursor.index() as int) == cursor.index());
                        }
                        return Err(TokenError::UnexpectedEof);
                    }
                    let c = cursor.current();
                    push_char(&mut content, c);
                    cursor.advance();
                    proof {
                        assert(content@ =~= s.subrange(i + 2, cursor.index() as int));
                        lemma_doc_stop(s, cursor.index() as int);
                    }
                }
                Ok(Some(Self::Doc(content)))
            } else if n == '-' {
                cursor.advance();
                cursor.advance();
                proof {
                    lemma_block_stop(s, i + 2);
                }
                while cursor.current() != '-' && cursor.next() != '#' && !cursor.eof()
                    invariant
                        cursor.wf(),
                        cursor.text() == s,
                        i + 2 <= cursor.index() <= block_stop(s, i + 2),
                        block_stop(s, cursor.index() as int) == block_stop(s, i + 2),
                        block_stop(s, i + 2) <= s.len(),
                        cursor.absolute() == old(cursor).absolute() + cursor.index() - i,
                        old(cursor).absolute() + s.len() - i + 2 <= usize::MAX,
                        content@ == s.subrange(i + 2, cursor.index() as int),
                    decreases s.len() - cursor.index(),
                {
                    let c = cursor.current();
                    push_char(&mut content, c);
                    cursor.advance();
                    proof {
                        assert(content@ =~= s.subrange(i + 2, cursor.index() as int));
                        lemma_block_stop(s, cursor.index() as int);
                    }
                }
                cursor.advance();
                cursor.advance();
                Ok(Some(Self::Block(content)))
            } else {
                cursor.advance();
                let ghost p = |c: char| c != '\n';
                proof {
                    lemma_run_end(s, i + 1, p);
                }
                while cursor.current() != '\n' && !cursor.eof()
                    invariant
                        cursor.wf(),
                        cursor.text() == s,
                        i + 1 <= cursor.index() <= run_end(s, i + 1, p) <= s.len(),
                        forall|j: int| i + 1 <= j < run_end(s, i + 1, p) ==> #[trigger] s[j] != '\n',
                        run_end(s, i + 1, p) < s.len() ==> s[run_end(s, i + 1, p)] == '\n',
                        cursor.absolute() == old(cursor).absolute() + cursor.index() - i,
                        old(cursor).absolute() + s.len() - i + 2 <= usize::MAX,
                        content@ == s.subrange(i + 1, cursor.index() as int),
                    decreases s.len() - cursor.index(),
                {
                    let c = cursor.current();
                    push_char(&mut content, c);
                    cursor.advance();
                    proof {
                        assert(content@ =~= s.subrange(i + 1, cursor.index() as int));
                    }
                }
                proof {
                    if cursor.index() < run_end(s, i + 1, p) {
                        assert(s[cursor.index() as int] != '\n');
                    }
                }
                cursor.advance();
                Ok(Some(Self::Line(content)))
            }
        } else {
            Ok(None)
        }
    }
}

} // verus!
