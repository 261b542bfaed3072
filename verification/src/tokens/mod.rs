use vstd::prelude::*;

use crate::Span;
use crate::file::{SourceCursor, char_at, blank_run_end, lemma_blank_run_end, moved_to};

use self::comment::{comment_at, lemma_comment_at};
use self::ident::{ident_at, lemma_ident_at};
use self::literal::{literal_at, lemma_literal_at};
use self::punct::punct_at;
use self::spacing::{newline_len, read_newline};

use self::comment::{TokenComment, TokenCommentV};
use self::group::{Delim, TokenGroup};
use self::ident::{TokenIdent, TokenIdentV};
use self::literal::{TokenLiteral, TokenLiteralV};
use self::punct::TokenPunct;

pub mod literal;
pub mod ident;
pub mod spacing;
pub mod punct;
pub mod comment;
pub mod group;
pub mod stream;
pub mod charset;

verus! {

/// A token: what was read and the span of cursor positions it was read from.
#[derive(Debug, PartialEq, Eq)]
pub struct Token {
    pub content: TokenType,
    pub span: Span,
}

#[derive(Debug, PartialEq, Eq)]
pub enum TokenType {
    Literal(TokenLiteral),
    Ident(TokenIdent),
    Group(TokenGroup),
    Punct(TokenPunct),
    Comment(TokenComment),
    Newline,
    EOF,
}

/// How messages name a token of each kind.
pub open spec fn kind_description(t: TokenType) -> Seq<char> {
    match t {
        TokenType::Ident(_) => "<identifier>"@,
        TokenType::Literal(_) => "<literal>"@,
        TokenType::Group(_) => "<group>"@,
        TokenType::Punct(_) => "<punct>"@,
        TokenType::Comment(_) => "<comment>"@,
        TokenType::Newline => "<newline>"@,
        TokenType::EOF => "EOF"@,
    }
}

impl TokenType {
    /// How messages name a token of this kind.
    pub fn describe(&self) -> (s: &'static str)
        ensures
            s@ == kind_description(*self),
    {
        match self {
            TokenType::Ident(_) => "<identifier>",
            TokenType::Literal(_) => "<literal>",
            TokenType::Group(_) => "<group>",
            TokenType::Punct(_) => "<punct>",
            TokenType::Comment(_) => "<comment>",
            TokenType::Newline => "<newline>",
            TokenType::EOF => "EOF",
        }
    }
}

#[derive(Debug, Clone, Copy, PartialEq, Eq, Structural)]
pub enum TokenError {
    InvalidChar(char),
    UnexpectedEof,
}

pub type TokenResult<T> = Result<Option<T>, TokenError>;

/// The outcome of trying one kind of token at a position.
pub enum Scan<T> {
    /// No token of this kind starts here.
    Absent,
    /// A token of this kind was read.
    Read(T),
    /// A token of this kind starts here but is malformed.
    Fail(TokenError),
    /// The reader reaches a construct it does not handle (an escape or a format
    /// argument in a string literal).
    Stuck,
}

/// `r` is the executable form of `sc`.
pub open spec fn result_is<T: View>(r: TokenResult<T>, sc: Scan<T::V>) -> bool {
    match sc {
        Scan::Absent => r is Ok && r->Ok_0 is None,
        Scan::Read(v) => r is Ok && r->Ok_0 is Some && r->Ok_0->Some_0@ == v,
        Scan::Fail(e) => r == Err::<Option<T>, TokenError>(e),
        Scan::Stuck => false,
    }
}

/// The mathematical value of a token.
pub struct TokenV {
    pub content: TokenTypeV,
    pub span: Span,
}

pub enum TokenTypeV {
    Literal(TokenLiteralV),
    Ident(TokenIdentV),
    Group(Delim, Seq<TokenV>),
    Punct(TokenPunct),
    Comment(TokenCommentV),
    Newline,
    EOF,
}

pub open spec fn token_view(t: Token) -> TokenV
    decreases t,
{
    TokenV {
        content: match t.content {
            TokenType::Literal(l) => TokenTypeV::Literal(l@),
            TokenType::Ident(i) => TokenTypeV::Ident(i@),
            TokenType::Group(g) => TokenTypeV::Group(g.delim, tokens_view(g.tokens@)),
            TokenType::Punct(p) => TokenTypeV::Punct(p),
            TokenType::Comment(c) => TokenTypeV::Comment(c@),
            TokenType::Newline => TokenTypeV::Newline,
            TokenType::EOF => TokenTypeV::EOF,
        },
        span: t.span,
    }
}

pub open spec fn tokens_view(ts: Seq<Token>) -> Seq<TokenV>
    decreases ts,
{
    if ts.len() == 0 {
        Seq::empty()
    } else {
        tokens_view(ts.drop_last()).push(token_view(ts.last()))
    }
}


/// What the tokenizer reads at index `i` of `s` when the cursor has been advanced
/// `abs` times: the token (or the error), the index after it, and the cursor's
/// advance count after it.
///
/// Spaces and tabs are skipped first; then the first of these that applies is read:
/// a literal, an identifier, a punctuation, a comment, a group, a line break, the end
/// of the text; any other character is an error, which names the character after it
/// (where the cursor then stands).
pub open spec fn lex_token(s: Seq<char>, i: int, abs: int) -> (Scan<TokenV>, int, int)
    decreases s.len() - i, 1int,
{
    if !(0 <= i <= s.len()) {
        (Scan::Stuck, i, abs)
    } else {
        let j = blank_run_end(s, i);
        let a = abs + (j - i);
        let (lit, e1) = literal_at(s, j);
        if !(lit is Absent) {
            let a1 = a + (e1 - j);
            (
                match lit {
                    Scan::Read(v) => Scan::Read(token_v(TokenTypeV::Literal(v), a, a1)),
                    Scan::Fail(err) => Scan::Fail(err),
                    _ => Scan::Stuck,
                },
                e1,
                a1,
            )
        } else if let Some((v, e2)) = ident_at(s, j) {
            (Scan::Read(token_v(TokenTypeV::Ident(v), a, a + (e2 - j))), e2, a + (e2 - j))
        } else if let Some((p, n)) = punct_at(s, j) {
            (Scan::Read(token_v(TokenTypeV::Punct(p), a, a + n)), j + n, a + n)
        } else {
            let (cm, e3, x3) = comment_at(s, j);
            if !(cm is Absent) {
                let a3 = a + (e3 - j) + x3;
                (
                    match cm {
                        Scan::Read(v) => Scan::Read(token_v(TokenTypeV::Comment(v), a, a3)),
                        Scan::Fail(err) => Scan::Fail(err),
                        _ => Scan::Stuck,
                    },
                    e3,
                    a3,
                )
            } else {
                proof {
                    lemma_blank_run_end(s, i);
                }
                let (g, e4, a4) = group_at(s, j, a);
                if !(g is Absent) {
                    (
                        match g {
                            Scan::Read(v) => Scan::Read(token_v(TokenTypeV::Group(v.0, v.1), a, a4)),
                            Scan::Fail(err) => Scan::Fail(err),
                            _ => Scan::Stuck,
                        },
                        e4,
                        a4,
                    )
                } else if newline_len(s, e4) > 0 {
                    let n = newline_len(s, e4);
                    (Scan::Read(token_v(TokenTypeV::Newline, a, a4 + n)), e4 + n, a4 + n)
                } else if e4 >= s.len() {
                    (Scan::Read(token_v(TokenTypeV::EOF, a, a4)), e4, a4)
                } else {
                    (Scan::Fail(TokenError::InvalidChar(char_at(s, e4))), e4 + 1, a4 + 1)
                }
            }
        }
    }
}

pub open spec fn token_v(content: TokenTypeV, start: int, end: int) -> TokenV {
    TokenV { content, span: Span { start: start as usize, end: end as usize } }
}

/// The delimiter that a group opened by `c` has, and the character that closes it.
pub open spec fn group_delim(c: char) -> Option<(Delim, char)> {
    if c == '(' {
        Some((Delim::Paren, ')'))
    } else if c == '[' {
        Some((Delim::Bracket, ']'))
    } else if c == '{' {
        Some((Delim::Brace, '}'))
    } else if c == '<' {
        Some((Delim::Angle, '>'))
    } else {
        None
    }
}

/// The group at `i`: an opening delimiter, the tokens up to the matching closing
/// character, and that character. A group that the text ends inside is absent, and
/// the cursor is left at the end of the text.
pub open spec fn group_at(s: Seq<char>, i: int, abs: int) -> (Scan<(Delim, Seq<TokenV>)>, int, int)
    decreases s.len() - i, 0int,
{
    match group_delim(char_at(s, i)) {
        None => (Scan::Absent, i, abs),
        Some((delim, close)) => if 0 <= i < s.len() {
            group_items(s, i + 1, abs + 1, delim, close, Seq::empty())
        } else {
            (Scan::Stuck, i, abs)
        },
    }
}

/// The rest of a group whose tokens so far are `acc`, from index `k`: spaces and tabs
/// are skipped, then either the closing character ends the group, the end of the text
/// leaves it unfinished, or a token is read and the group goes on after it.
pub open spec fn group_items(
    s: Seq<char>,
    k: int,
    abs: int,
    delim: Delim,
    close: char,
    acc: Seq<TokenV>,
) -> (Scan<(Delim, Seq<TokenV>)>, int, int)
    decreases s.len() - k, 2int,
{
    if !(0 <= k <= s.len()) {
        (Scan::Stuck, k, abs)
    } else {
        let j = blank_run_end(s, k);
        let a = abs + (j - k);
        proof {
            lemma_blank_run_end(s, k);
        }
        if j < s.len() && s[j] != close {
            let (t, e, a2) = lex_token(s, j, a);
            match t {
                Scan::Read(v) => if j < e <= s.len() {
                    group_items(s, e, a2, delim, close, acc.push(v))
                } else {
                    (Scan::Stuck, e, a2)
                },
                Scan::Fail(err) => (Scan::Fail(err), e, a2),
                _ => (Scan::Stuck, e, a2),
            }
        } else if j >= s.len() {
            (Scan::Absent, j, a)
        } else {
            (Scan::Read((delim, acc)), j + 1, a + 1)
        }
    }
}

/// `abs - 2 * i`: what an advance at the end of the text adds to, and what every
/// other advance takes from.
pub open spec fn balance(i: int, abs: int) -> int {
    abs - 2 * i
}

/// The cursor's advance count can still take twice the rest of the text and four
/// more steps (two more at the end of the text).
pub open spec fn room(s: Seq<char>, i: int, abs: int) -> bool {
    if i < s.len() {
        abs + 2 * (s.len() - i) + 4 <= usize::MAX
    } else {
        abs + 2 <= usize::MAX
    }
}

/// Every span in `t`, its groups' tokens included, starts at or before `hi`.
pub open spec fn token_within(t: TokenV, hi: int) -> bool
    decreases t,
{
    &&& t.span.start <= hi
    &&& match t.content {
        TokenTypeV::Group(_, ts) => {
            proof {
                assert(decreases_to!(t => t.content));
            }
            tokens_within(ts, hi)
        },
        _ => true,
    }
}

/// Every span in the tokens `ts`, their groups' tokens included, starts at or before `hi`.
pub open spec fn tokens_within(ts: Seq<TokenV>, hi: int) -> bool
    decreases ts,
{
    if ts.len() == 0 {
        true
    } else {
        tokens_within(ts.drop_last(), hi) && token_within(ts.last(), hi)
    }
}

pub proof fn lemma_within_mono(t: TokenV, h1: int, h2: int)
    requires
        token_within(t, h1),
        h1 <= h2,
    ensures
        token_within(t, h2),
    decreases t,
{
    if let TokenTypeV::Group(_, ts) = t.content {
        assert(decreases_to!(t => t.content));
        lemma_all_within_mono(ts, h1, h2);
    }
}

pub proof fn lemma_all_within_mono(ts: Seq<TokenV>, h1: int, h2: int)
    requires
        tokens_within(ts, h1),
        h1 <= h2,
    ensures
        tokens_within(ts, h2),
    decreases ts,
{
    if ts.len() > 0 {
        lemma_all_within_mono(ts.drop_last(), h1, h2);
        lemma_within_mono(ts.last(), h1, h2);
    }
}

/// `tokens_within` holds of each token of the sequence.
pub proof fn lemma_all_within_index(ts: Seq<TokenV>, hi: int, i: int)
    requires
        tokens_within(ts, hi),
        0 <= i < ts.len(),
    ensures
        token_within(ts[i], hi),
    decreases ts.len(),
{
    if i < ts.len() - 1 {
        lemma_all_within_index(ts.drop_last(), hi, i);
        assert(ts.drop_last()[i] == ts[i]);
    }
}

/// `tokens_within` holds of a sequence exactly when it holds of each of its tokens.
pub proof fn lemma_tokens_within_all(ts: Seq<TokenV>, hi: int)
    ensures
        tokens_within(ts, hi) <==> forall|i: int| 0 <= i < ts.len() ==> token_within(#[trigger] ts[i], hi),
    decreases ts.len(),
{
    if ts.len() > 0 {
        lemma_tokens_within_all(ts.drop_last(), hi);
        assert forall|i: int| 0 <= i < ts.len() - 1 implies ts.drop_last()[i] == ts[i] by {}
        if forall|i: int| 0 <= i < ts.len() ==> token_within(#[trigger] ts[i], hi) {
            assert forall|i: int| 0 <= i < ts.drop_last().len() implies token_within(#[trigger] ts.drop_last()[i], hi) by {
                assert(ts.drop_last()[i] == ts[i]);
            }
            assert(token_within(ts[ts.len() - 1], hi));
        }
    }
}

/// What is left after the first `n` tokens keeps `tokens_within`.
pub proof fn lemma_tokens_within_skip(ts: Seq<TokenV>, n: int, hi: int)
    requires
        tokens_within(ts, hi),
        0 <= n <= ts.len(),
    ensures
        tokens_within(ts.skip(n), hi),
{
    lemma_tokens_within_all(ts, hi);
    lemma_tokens_within_all(ts.skip(n), hi);
    assert forall|i: int| 0 <= i < ts.skip(n).len() implies token_within(#[trigger] ts.skip(n)[i], hi) by {
        assert(ts.skip(n)[i] == ts[i + n]);
    }
}

/// The views of a sequence of tokens are the tokens' views, one for one.
pub proof fn lemma_tokens_view_index(ts: Seq<Token>, i: int)
    ensures
        tokens_view(ts).len() == ts.len(),
        0 <= i < ts.len() ==> tokens_view(ts)[i] == token_view(ts[i]),
    decreases ts.len(),
{
    if ts.len() > 0 {
        lemma_tokens_view_index(ts.drop_last(), i);
        if 0 <= i < ts.len() - 1 {
            assert(ts.drop_last()[i] == ts[i]);
        }
    }
}

/// Taking the view commutes with dropping the first `n` tokens.
pub proof fn lemma_tokens_view_skip(ts: Seq<Token>, n: int)
    requires
        0 <= n <= ts.len(),
    ensures
        tokens_view(ts.skip(n)) == tokens_view(ts).skip(n),
{
    lemma_tokens_view_index(ts, 0);
    lemma_tokens_view_index(ts.skip(n), 0);
    assert forall|i: int| 0 <= i < ts.skip(n).len() implies tokens_view(ts.skip(n))[i] == tokens_view(
        ts,
    ).skip(n)[i] by {
        lemma_tokens_view_index(ts, i + n);
        lemma_tokens_view_index(ts.skip(n), i);
    }
    assert(tokens_view(ts.skip(n)) =~= tokens_view(ts).skip(n));
}

pub proof fn lemma_all_within_push(ts: Seq<TokenV>, t: TokenV, hi: int)
    requires
        tokens_within(ts, hi),
        token_within(t, hi),
    ensures
        tokens_within(ts.push(t), hi),
{
    assert(ts.push(t).drop_last() =~= ts);
}

/// Reading a token never moves back and never stalls before the end of the text: it
/// ends within the text, takes a character or more unless the text is over, never
/// finds nothing, and the token it reads spans from where it starts (after the blanks)
/// to where the cursor stops. The advance count only outruns the position at the end
/// of the text, and by two at most.
pub proof fn lemma_lex_token(s: Seq<char>, i: int, abs: int)
    requires
        0 <= i <= s.len(),
        0 <= abs,
        room(s, i, abs),
    ensures
        ({
            let (o, e, a) = lex_token(s, i, abs);
            &&& i <= e <= s.len()
            &&& abs <= a
            &&& balance(e, a) <= balance(i, abs) + 2
            &&& e < s.len() ==> a == abs + (e - i)
            &&& (i < s.len() && o is Read) ==> e > i
            &&& !(o is Absent)
            &&& o matches Scan::Read(v) ==> abs <= v.span.start && token_within(v, a)
            &&& o matches Scan::Read(v) ==> v.span.end == a
            &&& o is Read ==> room(s, e, a)
        }),
    decreases s.len() - i, 1int,
{
    let j = blank_run_end(s, i);
    lemma_blank_run_end(s, i);
    let a = abs + (j - i);
    lemma_literal_at(s, j);
    lemma_ident_at(s, j);
    lemma_comment_at(s, j);
    let (lit, e1) = literal_at(s, j);
    if lit is Absent && ident_at(s, j) is None && punct_at(s, j) is None && comment_at(s, j).0 is Absent {
        lemma_group_at(s, j, a);
        let (g, e4, a4) = group_at(s, j, a);
        if g is Absent {
            if e4 < s.len() {
                assert(e4 == j);
            }
        }
    }
}

/// What `lemma_lex_token` says of a token, said of a group.
pub proof fn lemma_group_at(s: Seq<char>, i: int, abs: int)
    requires
        0 <= i <= s.len(),
        0 <= abs,
        room(s, i, abs),
    ensures
        ({
            let (o, e, a) = group_at(s, i, abs);
            &&& i <= e <= s.len()
            &&& abs <= a
            &&& balance(e, a) <= balance(i, abs) + 2
            &&& e < s.len() ==> a == abs + (e - i)
            &&& o is Read ==> e > i
            &&& (o is Absent && e < s.len()) ==> e == i
            &&& o matches Scan::Read(v) ==> tokens_within(v.1, a)
        }),
    decreases s.len() - i, 0int,
{
    if let Some((delim, close)) = group_delim(char_at(s, i)) {
        lemma_group_items(s, i + 1, abs + 1, delim, close, Seq::empty());
    }
}

/// What `lemma_lex_token` says of a token, said of the rest of a group; an unfinished
/// group runs to the end of the text.
pub proof fn lemma_group_items(
    s: Seq<char>,
    k: int,
    abs: int,
    delim: Delim,
    close: char,
    acc: Seq<TokenV>,
)
    requires
        0 <= k <= s.len(),
        0 <= abs,
        room(s, k, abs),
    ensures
        ({
            let (o, e, a) = group_items(s, k, abs, delim, close, acc);
            &&& k <= e <= s.len()
            &&& abs <= a
            &&& balance(e, a) <= balance(k, abs) + 2
            &&& e < s.len() ==> a == abs + (e - k)
            &&& o is Read ==> e > k
            &&& o is Absent ==> e == s.len()
            &&& tokens_within(acc, abs) ==> (o matches Scan::Read(v) ==> tokens_within(v.1, a))
        }),
    decreases s.len() - k, 2int,
{
    lemma_blank_run_end(s, k);
    let j = blank_run_end(s, k);
    let a = abs + (j - k);
    if j < s.len() && s[j] != close {
        lemma_lex_token(s, j, a);
        let (t, e, a2) = lex_token(s, j, a);
        if let Scan::Read(v) = t {
            if j < e <= s.len() {
                lemma_group_items(s, e, a2, delim, close, acc.push(v));
                if tokens_within(acc, abs) {
                    lemma_all_within_mono(acc, abs, a2);
                    lemma_all_within_push(acc, v, a2);
                }
            }
        }
    } else if j < s.len() {
        if tokens_within(acc, abs) {
            lemma_all_within_mono(acc, abs, a + 1);
        }
    }
}

/// `r` is the executable form of the outcome `o` of reading one token.
pub open spec fn token_result_is(r: Result<Token, TokenError>, o: Scan<TokenV>) -> bool {
    match o {
        Scan::Read(v) => r matches Ok(t) && t@ == v,
        Scan::Fail(e) => r == Err::<Token, TokenError>(e),
        _ => false,
    }
}

impl Token {
    /// Reads the next token: it skips spaces and tabs, then reads what `lex_token` says.
    #[verifier::spinoff_prover]
    #[verifier::rlimit(40)]
    pub fn try_read(cursor: &mut SourceCursor) -> (r: Result<Self, TokenError>)
        requires
            old(cursor).wf(),
            old(cursor).has_room(),
            !(lex_token(old(cursor).text(), old(cursor).index() as int, old(cursor).absolute() as int).0 is Stuck),
        ensures
            ({
                let (o, e, a) = lex_token(
                    old(cursor).text(),
                    old(cursor).index() as int,
                    old(cursor).absolute() as int,
                );
                &&& token_result_is(r, o)
                &&& moved_to(*final(cursor), *old(cursor), e, a)
            }),
        decreases old(cursor).text().len() - old(cursor).index(), 1int,
    {
        let ghost s = cursor.text();
        let ghost i = cursor.index() as int;
        proof {
            lemma_blank_run_end(s, i);
        }
        cursor.skip_whitespaces();
        let start = cursor.pos();
        let ghost j = cursor.index() as int;
        proof {
            lemma_group_at(s, j, cursor.absolute() as int);
            lemma_literal_at(s, j);
            lemma_ident_at(s, j);
            lemma_comment_at(s, j);
        }
        let content = if let Some(literal) = TokenLiteral::try_read(cursor)? {
            TokenType::Literal(literal)
        } else if let Some(ident) = TokenIdent::try_read(cursor)? {
            TokenType::Ident(ident)
        } else if let Some(punct) = TokenPunct::try_read(cursor)? {
            TokenType::Punct(punct)
        } else if let Some(comment) = TokenComment::try_read(cursor)? {
            TokenType::Comment(comment)
        } else if let Some(group) = TokenGroup::try_read(cursor)? {
            TokenType::Group(group)
        } else if read_newline(cursor) {
            TokenType::Newline
        } else if cursor.eof() {
            TokenType::EOF
        } else {
            let invalid = cursor.current();
            cursor.advance();
            return Err(TokenError::InvalidChar(invalid));
        };
        Ok(Token { content, span: Span { start, end: cursor.pos() } })
    }
}

/// A copy of `t`, down to the tokens inside its groups.
pub fn copy_token(t: &Token) -> (r: Token)
    ensures
        r@ == t@,
    decreases t,
{
    let content = match &t.content {
        TokenType::Literal(l) => TokenType::Literal(l.copy()),
        TokenType::Ident(i) => TokenType::Ident(i.copy()),
        TokenType::Group(g) => {
            proof {
                assert(decreases_to!(t => t.content));
                assert(decreases_to!(t.content => g));
                assert(decreases_to!(g => g.tokens));
            }
            TokenType::Group(TokenGroup { delim: g.delim, tokens: copy_tokens(&g.tokens) })
        },
        TokenType::Punct(p) => TokenType::Punct(*p),
        TokenType::Comment(c) => TokenType::Comment(c.copy()),
        TokenType::Newline => TokenType::Newline,
        TokenType::EOF => TokenType::EOF,
    };
    Token { content, span: t.span }
}

/// A copy of every token of `v`.
pub fn copy_tokens(v: &Vec<Token>) -> (r: Vec<Token>)
    ensures
        tokens_view(r@) == tokens_view(v@),
        r@.len() == v@.len(),
    decreases v,
{
    let mut r: Vec<Token> = Vec::new();
    let mut i: usize = 0;
    while i < v.len()
        invariant
            i <= v.len(),
            r@.len() == i,
            tokens_view(r@) == tokens_view(v@.take(i as int)),
        decreases v.len() - i,
    {
        proof {
            assert(decreases_to!(v => v[i as int]));
        }
        let t = copy_token(&v[i]);
        let ghost before = r@;
        r.push(t);
        proof {
            assert(r@.drop_last() =~= before);
            assert(v@.take(i + 1).drop_last() =~= v@.take(i as int));
        }
        i += 1;
    }
    proof {
        assert(v@.take(i as int) =~= v@);
    }
    r
}

impl Clone for Token {
    fn clone(&self) -> (r: Self)
        ensures
            r@ == self@,
    {
        copy_token(self)
    }
}

impl View for Token {
    type V = TokenV;

    open spec fn view(&self) -> TokenV {
        token_view(*self)
    }
}

} // verus!
