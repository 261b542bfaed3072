use vstd::prelude::*;

use crate::file::{SourceCursor, char_at, consumed_to, run_end, lemma_run_end};
use crate::text::push_char;

verus! {

#[derive(Debug, Clone, PartialEq, Eq)]
pub struct TokenIdent {
    pub name: String,
    pub escaped: bool,
}

pub struct TokenIdentV {
    pub name: Seq<char>,
    pub escaped: bool,
}

impl View for TokenIdent {
    type V = TokenIdentV;

    open spec fn view(&self) -> TokenIdentV {
        TokenIdentV { name: self.name@, escaped: self.escaped }
    }
}

pub open spec fn ident_start_char(c: char) -> bool {
    ('a' <= c && c <= 'z') || ('A' <= c && c <= 'Z') || c == '_'
}

pub open spec fn ident_char(c: char) -> bool {
    ident_start_char(c) || ('0' <= c && c <= '9')
}

/// The identifier at `i` and the index after it: an optional `@` that escapes it,
/// then a run of identifier characters that (unless escaped) starts with a letter or `_`.
pub open spec fn ident_at(s: Seq<char>, i: int) -> Option<(TokenIdentV, int)> {
    let escaped = char_at(s, i) == '@' && ident_char(char_at(s, i + 1));
    let start = if escaped {
        i + 1
    } else {
        i
    };
    if escaped || ident_start_char(char_at(s, i)) {
        let end = run_end(s, start, |c: char| ident_char(c));
        Some((TokenIdentV { name: s.subrange(start, end), escaped }, end))
    } else {
        None
    }
}

pub proof fn lemma_ident_at(s: Seq<char>, j: int)
    requires
        0 <= j <= s.len(),
    ensures
        ident_at(s, j) matches Some((v, e)) ==> j < e <= s.len(),
{
    if j + 1 <= s.len() {
        lemma_run_end(s, j + 1, |c: char| ident_char(c));
    }
    lemma_run_end(s, j, |c: char| ident_char(c));
    if j < s.len() && ident_start_char(s[j]) {
        lemma_run_end(s, j + 1, |c: char| ident_char(c));
    }
}

impl TokenIdent {
    pub fn copy(&self) -> (r: Self)
        ensures
            r@ == self@,
    {
        TokenIdent { name: self.name.clone(), escaped: self.escaped }
    }

    pub fn new(name: String) -> (ident: Self)
        ensures
            ident.name == name,
            !ident.escaped,
    {
        Self { name, escaped: false }
    }

    /// Reads an identifier at the cursor, if one starts there.
    pub fn try_read(cursor: &mut SourceCursor) -> (r: super::TokenResult<Self>)
        requires
            old(cursor).wf(),
            old(cursor).absolute() + old(cursor).text().len() - old(cursor).index() <= usize::MAX,
        ensures
            match ident_at(old(cursor).text(), old(cursor).index() as int) {
                Some((v, end)) => r matches Ok(Some(t)) && t@ == v && consumed_to(
                    *final(cursor),
                    *old(cursor),
                    end,
                ),
                None => r == Ok::<Option<Self>, super::TokenError>(None) && consumed_to(
                    *final(cursor),
                    *old(cursor),
                    old(cursor).index() as int,
                ),
            },
    {
        let ghost s = cursor.text();
        let ghost i = cursor.index() as int;
        let escaped = if cursor.current() == '@' && is_valid_ident_char(cursor.next()) {
            cursor.advance();
            true
        } else {
            false
        };
        if escaped || is_valid_ident_start(cursor.current()) {
            let ghost start = cursor.index() as int;
            let ghost p = |c: char| ident_char(c);
            proof {
                lemma_run_end(s, start, p);
            }
            let mut name = String::new();
            while is_valid_ident_char(cursor.current())
                invariant
                    cursor.wf(),
                    cursor.text() == s,
                    0 <= i <= start,
                    start <= cursor.index(),
                    cursor.index() <= run_end(s, start, p),
                    run_end(s, start, p) <= s.len(),
                    forall|j: int| start <= j < run_end(s, start, p) ==> ident_char(#[trigger] s[j]),
                    run_end(s, start, p) < s.len() ==> !ident_char(s[run_end(s, start, p)]),
                    cursor.absolute() == old(cursor).absolute() + cursor.index() - i,
                    old(cursor).absolute() + s.len() - i <= usize::MAX,
                    name@ == s.subrange(start, cursor.index() as int),
                decreases s.len() - cursor.index(),
            {
                let c = cursor.current();
                proof {
                    assert(ident_char(c));
                }
                push_char(&mut name, c);
                cursor.advance();
                proof {
                    assert(name@ =~= s.subrange(start, cursor.index() as int));
                }
            }
            Ok(Some(Self { name, escaped }))
        } else {
            Ok(None)
        }
    }
}

pub(crate) fn is_valid_ident_start(c: char) -> (b: bool)
    ensures
        b == ident_start_char(c),
{
    ('a' <= c && c <= 'z') || ('A' <= c && c <= 'Z') || c == '_'
}

pub(crate) fn is_valid_ident_char(c: char) -> (b: bool)
    ensures
        b == ident_char(c),
{
    ('a' <= c && c <= 'z') || ('A' <= c && c <= 'Z') || c == '_' || ('0' <= c && c <= '9')
}

} // verus!
