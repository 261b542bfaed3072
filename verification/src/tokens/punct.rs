use vstd::prelude::*;

use crate::file::{SourceCursor, char_at, consumed_to};
use super::TokenResult;

verus! {

#[derive(Debug, PartialEq, Eq, Clone, Copy, Structural)]
pub enum TokenPunct {
    Plus,
    Minus,
    Star,
    Slash,
    Percent,
    Caret,
    Ampersand,
    Pipe,
    DoublePipe,
    PlusEq,
    MinusEq,
    StarEq,
    SlashEq,
    PercentEq,
    CaretEq,
    AmpersandEq,
    DoubleAmpersandEq,
    PipeEq,
    DoublePipeEq,
    Tilde,
    Question,
    Exclamation,
    Dot,
    Comma,
    Colon,
    SemiColon,
    Eq,
    DoubleEq,
    NotEq,
    Lt,
    DoubleLt,
    DoubleLtEq,
    LtEq,
    Gt,
    DoubleGt,
    DoubleGtEq,
    GtEq,
    Arrow,
    FatArrow,
    Dollar,
    Backslash,
    DoubleAmpersand,
}


/// The punctuation at `i` and how many characters it takes; the longest form wins.
pub open spec fn punct_at(s: Seq<char>, i: int) -> Option<(TokenPunct, int)> {
    let c = char_at(s, i);
    let n = char_at(s, i + 1);
    let n2 = char_at(s, i + 2);
    if c == '+' {
        if n == '=' { Some((TokenPunct::PlusEq, 2)) } else { Some((TokenPunct::Plus, 1)) }
    } else if c == '-' {
        if n == '=' {
            Some((TokenPunct::MinusEq, 2))
        } else if n == '>' {
            Some((TokenPunct::Arrow, 2))
        } else {
            Some((TokenPunct::Minus, 1))
        }
    } else if c == '*' {
        if n == '=' { Some((TokenPunct::StarEq, 2)) } else { Some((TokenPunct::Star, 1)) }
    } else if c == '/' {
        if n == '=' { Some((TokenPunct::SlashEq, 2)) } else { Some((TokenPunct::Slash, 1)) }
    } else if c == '%' {
        if n == '=' { Some((TokenPunct::PercentEq, 2)) } else { Some((TokenPunct::Percent, 1)) }
    } else if c == '^' {
        if n == '=' { Some((TokenPunct::CaretEq, 2)) } else { Some((TokenPunct::Caret, 1)) }
    } else if c == '&' {
        if n == '=' {
            Some((TokenPunct::AmpersandEq, 2))
        } else if n == '&' {
            if n2 == '=' {
                Some((TokenPunct::DoubleAmpersandEq, 3))
            } else {
                Some((TokenPunct::DoubleAmpersand, 2))
            }
        } else {
            Some((TokenPunct::Ampersand, 1))
        }
    } else if c == '|' {
        if n == '=' {
            Some((TokenPunct::PipeEq, 2))
        } else if n == '|' {
            if n2 == '=' {
                Some((TokenPunct::DoublePipeEq, 3))
            } else {
                Some((TokenPunct::DoublePipe, 2))
            }
        } else {
            Some((TokenPunct::Pipe, 1))
        }
    } else if c == '!' {
        if n == '=' { Some((TokenPunct::NotEq, 2)) } else { Some((TokenPunct::Exclamation, 1)) }
    } else if c == '=' {
        if n == '=' {
            Some((TokenPunct::DoubleEq, 2))
        } else if n == '>' {
            Some((TokenPunct::FatArrow, 2))
        } else {
            Some((TokenPunct::Eq, 1))
        }
    } else if c == '<' {
        if n == '=' {
            Some((TokenPunct::LtEq, 2))
        } else if n == '<' {
            if n2 == '=' {
                Some((TokenPunct::DoubleLtEq, 3))
            } else {
                Some((TokenPunct::DoubleLt, 2))
            }
        } else {
            Some((TokenPunct::Lt, 1))
        }
    } else if c == '>' {
        if n == '=' {
            Some((TokenPunct::GtEq, 2))
        } else if n == '>' {
            if n2 == '=' {
                Some((TokenPunct::DoubleGtEq, 3))
            } else {
                Some((TokenPunct::DoubleGt, 2))
            }
        } else {
            Some((TokenPunct::Gt, 1))
        }
    } else if c == '.' {
        Some((TokenPunct::Dot, 1))
    } else if c == ',' {
        Some((TokenPunct::Comma, 1))
    } else if c == ':' {
        Some((TokenPunct::Colon, 1))
    } else if c == ';' {
        Some((TokenPunct::SemiColon, 1))
    } else if c == '~' {
        Some((TokenPunct::Tilde, 1))
    } else if c == '?' {
        Some((TokenPunct::Question, 1))
    } else if c == '$' {
        Some((TokenPunct::Dollar, 1))
    } else if c == '\\' {
        Some((TokenPunct::Backslash, 1))
    } else {
        None
    }
}

/// How the punctuation is written.
pub open spec fn punct_text(p: TokenPunct) -> Seq<char> {
    match p {
        TokenPunct::Plus => seq!['+'],
        TokenPunct::Minus => seq!['-'],
        TokenPunct::Star => seq!['*'],
        TokenPunct::Slash => seq!['/'],
        TokenPunct::Percent => seq!['%'],
        TokenPunct::Caret => seq!['^'],
        TokenPunct::Ampersand => seq!['&'],
        TokenPunct::Pipe => seq!['|'],
        TokenPunct::DoublePipe => seq!['|', '|'],
        TokenPunct::PlusEq => seq!['+', '='],
        TokenPunct::MinusEq => seq!['-', '='],
        TokenPunct::StarEq => seq!['*', '='],
        TokenPunct::SlashEq => seq!['/', '='],
        TokenPunct::PercentEq => seq!['%', '='],
        TokenPunct::CaretEq => seq!['^', '='],
        TokenPunct::AmpersandEq => seq!['&', '='],
        TokenPunct::DoubleAmpersandEq => seq!['&', '&', '='],
        TokenPunct::PipeEq => seq!['|', '='],
        TokenPunct::DoublePipeEq => seq!['|', '|', '='],
        TokenPunct::Tilde => seq!['~'],
        TokenPunct::Question => seq!['?'],
        TokenPunct::Exclamation => seq!['!'],
        TokenPunct::Dot => seq!['.'],
        TokenPunct::Comma => seq![','],
        TokenPunct::Colon => seq![':'],
        TokenPunct::SemiColon => seq![';'],
        TokenPunct::Eq => seq!['='],
        TokenPunct::DoubleEq => seq!['=', '='],
        TokenPunct::NotEq => seq!['!', '='],
        TokenPunct::Lt => seq!['<'],
        TokenPunct::DoubleLt => seq!['<', '<'],
        TokenPunct::DoubleLtEq => seq!['<', '<', '='],
        TokenPunct::LtEq => seq!['<', '='],
        TokenPunct::Gt => seq!['>'],
        TokenPunct::DoubleGt => seq!['>', '>'],
        TokenPunct::DoubleGtEq => seq!['>', '>', '='],
        TokenPunct::GtEq => seq!['>', '='],
        TokenPunct::Arrow => seq!['-', '>'],
        TokenPunct::FatArrow => seq!['=', '>'],
        TokenPunct::Dollar => seq!['$'],
        TokenPunct::Backslash => seq!['\\'],
        TokenPunct::DoubleAmpersand => seq!['&', '&'],
    }
}

/// Reading a punctuation's own text gives that punctuation and takes the whole text:
/// the longest form wins (`>=` is `GtEq`, not `Gt` then `Eq`), and every punctuation
/// can be read.
pub proof fn law_punct_reads_its_text(p: TokenPunct)
    ensures
        punct_at(punct_text(p), 0) == Some((p, punct_text(p).len() as int)),
{
}

/// What is read as a punctuation is spelled as that punctuation: the characters
/// taken are its text.
pub proof fn law_punct_spelled(s: Seq<char>, i: int)
    requires
        0 <= i,
    ensures
        punct_at(s, i) matches Some((p, n)) ==> n == punct_text(p).len() && i + n <= s.len()
            && s.subrange(i, i + n) == punct_text(p),
{
    if let Some((p, n)) = punct_at(s, i) {
        assert(s.subrange(i, i + n) =~= punct_text(p));
    }
}

/// The punctuation read is the longest one the text starts with: where the text at
/// `i` starts with the text of `q`, what is read there takes at least as many
/// characters.
pub proof fn law_punct_longest(s: Seq<char>, i: int, q: TokenPunct)
    requires
        0 <= i,
        i + punct_text(q).len() <= s.len(),
        s.subrange(i, i + punct_text(q).len()) == punct_text(q),
    ensures
        punct_at(s, i) matches Some((p, n)) && n >= punct_text(q).len(),
{
    let t = punct_text(q);
    assert(s[i] == t[0]) by {
        assert(s.subrange(i, i + t.len())[0] == t[0]);
    }
    if t.len() >= 2 {
        assert(s[i + 1] == t[1]) by {
            assert(s.subrange(i, i + t.len())[1] == t[1]);
        }
    }
    if t.len() >= 3 {
        assert(s[i + 2] == t[2]) by {
            assert(s.subrange(i, i + t.len())[2] == t[2]);
        }
    }
}

impl TokenPunct {
    /// Reads a punctuation token at the cursor, if one starts there.
    pub fn try_read(cursor: &mut SourceCursor) -> (r: TokenResult<Self>)
        requires
            old(cursor).wf(),
            old(cursor).absolute() + 3 <= usize::MAX,
        ensures
            match punct_at(old(cursor).text(), old(cursor).index() as int) {
                Some((p, n)) => r == Ok::<Option<Self>, super::TokenError>(Some(p)) && consumed_to(
                    *final(cursor),
                    *old(cursor),
                    old(cursor).index() + n,
                ),
                None => r == Ok::<Option<Self>, super::TokenError>(None) && consumed_to(
                    *final(cursor),
                    *old(cursor),
                    old(cursor).index() as int,
                ),
            },
    {
        let result = match cursor.current() {
            '+' => {
                if cursor.next() == '=' {
                    cursor.advance();
                    Some(Self::PlusEq)
                } else {
                    Some(Self::Plus)
                }
            },
            '-' => {
                if cursor.next() == '=' {
                    cursor.advance();
                    Some(Self::MinusEq)
                } else if cursor.next() == '>' {
                    cursor.advance();
                    Some(Self::Arrow)
                } else {
                    Some(Self::Minus)
                }
            },
            '*' => {
                if cursor.next() == '=' {
                    cursor.advance();
                    Some(Self::StarEq)
                } else {
                    Some(Self::Star)
                }
            },
            '/' => {
                if cursor.next() == '=' {
                    cursor.advance();
                    Some(Self::SlashEq)
                } else {
                    Some(Self::Slash)
                }
            },
            '%' => {
                if cursor.next() == '=' {
                    cursor.advance();
                    Some(Self::PercentEq)
                } else {
                    Some(Self::Percent)
                }
            },
            '^' => {
                if cursor.next() == '=' {
                    cursor.advance();
                    Some(Self::CaretEq)
                } else {
                    Some(Self::Caret)
                }
            },
            '&' => {
                if cursor.next() == '=' {
                    cursor.advance();
                    Some(Self::AmpersandEq)
                } else if cursor.next() == '&' {
                    cursor.advance();
                    if cursor.next() == '=' {
                        cursor.advance();
                        Some(Self::DoubleAmpersandEq)
                    } else {
                        Some(Self::DoubleAmpersand)
                    }
                } else {
                    Some(Self::Ampersand)
                }
            },
            '|' => {
                if cursor.next() == '=' {
                    cursor.advance();
                    Some(Self::PipeEq)
                } else if cursor.next() == '|' {
                    cursor.advance();
                    if cursor.next() == '=' {
                        cursor.advance();
                        Some(Self::DoublePipeEq)
                    } else {
                        Some(Self::DoublePipe)
                    }
                } else {
                    Some(Self::Pipe)
                }
            },
            '!' => {
                if cursor.next() == '=' {
                    cursor.advance();
                    Some(Self::NotEq)
                } else {
                    Some(Self::Exclamation)
                }
            },
            '=' => {
                if cursor.next() == '=' {
                    cursor.advance();
                    Some(Self::DoubleEq)
                } else if cursor.next() == '>' {
                    cursor.advance();
                    Some(Self::FatArrow)
                } else {
                    Some(Self::Eq)
                }
            },
            '<' => {
                if cursor.next() == '=' {
                    cursor.advance();
                    Some(Self::LtEq)
                } else if cursor.next() == '<' {
                    cursor.advance();
                    if cursor.next() == '=' {
                        cursor.advance();
                        Some(Self::DoubleLtEq)
                    } else {
                        Some(Self::DoubleLt)
                    }
                } else {
                    Some(Self::Lt)
                }
            },
            '>' => {
                if cursor.next() == '=' {
                    cursor.advance();
                    Some(Self::GtEq)
                } else if cursor.next() == '>' {
                    cursor.advance();
                    if cursor.next() == '=' {
                        cursor.advance();
                        Some(Self::DoubleGtEq)
                    } else {
                        Some(Self::DoubleGt)
                    }
                } else {
                    Some(Self::Gt)
                }
            },
            '.' => Some(Self::Dot),
            ',' => Some(Self::Comma),
            ':' => Some(Self::Colon),
            ';' => Some(Self::SemiColon),
            '~' => Some(Self::Tilde),
            '?' => Some(Self::Question),
            '$' => Some(Self::Dollar),
            '\\' => Some(Self::Backslash),
            _ => None,
        };
        if result.is_some() {
            cursor.advance();
        }
        Ok(result)
    }
}

} // verus!
