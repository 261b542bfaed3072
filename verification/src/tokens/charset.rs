use vstd::prelude::*;

verus! {

/// A bare identifier.
#[derive(Debug, PartialEq, Eq)]
pub struct Ident(pub String);

/// A literal as its source text.
#[derive(Debug, PartialEq, Eq)]
pub enum Literal {
    Number(String),
    String(String),
}

/// Punctuation, one variant per operator or separator.
#[derive(Debug, Clone, Copy, PartialEq, Eq, Structural)]
pub enum Punct {
    Plus,
    Minus,
    Star,
    Slash,
    Percent,
    Caret,
    Ampersand,
    Pipe,
    DoublePipe,
    PlusEq,
    MinusEq,
    StarEq,
    SlashEq,
    PercentEq,
    CaretEq,
    AmpersandEq,
    PipeEq,
    Tilde,
    Question,
    Exclamation,
    Dot,
    Comma,
    Colon,
    SemiColon,
    Eq,
    DoubleEq,
    NotEq,
    Lt,
    LeftShift,
    LeftShiftEq,
    LtEq,
    Gt,
    RightShift,
    RightShiftEq,
    GtEq,
    Arrow,
    FatArrow,
    Hash,
    Dollar,
    At,
    Underscore,
    Backslash,
    Newline,
    DoubleAmpersand,
}

/// The characters that start a punctuation.
pub open spec fn punct_char(c: char) -> bool {
    c == '+' || c == '-' || c == '*' || c == '/' || c == '%' || c == '^' || c == '&' || c == '|'
        || c == '~' || c == '?' || c == '!' || c == '.' || c == ',' || c == ':' || c == ';' || c
        == '=' || c == '<' || c == '>' || c == '{' || c == '}' || c == '[' || c == ']' || c == '('
        || c == ')' || c == '#' || c == '$' || c == '@' || c == '_' || c == '\\'
}

impl Punct {
    /// Whether `c` starts a punctuation.
    pub fn is_punct_char(c: char) -> (b: bool)
        ensures
            b == punct_char(c),
    {
        match c {
            '+' | '-' | '*' | '/' | '%' | '^' | '&' | '|' | '~' | '?' | '!' | '.' | ',' | ':' | ';'
            | '=' | '<' | '>' | '{' | '}' | '[' | ']' | '(' | ')' | '#' | '$' | '@' | '_'
            | '\\' => true,
            _ => false,
        }
    }
}

/// The delimiter of a group.
#[derive(Debug, Clone, Copy, PartialEq, Eq, Structural)]
pub enum GroupDelim {
    Parens,
    Braces,
    Brackets,
}

/// The delimiter that the opening character `c` stands for.
pub open spec fn opening_delim(c: char) -> Option<GroupDelim> {
    if c == '(' {
        Some(GroupDelim::Parens)
    } else if c == '[' {
        Some(GroupDelim::Brackets)
    } else if c == '{' {
        Some(GroupDelim::Braces)
    } else {
        None
    }
}

impl GroupDelim {
    /// Whether `c` opens a group.
    pub fn is_opening_char(c: char) -> (b: bool)
        ensures
            b == opening_delim(c) is Some,
    {
        c == '(' || c == '[' || c == '{'
    }

    /// The delimiter that `c` opens, or `c` itself when it opens none.
    pub fn from_opening(c: char) -> (r: Result<Self, char>)
        ensures
            match opening_delim(c) {
                Some(d) => r == Ok::<Self, char>(d),
                None => r == Err::<Self, char>(c),
            },
    {
        match c {
            '(' => Ok(Self::Parens),
            '[' => Ok(Self::Brackets),
            '{' => Ok(Self::Braces),
            _ => Err(c),
        }
    }
}

} // verus!
