use vstd::prelude::*;

use crate::tokens::{TokenType, TokenTypeV, TokenV, lemma_tokens_view_index};
use crate::tokens::punct::{TokenPunct, punct_text};

use super::{ParseError, ParseErrorV, ParseResult, through_cursor, tok_at, unexpected};
use super::stream::{ParseStream, Parser, TokenCursor};

verus! {

/// A prefix operator.
#[derive(Debug, PartialEq, Eq, Clone, Copy, Structural)]
pub enum UnaryType {
    Not,
    Deref,
    Incr,
    Decr,
}

/// An infix operator.
#[derive(Debug, PartialEq, Eq, Clone, Copy, Structural)]
pub enum BinaryType {
    Assign,
    AddAssign,
    SubAssign,
    MulAssign,
    DivAssign,
    ModAssign,
    AndAssign,
    OrAssign,
    BitAndAssign,
    BitOrAssign,
    BitXorAssign,
    LeftShiftAssign,
    RightShiftAssign,
    Or,
    Add,
    Sub,
    Mul,
    Div,
    Mod,
    BitAnd,
    And,
    BitOr,
    BitXor,
    Eq,
    Neq,
    Lt,
    Gt,
    Leq,
    Geq,
    Access,
    LeftShift,
    RightShift,
}

impl View for BinaryType {
    type V = BinaryType;

    open spec fn view(&self) -> BinaryType {
        *self
    }
}

/// How tightly the operator binds: assignments loosest, member access tightest.
pub open spec fn precedence_of(op: BinaryType) -> u8 {
    match op {
        BinaryType::Assign => 0,
        BinaryType::AddAssign => 0,
        BinaryType::SubAssign => 0,
        BinaryType::MulAssign => 0,
        BinaryType::DivAssign => 0,
        BinaryType::ModAssign => 0,
        BinaryType::AndAssign => 0,
        BinaryType::OrAssign => 0,
        BinaryType::BitAndAssign => 0,
        BinaryType::BitOrAssign => 0,
        BinaryType::BitXorAssign => 0,
        BinaryType::LeftShiftAssign => 0,
        BinaryType::RightShiftAssign => 0,
        BinaryType::Or => 1,
        BinaryType::Add => 8,
        BinaryType::Sub => 8,
        BinaryType::Mul => 9,
        BinaryType::Div => 9,
        BinaryType::Mod => 9,
        BinaryType::BitAnd => 6,
        BinaryType::And => 2,
        BinaryType::BitOr => 4,
        BinaryType::BitXor => 5,
        BinaryType::Eq => 3,
        BinaryType::Neq => 3,
        BinaryType::Lt => 3,
        BinaryType::Gt => 3,
        BinaryType::Leq => 3,
        BinaryType::Geq => 3,
        BinaryType::Access => 10,
        BinaryType::LeftShift => 7,
        BinaryType::RightShift => 7,
    }
}

/// The assignments are the operators that group to the right.
pub open spec fn is_assignment(op: BinaryType) -> bool {
    precedence_of(op) == 0
}

impl BinaryType {
    /// How tightly the operator binds.
    pub fn precedence(&self) -> (p: u8)
        ensures
            p == precedence_of(*self),
    {
        match self {
            BinaryType::Assign => 0,
            BinaryType::AddAssign => 0,
            BinaryType::SubAssign => 0,
            BinaryType::MulAssign => 0,
            BinaryType::DivAssign => 0,
            BinaryType::ModAssign => 0,
            BinaryType::AndAssign => 0,
            BinaryType::OrAssign => 0,
            BinaryType::BitAndAssign => 0,
            BinaryType::BitOrAssign => 0,
            BinaryType::BitXorAssign => 0,
            BinaryType::LeftShiftAssign => 0,
            BinaryType::RightShiftAssign => 0,
            BinaryType::Or => 1,
            BinaryType::Add => 8,
            BinaryType::Sub => 8,
            BinaryType::Mul => 9,
            BinaryType::Div => 9,
            BinaryType::Mod => 9,
            BinaryType::BitAnd => 6,
            BinaryType::And => 2,
            BinaryType::BitOr => 4,
            BinaryType::BitXor => 5,
            BinaryType::Eq => 3,
            BinaryType::Neq => 3,
            BinaryType::Lt => 3,
            BinaryType::Gt => 3,
            BinaryType::Leq => 3,
            BinaryType::Geq => 3,
            BinaryType::Access => 10,
            BinaryType::LeftShift => 7,
            BinaryType::RightShift => 7,
        }
    }

    /// Whether operators of this kind group to the left: all but the assignments.
    pub fn left_associative(&self) -> (b: bool)
        ensures
            b == !is_assignment(*self),
    {
        match self {
            BinaryType::Assign | BinaryType::AddAssign | BinaryType::SubAssign
            | BinaryType::MulAssign | BinaryType::DivAssign | BinaryType::ModAssign
            | BinaryType::AndAssign | BinaryType::OrAssign | BinaryType::BitAndAssign
            | BinaryType::BitOrAssign | BinaryType::BitXorAssign | BinaryType::LeftShiftAssign
            | BinaryType::RightShiftAssign => false,
            _ => true,
        }
    }
}

/// The infix operator that the punctuation `p` writes, if any.
pub open spec fn binary_operator(p: TokenPunct) -> Option<BinaryType> {
    match p {
        TokenPunct::Plus => Some(BinaryType::Add),
        TokenPunct::Minus => Some(BinaryType::Sub),
        TokenPunct::Star => Some(BinaryType::Mul),
        TokenPunct::Slash => Some(BinaryType::Div),
        TokenPunct::Percent => Some(BinaryType::Mod),
        TokenPunct::Ampersand => Some(BinaryType::BitAnd),
        TokenPunct::DoubleAmpersand => Some(BinaryType::And),
        TokenPunct::Pipe => Some(BinaryType::BitOr),
        TokenPunct::Caret => Some(BinaryType::BitXor),
        TokenPunct::DoublePipe => Some(BinaryType::Or),
        TokenPunct::DoubleEq => Some(BinaryType::Eq),
        TokenPunct::NotEq => Some(BinaryType::Neq),
        TokenPunct::Lt => Some(BinaryType::Lt),
        TokenPunct::Gt => Some(BinaryType::Gt),
        TokenPunct::LtEq => Some(BinaryType::Leq),
        TokenPunct::GtEq => Some(BinaryType::Geq),
        TokenPunct::Eq => Some(BinaryType::Assign),
        TokenPunct::PlusEq => Some(BinaryType::AddAssign),
        TokenPunct::MinusEq => Some(BinaryType::SubAssign),
        TokenPunct::StarEq => Some(BinaryType::MulAssign),
        TokenPunct::SlashEq => Some(BinaryType::DivAssign),
        TokenPunct::PercentEq => Some(BinaryType::ModAssign),
        TokenPunct::DoubleAmpersandEq => Some(BinaryType::AndAssign),
        TokenPunct::DoublePipeEq => Some(BinaryType::OrAssign),
        TokenPunct::AmpersandEq => Some(BinaryType::BitAndAssign),
        TokenPunct::PipeEq => Some(BinaryType::BitOrAssign),
        TokenPunct::CaretEq => Some(BinaryType::BitXorAssign),
        TokenPunct::Dot => Some(BinaryType::Access),
        TokenPunct::DoubleLt => Some(BinaryType::LeftShift),
        TokenPunct::DoubleGt => Some(BinaryType::RightShift),
        TokenPunct::DoubleLtEq => Some(BinaryType::LeftShiftAssign),
        TokenPunct::DoubleGtEq => Some(BinaryType::RightShiftAssign),
        _ => None,
    }
}

/// How the operator is written.
pub open spec fn operator_symbol(op: BinaryType) -> Seq<char> {
    match op {
        BinaryType::Assign => seq!['='],
        BinaryType::AddAssign => seq!['+', '='],
        BinaryType::SubAssign => seq!['-', '='],
        BinaryType::MulAssign => seq!['*', '='],
        BinaryType::DivAssign => seq!['/', '='],
        BinaryType::ModAssign => seq!['%', '='],
        BinaryType::AndAssign => seq!['&', '&', '='],
        BinaryType::OrAssign => seq!['|', '|', '='],
        BinaryType::BitAndAssign => seq!['&', '='],
        BinaryType::BitOrAssign => seq!['|', '='],
        BinaryType::BitXorAssign => seq!['^', '='],
        BinaryType::LeftShiftAssign => seq!['<', '<', '='],
        BinaryType::RightShiftAssign => seq!['>', '>', '='],
        BinaryType::Or => seq!['|', '|'],
        BinaryType::Add => seq!['+'],
        BinaryType::Sub => seq!['-'],
        BinaryType::Mul => seq!['*'],
        BinaryType::Div => seq!['/'],
        BinaryType::Mod => seq!['%'],
        BinaryType::BitAnd => seq!['&'],
        BinaryType::And => seq!['&', '&'],
        BinaryType::BitOr => seq!['|'],
        BinaryType::BitXor => seq!['^'],
        BinaryType::Eq => seq!['=', '='],
        BinaryType::Neq => seq!['!', '='],
        BinaryType::Lt => seq!['<'],
        BinaryType::Gt => seq!['>'],
        BinaryType::Leq => seq!['<', '='],
        BinaryType::Geq => seq!['>', '='],
        BinaryType::Access => seq!['.'],
        BinaryType::LeftShift => seq!['<', '<'],
        BinaryType::RightShift => seq!['>', '>'],
    }
}

proof fn lemma_symbol_reads_as_operator(op: BinaryType)
    ensures
        crate::tokens::punct::punct_at(operator_symbol(op), 0) matches Some((q, n)) && binary_operator(q)
            == Some(op),
{
}

/// A punctuation stands for the operator that is written as it: `+` for addition,
/// `>=` for "at least", `+=` for adding in place, and so on for every operator.
pub proof fn law_operator_written_as_punct(p: TokenPunct, op: BinaryType)
    ensures
        binary_operator(p) == Some(op) <==> punct_text(p) == operator_symbol(op),
{
    crate::tokens::punct::law_punct_reads_its_text(p);
    lemma_symbol_reads_as_operator(op);
    if binary_operator(p) == Some(op) {
        assert(punct_text(p) =~= operator_symbol(op));
    }
}

/// No two punctuations write the same operator.
pub proof fn law_operator_punct_injective(p: TokenPunct, q: TokenPunct)
    ensures
        binary_operator(p) is Some && binary_operator(p) == binary_operator(q) ==> p == q,
{
}

/// The infix operator that the punctuation `p` writes, if any.
pub fn operator_of(p: TokenPunct) -> (r: Option<BinaryType>)
    ensures
        r == binary_operator(p),
{
    match p {
        TokenPunct::Plus => Some(BinaryType::Add),
        TokenPunct::Minus => Some(BinaryType::Sub),
        TokenPunct::Star => Some(BinaryType::Mul),
        TokenPunct::Slash => Some(BinaryType::Div),
        TokenPunct::Percent => Some(BinaryType::Mod),
        TokenPunct::Ampersand => Some(BinaryType::BitAnd),
        TokenPunct::DoubleAmpersand => Some(BinaryType::And),
        TokenPunct::Pipe => Some(BinaryType::BitOr),
        TokenPunct::Caret => Some(BinaryType::BitXor),
        TokenPunct::DoublePipe => Some(BinaryType::Or),
        TokenPunct::DoubleEq => Some(BinaryType::Eq),
        TokenPunct::NotEq => Some(BinaryType::Neq),
        TokenPunct::Lt => Some(BinaryType::Lt),
        TokenPunct::Gt => Some(BinaryType::Gt),
        TokenPunct::LtEq => Some(BinaryType::Leq),
        TokenPunct::GtEq => Some(BinaryType::Geq),
        TokenPunct::Eq => Some(BinaryType::Assign),
        TokenPunct::PlusEq => Some(BinaryType::AddAssign),
        TokenPunct::MinusEq => Some(BinaryType::SubAssign),
        TokenPunct::StarEq => Some(BinaryType::MulAssign),
        TokenPunct::SlashEq => Some(BinaryType::DivAssign),
        TokenPunct::PercentEq => Some(BinaryType::ModAssign),
        TokenPunct::DoubleAmpersandEq => Some(BinaryType::AndAssign),
        TokenPunct::DoublePipeEq => Some(BinaryType::OrAssign),
        TokenPunct::AmpersandEq => Some(BinaryType::BitAndAssign),
        TokenPunct::PipeEq => Some(BinaryType::BitOrAssign),
        TokenPunct::CaretEq => Some(BinaryType::BitXorAssign),
        TokenPunct::Dot => Some(BinaryType::Access),
        TokenPunct::DoubleLt => Some(BinaryType::LeftShift),
        TokenPunct::DoubleGt => Some(BinaryType::RightShift),
        TokenPunct::DoubleLtEq => Some(BinaryType::LeftShiftAssign),
        TokenPunct::DoubleGtEq => Some(BinaryType::RightShiftAssign),
        _ => None,
    }
}

/// What the operator parser does at the token `t`, the cursor having moved `m`.
pub open spec fn operator_outcome(t: TokenV, m: nat) -> (Result<BinaryType, ParseErrorV>, nat) {
    match t.content {
        TokenTypeV::Punct(p) => match binary_operator(p) {
            Some(op) => (Ok(op), m + 1),
            None => (unexpected("operator"@, t), m),
        },
        _ => (unexpected("operator"@, t), m),
    }
}

/// Reads an infix operator at the cursor.
pub struct OperatorParser;

impl Parser<BinaryType> for OperatorParser {
    open spec fn outcome(&self, ts: Seq<TokenV>, eof: TokenV, moved: nat) -> (Result<BinaryType, ParseErrorV>, nat) {
        operator_outcome(tok_at(ts, eof, moved as int), moved)
    }

    fn parse(self, cursor: &mut TokenCursor) -> (r: ParseResult<BinaryType>) {
        proof {
            lemma_tokens_view_index(cursor.stream().tokens(), cursor.moved() as int);
            cursor.stream().lemma_len_bound();
        }
        let operator = match &cursor.current().content {
            TokenType::Punct(punct) => match operator_of(*punct) {
                Some(op) => op,
                None => {
                    return Err(ParseError::UnexpectedToken { expected: "operator", got: cursor.current().clone() });
                },
            },
            _ => {
                return Err(ParseError::UnexpectedToken { expected: "operator", got: cursor.current().clone() });
            },
        };
        cursor.advance();
        Ok(operator)
    }
}

/// Reads an infix operator at the front of the stream, taking it when there is one.
pub fn read_operator(stream: &mut ParseStream) -> (r: Option<BinaryType>)
    requires
        old(stream).wf(),
    ensures
        final(stream).wf(),
        ({
            let (o, n) = through_cursor(operator_outcome(tok_at(old(stream)@.0, old(stream)@.1, 0), 0));
            &&& r == match o {
                Ok(op) => Some(op),
                Err(_) => None::<BinaryType>,
            }
            &&& final(stream)@.0 == old(stream)@.0.skip(n as int)
            &&& final(stream)@.1 == old(stream)@.1
        }),
{
    match stream.parse_with(OperatorParser) {
        Ok(op) => Some(op),
        Err(_) => None,
    }
}

/// The multiplicative operators `*`, `/`, `%`.
pub open spec fn is_multiplicative(op: BinaryType) -> bool {
    op == BinaryType::Mul || op == BinaryType::Div || op == BinaryType::Mod
}

/// The additive operators `+`, `-`.
pub open spec fn is_additive(op: BinaryType) -> bool {
    op == BinaryType::Add || op == BinaryType::Sub
}

/// The shifts `<<`, `>>`.
pub open spec fn is_shift(op: BinaryType) -> bool {
    op == BinaryType::LeftShift || op == BinaryType::RightShift
}

/// The comparisons `==`, `!=`, `<`, `>`, `<=`, `>=`.
pub open spec fn is_comparison(op: BinaryType) -> bool {
    op == BinaryType::Eq || op == BinaryType::Neq || op == BinaryType::Lt || op == BinaryType::Gt
        || op == BinaryType::Leq || op == BinaryType::Geq
}

/// The assigning operators `=`, `+=`, `-=` and the rest.
pub open spec fn is_assigning(op: BinaryType) -> bool {
    op == BinaryType::Assign || op == BinaryType::AddAssign || op == BinaryType::SubAssign || op
        == BinaryType::MulAssign || op == BinaryType::DivAssign || op == BinaryType::ModAssign
        || op == BinaryType::AndAssign || op == BinaryType::OrAssign || op
        == BinaryType::BitAndAssign || op == BinaryType::BitOrAssign || op
        == BinaryType::BitXorAssign || op == BinaryType::LeftShiftAssign || op
        == BinaryType::RightShiftAssign
}

/// Operators bind in the usual order, loosest first: assignments, `||`, `&&`,
/// comparisons, `|`, `^`, `&`, shifts, `+` and `-`, `*`, `/` and `%`, and member
/// access tightest; operators of one group bind equally.
pub proof fn law_precedence_order(a: BinaryType, b: BinaryType)
    ensures
        is_assigning(a) && b == BinaryType::Or ==> precedence_of(a) < precedence_of(b),
        a == BinaryType::Or && b == BinaryType::And ==> precedence_of(a) < precedence_of(b),
        a == BinaryType::And && is_comparison(b) ==> precedence_of(a) < precedence_of(b),
        is_comparison(a) && b == BinaryType::BitOr ==> precedence_of(a) < precedence_of(b),
        a == BinaryType::BitOr && b == BinaryType::BitXor ==> precedence_of(a) < precedence_of(b),
        a == BinaryType::BitXor && b == BinaryType::BitAnd ==> precedence_of(a) < precedence_of(b),
        a == BinaryType::BitAnd && is_shift(b) ==> precedence_of(a) < precedence_of(b),
        is_shift(a) && is_additive(b) ==> precedence_of(a) < precedence_of(b),
        is_additive(a) && is_multiplicative(b) ==> precedence_of(a) < precedence_of(b),
        is_multiplicative(a) && b == BinaryType::Access ==> precedence_of(a) < precedence_of(b),
        is_assignment(a) <==> is_assigning(a),
        (is_assigning(a) && is_assigning(b)) || (is_comparison(a) && is_comparison(b)) || (is_shift(
            a,
        ) && is_shift(b)) || (is_additive(a) && is_additive(b)) || (is_multiplicative(a)
            && is_multiplicative(b)) ==> precedence_of(a) == precedence_of(b),
{
}

} // verus!
