use vstd::prelude::*;

use crate::tokens::TokenTypeV;
use crate::tokens::punct::TokenPunct;

use super::tok_at;
use super::punct::{Ampersand, Caret, DoubleAmpersand, DoubleEq, DoubleGt, DoubleLt, DoublePipe, Gt, GtEq, Lt, LtEq, Minus, NotEq, Percent, Pipe, Plus, Slash, Star, parse_punct};
use super::stream::ParseStream;

verus! {

/// A prefix operator of a simple expression.
#[derive(Debug, PartialEq, Eq, Clone, Copy, Structural)]
pub enum UnaryType {
    Not,
    Neg,
}

/// An infix operator of a simple expression.
#[derive(Debug, PartialEq, Eq, Clone, Copy, Structural)]
pub enum BinaryType {
    Or,
    Add,
    Sub,
    Mul,
    Div,
    Mod,
    BitAnd,
    And,
    BitOr,
    BitXor,
    Eq,
    Neq,
    Lt,
    Gt,
    Leq,
    Geq,
    LeftShift,
    RightShift,
}

/// The punctuation that writes the operator.
pub open spec fn operator_punct(op: BinaryType) -> TokenPunct {
    match op {
        BinaryType::Or => TokenPunct::DoublePipe,
        BinaryType::Add => TokenPunct::Plus,
        BinaryType::Sub => TokenPunct::Minus,
        BinaryType::Mul => TokenPunct::Star,
        BinaryType::Div => TokenPunct::Slash,
        BinaryType::Mod => TokenPunct::Percent,
        BinaryType::BitAnd => TokenPunct::Ampersand,
        BinaryType::And => TokenPunct::DoubleAmpersand,
        BinaryType::BitOr => TokenPunct::Pipe,
        BinaryType::BitXor => TokenPunct::Caret,
        BinaryType::Eq => TokenPunct::DoubleEq,
        BinaryType::Neq => TokenPunct::NotEq,
        BinaryType::Lt => TokenPunct::Lt,
        BinaryType::Gt => TokenPunct::Gt,
        BinaryType::Leq => TokenPunct::LtEq,
        BinaryType::Geq => TokenPunct::GtEq,
        BinaryType::LeftShift => TokenPunct::DoubleLt,
        BinaryType::RightShift => TokenPunct::DoubleGt,
    }
}

impl BinaryType {
    /// Whether the operator is at the front of the stream; when it is, it is taken.
    pub fn matches(&self, stream: &mut ParseStream) -> (b: bool)
        requires
            old(stream).wf(),
        ensures
            final(stream).wf(),
            b == (tok_at(old(stream)@.0, old(stream)@.1, 0).content == TokenTypeV::Punct(
                operator_punct(*self),
            )),
            final(stream)@.0 == old(stream)@.0.skip(if b {
                1int
            } else {
                0int
            }),
            final(stream)@.1 == old(stream)@.1,
    {
        match self {
            BinaryType::Or => parse_punct::<DoublePipe>(stream).is_ok(),
            BinaryType::Add => parse_punct::<Plus>(stream).is_ok(),
            BinaryType::Sub => parse_punct::<Minus>(stream).is_ok(),
            BinaryType::Mul => parse_punct::<Star>(stream).is_ok(),
            BinaryType::Div => parse_punct::<Slash>(stream).is_ok(),
            BinaryType::Mod => parse_punct::<Percent>(stream).is_ok(),
            BinaryType::BitAnd => parse_punct::<Ampersand>(stream).is_ok(),
            BinaryType::And => parse_punct::<DoubleAmpersand>(stream).is_ok(),
            BinaryType::BitOr => parse_punct::<Pipe>(stream).is_ok(),
            BinaryType::BitXor => parse_punct::<Caret>(stream).is_ok(),
            BinaryType::Eq => parse_punct::<DoubleEq>(stream).is_ok(),
            BinaryType::Neq => parse_punct::<NotEq>(stream).is_ok(),
            BinaryType::Lt => parse_punct::<Lt>(stream).is_ok(),
            BinaryType::Gt => parse_punct::<Gt>(stream).is_ok(),
            BinaryType::Leq => parse_punct::<LtEq>(stream).is_ok(),
            BinaryType::Geq => parse_punct::<GtEq>(stream).is_ok(),
            BinaryType::LeftShift => parse_punct::<DoubleLt>(stream).is_ok(),
            BinaryType::RightShift => parse_punct::<DoubleGt>(stream).is_ok(),
        }
    }
}

} // verus!
