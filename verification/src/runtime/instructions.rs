use vstd::prelude::*;

use super::chunk::BytecodeError;

verus! {

/// A register number, as it is written in the bytecode.
pub type Register = u8;

/// An instruction of the bytecode; its byte is its position in this list.
#[derive(Debug, Clone, Copy, PartialEq, Eq, Structural)]
pub enum Instruction {
    Return,
    Const,
    Add,
    Sub,
    Mul,
    Div,
    Mod,
    BitAnd,
    BitOr,
    BitXor,
    LeftShift,
    RightShift,
    Eq,
    And,
    Or,
    PushFrame,
    Load,
    LoadLocal,
    Store,
    StoreLocal,
}

/// The number of instructions: every byte below it names one.
pub const INSTRUCTION_COUNT: u8 = 20;

/// The byte that stands for `i`.
pub open spec fn instruction_byte(i: Instruction) -> u8 {
    match i {
        Instruction::Return => 0,
        Instruction::Const => 1,
        Instruction::Add => 2,
        Instruction::Sub => 3,
        Instruction::Mul => 4,
        Instruction::Div => 5,
        Instruction::Mod => 6,
        Instruction::BitAnd => 7,
        Instruction::BitOr => 8,
        Instruction::BitXor => 9,
        Instruction::LeftShift => 10,
        Instruction::RightShift => 11,
        Instruction::Eq => 12,
        Instruction::And => 13,
        Instruction::Or => 14,
        Instruction::PushFrame => 15,
        Instruction::Load => 16,
        Instruction::LoadLocal => 17,
        Instruction::Store => 18,
        Instruction::StoreLocal => 19,
    }
}

/// The instruction's name, as the instruction set spells it.
pub open spec fn instruction_name(i: Instruction) -> Seq<char> {
    match i {
        Instruction::Return => "Return"@,
        Instruction::Const => "Const"@,
        Instruction::Add => "Add"@,
        Instruction::Sub => "Sub"@,
        Instruction::Mul => "Mul"@,
        Instruction::Div => "Div"@,
        Instruction::Mod => "Mod"@,
        Instruction::BitAnd => "BitAnd"@,
        Instruction::BitOr => "BitOr"@,
        Instruction::BitXor => "BitXor"@,
        Instruction::LeftShift => "LeftShift"@,
        Instruction::RightShift => "RightShift"@,
        Instruction::Eq => "Eq"@,
        Instruction::And => "And"@,
        Instruction::Or => "Or"@,
        Instruction::PushFrame => "PushFrame"@,
        Instruction::Load => "Load"@,
        Instruction::LoadLocal => "LoadLocal"@,
        Instruction::Store => "Store"@,
        Instruction::StoreLocal => "StoreLocal"@,
    }
}

/// The number that the little-endian bytes `b` stand for.
pub open spec fn le_value(b: Seq<u8>) -> nat
    decreases b.len(),
{
    if b.len() == 0 {
        0
    } else {
        b[0] as nat + 256 * le_value(b.drop_first())
    }
}

impl Instruction {
    /// The three registers of a binary operation: left, right and destination.
    pub fn read_binary_args(buffer: &[u8]) -> (r: Result<(Register, Register, Register), BytecodeError>)
        ensures
            buffer@.len() < 3 ==> r == Err::<(Register, Register, Register), BytecodeError>(
                BytecodeError::UnexpectedEOF,
            ),
            buffer@.len() >= 3 ==> r == Ok::<(Register, Register, Register), BytecodeError>(
                (buffer@[0], buffer@[1], buffer@[2]),
            ),
    {
        if buffer.len() < 3 {
            Err(BytecodeError::UnexpectedEOF)
        } else {
            Ok((buffer[0], buffer[1], buffer[2]))
        }
    }

    /// The variable index that the first two bytes hold, little-endian.
    pub fn read_variable(buffer: &[u8]) -> (r: Result<u16, BytecodeError>)
        ensures
            buffer@.len() < 2 ==> r == Err::<u16, BytecodeError>(BytecodeError::UnexpectedEOF),
            buffer@.len() >= 2 ==> (r matches Ok(v) && v == le_value(buffer@.take(2))),
    {
        if buffer.len() < 2 {
            Err(BytecodeError::UnexpectedEOF)
        } else {
            proof {
                reveal_with_fuel(le_value, 3);
                assert(buffer@.take(2).drop_first().drop_first() =~= Seq::<u8>::empty());
            }
            Ok(le_u16(buffer[0], buffer[1]))
        }
    }

    /// The constant index (two bytes, little-endian) and the destination register.
    pub fn read_constant(buffer: &[u8]) -> (r: Result<(u16, Register), BytecodeError>)
        ensures
            buffer@.len() < 3 ==> r == Err::<(u16, Register), BytecodeError>(
                BytecodeError::UnexpectedEOF,
            ),
            buffer@.len() >= 3 ==> (r matches Ok((v, reg)) && v == le_value(buffer@.take(2)) && reg
                == buffer@[2]),
    {
        if buffer.len() < 3 {
            Err(BytecodeError::UnexpectedEOF)
        } else {
            proof {
                reveal_with_fuel(le_value, 3);
                assert(buffer@.take(2).drop_first().drop_first() =~= Seq::<u8>::empty());
            }
            Ok((le_u16(buffer[0], buffer[1]), buffer[2]))
        }
    }

    /// Whether the instruction is one of the binary operations, `Add` to `Or`.
    pub fn is_binary(self) -> (b: bool)
        ensures
            b == (instruction_byte(Instruction::Add) <= instruction_byte(self) <= instruction_byte(
                Instruction::Or,
            )),
    {
        match self {
            Instruction::Add | Instruction::Sub | Instruction::Mul | Instruction::Div
            | Instruction::Mod | Instruction::BitAnd | Instruction::BitOr | Instruction::BitXor
            | Instruction::LeftShift | Instruction::RightShift | Instruction::Eq
            | Instruction::And | Instruction::Or => true,
            _ => false,
        }
    }

    /// The instruction that `byte` stands for.
    pub fn from_byte(byte: u8) -> (r: Result<Self, BytecodeError>)
        ensures
            byte < INSTRUCTION_COUNT ==> (r matches Ok(i) && instruction_byte(i) == byte),
            byte >= INSTRUCTION_COUNT ==> r == Err::<Self, BytecodeError>(
                BytecodeError::InvalidInstruction(byte),
            ),
    {
        match byte {
            0 => Ok(Instruction::Return),
            1 => Ok(Instruction::Const),
            2 => Ok(Instruction::Add),
            3 => Ok(Instruction::Sub),
            4 => Ok(Instruction::Mul),
            5 => Ok(Instruction::Div),
            6 => Ok(Instruction::Mod),
            7 => Ok(Instruction::BitAnd),
            8 => Ok(Instruction::BitOr),
            9 => Ok(Instruction::BitXor),
            10 => Ok(Instruction::LeftShift),
            11 => Ok(Instruction::RightShift),
            12 => Ok(Instruction::Eq),
            13 => Ok(Instruction::And),
            14 => Ok(Instruction::Or),
            15 => Ok(Instruction::PushFrame),
            16 => Ok(Instruction::Load),
            17 => Ok(Instruction::LoadLocal),
            18 => Ok(Instruction::Store),
            19 => Ok(Instruction::StoreLocal),
            _ => Err(BytecodeError::InvalidInstruction(byte)),
        }
    }

    /// The byte that stands for the instruction.
    pub fn to_byte(self) -> (b: u8)
        ensures
            b == instruction_byte(self),
    {
        match self {
            Instruction::Return => 0,
            Instruction::Const => 1,
            Instruction::Add => 2,
            Instruction::Sub => 3,
            Instruction::Mul => 4,
            Instruction::Div => 5,
            Instruction::Mod => 6,
            Instruction::BitAnd => 7,
            Instruction::BitOr => 8,
            Instruction::BitXor => 9,
            Instruction::LeftShift => 10,
            Instruction::RightShift => 11,
            Instruction::Eq => 12,
            Instruction::And => 13,
            Instruction::Or => 14,
            Instruction::PushFrame => 15,
            Instruction::Load => 16,
            Instruction::LoadLocal => 17,
            Instruction::Store => 18,
            Instruction::StoreLocal => 19,
        }
    }
}

/// `b0 + 256 * b1`: two little-endian bytes.
pub fn le_u16(b0: u8, b1: u8) -> (v: u16)
    ensures
        v == b0 + 256 * b1,
{
    b0 as u16 + (b1 as u16) * 256
}

/// Every instruction has a byte below the count, and that byte reads back as the
/// instruction.
pub proof fn law_instruction_bytes_distinct(i: Instruction)
    ensures
        instruction_byte(i) < INSTRUCTION_COUNT,
        forall|j: Instruction| instruction_byte(j) == instruction_byte(i) ==> j == i,
{
}

} // verus!
