use vstd::prelude::*;

use super::RuntimeError;
use super::bufreader::{BufReader, Index};
use super::chunk::BytecodeError;
use super::instructions::{Instruction, Register, instruction_byte};

verus! {

/// What the next instruction of a running chunk asks of the thread that runs it.
#[derive(Debug, Clone, Copy, PartialEq, Eq, Structural)]
pub enum Action {
    /// The chunk has no instruction left: the run ends with no value.
    Halt,
    /// Take the value in register `value` and close the frame; the run ends with that
    /// value where the frame was the outermost (`dest` is `None`), else the value goes
    /// to register `dest` of the frame below.
    Return { value: Register, dest: Option<Register> },
    /// Put constant `index` into register `dest`.
    Const { index: Index, dest: Register },
    /// Open a new frame of variables.
    PushFrame,
    /// Store register `source` in variable `variable` of the current frame.
    StoreLocal { variable: Index, source: Register },
    /// Load variable `variable` of the current frame into register `dest`.
    LoadLocal { variable: Index, dest: Register },
    /// Apply the binary operation `op` to registers `left` and `right`, into `dest`.
    Binary { op: Instruction, left: Register, right: Register, dest: Register },
}

/// The instruction that `byte` names, if it names one.
pub open spec fn instruction_of(byte: u8) -> Option<Instruction> {
    if byte == 0 {
        Some(Instruction::Return)
    } else if byte == 1 {
        Some(Instruction::Const)
    } else if byte == 2 {
        Some(Instruction::Add)
    } else if byte == 3 {
        Some(Instruction::Sub)
    } else if byte == 4 {
        Some(Instruction::Mul)
    } else if byte == 5 {
        Some(Instruction::Div)
    } else if byte == 6 {
        Some(Instruction::Mod)
    } else if byte == 7 {
        Some(Instruction::BitAnd)
    } else if byte == 8 {
        Some(Instruction::BitOr)
    } else if byte == 9 {
        Some(Instruction::BitXor)
    } else if byte == 10 {
        Some(Instruction::LeftShift)
    } else if byte == 11 {
        Some(Instruction::RightShift)
    } else if byte == 12 {
        Some(Instruction::Eq)
    } else if byte == 13 {
        Some(Instruction::And)
    } else if byte == 14 {
        Some(Instruction::Or)
    } else if byte == 15 {
        Some(Instruction::PushFrame)
    } else if byte == 16 {
        Some(Instruction::Load)
    } else if byte == 17 {
        Some(Instruction::LoadLocal)
    } else if byte == 18 {
        Some(Instruction::Store)
    } else if byte == 19 {
        Some(Instruction::StoreLocal)
    } else {
        None
    }
}

/// Whether `i` is one of the binary operations, `Add` to `Or`.
pub open spec fn is_binary_op(i: Instruction) -> bool {
    instruction_byte(Instruction::Add) <= instruction_byte(i) <= instruction_byte(Instruction::Or)
}

/// The two-byte little-endian index at `p`.
pub open spec fn index_at(b: Seq<u8>, p: int) -> int {
    b[p] + 256 * b[p + 1]
}

pub(crate) proof fn lemma_le_two(b: Seq<u8>, p: int)
    requires
        0 <= p,
        p + 2 <= b.len(),
    ensures
        super::instructions::le_value(b.subrange(p, p + 2)) == index_at(b, p),
        index_at(b, p) < 0x10000,
{
    let s = b.subrange(p, p + 2);
    reveal_with_fuel(super::instructions::le_value, 3);
    assert(s.drop_first().drop_first() =~= Seq::<u8>::empty());
}

/// Whether the instruction at `ip` is one the thread cannot run: `Load` and `Store`,
/// which it has no frame lookup for, and `Return` with no frame open.
pub open spec fn step_fails_hard(b: Seq<u8>, ip: int, depth: int) -> bool {
    &&& 0 <= ip < b.len()
    &&& instruction_of(b[ip]) matches Some(i)
    &&& (i == Instruction::Load || i == Instruction::Store || (i == Instruction::Return
        && depth == 0))
}

/// What reading the instruction at `ip` gives, with `n_consts` constants numbered from
/// zero and `depth` frames open: the action (or the error) and the position after
/// what was read. A chunk that ends inside an instruction leaves the position at its
/// end.
pub open spec fn step_spec(b: Seq<u8>, ip: int, n_consts: int, depth: int) -> (
    Result<Action, RuntimeError>,
    int,
) {
    let len = b.len() as int;
    let eof = (
        Err::<Action, RuntimeError>(RuntimeError::InvalidBytecode(BytecodeError::UnexpectedEOF)),
        len,
    );
    let p = ip + 1;
    if ip >= len {
        (Ok(Action::Halt), ip)
    } else {
        match instruction_of(b[ip]) {
            None => (Err(RuntimeError::InvalidBytecode(BytecodeError::InvalidInstruction(b[ip]))), p),
            Some(i) => if i == Instruction::Return {
                if p + 1 > len {
                    eof
                } else if depth == 1 {
                    (Ok(Action::Return { value: b[p], dest: None }), p + 1)
                } else if p + 2 > len {
                    eof
                } else {
                    (Ok(Action::Return { value: b[p], dest: Some(b[p + 1]) }), p + 2)
                }
            } else if i == Instruction::Const {
                if p + 2 > len {
                    eof
                } else if index_at(b, p) >= n_consts {
                    (Err(RuntimeError::InvalidConstant(index_at(b, p) as u16)), p + 2)
                } else if p + 3 > len {
                    eof
                } else {
                    (Ok(Action::Const { index: index_at(b, p) as u16, dest: b[p + 2] }), p + 3)
                }
            } else if i == Instruction::PushFrame {
                (Ok(Action::PushFrame), p)
            } else if i == Instruction::StoreLocal {
                if p + 3 > len {
                    eof
                } else {
                    (Ok(Action::StoreLocal { variable: index_at(b, p) as u16, source: b[p + 2] }), p + 3)
                }
            } else if i == Instruction::LoadLocal {
                if p + 3 > len {
                    eof
                } else {
                    (Ok(Action::LoadLocal { variable: index_at(b, p) as u16, dest: b[p + 2] }), p + 3)
                }
            } else if is_binary_op(i) {
                if p + 3 > len {
                    eof
                } else {
                    (Ok(Action::Binary { op: i, left: b[p], right: b[p + 1], dest: b[p + 2] }), p + 3)
                }
            } else {
                (Ok(Action::Halt), p)
            },
        }
    }
}

/// Reads a register number; the end of the chunk is an error.
fn next_register(reader: &mut BufReader) -> (r: Result<Register, RuntimeError>)
    requires
        old(reader).wf(),
    ensures
        final(reader).wf(),
        final(reader).bytes() == old(reader).bytes(),
        old(reader).ip() < old(reader).bytes().len() ==> r == Ok::<Register, RuntimeError>(
            old(reader).bytes()[old(reader).ip() as int],
        ) && final(reader).ip() == old(reader).ip() + 1,
        old(reader).ip() >= old(reader).bytes().len() ==> r == Err::<Register, RuntimeError>(
            RuntimeError::InvalidBytecode(BytecodeError::UnexpectedEOF),
        ) && final(reader).ip() == old(reader).bytes().len(),
{
    let ghost before = *reader;
    let r = reader.read_register();
    proof {
        if before.ip() < before.bytes().len() {
            let s = before.ahead(1);
            reveal_with_fuel(super::instructions::le_value, 2);
            assert(s.drop_first() =~= Seq::<u8>::empty());
        }
    }
    match r {
        Ok(v) => Ok(v),
        Err(e) => Err(RuntimeError::InvalidBytecode(e)),
    }
}

/// Reads a two-byte little-endian index; the end of the chunk is an error.
fn next_index(reader: &mut BufReader) -> (r: Result<Index, RuntimeError>)
    requires
        old(reader).wf(),
    ensures
        final(reader).wf(),
        final(reader).bytes() == old(reader).bytes(),
        old(reader).ip() + 2 <= old(reader).bytes().len() ==> r == Ok::<Index, RuntimeError>(
            index_at(old(reader).bytes(), old(reader).ip() as int) as u16,
        ) && final(reader).ip() == old(reader).ip() + 2,
        old(reader).ip() + 2 > old(reader).bytes().len() ==> r == Err::<Index, RuntimeError>(
            RuntimeError::InvalidBytecode(BytecodeError::UnexpectedEOF),
        ) && final(reader).ip() == old(reader).bytes().len(),
{
    let ghost before = *reader;
    let r = reader.read_index();
    proof {
        if before.ip() + 2 <= before.bytes().len() {
            lemma_le_two(before.bytes(), before.ip() as int);
        }
    }
    match r {
        Ok(v) => Ok(v),
        Err(e) => Err(RuntimeError::InvalidBytecode(e)),
    }
}

/// Reads the next instruction and its operands, and says what the thread is to do.
/// `n_consts` is the number of the chunk's constants, numbered from zero; `depth` is
/// the number of frames open.
#[verifier::spinoff_prover]
#[verifier::rlimit(40)]
pub fn step(reader: &mut BufReader, n_consts: usize, depth: u16) -> (r: Result<Action, RuntimeError>)
    requires
        old(reader).wf(),
        !step_fails_hard(old(reader).bytes(), old(reader).ip() as int, depth as int),
    ensures
        final(reader).wf(),
        final(reader).bytes() == old(reader).bytes(),
        (r, final(reader).ip() as int) == step_spec(
            old(reader).bytes(),
            old(reader).ip() as int,
            n_consts as int,
            depth as int,
        ),
{
    if reader.eof() {
        return Ok(Action::Halt);
    }
    let instruction = match reader.read_instruction() {
        Ok(i) => i,
        Err(e) => return Err(RuntimeError::InvalidBytecode(e)),
    };
    match instruction {
        Instruction::Return => {
            let value = match next_register(reader) {
                Ok(v) => v,
                Err(e) => return Err(e),
            };
            if depth == 1 {
                Ok(Action::Return { value, dest: None })
            } else {
                let dest = match next_register(reader) {
                Ok(v) => v,
                Err(e) => return Err(e),
            };
                Ok(Action::Return { value, dest: Some(dest) })
            }
        },
        Instruction::Const => {
            let index = match next_index(reader) {
                Ok(v) => v,
                Err(e) => return Err(e),
            };
            if index as usize >= n_consts {
                return Err(RuntimeError::InvalidConstant(index));
            }
            let dest = match next_register(reader) {
                Ok(v) => v,
                Err(e) => return Err(e),
            };
            Ok(Action::Const { index, dest })
        },
        Instruction::PushFrame => Ok(Action::PushFrame),
        Instruction::StoreLocal => {
            let variable = match next_index(reader) {
                Ok(v) => v,
                Err(e) => return Err(e),
            };
            let source = match next_register(reader) {
                Ok(v) => v,
                Err(e) => return Err(e),
            };
            Ok(Action::StoreLocal { variable, source })
        },
        Instruction::LoadLocal => {
            let variable = match next_index(reader) {
                Ok(v) => v,
                Err(e) => return Err(e),
            };
            let dest = match next_register(reader) {
                Ok(v) => v,
                Err(e) => return Err(e),
            };
            Ok(Action::LoadLocal { variable, dest })
        },
        Instruction::Load | Instruction::Store => Ok(Action::Halt),
        op => {
            let left = match next_register(reader) {
                Ok(v) => v,
                Err(e) => return Err(e),
            };
            let right = match next_register(reader) {
                Ok(v) => v,
                Err(e) => return Err(e),
            };
            let dest = match next_register(reader) {
                Ok(v) => v,
                Err(e) => return Err(e),
            };
            Ok(Action::Binary { op, left, right, dest })
        },
    }
}

/// The operands of an instruction follow it in the order they are named: a binary
/// operation `op a b c` reads `a` as its left operand, `b` as its right one and
/// writes `c`, whatever the operation; a constant load names the constant by the
/// next two bytes, little-endian, then the register; a variable store or load names
/// the variable the same way, then the register.
pub proof fn law_operands_in_order(b: Seq<u8>, ip: int, n_consts: int, depth: int)
    requires
        0 <= ip,
        ip + 3 < b.len(),
    ensures
        instruction_byte(Instruction::Add) <= b[ip] <= instruction_byte(Instruction::Or) ==> (
        step_spec(b, ip, n_consts, depth) matches (Ok(Action::Binary { op, left, right, dest }), next)
            && instruction_byte(op) == b[ip] && left == b[ip + 1] && right == b[ip + 2] && dest
            == b[ip + 3] && next == ip + 4),
        b[ip] == instruction_byte(Instruction::Const) && super::instructions::le_value(
            b.subrange(ip + 1, ip + 3),
        ) < n_consts ==> (step_spec(b, ip, n_consts, depth) matches (
            Ok(Action::Const { index, dest }),
            next,
        ) && index == super::instructions::le_value(b.subrange(ip + 1, ip + 3)) && dest == b[ip
            + 3] && next == ip + 4),
        b[ip] == instruction_byte(Instruction::StoreLocal) ==> (step_spec(b, ip, n_consts, depth) matches (
            Ok(Action::StoreLocal { variable, source }),
            next,
        ) && variable == super::instructions::le_value(b.subrange(ip + 1, ip + 3)) && source
            == b[ip + 3] && next == ip + 4),
        b[ip] == instruction_byte(Instruction::LoadLocal) ==> (step_spec(b, ip, n_consts, depth) matches (
            Ok(Action::LoadLocal { variable, dest }),
            next,
        ) && variable == super::instructions::le_value(b.subrange(ip + 1, ip + 3)) && dest == b[ip
            + 3] && next == ip + 4),
{
    lemma_le_two(b, ip + 1);
}

/// A run ends where the bytes end; a constant that the chunk does not hold is an
/// error naming its index; a return from the outermost frame ends the run with the
/// register it names, while a return from an inner frame also names the register
/// that receives the value; a byte that names no instruction is an error naming it.
pub proof fn law_step_decisions(b: Seq<u8>, ip: int, n_consts: int, depth: int)
    requires
        0 <= ip,
    ensures
        ip >= b.len() ==> step_spec(b, ip, n_consts, depth) == (Ok::<Action, RuntimeError>(Action::Halt), ip),
        ip + 3 < b.len() && b[ip] == instruction_byte(Instruction::Const) && super::instructions::le_value(
            b.subrange(ip + 1, ip + 3),
        ) >= n_consts ==> step_spec(b, ip, n_consts, depth).0 == Err::<Action, RuntimeError>(
            RuntimeError::InvalidConstant(super::instructions::le_value(b.subrange(ip + 1, ip + 3)) as u16),
        ),
        ip + 2 < b.len() && b[ip] == instruction_byte(Instruction::Return) ==> step_spec(b, ip, n_consts, depth).0
            == Ok::<Action, RuntimeError>(
            Action::Return {
                value: b[ip + 1],
                dest: if depth == 1 {
                    None
                } else {
                    Some(b[ip + 2])
                },
            },
        ),
        ip < b.len() && b[ip] >= super::instructions::INSTRUCTION_COUNT ==> step_spec(b, ip, n_consts, depth)
            == (Err::<Action, RuntimeError>(
            RuntimeError::InvalidBytecode(BytecodeError::InvalidInstruction(b[ip])),
        ), ip + 1),
{
    if ip + 3 < b.len() {
        lemma_le_two(b, ip + 1);
    }
}

} // verus!
