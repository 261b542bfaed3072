use vstd::prelude::*;

use super::chunk::BytecodeError;
use super::instructions::{Instruction, Register, instruction_byte, le_value, INSTRUCTION_COUNT};
use super::scope::SymbolId;

verus! {

/// An index into a table of constants or variables.
pub type Index = u16;

/// A position in a chunk's bytes.
pub type Address = usize;

/// Reads instructions and operands from a chunk's bytes.
pub struct BufReader<'a> {
    ip: Address,
    buf: &'a [u8],
}

impl<'a> BufReader<'a> {
    /// The bytes read.
    pub closed spec fn bytes(&self) -> Seq<u8> {
        self.buf@
    }

    /// The position of the next byte to read.
    pub closed spec fn ip(&self) -> nat {
        self.ip as nat
    }

    /// The position never passes the end of the bytes.
    pub open spec fn wf(&self) -> bool {
        self.ip() <= self.bytes().len()
    }

    /// The `n` bytes at the position.
    pub open spec fn ahead(&self, n: int) -> Seq<u8> {
        self.bytes().subrange(self.ip() as int, self.ip() + n)
    }

    /// What reading an `n`-byte little-endian operand does: its value and the position
    /// after it, or, where fewer bytes are left, `UnexpectedEOF` with the position at
    /// the end.
    pub open spec fn operand_read(&self, after: &Self, r: Result<nat, BytecodeError>, n: int) -> bool {
        &&& after.wf()
        &&& after.bytes() == self.bytes()
        &&& if self.ip() + n <= self.bytes().len() {
            &&& r == Ok::<nat, BytecodeError>(le_value(self.ahead(n)))
            &&& after.ip() == self.ip() + n
        } else {
            &&& r == Err::<nat, BytecodeError>(BytecodeError::UnexpectedEOF)
            &&& after.ip() == self.bytes().len()
        }
    }

    pub fn new(buffer: &'a [u8]) -> (reader: Self)
        ensures
            reader.wf(),
            reader.bytes() == buffer@,
            reader.ip() == 0,
    {
        Self { ip: 0, buf: buffer }
    }

    fn next_byte(&mut self) -> (r: Result<u8, BytecodeError>)
        requires
            old(self).wf(),
        ensures
            final(self).wf(),
            final(self).bytes() == old(self).bytes(),
            old(self).ip() < old(self).bytes().len() ==> r == Ok::<u8, BytecodeError>(
                old(self).bytes()[old(self).ip() as int],
            ) && final(self).ip() == old(self).ip() + 1,
            old(self).ip() >= old(self).bytes().len() ==> r == Err::<u8, BytecodeError>(
                BytecodeError::UnexpectedEOF,
            ) && final(self).ip() == old(self).ip(),
    {
        if self.ip >= self.buf.len() {
            return Err(BytecodeError::UnexpectedEOF);
        }
        let byte = self.buf[self.ip];
        self.ip += 1;
        Ok(byte)
    }

    pub fn eof(&self) -> (b: bool)
        ensures
            b == (self.ip() >= self.bytes().len()),
    {
        self.ip >= self.buf.len()
    }

    /// Reads one instruction byte.
    pub fn read_instruction(&mut self) -> (r: Result<Instruction, BytecodeError>)
        requires
            old(self).wf(),
        ensures
            final(self).wf(),
            final(self).bytes() == old(self).bytes(),
            old(self).ip() >= old(self).bytes().len() ==> r == Err::<Instruction, BytecodeError>(
                BytecodeError::UnexpectedEOF,
            ) && final(self).ip() == old(self).ip(),
            old(self).ip() < old(self).bytes().len() ==> final(self).ip() == old(self).ip() + 1 && ({
                let byte = old(self).bytes()[old(self).ip() as int];
                &&& byte < INSTRUCTION_COUNT ==> (r matches Ok(i) && instruction_byte(i) == byte)
                &&& byte >= INSTRUCTION_COUNT ==> r == Err::<Instruction, BytecodeError>(
                    BytecodeError::InvalidInstruction(byte),
                )
            }),
    {
        let byte = match self.next_byte() {
            Ok(b) => b,
            Err(e) => return Err(e),
        };
        Instruction::from_byte(byte)
    }

    /// Reads a two-byte little-endian index.
    pub fn read_index(&mut self) -> (r: Result<Index, BytecodeError>)
        requires
            old(self).wf(),
        ensures
            old(self).operand_read(
                &*final(self),
                match r {
                    Ok(v) => Ok(v as nat),
                    Err(e) => Err(e),
                },
                2,
            ),
    {
        let b0 = match self.next_byte() {
            Ok(b) => b,
            Err(e) => return Err(e),
        };
        let b1 = match self.next_byte() {
            Ok(b) => b,
            Err(e) => return Err(e),
        };
        proof {
            let s = old(self).ahead(2);
            assert(s =~= seq![b0, b1]);
            reveal_with_fuel(le_value, 3);
            assert(s.drop_first().drop_first() =~= Seq::<u8>::empty());
        }
        Ok(b0 as u16 + (b1 as u16) * 256)
    }

    /// Reads a one-byte register number.
    pub fn read_register(&mut self) -> (r: Result<Register, BytecodeError>)
        requires
            old(self).wf(),
        ensures
            old(self).operand_read(
                &*final(self),
                match r {
                    Ok(v) => Ok(v as nat),
                    Err(e) => Err(e),
                },
                1,
            ),
    {
        let b = match self.next_byte() {
            Ok(b) => b,
            Err(e) => return Err(e),
        };
        proof {
            let s = old(self).ahead(1);
            assert(s =~= seq![b]);
            reveal_with_fuel(le_value, 2);
            assert(s.drop_first() =~= Seq::<u8>::empty());
        }
        Ok(b)
    }

    /// Reads a four-byte little-endian symbol number.
    pub fn read_symbol(&mut self) -> (r: Result<SymbolId, BytecodeError>)
        requires
            old(self).wf(),
        ensures
            old(self).operand_read(
                &*final(self),
                match r {
                    Ok(v) => Ok(v as nat),
                    Err(e) => Err(e),
                },
                4,
            ),
    {
        let b0 = match self.next_byte() {
            Ok(b) => b,
            Err(e) => return Err(e),
        };
        let b1 = match self.next_byte() {
            Ok(b) => b,
            Err(e) => return Err(e),
        };
        let b2 = match self.next_byte() {
            Ok(b) => b,
            Err(e) => return Err(e),
        };
        let b3 = match self.next_byte() {
            Ok(b) => b,
            Err(e) => return Err(e),
        };
        proof {
            let s = old(self).ahead(4);
            assert(s =~= seq![b0, b1, b2, b3]);
            reveal_with_fuel(le_value, 5);
            assert(s.drop_first().drop_first().drop_first().drop_first() =~= Seq::<u8>::empty());
        }
        let lo: u32 = b0 as u32 + (b1 as u32) * 256;
        let hi: u32 = b2 as u32 + (b3 as u32) * 256;
        Ok(lo + hi * 65536)
    }

    /// Reads an eight-byte little-endian address (on a target whose addresses are
    /// narrower, the number is cut to the address's width).
    pub fn read_address(&mut self) -> (r: Result<Address, BytecodeError>)
        requires
            old(self).wf(),
        ensures
            old(self).operand_read(
                &*final(self),
                match r {
                    Ok(v) => Ok(le_value(old(self).ahead(8))),
                    Err(e) => Err(e),
                },
                8,
            ),
            r matches Ok(v) ==> v == le_value(old(self).ahead(8)) as usize,
    {
        let mut bytes: [u8; 8] = [0u8; 8];
        let mut k: usize = 0;
        while k < 8
            invariant
                k <= 8,
                self.wf(),
                self.bytes() == old(self).bytes(),
                self.ip() == old(self).ip() + k,
                forall|m: int| 0 <= m < k ==> bytes@[m] == old(self).bytes()[old(self).ip() + m],
                bytes@.len() == 8,
            decreases 8 - k,
        {
            match self.next_byte() {
                Ok(b) => {
                    bytes[k] = b;
                },
                Err(e) => return Err(e),
            }
            k += 1;
        }
        let mut value: u64 = 0;
        let mut m: usize = 8;
        while m > 0
            invariant
                m <= 8,
                bytes@.len() == 8,
                value == le_value(bytes@.skip(m as int)),
                value < pow256((8 - m) as nat),
            decreases m,
        {
            m -= 1;
            proof {
                assert(bytes@.skip(m as int).drop_first() =~= bytes@.skip(m + 1));
                lemma_pow256_step((8 - m - 1) as nat);
            }
            value = bytes[m] as u64 + value * 256;
        }
        proof {
            assert(bytes@.skip(0) =~= bytes@);
            assert(bytes@ =~= old(self).ahead(8));
        }
        Ok(#[verifier::truncate] (value as usize))
    }

    pub fn current_address(&self) -> (a: Address)
        ensures
            a == self.ip(),
    {
        self.ip
    }

    /// Jumps to `address` and returns the position before the jump.
    pub fn jump_to(&mut self, address: Address) -> (r: Result<Address, BytecodeError>)
        requires
            old(self).wf(),
        ensures
            final(self).wf(),
            final(self).bytes() == old(self).bytes(),
            address >= old(self).bytes().len() ==> r == Err::<Address, BytecodeError>(
                BytecodeError::InvalidJumpAddress(address),
            ) && final(self).ip() == old(self).ip(),
            address < old(self).bytes().len() ==> r == Ok::<Address, BytecodeError>(
                old(self).ip() as usize,
            ) && final(self).ip() == address,
    {
        if address >= self.buf.len() {
            return Err(BytecodeError::InvalidJumpAddress(address));
        }
        let previous = self.ip;
        self.ip = address;
        Ok(previous)
    }
}

/// `256` to the power `n`.
pub open spec fn pow256(n: nat) -> nat
    decreases n,
{
    if n == 0 {
        1
    } else {
        256 * pow256((n - 1) as nat)
    }
}

proof fn lemma_pow256_step(n: nat)
    requires
        n < 8,
    ensures
        pow256(n + 1) == 256 * pow256(n),
        pow256(n + 1) <= pow256(8),
        pow256(8) == 0x1_0000_0000_0000_0000,
{
    reveal_with_fuel(pow256, 9);
}

} // verus!
