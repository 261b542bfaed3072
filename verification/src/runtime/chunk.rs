use vstd::prelude::*;

use crate::text::{push_char, push_str};
use super::bufreader::BufReader;
use super::instructions::{Instruction, instruction_byte, instruction_name};
use super::thread::{index_at, instruction_of, lemma_le_two};

verus! {

/// What can be wrong with a chunk's bytes.
#[derive(Debug, Clone, Copy, PartialEq, Eq, Structural)]
pub enum BytecodeError {
    /// A byte that names no instruction.
    InvalidInstruction(u8),
    /// The chunk ends in the middle of an instruction.
    UnexpectedEOF,
    /// A jump to an address outside the chunk.
    InvalidJumpAddress(usize),
}

/// The character of the digit `d` (below sixteen), with lower-case letters from ten.
pub open spec fn digit_char_of(d: int) -> char {
    if d == 0 { '0' } else if d == 1 { '1' } else if d == 2 { '2' } else if d == 3 { '3' }
    else if d == 4 { '4' } else if d == 5 { '5' } else if d == 6 { '6' } else if d == 7 { '7' }
    else if d == 8 { '8' } else if d == 9 { '9' } else if d == 10 { 'a' } else if d == 11 { 'b' }
    else if d == 12 { 'c' } else if d == 13 { 'd' } else if d == 14 { 'e' } else { 'f' }
}

/// The digits of `n` in base `radix`, most significant first, with no leading zero.
pub open spec fn radix_text(n: nat, radix: nat) -> Seq<char>
    decreases n,
{
    if radix < 2 || n < radix {
        seq![digit_char_of(n as int)]
    } else {
        proof {
            assert(n / radix < n) by (nonlinear_arith)
                requires
                    radix >= 2,
                    n >= radix,
            ;
        }
        radix_text(n / radix, radix).push(digit_char_of((n % radix) as int))
    }
}

/// `n` spaces.
pub open spec fn spaces(n: int) -> Seq<char> {
    Seq::new(if n > 0 { n as nat } else { 0 }, |i: int| ' ')
}

/// `s` followed by spaces up to `width` characters.
pub open spec fn pad_right(s: Seq<char>, width: int) -> Seq<char> {
    s + spaces(width - s.len())
}

/// `s` after spaces up to `width` characters.
pub open spec fn pad_left(s: Seq<char>, width: int) -> Seq<char> {
    spaces(width - s.len()) + s
}

/// The name that the listing gives the binary instruction `i`, where it gives one.
pub open spec fn binary_name(i: Instruction) -> Option<Seq<char>> {
    match i {
        Instruction::Add => Some("add"@),
        Instruction::Sub => Some("sub"@),
        Instruction::Mul => Some("mul"@),
        Instruction::Div => Some("div"@),
        Instruction::Mod => Some("mod"@),
        Instruction::BitAnd => Some("bitand"@),
        Instruction::BitOr => Some("bitor"@),
        Instruction::BitXor => Some("bitxor"@),
        Instruction::Eq => Some("eq"@),
        Instruction::And => Some("and"@),
        _ => None,
    }
}

/// One line of the listing: `#`, the address, the name padded to five characters and
/// the arguments right-aligned in twenty-five.
pub open spec fn listing_line(addr: int, name: Seq<char>, args: Seq<char>) -> Seq<char> {
    seq!['#'] + radix_text(addr as nat, 10) + seq![' '] + pad_right(name, 5) + seq![' '] + pad_left(
        args,
        25,
    ) + seq!['\n']
}

/// The line for the instruction at `ip` and the position after it, or the error that
/// reading it meets; `None` where the listing has no name for the instruction.
pub open spec fn listing_step(b: Seq<u8>, ip: int) -> Option<(Result<Seq<char>, BytecodeError>, int)> {
    let len = b.len() as int;
    let p = ip + 1;
    let eof = Some((Err::<Seq<char>, BytecodeError>(BytecodeError::UnexpectedEOF), len));
    match instruction_of(b[ip]) {
        None => Some((Err(BytecodeError::InvalidInstruction(b[ip])), p)),
        Some(i) => if i == Instruction::Const {
            if p + 2 > len {
                eof
            } else {
                Some((Ok(listing_line(ip, "const"@, radix_text(index_at(b, p) as nat, 16))), p + 2))
            }
        } else if i == Instruction::Return {
            Some((Ok(listing_line(ip, "ret"@, Seq::empty())), p))
        } else if i == Instruction::PushFrame {
            Some((Ok(listing_line(ip, "pushframe"@, Seq::empty())), p))
        } else if i == Instruction::StoreLocal {
            if p + 2 > len {
                eof
            } else {
                Some(
                    (
                        Ok(
                            listing_line(
                                ip,
                                "store_loc"@,
                                " >> ["@ + radix_text(index_at(b, p) as nat, 10) + "] "@,
                            ),
                        ),
                        p + 2,
                    ),
                )
            }
        } else if i == Instruction::LoadLocal {
            if p + 2 > len {
                eof
            } else {
                Some(
                    (
                        Ok(listing_line(ip, "load_loc"@, " << ["@ + radix_text(index_at(b, p) as nat, 10) + "]"@)),
                        p + 2,
                    ),
                )
            }
        } else {
            match binary_name(i) {
                Some(name) => Some((Ok(listing_line(ip, name, Seq::empty())), p)),
                None => None,
            }
        },
    }
}

/// The listing of the instructions from `ip` to the end of `b`, or the first error
/// that reading them meets; `None` where an instruction on the way has no name in the
/// listing.
pub open spec fn listing(b: Seq<u8>, ip: int) -> Option<Result<Seq<char>, BytecodeError>>
    decreases b.len() - ip,
{
    if ip < 0 || ip >= b.len() {
        Some(Ok(Seq::empty()))
    } else {
        match listing_step(b, ip) {
            None => None,
            Some((Err(e), _)) => Some(Err(e)),
            Some((Ok(line), next)) => if next > ip {
                match listing(b, next) {
                    Some(Ok(rest)) => Some(Ok(line + rest)),
                    other => other,
                }
            } else {
                None
            },
        }
    }
}

/// The listing `l` with `prefix` written before it.
pub open spec fn after(prefix: Seq<char>, l: Option<Result<Seq<char>, BytecodeError>>) -> Option<
    Result<Seq<char>, BytecodeError>,
> {
    match l {
        Some(Ok(t)) => Some(Ok(prefix + t)),
        other => other,
    }
}

proof fn lemma_listing_step(b: Seq<u8>, ip: int, prefix: Seq<char>)
    requires
        0 <= ip < b.len(),
    ensures
        listing_step(b, ip) matches Some((Ok(line), next)) ==> after(prefix, listing(b, ip)) == after(
            prefix + line,
            listing(b, next),
        ),
        listing_step(b, ip) matches Some((Err(e), next)) ==> after(prefix, listing(b, ip)) == Some(
            Err::<Seq<char>, BytecodeError>(e),
        ),
        listing_step(b, ip) is None ==> listing(b, ip) is None,
{
    if let Some((Ok(line), next)) = listing_step(b, ip) {
        if let Some(Ok(rest)) = listing(b, next) {
            assert(prefix + line + rest =~= prefix + (line + rest));
        }
    }
}

fn digit_char(d: u64) -> (c: char)
    requires
        d < 16,
    ensures
        c == digit_char_of(d as int),
{
    match d {
        0 => '0',
        1 => '1',
        2 => '2',
        3 => '3',
        4 => '4',
        5 => '5',
        6 => '6',
        7 => '7',
        8 => '8',
        9 => '9',
        10 => 'a',
        11 => 'b',
        12 => 'c',
        13 => 'd',
        14 => 'e',
        _ => 'f',
    }
}

/// Appends the digits of `n` in base `radix`.
fn push_radix(s: &mut String, n: u64, radix: u64)
    requires
        radix == 10 || radix == 16,
    ensures
        final(s)@ == old(s)@ + radix_text(n as nat, radix as nat),
    decreases n,
{
    if n >= radix {
        push_radix(s, n / radix, radix);
    }
    push_char(s, digit_char(n % radix));
}

/// Appends `n` spaces.
fn push_spaces(s: &mut String, n: usize)
    ensures
        final(s)@ == old(s)@ + spaces(n as int),
{
    let mut k: usize = 0;
    while k < n
        invariant
            k <= n,
            s@ == old(s)@ + spaces(k as int),
        decreases n - k,
    {
        push_char(s, ' ');
        proof {
            assert(spaces(k + 1) =~= spaces(k as int).push(' '));
        }
        k += 1;
    }
}

/// Appends the line for an instruction at `addr`.
fn push_line(s: &mut String, addr: usize, name: &str, args: &String)
    ensures
        final(s)@ == old(s)@ + listing_line(addr as int, name@, args@),
{
    push_char(s, '#');
    push_radix(s, addr as u64, 10);
    push_char(s, ' ');
    push_str(s, name);
    if name.unicode_len() < 5 {
        push_spaces(s, 5 - name.unicode_len());
    } else {
        push_spaces(s, 0);
    }
    push_char(s, ' ');
    let n = args.as_str().unicode_len();
    if n < 25 {
        push_spaces(s, 25 - n);
    } else {
        push_spaces(s, 0);
    }
    push_str(s, args.as_str());
    push_char(s, '\n');
    proof {
        assert(final(s)@ =~= old(s)@ + listing_line(addr as int, name@, args@));
    }
}

/// Lists the instructions of `code`, one line each: its address, its name and its
/// arguments (a constant's index in hexadecimal, a variable's in decimal). Gives
/// `None` where it meets an instruction that the listing has no name for (the loads
/// and stores by symbol, the shifts and `Or`).
pub fn disassemble(code: &[u8]) -> (r: Option<Result<String, BytecodeError>>)
    ensures
        match r {
            Some(Ok(t)) => listing(code@, 0) == Some(Ok::<Seq<char>, BytecodeError>(t@)),
            Some(Err(e)) => listing(code@, 0) == Some(Err::<Seq<char>, BytecodeError>(e)),
            None => listing(code@, 0) is None,
        },
{
    let mut out = String::new();
    let mut reader = BufReader::new(code);
    while !reader.eof()
        invariant
            reader.wf(),
            reader.bytes() == code@,
            listing(code@, 0) == after(out@, listing(code@, reader.ip() as int)),
        decreases code@.len() - reader.ip(),
    {
        let addr = reader.current_address();
        let ghost prefix = out@;
        proof {
            lemma_listing_step(code@, addr as int, prefix);
        }
        let instruction = match reader.read_instruction() {
            Ok(i) => i,
            Err(e) => return Some(Err(e)),
        };
        let empty = String::new();
        match instruction {
            Instruction::Const => {
                let ghost before = reader;
                let index = match reader.read_index() {
                    Ok(v) => v,
                    Err(e) => return Some(Err(e)),
                };
                proof {
                    lemma_le_two(code@, before.ip() as int);
                }
                let mut args = String::new();
                push_radix(&mut args, index as u64, 16);
                push_line(&mut out, addr, "const", &args);
            },
            Instruction::Return => push_line(&mut out, addr, "ret", &empty),
            Instruction::PushFrame => push_line(&mut out, addr, "pushframe", &empty),
            Instruction::StoreLocal => {
                let ghost before = reader;
                let index = match reader.read_index() {
                    Ok(v) => v,
                    Err(e) => return Some(Err(e)),
                };
                proof {
                    lemma_le_two(code@, before.ip() as int);
                }
                let mut args = String::new();
                push_str(&mut args, " >> [");
                push_radix(&mut args, index as u64, 10);
                push_str(&mut args, "] ");
                push_line(&mut out, addr, "store_loc", &args);
            },
            Instruction::LoadLocal => {
                let ghost before = reader;
                let index = match reader.read_index() {
                    Ok(v) => v,
                    Err(e) => return Some(Err(e)),
                };
                proof {
                    lemma_le_two(code@, before.ip() as int);
                }
                let mut args = String::new();
                push_str(&mut args, " << [");
                push_radix(&mut args, index as u64, 10);
                push_str(&mut args, "]");
                push_line(&mut out, addr, "load_loc", &args);
            },
            Instruction::Add => push_line(&mut out, addr, "add", &empty),
            Instruction::Sub => push_line(&mut out, addr, "sub", &empty),
            Instruction::Mul => push_line(&mut out, addr, "mul", &empty),
            Instruction::Div => push_line(&mut out, addr, "div", &empty),
            Instruction::Mod => push_line(&mut out, addr, "mod", &empty),
            Instruction::BitAnd => push_line(&mut out, addr, "bitand", &empty),
            Instruction::BitOr => push_line(&mut out, addr, "bitor", &empty),
            Instruction::BitXor => push_line(&mut out, addr, "bitxor", &empty),
            Instruction::Eq => push_line(&mut out, addr, "eq", &empty),
            Instruction::And => push_line(&mut out, addr, "and", &empty),
            _ => return None,
        }
    }
    proof {
        assert(out@ + Seq::<char>::empty() =~= out@);
    }
    Some(Ok(out))
}

/// `c` in lower case, for the letters `A` to `Z`.
pub open spec fn lower_char(c: char) -> char {
    if 'A' <= c && c <= 'Z' {
        ((c as int) + 32) as char
    } else {
        c
    }
}

/// The listing names each binary operation it lists by the operation's own name in
/// lower case (`Mul` is listed as `mul`, `BitXor` as `bitxor`), and it lists every
/// binary operation but the shifts and `Or`.
pub proof fn law_listed_names(i: Instruction)
    ensures
        binary_name(i) matches Some(name) ==> name == instruction_name(i).map_values(
            |c: char| lower_char(c),
        ),
        binary_name(i) is Some <==> (instruction_byte(Instruction::Add) <= instruction_byte(i)
            <= instruction_byte(Instruction::And) && instruction_byte(i) != instruction_byte(
            Instruction::LeftShift,
        ) && instruction_byte(i) != instruction_byte(Instruction::RightShift)),
{
    reveal_strlit("Add");
    reveal_strlit("Sub");
    reveal_strlit("Mul");
    reveal_strlit("Div");
    reveal_strlit("Mod");
    reveal_strlit("BitAnd");
    reveal_strlit("BitOr");
    reveal_strlit("BitXor");
    reveal_strlit("Eq");
    reveal_strlit("And");
    reveal_strlit("add");
    reveal_strlit("sub");
    reveal_strlit("mul");
    reveal_strlit("div");
    reveal_strlit("mod");
    reveal_strlit("bitand");
    reveal_strlit("bitor");
    reveal_strlit("bitxor");
    reveal_strlit("eq");
    reveal_strlit("and");
    match binary_name(i) {
        Some(name) => {
            assert(name =~= instruction_name(i).map_values(|c: char| lower_char(c)));
        },
        None => {},
    }
}

} // verus!
