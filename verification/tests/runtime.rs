use fused::runtime::array::growth;
use fused::runtime::bufreader::BufReader;
use fused::runtime::chunk::{BytecodeError, disassemble};
use fused::runtime::instructions::Instruction;
use fused::runtime::scope::SymbolTable;
use fused::runtime::RuntimeError;
use fused::runtime::thread::{step, Action};

#[test]
fn test_read_instruction() {
    let buffer = &[Instruction::Add as u8, Instruction::Sub as u8];
    let mut reader = BufReader::new(buffer);
    assert_eq!(reader.read_instruction().unwrap(), Instruction::Add);
    assert_eq!(reader.read_instruction().unwrap(), Instruction::Sub);
    assert!(reader.eof());
}

#[test]
fn test_read_index() {
    let buffer = &[0x01, 0x00, 0x02, 0x00];
    let mut reader = BufReader::new(buffer);
    assert_eq!(reader.read_index().unwrap(), 1);
    assert_eq!(reader.read_index().unwrap(), 2);
    assert!(reader.eof());
}

#[test]
fn test_read_symbol() {
    let buffer = &[0x01, 0x00, 0x00, 0x00];
    let mut reader = BufReader::new(buffer);
    assert_eq!(reader.read_symbol().unwrap(), 1);
    assert!(reader.eof());
}

#[test]
fn test_read_address() {
    let buffer = &[0x01, 0x00, 0x00, 0x00, 0x00, 0x00, 0x00, 0x00];
    let mut reader = BufReader::new(buffer);
    assert_eq!(reader.read_address().unwrap(), 1);
    assert!(reader.eof());
}

#[test]
fn test_jump_to() {
    let buffer = &[Instruction::Const as u8, 0x00, 0x00, Instruction::Return as u8];
    let mut reader = BufReader::new(buffer);
    assert_eq!(reader.read_instruction().unwrap(), Instruction::Const);
    assert_eq!(reader.jump_to(3).unwrap(), 1);
    assert_eq!(reader.read_instruction().unwrap(), Instruction::Return);
    assert!(reader.eof());
}

#[test]
fn test_new_table() {
    let table = SymbolTable::new();
    assert_eq!(table.total_vars(), 0);
}

#[test]
fn test_declare() {
    let mut table = SymbolTable::new();
    assert_eq!(table.total_vars(), 0);

    let id = table.declare("test".to_string());
    assert_eq!(id, 0);

    assert_eq!(table.total_vars(), 1);
}

#[test]
fn test_declare_multiple() {
    let mut table = SymbolTable::new();
    assert_eq!(table.total_vars(), 0);

    let id = table.declare("test".to_string());
    assert_eq!(id, 0);
    assert_eq!(table.total_vars(), 1);

    let id = table.declare("test2".to_string());
    assert_eq!(id, 1);
    assert_eq!(table.total_vars(), 2);
}

#[test]
fn test_declare_multiple_scopes() {
    let mut table = SymbolTable::new();
    assert_eq!(table.total_vars(), 0);

    let id = table.declare("test".to_string());
    assert_eq!(id, 0);
    assert_eq!(table.total_vars(), 1);

    table.push();

    let id = table.declare("test2".to_string());
    assert_eq!(id, 1);
    assert_eq!(table.total_vars(), 2);

    table.pop();

    let id = table.declare("test3".to_string());
    assert_eq!(id, 1);
    assert_eq!(table.total_vars(), 3);
}

#[test]
fn test_complex_nesting() {
    let mut table = SymbolTable::new();
    assert_eq!(table.total_vars(), 0);

    let id = table.declare("test".to_string());
    assert_eq!(id, 0);
    assert_eq!(table.total_vars(), 1);

    table.push();

    let id = table.declare("test2".to_string());
    assert_eq!(id, 1);
    assert_eq!(table.total_vars(), 2);

    table.push();

    let id = table.declare("test3".to_string());
    assert_eq!(id, 2);
    assert_eq!(table.total_vars(), 3);

    table.pop();

    let id = table.declare("test4".to_string());
    assert_eq!(id, 2);
    assert_eq!(table.total_vars(), 4);

    table.pop();

    let id = table.declare("test5".to_string());
    assert_eq!(id, 1);
    assert_eq!(table.total_vars(), 5);
}

// Further cases.

#[test]
fn declared_names_are_found_innermost_first() {
    let mut table = SymbolTable::new();
    let outer = table.declare("x".to_string());
    table.push();
    assert_eq!(table.get("x"), Some(outer));
    let inner = table.declare("x".to_string());
    assert_eq!(table.get("x"), Some(inner));
    assert_eq!(table.get("y"), None);
    table.pop();
    assert_eq!(table.get("x"), Some(outer));
}

#[test]
fn redeclaring_in_one_scope_rebinds() {
    let mut table = SymbolTable::new();
    table.push();
    assert_eq!(table.declare("a".to_string()), 0);
    assert_eq!(table.declare("a".to_string()), 1);
    assert_eq!(table.get("a"), Some(1));
    table.pop();
    assert_eq!(table.declare("b".to_string()), 1);
}

#[test]
fn instruction_bytes_round_trip() {
    for byte in 0u8..20 {
        let instruction = Instruction::from_byte(byte).unwrap();
        assert_eq!(instruction as u8, byte);
        assert_eq!(instruction.to_byte(), byte);
    }
    assert_eq!(Instruction::from_byte(20), Err(BytecodeError::InvalidInstruction(20)));
    assert!(Instruction::Add.is_binary());
    assert!(Instruction::Or.is_binary());
    assert!(!Instruction::Const.is_binary());
    assert!(!Instruction::PushFrame.is_binary());
}

#[test]
fn operand_readers() {
    assert_eq!(Instruction::read_binary_args(&[1, 2, 3, 4]), Ok((1, 2, 3)));
    assert_eq!(Instruction::read_binary_args(&[1, 2]), Err(BytecodeError::UnexpectedEOF));
    assert_eq!(Instruction::read_variable(&[0x34, 0x12]), Ok(0x1234));
    assert_eq!(Instruction::read_variable(&[0x34]), Err(BytecodeError::UnexpectedEOF));
    assert_eq!(Instruction::read_constant(&[0x01, 0x01, 7]), Ok((0x0101, 7)));
}

#[test]
fn reader_errors() {
    let buffer = &[0x01, 0x02, 0x03];
    let mut reader = BufReader::new(buffer);
    assert_eq!(reader.read_symbol(), Err(BytecodeError::UnexpectedEOF));
    assert!(reader.eof());
    assert_eq!(reader.read_instruction(), Err(BytecodeError::UnexpectedEOF));
    assert_eq!(reader.jump_to(3), Err(BytecodeError::InvalidJumpAddress(3)));
    assert_eq!(reader.jump_to(0), Ok(3));
    assert_eq!(reader.current_address(), 0);
    let bad = &[0xff];
    let mut reader = BufReader::new(bad);
    assert_eq!(reader.read_instruction(), Err(BytecodeError::InvalidInstruction(0xff)));
    let wide = &[0x01, 0x02, 0x03, 0x04];
    let mut reader = BufReader::new(wide);
    assert_eq!(reader.read_symbol(), Ok(0x04030201));
}

#[test]
fn growth_policy() {
    assert_eq!(growth(0), 8);
    assert_eq!(growth(7), 8);
    assert_eq!(growth(8), 12);
    assert_eq!(growth(9), 13);
}

#[test]
fn runtime_error_from_bytecode() {
    let e: RuntimeError = BytecodeError::UnexpectedEOF.into();
    assert_eq!(e, RuntimeError::InvalidBytecode(BytecodeError::UnexpectedEOF));
}

#[test]
fn step_reads_a_constant() {
    let bytes = [1u8, 1, 0, 4];
    let mut reader = BufReader::new(&bytes);
    assert_eq!(step(&mut reader, 2, 1), Ok(Action::Const { index: 1, dest: 4 }));
    assert_eq!(reader.current_address(), 4);
    assert_eq!(step(&mut reader, 2, 1), Ok(Action::Halt));
}

#[test]
fn step_rejects_a_missing_constant() {
    let bytes = [1u8, 2, 0, 4];
    let mut reader = BufReader::new(&bytes);
    assert_eq!(step(&mut reader, 2, 1), Err(RuntimeError::InvalidConstant(2)));
    assert_eq!(reader.current_address(), 3);
}

#[test]
fn step_returns_from_the_outermost_frame() {
    let bytes = [0u8, 7, 9];
    let mut reader = BufReader::new(&bytes);
    assert_eq!(step(&mut reader, 0, 1), Ok(Action::Return { value: 7, dest: None }));
    assert_eq!(reader.current_address(), 2);
    let mut reader = BufReader::new(&bytes);
    assert_eq!(step(&mut reader, 0, 2), Ok(Action::Return { value: 7, dest: Some(9) }));
    assert_eq!(reader.current_address(), 3);
}

#[test]
fn step_reads_binary_and_frame_instructions() {
    let bytes = [2u8, 1, 2, 3, 15, 17, 5, 0, 6, 19, 5, 0, 6];
    let mut reader = BufReader::new(&bytes);
    assert_eq!(
        step(&mut reader, 0, 1),
        Ok(Action::Binary { op: Instruction::Add, left: 1, right: 2, dest: 3 })
    );
    assert_eq!(step(&mut reader, 0, 1), Ok(Action::PushFrame));
    assert_eq!(step(&mut reader, 0, 2), Ok(Action::LoadLocal { variable: 5, dest: 6 }));
    assert_eq!(step(&mut reader, 0, 2), Ok(Action::StoreLocal { variable: 5, source: 6 }));
    assert_eq!(step(&mut reader, 0, 2), Ok(Action::Halt));
}

#[test]
fn step_reports_truncated_and_unknown_instructions() {
    let bytes = [4u8, 1];
    let mut reader = BufReader::new(&bytes);
    assert_eq!(
        step(&mut reader, 0, 1),
        Err(RuntimeError::InvalidBytecode(BytecodeError::UnexpectedEOF))
    );
    assert_eq!(reader.current_address(), 2);
    let bytes = [200u8];
    let mut reader = BufReader::new(&bytes);
    assert_eq!(
        step(&mut reader, 0, 1),
        Err(RuntimeError::InvalidBytecode(BytecodeError::InvalidInstruction(200)))
    );
}

fn line(addr: usize, name: &str, args: &str) -> String {
    format!("#{addr} {name:<5} {args:>25}\n")
}

#[test]
fn disassembly_lists_each_instruction() {
    let bytes = [1u8, 0x1a, 0, 15, 19, 3, 0, 17, 0x2c, 1, 2, 0, 13];
    let expected = [
        line(0, "const", "1a"),
        line(3, "pushframe", ""),
        line(4, "store_loc", " >> [3] "),
        line(7, "load_loc", " << [300]"),
        line(10, "add", ""),
        line(11, "ret", ""),
        line(12, "and", ""),
    ]
    .concat();
    assert_eq!(disassemble(&bytes), Some(Ok(expected)));
}

#[test]
fn disassembly_reports_bad_bytes() {
    assert_eq!(disassemble(&[]), Some(Ok(String::new())));
    assert_eq!(disassemble(&[1u8, 0]), Some(Err(BytecodeError::UnexpectedEOF)));
    assert_eq!(disassemble(&[0u8, 99]), Some(Err(BytecodeError::InvalidInstruction(99))));
    assert_eq!(disassemble(&[0u8, 14]), None);
}
