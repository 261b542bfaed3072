use vstd::prelude::*;

pub mod instructions;

pub mod chunk;
pub mod bufreader;
pub mod scope;
pub mod symbols;
pub mod array;
pub mod heap;
pub mod stack;
pub mod thread;





use self::chunk::BytecodeError;

verus! {

/// What can go wrong while a chunk runs.
#[derive(Debug, PartialEq, Eq)]
pub enum RuntimeError {
    AllocationFailure,
    InvalidBytecode(BytecodeError),
    NullAccess,
    BadStackFrame(u16),
    InvalidOperation(&'static str, &'static str, &'static str),
    InvalidConstant(u16),
    UndefinedSymbol(String),
    ImmutableSymbol(String),
}

impl From<BytecodeError> for RuntimeError {
    fn from(e: BytecodeError) -> (r: Self) {
        RuntimeError::InvalidBytecode(e)
    }
}

impl vstd::std_specs::convert::FromSpecImpl<BytecodeError> for RuntimeError {
    open spec fn obeys_from_spec() -> bool {
        true
    }

    open spec fn from_spec(e: BytecodeError) -> RuntimeError {
        RuntimeError::InvalidBytecode(e)
    }
}

/// What can go wrong while bytecode is generated.
#[derive(Debug)]
pub enum CodegenError {
    UndefinedSymbol(String),
}

} // verus!
