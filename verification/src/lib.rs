//! A register-based bytecode interpreter over the eBPF instruction layout.
//!
//! A program is a flat byte buffer of eight-byte instruction slots. It is
//! decoded into [`Instruction`]s and executed against a [`State`]: eleven
//! signed 64-bit registers, a program counter and a bounded linear memory.
//! Every executable function carries a contract that is checked by Verus.

pub mod alu;
pub mod arith;
pub mod dispatch;
pub mod driver;
pub mod endian;
pub mod instruction;
pub mod memory;
pub mod opcodes;
pub mod state;

pub use state::{State, StateView, MEMORY_SIZE};
pub use memory::{MemoryFault, StateResult, Width};
pub use opcodes::{
    AluOp, ByteOrder, Condition, Operand, Operation, BRANCH_INSTRUCTIONS, BYTESWAP_INSTRUCTIONS,
    MEMORY_INSTRUCTIONS, OPCODES,
};
pub use instruction::{decode, encode, DecodeError, Instruction};
pub use dispatch::{Directive, Effect, Trap};
pub use driver::{run_bounded, ExecutionResult, Outcome, Progress};
