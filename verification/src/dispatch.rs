//! The dispatcher: what one instruction does to the machine.
//!
//! [`execute`] gives the meaning of every instruction as a function from the
//! state before to the state after and a control-flow [`Directive`];
//! [`State::execution_ix`] carries it out.

use vstd::prelude::*;
use crate::alu::{
    alu, alu_result, branch_target, byte_swap, condition_holds, divides_by_zero, negate,
    check_condition, swap_result, target, wide, wide_immediate,
};
use crate::arith::{to_signed, wrap_i64};
use crate::endian::{le_bytes, lemma_le_bytes_len};
use crate::instruction::Instruction;
use crate::memory::{in_bounds, loaded, written, MemoryFault, Width};
use crate::opcodes::{Operand, Operation};
use crate::state::{State, StateView};

verus! {

/// A runtime fault that ends a run.
#[derive(Clone, Copy, Debug, PartialEq, Eq, Structural)]
pub enum Trap {
    /// The instruction with this opcode byte is not a valid encoding: the
    /// byte is in none of the opcode tables, a register field is above 10, a
    /// byte swap has an immediate other than 16, 32 and 64, or a wide load
    /// has no second slot.
    InvalidOpcode(u8),
    /// An access at this address, of this width in bytes, would reach
    /// outside the memory.
    MemoryFault(i64, u8),
    /// A division or remainder by zero.
    DivisionByZero,
    /// A call to the function with this id, which nothing resolves.
    UnsupportedCall(i32),
}

/// What the driver is to do after an instruction.
#[derive(Clone, Copy, Debug, PartialEq, Eq, Structural)]
pub enum Directive {
    /// Go on with the next instruction.
    Continue,
    /// Go on with the instruction at this program counter.
    Jump(usize),
    /// Call the function with this id.
    Call(i32),
    /// End the run with this exit code.
    Halt(i64),
    /// End the run with this fault.
    Trap(Trap),
}

/// The state after an instruction, and the directive it gives.
pub struct Effect {
    pub state: StateView,
    pub directive: Directive,
}

/// The second operand of an instruction: its immediate, sign-extended, or
/// its source register.
pub open spec fn operand_value(s: StateView, ix: Instruction, operand: Operand) -> i64 {
    match operand {
        Operand::Immediate => ix.imm as i64,
        Operand::Register => s.registers[ix.src as int],
    }
}

/// The effect of loading `width` bytes at `address` into register `dest`.
pub open spec fn load_effect(s: StateView, dest: u8, address: i64, width: Width) -> Effect {
    if in_bounds(s.memory.len(), address, width.bytes() as nat) {
        Effect {
            state: s.with_register(
                dest as int,
                wrap_i64(loaded(s.memory, address as int, width.bytes() as nat) as int),
            ),
            directive: Directive::Continue,
        }
    } else {
        Effect { state: s, directive: Directive::Trap(Trap::MemoryFault(address, width.bytes())) }
    }
}

/// The effect of storing the low `width` bytes of `value` at `address`.
pub open spec fn store_effect(s: StateView, address: i64, width: Width, value: i64) -> Effect {
    if in_bounds(s.memory.len(), address, width.bytes() as nat) {
        Effect {
            state: s.with_memory(
                written(s.memory, address as int, le_bytes(value as int, width.bytes() as nat)),
            ),
            directive: Directive::Continue,
        }
    } else {
        Effect { state: s, directive: Directive::Trap(Trap::MemoryFault(address, width.bytes())) }
    }
}

/// The effect of the valid instruction `ix`, which performs `operation`, on
/// the state `s`; `next` is the instruction in the following slot, if any.
pub open spec fn perform(
    s: StateView,
    ix: Instruction,
    operation: Operation,
    next: Option<Instruction>,
) -> Effect {
    let dst = s.registers[ix.dest as int];
    match operation {
        Operation::Alu(op, operand) => {
            let value = operand_value(s, ix, operand);
            if divides_by_zero(op, value) {
                Effect { state: s, directive: Directive::Trap(Trap::DivisionByZero) }
            } else {
                Effect {
                    state: s.with_register(ix.dest as int, alu_result(op, dst, value)),
                    directive: Directive::Continue,
                }
            }
        },
        Operation::Negate => Effect {
            state: s.with_register(ix.dest as int, wrap_i64(-dst)),
            directive: Directive::Continue,
        },
        Operation::ByteSwap(order, width) => Effect {
            state: s.with_register(ix.dest as int, swap_result(order, width, dst)),
            directive: Directive::Continue,
        },
        Operation::LoadWide => match next {
            Some(second) => Effect {
                state: s.with_register(ix.dest as int, wide_immediate(ix.imm, second.imm)),
                directive: Directive::Jump(branch_target(s.program_counter, 1)),
            },
            None => Effect {
                state: s,
                directive: Directive::Trap(Trap::InvalidOpcode(ix.opcode)),
            },
        },
        Operation::LoadAbsolute(width) => load_effect(s, ix.dest, ix.imm as i64, width),
        Operation::LoadIndirect(width) => load_effect(
            s,
            ix.dest,
            wrap_i64(s.registers[ix.src as int] + ix.imm),
            width,
        ),
        Operation::LoadRegister(width) => load_effect(
            s,
            ix.dest,
            wrap_i64(s.registers[ix.src as int] + ix.offset),
            width,
        ),
        Operation::StoreImmediate(width) => store_effect(
            s,
            wrap_i64(dst + ix.offset),
            width,
            ix.imm as i64,
        ),
        Operation::StoreRegister(width) => store_effect(
            s,
            wrap_i64(dst + ix.offset),
            width,
            s.registers[ix.src as int],
        ),
        Operation::Jump => Effect {
            state: s,
            directive: Directive::Jump(branch_target(s.program_counter, ix.offset)),
        },
        Operation::Branch(condition, operand) => Effect {
            state: s,
            directive: if condition_holds(condition, dst, operand_value(s, ix, operand)) {
                Directive::Jump(branch_target(s.program_counter, ix.offset))
            } else {
                Directive::Continue
            },
        },
        Operation::Call => Effect { state: s, directive: Directive::Call(ix.imm) },
        Operation::Exit => Effect { state: s, directive: Directive::Halt(s.registers[0]) },
    }
}

/// The effect of the instruction `ix` on the state `s`; `next` is the
/// instruction in the following slot, if any.
///
/// An instruction that is not a valid encoding (its opcode selects no
/// operation, or a register field is above 10) changes nothing and traps
/// with its opcode byte.
pub open spec fn execute(s: StateView, ix: Instruction, next: Option<Instruction>) -> Effect {
    match Operation::of(ix.opcode, ix.imm) {
        Some(operation) if ix.well_formed() => perform(s, ix, operation, next),
        _ => Effect { state: s, directive: Directive::Trap(Trap::InvalidOpcode(ix.opcode)) },
    }
}

/// Whether `ix`, followed by `next`, is a valid encoding: its opcode
/// selects an operation, both register fields name a register, and a wide
/// load has its second slot.
pub open spec fn valid_encoding(ix: Instruction, next: Option<Instruction>) -> bool {
    &&& ix.well_formed()
    &&& Operation::of(ix.opcode, ix.imm) matches Some(operation)
    &&& (operation == Operation::LoadWide ==> next is Some)
}

/// Whether `ix` divides by zero in the state `s`.
pub open spec fn division_by_zero(s: StateView, ix: Instruction) -> bool {
    &&& ix.well_formed()
    &&& Operation::of(ix.opcode, ix.imm) matches Some(Operation::Alu(op, operand))
    &&& divides_by_zero(op, operand_value(s, ix, operand))
}

/// The address and width of the memory access that `ix` makes in the state
/// `s`, if it is a valid load or store.
pub open spec fn memory_access(s: StateView, ix: Instruction) -> Option<(i64, Width)> {
    if ix.well_formed() {
        match Operation::of(ix.opcode, ix.imm) {
            Some(Operation::LoadAbsolute(width)) => Some((ix.imm as i64, width)),
            Some(Operation::LoadIndirect(width)) => Some(
                (wrap_i64(s.registers[ix.src as int] + ix.imm), width),
            ),
            Some(Operation::LoadRegister(width)) => Some(
                (wrap_i64(s.registers[ix.src as int] + ix.offset), width),
            ),
            Some(Operation::StoreImmediate(width)) => Some(
                (wrap_i64(s.registers[ix.dest as int] + ix.offset), width),
            ),
            Some(Operation::StoreRegister(width)) => Some(
                (wrap_i64(s.registers[ix.dest as int] + ix.offset), width),
            ),
            _ => None,
        }
    } else {
        None
    }
}

/// Whether `ix` is a valid store.
pub open spec fn is_store(ix: Instruction) -> bool {
    &&& ix.well_formed()
    &&& Operation::of(ix.opcode, ix.imm) matches Some(operation)
    &&& (operation is StoreImmediate || operation is StoreRegister)
}

/// Register isolation: an instruction changes no register but its
/// destination register, and never the number of registers or the program
/// counter.
pub proof fn lemma_register_isolation(
    s: StateView,
    ix: Instruction,
    next: Option<Instruction>,
    register: int,
)
    requires
        s.well_formed(),
        0 <= register < 11,
        register != ix.dest,
    ensures
        execute(s, ix, next).state.well_formed(),
        execute(s, ix, next).state.registers[register] == s.registers[register],
        execute(s, ix, next).state.program_counter == s.program_counter,
{
}

/// Only a store changes memory, and a store changes no register.
pub proof fn lemma_memory_isolation(s: StateView, ix: Instruction, next: Option<Instruction>)
    ensures
        is_store(ix) ==> execute(s, ix, next).state.registers == s.registers,
        !is_store(ix) ==> execute(s, ix, next).state.memory == s.memory,
{
}

/// A store keeps the length of the memory and changes no byte outside the
/// bytes that it addresses.
pub proof fn lemma_store_isolation(
    s: StateView,
    ix: Instruction,
    next: Option<Instruction>,
    address: i64,
    width: Width,
    i: int,
)
    requires
        memory_access(s, ix) == Some((address, width)),
        0 <= i < s.memory.len(),
        !(address <= i < address + width.bytes()),
    ensures
        execute(s, ix, next).state.memory.len() == s.memory.len(),
        execute(s, ix, next).state.memory[i] == s.memory[i],
{
    if is_store(ix) && in_bounds(s.memory.len(), address, width.bytes() as nat) {
        lemma_le_bytes_len(s.registers[ix.src as int] as int, width.bytes() as nat);
        lemma_le_bytes_len(ix.imm as int, width.bytes() as nat);
    }
}

/// Bounds enforcement: a load or store whose bytes do not all lie inside
/// the memory traps with a memory fault that names its address and width,
/// and changes nothing; one whose bytes do lie inside does not trap.
pub proof fn lemma_bounds_enforcement(
    s: StateView,
    ix: Instruction,
    next: Option<Instruction>,
    address: i64,
    width: Width,
)
    requires
        memory_access(s, ix) == Some((address, width)),
    ensures
        !in_bounds(s.memory.len(), address, width.bytes() as nat) ==> execute(s, ix, next)
            == (Effect {
            state: s,
            directive: Directive::Trap(Trap::MemoryFault(address, width.bytes())),
        }),
        in_bounds(s.memory.len(), address, width.bytes() as nat) ==> execute(
            s,
            ix,
            next,
        ).directive == Directive::Continue,
{
}

/// An instruction that traps changes nothing.
pub proof fn lemma_trap_changes_nothing(s: StateView, ix: Instruction, next: Option<Instruction>)
    requires
        execute(s, ix, next).directive is Trap,
    ensures
        execute(s, ix, next).state == s,
{
}

/// Every trap has its cause, and every cause its trap. An instruction traps
/// with an invalid opcode, which is its own, exactly when it is not a valid
/// encoding; with a division by zero exactly when it divides by zero; with a
/// memory fault, which names its address and width, exactly when it
/// accesses bytes outside the memory; and never with an unsupported call.
pub proof fn lemma_trap_causes(s: StateView, ix: Instruction, next: Option<Instruction>)
    ensures
        match execute(s, ix, next).directive {
            Directive::Trap(Trap::InvalidOpcode(opcode)) => {
                &&& opcode == ix.opcode
                &&& !valid_encoding(ix, next)
            },
            Directive::Trap(Trap::DivisionByZero) => division_by_zero(s, ix),
            Directive::Trap(Trap::MemoryFault(address, bytes)) => {
                &&& memory_access(s, ix) matches Some((at, width))
                &&& at == address
                &&& width.bytes() == bytes
                &&& !in_bounds(s.memory.len(), address, bytes as nat)
            },
            Directive::Trap(Trap::UnsupportedCall(_)) => false,
            _ => {
                &&& valid_encoding(ix, next)
                &&& !division_by_zero(s, ix)
                &&& (memory_access(s, ix) matches Some((at, width)) ==> in_bounds(
                    s.memory.len(),
                    at,
                    width.bytes() as nat,
                ))
            },
        },
{
}

/// Computes the address `base + delta`, wrapping.
fn offset_address(base: i64, delta: i64) -> (address: i64)
    ensures
        address == wrap_i64(base + delta),
{
    base.wrapping_add(delta)
}

impl State {
    /// Replaces the value of one register.
    fn set_register(&mut self, index: u8, value: i64)
        requires
            index <= 10,
        ensures
            final(self)@ == old(self)@.with_register(index as int, value),
    {
        self.registers[index as usize] = value;
    }

    /// Reads the second operand of an instruction.
    fn operand(&self, ix: &Instruction, operand: Operand) -> (value: i64)
        requires
            ix.well_formed(),
        ensures
            value == operand_value(self@, *ix, operand),
    {
        match operand {
            Operand::Immediate => ix.imm as i64,
            Operand::Register => self.registers[ix.src as usize],
        }
    }

    /// Loads `width` bytes at `address` into register `dest`.
    fn load_into(&mut self, dest: u8, address: i64, width: Width) -> (directive: Directive)
        requires
            dest <= 10,
        ensures
            final(self)@ == load_effect(old(self)@, dest, address, width).state,
            directive == load_effect(old(self)@, dest, address, width).directive,
    {
        match self.load(address, width) {
            Ok(value) => {
                self.set_register(dest, to_signed(value));
                Directive::Continue
            },
            Err(MemoryFault::OutOfBounds(at, bytes)) => Directive::Trap(
                Trap::MemoryFault(at, bytes),
            ),
        }
    }

    /// Stores the low `width` bytes of `value` at `address`.
    fn store_from(&mut self, address: i64, width: Width, value: i64) -> (directive: Directive)
        ensures
            final(self)@ == store_effect(old(self)@, address, width, value).state,
            directive == store_effect(old(self)@, address, width, value).directive,
    {
        match self.store(address, width, value) {
            Ok(()) => Directive::Continue,
            Err(MemoryFault::OutOfBounds(at, bytes)) => Directive::Trap(
                Trap::MemoryFault(at, bytes),
            ),
        }
    }

    /// Carries out the operation of a valid instruction.
    fn perform(
        &mut self,
        ix: Instruction,
        operation: Operation,
        next: Option<Instruction>,
    ) -> (directive: Directive)
        requires
            ix.well_formed(),
        ensures
            final(self)@ == perform(old(self)@, ix, operation, next).state,
            directive == perform(old(self)@, ix, operation, next).directive,
    {
        let dst: i64 = self.registers[ix.dest as usize];
        match operation {
            Operation::Alu(op, operand) => {
                let value = self.operand(&ix, operand);
                match alu(op, dst, value) {
                    Some(result) => {
                        self.set_register(ix.dest, result);
                        Directive::Continue
                    },
                    None => Directive::Trap(Trap::DivisionByZero),
                }
            },
            Operation::Negate => {
                self.set_register(ix.dest, negate(dst));
                Directive::Continue
            },
            Operation::ByteSwap(order, width) => {
                self.set_register(ix.dest, byte_swap(order, width, dst));
                Directive::Continue
            },
            Operation::LoadWide => match next {
                Some(second) => {
                    self.set_register(ix.dest, wide(ix.imm, second.imm));
                    Directive::Jump(target(self.program_counter, 1))
                },
                None => Directive::Trap(Trap::InvalidOpcode(ix.opcode)),
            },
            Operation::LoadAbsolute(width) => self.load_into(ix.dest, ix.imm as i64, width),
            Operation::LoadIndirect(width) => {
                let base = self.registers[ix.src as usize];
                self.load_into(ix.dest, offset_address(base, ix.imm as i64), width)
            },
            Operation::LoadRegister(width) => {
                let base = self.registers[ix.src as usize];
                self.load_into(ix.dest, offset_address(base, ix.offset as i64), width)
            },
            Operation::StoreImmediate(width) => self.store_from(
                offset_address(dst, ix.offset as i64),
                width,
                ix.imm as i64,
            ),
            Operation::StoreRegister(width) => {
                let value = self.registers[ix.src as usize];
                self.store_from(offset_address(dst, ix.offset as i64), width, value)
            },
            Operation::Jump => Directive::Jump(target(self.program_counter, ix.offset)),
            Operation::Branch(condition, operand) => {
                let value = self.operand(&ix, operand);
                if check_condition(condition, dst, value) {
                    Directive::Jump(target(self.program_counter, ix.offset))
                } else {
                    Directive::Continue
                }
            },
            Operation::Call => Directive::Call(ix.imm),
            Operation::Exit => Directive::Halt(self.registers[0]),
        }
    }

    /// Executes one instruction and says how control continues.
    ///
    /// `next` is the instruction in the slot after `ix`, if there is one; a
    /// wide load takes the high half of its immediate from it. The program
    /// counter is read, to compute jump targets, but never written: applying
    /// the directive is the driver's part.
    ///
    /// An instruction that is not a valid encoding traps with
    /// [`Trap::InvalidOpcode`], a division or remainder by zero with
    /// [`Trap::DivisionByZero`], and an access outside the memory with
    /// [`Trap::MemoryFault`]; a trapping instruction changes nothing.
    pub fn execution_ix(&mut self, ix: Instruction, next: Option<Instruction>) -> (directive:
        Directive)
        ensures
            final(self)@ == execute(old(self)@, ix, next).state,
            directive == execute(old(self)@, ix, next).directive,
    {
        let operation = match Operation::decode(ix.opcode, ix.imm) {
            Some(operation) => operation,
            None => {
                return Directive::Trap(Trap::InvalidOpcode(ix.opcode));
            },
        };
        if !ix.is_well_formed() {
            return Directive::Trap(Trap::InvalidOpcode(ix.opcode));
        }
        self.perform(ix, operation, next)
    }
}

} // verus!
