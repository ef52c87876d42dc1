//! The machine state: program counter, register file and linear memory.

use vstd::prelude::*;

verus! {

/// Number of bytes in the linear memory of a freshly created machine.
pub const MEMORY_SIZE: u32 = 65536;

/// All mutable state of one execution run.
///
/// `r0` is the return value and accumulator, `r1` to `r9` are general
/// purpose, and `r10` is by convention a frame pointer (the machine does not
/// protect it). Memory operations work on whatever length `memory` has; a
/// machine made by [`State::new`] has [`MEMORY_SIZE`] zero bytes.
pub struct State {
    pub program_counter: usize,
    pub registers: [i64; 11],
    pub memory: Vec<u8>,
}

/// The mathematical value of a [`State`].
pub struct StateView {
    pub program_counter: usize,
    pub registers: Seq<i64>,
    pub memory: Seq<u8>,
}

impl StateView {
    /// The state a run starts from: everything zero, `size` bytes of memory.
    pub open spec fn initial(size: nat) -> StateView {
        StateView {
            program_counter: 0,
            registers: Seq::new(11, |i: int| 0i64),
            memory: Seq::new(size, |i: int| 0u8),
        }
    }

    /// A state value that a [`State`] can have: eleven registers.
    pub open spec fn well_formed(self) -> bool {
        self.registers.len() == 11
    }

    /// This state with register `index` replaced by `value`.
    pub open spec fn with_register(self, index: int, value: i64) -> StateView {
        StateView { registers: self.registers.update(index, value), ..self }
    }

    /// This state with its memory replaced by `memory`.
    pub open spec fn with_memory(self, memory: Seq<u8>) -> StateView {
        StateView { memory, ..self }
    }

    /// This state with its program counter replaced by `program_counter`.
    pub open spec fn with_program_counter(self, program_counter: usize) -> StateView {
        StateView { program_counter, ..self }
    }
}

impl View for State {
    type V = StateView;

    open spec fn view(&self) -> StateView {
        StateView {
            program_counter: self.program_counter,
            registers: self.registers@,
            memory: self.memory@,
        }
    }
}

impl State {
    /// A fresh machine: program counter and registers zero, and
    /// [`MEMORY_SIZE`] bytes of zeroed memory.
    pub fn new() -> (state: State)
        ensures
            state@ == StateView::initial(MEMORY_SIZE as nat),
    {
        let state = State {
            program_counter: 0,
            registers: [0i64; 11],
            memory: vec![0u8; 65536],
        };
        assert(state.registers@ =~= Seq::new(11, |i: int| 0i64));
        assert(state.memory@ =~= Seq::new(MEMORY_SIZE as nat, |i: int| 0u8));
        state
    }

    /// A fresh machine with `size` bytes of zeroed memory.
    pub fn with_memory_size(size: usize) -> (state: State)
        ensures
            state@ == StateView::initial(size as nat),
    {
        let state = State { program_counter: 0, registers: [0i64; 11], memory: vec![0u8; size] };
        assert(state.registers@ =~= Seq::new(11, |i: int| 0i64));
        assert(state.memory@ =~= Seq::new(size as nat, |i: int| 0u8));
        state
    }

    /// The value of register `index`.
    pub fn register(&self, index: u8) -> (value: i64)
        requires
            index <= 10,
        ensures
            value == self@.registers[index as int],
    {
        self.registers[index as usize]
    }
}

impl Default for State {
    fn default() -> (state: State)
        ensures
            state@ == StateView::initial(MEMORY_SIZE as nat),
    {
        State::new()
    }
}

/// Every [`State`] has exactly eleven registers.
pub proof fn lemma_state_well_formed(state: State)
    ensures
        state@.well_formed(),
{
}

} // verus!
