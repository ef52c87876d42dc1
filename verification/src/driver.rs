//! The execution driver: from program start to halt or fault.
//!
//! A run starts at program counter zero. Each step dispatches the
//! instruction at the program counter and applies the directive it gives,
//! until the run halts or faults. A program counter past the end of the
//! program halts the run with the value of `r0`.
//!
//! The instruction set permits unbounded loops, so every run here is given a
//! step budget.

use vstd::prelude::*;
use crate::alu::{branch_target, target};
use crate::dispatch::{execute, Directive, Effect, Trap};
use crate::instruction::{decode, decoded, DecodeError, Instruction};
use crate::state::{State, StateView, MEMORY_SIZE};

verus! {

/// How a run ended.
#[derive(Clone, Copy, Debug, PartialEq, Eq, Structural)]
pub enum Outcome {
    /// The run ended normally, with this exit code.
    Halted(i64),
    /// The run ended with this fault.
    Faulted(Trap),
}

/// What a finished run leaves behind.
#[derive(Debug)]
pub struct ExecutionResult {
    pub final_registers: [i64; 11],
    pub final_memory: Vec<u8>,
    pub outcome: Outcome,
}

/// A state, and how the run ended if it has ended.
pub struct Progress {
    pub state: StateView,
    pub outcome: Option<Outcome>,
}

/// The effect of dispatching at the program counter of `s`: that of the
/// instruction there, or a halt with `r0` when the program counter is past
/// the end of the program.
pub open spec fn dispatched(s: StateView, program: Seq<Instruction>) -> Effect {
    if s.program_counter < program.len() {
        execute(
            s,
            program[s.program_counter as int],
            if s.program_counter + 1 < program.len() {
                Some(program[s.program_counter + 1])
            } else {
                None
            },
        )
    } else {
        Effect { state: s, directive: Directive::Halt(s.registers[0]) }
    }
}

/// The state after `directive` is applied to `s`, and the outcome if the
/// directive ends the run. `resolved` is the value that the host returned
/// for a call, or `None` if nothing resolves calls.
pub open spec fn applied(s: StateView, directive: Directive, resolved: Option<i64>) -> Progress {
    match directive {
        Directive::Continue => Progress {
            state: s.with_program_counter(branch_target(s.program_counter, 0)),
            outcome: None,
        },
        Directive::Jump(to) => Progress { state: s.with_program_counter(to), outcome: None },
        Directive::Call(id) => match resolved {
            Some(value) => Progress {
                state: s.with_register(0, value).with_program_counter(
                    branch_target(s.program_counter, 0),
                ),
                outcome: None,
            },
            None => Progress {
                state: s,
                outcome: Some(Outcome::Faulted(Trap::UnsupportedCall(id))),
            },
        },
        Directive::Halt(code) => Progress { state: s, outcome: Some(Outcome::Halted(code)) },
        Directive::Trap(trap) => Progress { state: s, outcome: Some(Outcome::Faulted(trap)) },
    }
}

/// One step of a run in which nothing resolves calls.
pub open spec fn step(s: StateView, program: Seq<Instruction>) -> Progress {
    let effect = dispatched(s, program);
    applied(effect.state, effect.directive, None)
}

/// At most `budget` steps of a run from `s`, stopping at the first step that
/// ends the run.
pub open spec fn run_steps(s: StateView, program: Seq<Instruction>, budget: nat) -> Progress
    decreases budget,
{
    if budget == 0 {
        Progress { state: s, outcome: None }
    } else {
        let progress = step(s, program);
        if progress.outcome is Some {
            progress
        } else {
            run_steps(progress.state, program, (budget - 1) as nat)
        }
    }
}

/// A run that has ended within a budget ends in the same way, in the same
/// state, within every larger budget.
pub proof fn lemma_budget_monotonic(
    s: StateView,
    program: Seq<Instruction>,
    budget: nat,
    larger: nat,
)
    requires
        budget <= larger,
        run_steps(s, program, budget).outcome is Some,
    ensures
        run_steps(s, program, larger) == run_steps(s, program, budget),
    decreases budget,
{
    if budget > 0 {
        let progress = step(s, program);
        if progress.outcome is None {
            lemma_budget_monotonic(
                progress.state,
                program,
                (budget - 1) as nat,
                (larger - 1) as nat,
            );
        }
    }
}

/// Running in two stretches is running in one: where the first stretch does
/// not end the run, the second goes on from the state it left.
pub proof fn lemma_run_in_stretches(
    s: StateView,
    program: Seq<Instruction>,
    first: nat,
    second: nat,
)
    requires
        run_steps(s, program, first).outcome is None,
    ensures
        run_steps(s, program, first + second) == run_steps(
            run_steps(s, program, first).state,
            program,
            second,
        ),
    decreases first,
{
    if first > 0 {
        let progress = step(s, program);
        lemma_run_in_stretches(progress.state, program, (first - 1) as nat, second);
    }
}

impl State {
    /// Dispatches at the program counter: executes the instruction there, or
    /// halts with `r0` when the program counter is past the end of the
    /// program. The program counter itself is left as it is.
    pub fn dispatch(&mut self, program: &[Instruction]) -> (directive: Directive)
        ensures
            final(self)@ == dispatched(old(self)@, program@).state,
            directive == dispatched(old(self)@, program@).directive,
    {
        let pc: usize = self.program_counter;
        if pc < program.len() {
            let next = if pc + 1 < program.len() {
                Some(program[pc + 1])
            } else {
                None
            };
            self.execution_ix(program[pc], next)
        } else {
            Directive::Halt(self.registers[0])
        }
    }

    /// Applies a directive: moves the program counter, or ends the run.
    ///
    /// `Continue` moves to the next instruction and `Jump` to its target.
    /// `Halt` and `Trap` end the run. For `Call`, `resolved` is the value
    /// that the host's function returned: it goes to `r0` and the run goes
    /// on with the next instruction; with `None` the run faults with
    /// [`Trap::UnsupportedCall`]. Returns the outcome if the run has ended.
    pub fn apply(&mut self, directive: Directive, resolved: Option<i64>) -> (outcome: Option<
        Outcome,
    >)
        ensures
            final(self)@ == applied(old(self)@, directive, resolved).state,
            outcome == applied(old(self)@, directive, resolved).outcome,
    {
        match directive {
            Directive::Continue => {
                self.program_counter = target(self.program_counter, 0);
                None
            },
            Directive::Jump(to) => {
                self.program_counter = to;
                None
            },
            Directive::Call(id) => match resolved {
                Some(value) => {
                    self.registers[0] = value;
                    self.program_counter = target(self.program_counter, 0);
                    None
                },
                None => Some(Outcome::Faulted(Trap::UnsupportedCall(id))),
            },
            Directive::Halt(code) => Some(Outcome::Halted(code)),
            Directive::Trap(trap) => Some(Outcome::Faulted(trap)),
        }
    }

    /// Runs one step, in which nothing resolves calls. Returns the outcome
    /// if the step ended the run.
    pub fn step(&mut self, program: &[Instruction]) -> (outcome: Option<Outcome>)
        ensures
            final(self)@ == step(old(self)@, program@).state,
            outcome == step(old(self)@, program@).outcome,
    {
        let directive = self.dispatch(program);
        self.apply(directive, None)
    }

    /// Runs at most `max_steps` steps, stopping at the first that ends the
    /// run. Returns the outcome, or `None` if the budget ran out first; the
    /// run can then be taken up again from the state it is in.
    pub fn run(&mut self, program: &[Instruction], max_steps: u64) -> (outcome: Option<Outcome>)
        ensures
            final(self)@ == run_steps(old(self)@, program@, max_steps as nat).state,
            outcome == run_steps(old(self)@, program@, max_steps as nat).outcome,
    {
        let mut left: u64 = max_steps;
        while left > 0
            invariant
                run_steps(old(self)@, program@, max_steps as nat) == run_steps(
                    self@,
                    program@,
                    left as nat,
                ),
            decreases left,
        {
            let outcome = self.step(program);
            if outcome.is_some() {
                return outcome;
            }
            left = left - 1;
        }
        None
    }
}

/// Decodes `bytecode` and runs it on a fresh machine for at most `max_steps`
/// steps.
///
/// Fails, before anything is executed, when the length of `bytecode` is not a
/// multiple of eight. Otherwise returns the final registers, the final
/// memory and the outcome, or `None` if the run did not end within the
/// budget. Calls fault with [`Trap::UnsupportedCall`].
pub fn run_bounded(bytecode: &[u8], max_steps: u64) -> (r: Result<
    Option<ExecutionResult>,
    DecodeError,
>)
    ensures
        match r {
            Ok(finished) => {
                let progress = run_steps(
                    StateView::initial(MEMORY_SIZE as nat),
                    decoded(bytecode@),
                    max_steps as nat,
                );
                &&& bytecode@.len() % 8 == 0
                &&& match finished {
                    Some(result) => {
                        &&& progress.outcome == Some(result.outcome)
                        &&& result.final_registers@ == progress.state.registers
                        &&& result.final_memory@ == progress.state.memory
                    },
                    None => progress.outcome is None,
                }
            },
            Err(error) => bytecode@.len() % 8 != 0 && error == DecodeError::MisalignedLength,
        },
{
    let program = match decode(bytecode) {
        Ok(program) => program,
        Err(error) => {
            return Err(error);
        },
    };
    let mut state = State::new();
    match state.run(program.as_slice(), max_steps) {
        Some(outcome) => Ok(
            Some(
                ExecutionResult {
                    final_registers: state.registers,
                    final_memory: state.memory,
                    outcome,
                },
            ),
        ),
        None => Ok(None),
    }
}

} // verus!
