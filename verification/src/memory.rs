//! The memory subsystem: bounds-checked little-endian loads and stores.
//!
//! Every operation works on `width` bytes at a signed 64-bit address and is
//! all-or-nothing: when the bytes do not all lie inside the memory, the
//! operation fails and the machine is left as it was. The byte order is
//! little-endian on every host.

use vstd::prelude::*;
use crate::arith::{to_signed, to_unsigned, wrap_i64};
use crate::endian::{
    le_bytes, le_value, lemma_le_bytes_len, lemma_le_bytes_unsigned, lemma_le_round_trip,
    lemma_le_value_bound, lemma_span_values, span,
};
use crate::state::State;

verus! {

/// Why a load or store was refused.
#[derive(Clone, Copy, Debug, PartialEq, Eq, Structural)]
pub enum MemoryFault {
    /// The bytes of an access at this address, of this width, do not all lie
    /// inside the memory.
    OutOfBounds(i64, u8),
}

/// The result of a memory operation.
pub type StateResult<T> = Result<T, MemoryFault>;

/// The width of a memory access.
#[derive(Clone, Copy, Debug, PartialEq, Eq, Structural)]
pub enum Width {
    Byte,
    Half,
    Word,
    DoubleWord,
}

impl Width {
    /// The number of bytes of an access of this width.
    pub open spec fn spec_bytes(self) -> u8 {
        match self {
            Width::Byte => 1,
            Width::Half => 2,
            Width::Word => 4,
            Width::DoubleWord => 8,
        }
    }

    /// The number of bytes of an access of this width.
    #[verifier::when_used_as_spec(spec_bytes)]
    pub fn bytes(self) -> (n: u8)
        ensures
            n == self.spec_bytes(),
    {
        match self {
            Width::Byte => 1,
            Width::Half => 2,
            Width::Word => 4,
            Width::DoubleWord => 8,
        }
    }
}

/// Whether the `width` bytes at `address` all lie inside a memory of `len`
/// bytes.
pub open spec fn in_bounds(len: nat, address: i64, width: nat) -> bool {
    0 <= address && address + width <= len
}

/// The unsigned number held by the `width` bytes of `memory` at `address`.
pub open spec fn loaded(memory: Seq<u8>, address: int, width: nat) -> nat {
    le_value(memory.subrange(address, address + width))
}

/// `memory` with `bytes` written over it from `address` on.
pub open spec fn written(memory: Seq<u8>, address: int, bytes: Seq<u8>) -> Seq<u8> {
    Seq::new(
        memory.len(),
        |i: int|
            if address <= i < address + bytes.len() {
                bytes[i - address]
            } else {
                memory[i]
            },
    )
}

impl State {
    /// The index of the first byte of an access, if the access is in bounds.
    fn locate(&self, address: i64, width: Width) -> (at: StateResult<usize>)
        ensures
            match at {
                Ok(index) => in_bounds(self.memory@.len(), address, width.bytes() as nat)
                    && index == address,
                Err(fault) => !in_bounds(self.memory@.len(), address, width.bytes() as nat)
                    && fault == MemoryFault::OutOfBounds(address, width.bytes()),
            },
    {
        let n: u8 = width.bytes();
        if address < 0 {
            return Err(MemoryFault::OutOfBounds(address, n));
        }
        let start: u64 = address as u64;
        let len: u64 = self.memory.len() as u64;
        if start + n as u64 > len {
            return Err(MemoryFault::OutOfBounds(address, n));
        }
        Ok(start as usize)
    }

    /// Reads `width` bytes from `at` on as a little-endian number.
    fn read_le(&self, at: usize, width: usize) -> (value: u64)
        requires
            width <= 8,
            at + width <= self.memory.len(),
        ensures
            value == loaded(self.memory@, at as int, width as nat),
    {
        let mut value: u64 = 0;
        let mut i: usize = width;
        while i > 0
            invariant
                i <= width <= 8,
                at + width <= self.memory.len(),
                value == le_value(self.memory@.subrange(at + i, at + width)),
                value < span((width - i) as nat),
            decreases i,
        {
            proof {
                reveal_with_fuel(span, 9);
            }
            i = i - 1;
            let byte: u8 = self.memory[at + i];
            assert(self.memory@.subrange(at + i, at + width).skip(1) =~= self.memory@.subrange(
                at + i + 1,
                at + width,
            ));
            value = value * 256 + byte as u64;
            proof {
                lemma_le_value_bound(self.memory@.subrange(at + i, at + width));
            }
        }
        value
    }

    /// Writes the low `width` bytes of `value` from `at` on, least
    /// significant byte first.
    fn write_le(&mut self, at: usize, width: usize, value: u64)
        requires
            width <= 8,
            at + width <= old(self).memory.len(),
        ensures
            final(self)@ == old(self)@.with_memory(
                written(old(self).memory@, at as int, le_bytes(value as int, width as nat)),
            ),
    {
        let ghost before = self.memory@;
        let mut rest: u64 = value;
        let mut i: usize = 0;
        while i < width
            invariant
                i <= width <= 8,
                at + width <= self.memory.len(),
                self.memory@.len() == before.len(),
                self.program_counter == old(self).program_counter,
                self.registers == old(self).registers,
                le_bytes(value as int, width as nat) =~= self.memory@.subrange(
                    at as int,
                    at + i,
                ) + le_bytes(rest as int, (width - i) as nat),
                forall|j: int|
                    0 <= j < before.len() && !(at <= j < at + i) ==> self.memory@[j] == before[j],
            decreases width - i,
        {
            let ghost prefix = self.memory@.subrange(at as int, at + i);
            self.memory[at + i] = (rest % 256) as u8;
            assert(self.memory@.subrange(at as int, at + i + 1) =~= prefix.push(
                (rest % 256) as u8,
            ));
            rest = rest / 256;
            i = i + 1;
        }
        proof {
            lemma_le_bytes_len(value as int, width as nat);
            assert(self.memory@ =~= written(
                before,
                at as int,
                le_bytes(value as int, width as nat),
            ));
        }
    }

    /// Loads `width` bytes at `address` as an unsigned little-endian number.
    ///
    /// Fails, leaving the machine untouched, when the bytes do not all lie
    /// inside the memory.
    pub fn load(&self, address: i64, width: Width) -> (r: StateResult<u64>)
        ensures
            match r {
                Ok(value) => in_bounds(self.memory@.len(), address, width.bytes() as nat)
                    && value == loaded(self.memory@, address as int, width.bytes() as nat),
                Err(fault) => !in_bounds(self.memory@.len(), address, width.bytes() as nat)
                    && fault == MemoryFault::OutOfBounds(address, width.bytes()),
            },
    {
        match self.locate(address, width) {
            Ok(at) => Ok(self.read_le(at, width.bytes() as usize)),
            Err(fault) => Err(fault),
        }
    }

    /// Stores the low `width` bytes of `value` at `address`, least
    /// significant byte first.
    ///
    /// Fails, leaving the machine untouched, when the bytes do not all lie
    /// inside the memory.
    pub fn store(&mut self, address: i64, width: Width, value: i64) -> (r: StateResult<()>)
        ensures
            match r {
                Ok(()) => in_bounds(old(self).memory@.len(), address, width.bytes() as nat)
                    && final(self)@ == old(self)@.with_memory(
                    written(
                        old(self).memory@,
                        address as int,
                        le_bytes(value as int, width.bytes() as nat),
                    ),
                ),
                Err(fault) => !in_bounds(old(self).memory@.len(), address, width.bytes() as nat)
                    && fault == MemoryFault::OutOfBounds(address, width.bytes())
                    && *final(self) == *old(self),
            },
    {
        match self.locate(address, width) {
            Ok(at) => {
                proof {
                    lemma_le_bytes_unsigned(value, width.bytes() as nat);
                }
                self.write_le(at, width.bytes() as usize, to_unsigned(value));
                Ok(())
            },
            Err(fault) => Err(fault),
        }
    }

    /// Stores the four bytes of `value` at `address`, least significant byte first.
    ///
    /// Fails with [`MemoryFault::OutOfBounds`], leaving the machine
    /// untouched, unless `0 <= address` and `address + 4` is at most the
    /// length of the memory.
    pub fn store_word(&mut self, address: i64, value: i32) -> (r: StateResult<()>)
        ensures
            match r {
                Ok(()) => in_bounds(old(self).memory@.len(), address, 4)
                    && final(self)@ == old(self)@.with_memory(
                    written(old(self).memory@, address as int, le_bytes(value as int, 4)),
                ),
                Err(fault) => !in_bounds(old(self).memory@.len(), address, 4)
                    && fault == MemoryFault::OutOfBounds(address, 4)
                    && *final(self) == *old(self),
            },
    {
        self.store(address, Width::Word, value as i64)
    }

    /// Stores the two bytes of `value` at `address`, least significant byte first.
    ///
    /// Fails with [`MemoryFault::OutOfBounds`], leaving the machine
    /// untouched, unless `0 <= address` and `address + 2` is at most the
    /// length of the memory.
    pub fn store_half_word(&mut self, address: i64, value: i16) -> (r: StateResult<()>)
        ensures
            match r {
                Ok(()) => in_bounds(old(self).memory@.len(), address, 2)
                    && final(self)@ == old(self)@.with_memory(
                    written(old(self).memory@, address as int, le_bytes(value as int, 2)),
                ),
                Err(fault) => !in_bounds(old(self).memory@.len(), address, 2)
                    && fault == MemoryFault::OutOfBounds(address, 2)
                    && *final(self) == *old(self),
            },
    {
        self.store(address, Width::Half, value as i64)
    }

    /// Stores the byte `value` at `address`, least significant byte first.
    ///
    /// Fails with [`MemoryFault::OutOfBounds`], leaving the machine
    /// untouched, unless `0 <= address` and `address + 1` is at most the
    /// length of the memory.
    pub fn store_byte(&mut self, address: i64, value: i8) -> (r: StateResult<()>)
        ensures
            match r {
                Ok(()) => in_bounds(old(self).memory@.len(), address, 1)
                    && final(self)@ == old(self)@.with_memory(
                    written(old(self).memory@, address as int, le_bytes(value as int, 1)),
                ),
                Err(fault) => !in_bounds(old(self).memory@.len(), address, 1)
                    && fault == MemoryFault::OutOfBounds(address, 1)
                    && *final(self) == *old(self),
            },
    {
        self.store(address, Width::Byte, value as i64)
    }

    /// Stores the eight bytes of `value` at `address`, least significant byte first.
    ///
    /// Fails with [`MemoryFault::OutOfBounds`], leaving the machine
    /// untouched, unless `0 <= address` and `address + 8` is at most the
    /// length of the memory.
    pub fn store_double_word(&mut self, address: i64, value: i64) -> (r: StateResult<()>)
        ensures
            match r {
                Ok(()) => in_bounds(old(self).memory@.len(), address, 8)
                    && final(self)@ == old(self)@.with_memory(
                    written(old(self).memory@, address as int, le_bytes(value as int, 8)),
                ),
                Err(fault) => !in_bounds(old(self).memory@.len(), address, 8)
                    && fault == MemoryFault::OutOfBounds(address, 8)
                    && *final(self) == *old(self),
            },
    {
        self.store(address, Width::DoubleWord, value as i64)
    }

    /// Loads the four-byte word at `address`, zero-extended to 64 bits.
    ///
    /// Fails with [`MemoryFault::OutOfBounds`] unless `0 <= address` and
    /// `address + 4` is at most the length of the memory. The machine is
    /// never changed.
    pub fn load_word(&mut self, address: i64) -> (r: StateResult<i64>)
        ensures
            *final(self) == *old(self),
            match r {
                Ok(value) => in_bounds(old(self).memory@.len(), address, 4)
                    && value == loaded(old(self).memory@, address as int, 4),
                Err(fault) => !in_bounds(old(self).memory@.len(), address, 4)
                    && fault == MemoryFault::OutOfBounds(address, 4),
            },
    {
        proof {
            lemma_span_values();
            if in_bounds(self.memory@.len(), address, 4) {
                lemma_le_value_bound(self.memory@.subrange(address as int, address + 4));
            }
        }
        match self.load(address, Width::Word) {
            Ok(value) => Ok(value as i64),
            Err(fault) => Err(fault),
        }
    }

    /// Loads the two-byte half word at `address`, zero-extended to 64 bits.
    ///
    /// Fails with [`MemoryFault::OutOfBounds`] unless `0 <= address` and
    /// `address + 2` is at most the length of the memory. The machine is
    /// never changed.
    pub fn load_half_word(&mut self, address: i64) -> (r: StateResult<i64>)
        ensures
            *final(self) == *old(self),
            match r {
                Ok(value) => in_bounds(old(self).memory@.len(), address, 2)
                    && value == loaded(old(self).memory@, address as int, 2),
                Err(fault) => !in_bounds(old(self).memory@.len(), address, 2)
                    && fault == MemoryFault::OutOfBounds(address, 2),
            },
    {
        proof {
            lemma_span_values();
            if in_bounds(self.memory@.len(), address, 2) {
                lemma_le_value_bound(self.memory@.subrange(address as int, address + 2));
            }
        }
        match self.load(address, Width::Half) {
            Ok(value) => Ok(value as i64),
            Err(fault) => Err(fault),
        }
    }

    /// Loads the byte at `address`, zero-extended to 64 bits.
    ///
    /// Fails with [`MemoryFault::OutOfBounds`] unless `0 <= address` and
    /// `address + 1` is at most the length of the memory. The machine is
    /// never changed.
    pub fn load_byte(&mut self, address: i64) -> (r: StateResult<i64>)
        ensures
            *final(self) == *old(self),
            match r {
                Ok(value) => in_bounds(old(self).memory@.len(), address, 1)
                    && value == loaded(old(self).memory@, address as int, 1),
                Err(fault) => !in_bounds(old(self).memory@.len(), address, 1)
                    && fault == MemoryFault::OutOfBounds(address, 1),
            },
    {
        proof {
            lemma_span_values();
            if in_bounds(self.memory@.len(), address, 1) {
                lemma_le_value_bound(self.memory@.subrange(address as int, address + 1));
            }
        }
        match self.load(address, Width::Byte) {
            Ok(value) => Ok(value as i64),
            Err(fault) => Err(fault),
        }
    }

    /// Loads the eight-byte double word at `address` as a signed register
    /// value.
    ///
    /// Fails with [`MemoryFault::OutOfBounds`] unless `0 <= address` and
    /// `address + 8` is at most the length of the memory. The machine is
    /// never changed.
    pub fn load_double_word(&mut self, address: i64) -> (r: StateResult<i64>)
        ensures
            *final(self) == *old(self),
            match r {
                Ok(value) => in_bounds(old(self).memory@.len(), address, 8)
                    && value == wrap_i64(loaded(old(self).memory@, address as int, 8) as int),
                Err(fault) => !in_bounds(old(self).memory@.len(), address, 8)
                    && fault == MemoryFault::OutOfBounds(address, 8),
            },
    {
        match self.load(address, Width::DoubleWord) {
            Ok(value) => Ok(to_signed(value)),
            Err(fault) => Err(fault),
        }
    }
}

/// A load reads back what a store of the same width at the same address
/// wrote: the stored value modulo the span of the width.
pub proof fn lemma_load_after_store(memory: Seq<u8>, address: int, value: int, width: nat)
    requires
        0 <= address,
        address + width <= memory.len(),
    ensures
        loaded(written(memory, address, le_bytes(value, width)), address, width) == value % (span(
            width,
        ) as int),
{
    lemma_le_bytes_len(value, width);
    lemma_le_round_trip(value, width);
    assert(written(memory, address, le_bytes(value, width)).subrange(address, address + width)
        =~= le_bytes(value, width));
}

} // verus!
