//! Instructions and their eight-byte encoding.
//!
//! An instruction slot is eight bytes: the opcode, a byte that holds the
//! destination register in its low four bits and the source register in its
//! high four bits, a little-endian signed 16-bit offset, and a little-endian
//! signed 32-bit immediate.

use vstd::prelude::*;
use crate::endian::{
    le_bytes, le_value, lemma_le_bytes_len, lemma_le_bytes_of_signed, lemma_le_bytes_periodic,
    lemma_le_value_bound,
    lemma_span_values, signed,
};

verus! {

/// One decoded instruction.
#[derive(Clone, Copy, Debug, PartialEq, Eq, Structural)]
pub struct Instruction {
    pub opcode: u8,
    pub dest: u8,
    pub src: u8,
    pub offset: i16,
    pub imm: i32,
}

/// Why a byte buffer is not a program.
#[derive(Clone, Copy, Debug, PartialEq, Eq, Structural)]
pub enum DecodeError {
    /// The length of the buffer is not a multiple of eight.
    MisalignedLength,
}

impl Instruction {
    /// Whether both register fields name one of the eleven registers.
    pub open spec fn well_formed(self) -> bool {
        self.dest <= 10 && self.src <= 10
    }

    /// Whether both register fields name one of the eleven registers.
    pub fn is_well_formed(&self) -> (ok: bool)
        ensures
            ok == self.well_formed(),
    {
        self.dest <= 10 && self.src <= 10
    }

    /// The eight bytes that encode this instruction. Only the low four bits
    /// of each register field are encoded.
    pub fn encode(&self) -> (slot: [u8; 8])
        ensures
            slot@ == encode_slot(*self),
    {
        let registers: u8 = (self.dest & 0x0f) | ((self.src & 0x0f) << 4);
        let offset = offset_bytes(self.offset);
        let imm = imm_bytes(self.imm);
        let slot: [u8; 8] = [
            self.opcode,
            registers,
            offset.0,
            offset.1,
            imm.0,
            imm.1,
            imm.2,
            imm.3,
        ];
        assert(slot@ =~= encode_slot(*self));
        slot
    }
}

/// The two bytes of an offset, least significant first.
fn offset_bytes(offset: i16) -> (bytes: (u8, u8))
    ensures
        le_bytes(offset as int, 2) == seq![bytes.0, bytes.1],
{
    let bits: u32 = if offset < 0 {
        (offset as i32 + 0x1_0000) as u32
    } else {
        offset as u32
    };
    proof {
        lemma_span_values();
        lemma_le_bytes_periodic(offset as int, 1, 2);
        reveal_with_fuel(le_bytes, 3);
        assert(le_bytes(bits as int, 2) =~= seq![(bits % 256) as u8, (bits / 256) as u8]);
    }
    ((bits % 256) as u8, (bits / 256) as u8)
}

/// The four bytes of an immediate, least significant first.
fn imm_bytes(imm: i32) -> (bytes: (u8, u8, u8, u8))
    ensures
        le_bytes(imm as int, 4) == seq![bytes.0, bytes.1, bytes.2, bytes.3],
{
    let bits: u64 = if imm < 0 {
        (imm as i64 + 0x1_0000_0000) as u64
    } else {
        imm as u64
    };
    let high: u64 = bits / 256;
    let higher: u64 = high / 256;
    proof {
        lemma_span_values();
        lemma_le_bytes_periodic(imm as int, 1, 4);
        reveal_with_fuel(le_bytes, 5);
        assert(le_bytes(bits as int, 4) =~= seq![
            (bits % 256) as u8,
            (high % 256) as u8,
            (higher % 256) as u8,
            (higher / 256) as u8,
        ]);
    }
    ((bits % 256) as u8, (high % 256) as u8, (higher % 256) as u8, (higher / 256) as u8)
}

impl Default for Instruction {
    fn default() -> (ix: Instruction)
        ensures
            ix == (Instruction { opcode: 0, dest: 0, src: 0, offset: 0, imm: 0 }),
    {
        Instruction { opcode: 0, dest: 0, src: 0, offset: 0, imm: 0 }
    }
}

/// The instruction that the eight bytes of `slot` encode.
pub open spec fn decode_slot(slot: Seq<u8>) -> Instruction {
    Instruction {
        opcode: slot[0],
        dest: slot[1] & 0x0f,
        src: (slot[1] >> 4) & 0x0f,
        offset: signed(le_value(slot.subrange(2, 4)), 2) as i16,
        imm: signed(le_value(slot.subrange(4, 8)), 4) as i32,
    }
}

/// The eight bytes that encode `ix`.
pub open spec fn encode_slot(ix: Instruction) -> Seq<u8> {
    seq![ix.opcode, (ix.dest & 0x0f) | ((ix.src & 0x0f) << 4)] + le_bytes(ix.offset as int, 2)
        + le_bytes(ix.imm as int, 4)
}

/// The program that `bytes` encode: one instruction for each full slot, in
/// buffer order.
pub open spec fn decoded(bytes: Seq<u8>) -> Seq<Instruction> {
    Seq::new(bytes.len() / 8, |i: int| decode_slot(bytes.subrange(8 * i, 8 * i + 8)))
}

/// The bytes that encode `program`, slot after slot.
pub open spec fn encoded(program: Seq<Instruction>) -> Seq<u8> {
    Seq::new(8 * program.len(), |j: int| encode_slot(program[j / 8])[j % 8])
}

/// Encoding an instruction gives eight bytes.
pub proof fn lemma_encode_slot_len(ix: Instruction)
    ensures
        encode_slot(ix).len() == 8,
{
    lemma_le_bytes_len(ix.offset as int, 2);
    lemma_le_bytes_len(ix.imm as int, 4);
}

/// Encoding the instruction that a slot decodes to gives the slot back.
pub proof fn lemma_slot_round_trip(slot: Seq<u8>)
    requires
        slot.len() == 8,
    ensures
        encode_slot(decode_slot(slot)) == slot,
{
    let ix = decode_slot(slot);
    let b = slot[1];
    let offset_bytes = slot.subrange(2, 4);
    let imm_bytes = slot.subrange(4, 8);
    assert((b & 0x0f) & 0x0f | ((((b >> 4) & 0x0f) & 0x0f) << 4) == b) by (bit_vector);
    lemma_span_values();
    lemma_le_value_bound(offset_bytes);
    lemma_le_value_bound(imm_bytes);
    lemma_le_bytes_of_signed(offset_bytes);
    lemma_le_bytes_of_signed(imm_bytes);
    assert(encode_slot(ix) =~= slot);
}

/// Decoding and re-encoding reproduces the buffer: a buffer of `8n` bytes
/// decodes to exactly `n` instructions, and the encodings of those
/// instructions, one after the other, are the bytes of the buffer.
pub proof fn lemma_decode_round_trip(bytes: Seq<u8>)
    requires
        bytes.len() % 8 == 0,
    ensures
        decoded(bytes).len() * 8 == bytes.len(),
        encoded(decoded(bytes)) == bytes,
{
    let program = decoded(bytes);
    assert forall|j: int| 0 <= j < bytes.len() implies encoded(program)[j] == bytes[j] by {
        let slot = bytes.subrange(8 * (j / 8), 8 * (j / 8) + 8);
        lemma_slot_round_trip(slot);
        assert(slot[j % 8] == bytes[j]);
    }
    assert(encoded(program) =~= bytes);
}

/// Decodes a byte buffer into a program.
///
/// Succeeds exactly when the length of the buffer is a multiple of eight;
/// the program then has one instruction for each slot, in buffer order.
pub fn decode(bytecode: &[u8]) -> (r: Result<Vec<Instruction>, DecodeError>)
    ensures
        match r {
            Ok(program) => bytecode@.len() % 8 == 0 && program@ == decoded(bytecode@),
            Err(error) => bytecode@.len() % 8 != 0 && error == DecodeError::MisalignedLength,
        },
{
    let len: usize = bytecode.len();
    if len % 8 != 0 {
        return Err(DecodeError::MisalignedLength);
    }
    let count: usize = len / 8;
    let mut program: Vec<Instruction> = Vec::with_capacity(count);
    let mut i: usize = 0;
    while i < count
        invariant
            i <= count,
            len == bytecode@.len(),
            count * 8 == len,
            program@.len() == i,
            forall|k: int| 0 <= k < i ==> program@[k] == decoded(bytecode@)[k],
        decreases count - i,
    {
        let ix = decode_at(bytecode, i * 8);
        program.push(ix);
        i = i + 1;
    }
    assert(program@ =~= decoded(bytecode@));
    Ok(program)
}

/// Decodes the slot that starts at byte `at`.
fn decode_at(bytes: &[u8], at: usize) -> (ix: Instruction)
    requires
        at + 8 <= bytes.len(),
    ensures
        ix == decode_slot(bytes@.subrange(at as int, at + 8)),
{
    let ghost slot = bytes@.subrange(at as int, at + 8);
    let registers: u8 = bytes[at + 1];
    let offset: i32 = bytes[at + 2] as i32 + 256 * (bytes[at + 3] as i32);
    let imm: i64 = bytes[at + 4] as i64 + 0x100 * (bytes[at + 5] as i64) + 0x1_0000 * (bytes[at
        + 6] as i64) + 0x100_0000 * (bytes[at + 7] as i64);
    proof {
        reveal_with_fuel(le_value, 5);
        lemma_span_values();
        let offset_bytes = slot.subrange(2, 4);
        let imm_bytes = slot.subrange(4, 8);
        assert(offset_bytes.skip(1).skip(1).len() == 0);
        assert(imm_bytes.skip(1).skip(1).skip(1).skip(1).len() == 0);
        assert(offset == le_value(offset_bytes));
        assert(imm == le_value(imm_bytes));
    }
    Instruction {
        opcode: bytes[at],
        dest: registers & 0x0f,
        src: (registers >> 4) & 0x0f,
        offset: if offset >= 0x8000 {
            (offset - 0x1_0000) as i16
        } else {
            offset as i16
        },
        imm: if imm >= 0x8000_0000 {
            (imm - 0x1_0000_0000) as i32
        } else {
            imm as i32
        },
    }
}

/// Encodes a program into a byte buffer, slot after slot.
pub fn encode(program: &Vec<Instruction>) -> (bytes: Vec<u8>)
    ensures
        bytes@ == encoded(program@),
{
    let mut bytes: Vec<u8> = Vec::new();
    let mut i: usize = 0;
    while i < program.len()
        invariant
            i <= program.len(),
            bytes@.len() == 8 * i,
            forall|j: int| 0 <= j < 8 * i ==> bytes@[j] == encoded(program@)[j],
        decreases program.len() - i,
    {
        let slot = program[i].encode();
        let ghost before = bytes@;
        let mut k: usize = 0;
        while k < 8
            invariant
                k <= 8,
                i < program.len(),
                slot@ == encode_slot(program@[i as int]),
                bytes@.len() == 8 * i + k,
                forall|j: int| 0 <= j < 8 * i + k ==> bytes@[j] == encoded(program@)[j],
            decreases 8 - k,
        {
            bytes.push(slot[k]);
            k = k + 1;
        }
        i = i + 1;
    }
    assert(bytes@ =~= encoded(program@));
    bytes
}

} // verus!
