use ebpf_vm::{
    Directive, Instruction, Operation, State, Trap, Width, BRANCH_INSTRUCTIONS,
    BYTESWAP_INSTRUCTIONS, MEMORY_INSTRUCTIONS, OPCODES,
};
use ebpf_vm::{AluOp, ByteOrder, Condition, Operand};

fn ix(opcode: u8, dest: u8, src: u8, offset: i16, imm: i32) -> Instruction {
    Instruction { opcode, dest, src, offset, imm }
}

fn machine() -> State {
    State::with_memory_size(64)
}

#[test]
fn opcode_table_values() {
    assert_eq!(OPCODES::ALU64_ADD_IMM, 0x07);
    assert_eq!(OPCODES::ALU64_MOV_REG, 0xbf);
    assert_eq!(OPCODES::ALU64_NEG, 0x87);
    assert_eq!(OPCODES::ALU64_ARSH_REG, 0xcf);
    assert_eq!(BYTESWAP_INSTRUCTIONS::BYTESWAP_LE16, 0xd4);
    assert_eq!(BYTESWAP_INSTRUCTIONS::BYTESWAP_LE64, 0xd4);
    assert_eq!(BYTESWAP_INSTRUCTIONS::BYTESWAP_BE32, 0xdc);
    assert_eq!(MEMORY_INSTRUCTIONS::MEM_LDDW, 0x18);
    assert_eq!(MEMORY_INSTRUCTIONS::MEM_STXDW, 0x7b);
    assert_eq!(BRANCH_INSTRUCTIONS::BRANCH_JA, 0x05);
    assert_eq!(BRANCH_INSTRUCTIONS::BRANCH_EXIT, 0x95);
    assert_eq!(BRANCH_INSTRUCTIONS::BRANCH_CALL, 0x85);
}

#[test]
fn operation_decode_covers_each_family() {
    assert_eq!(
        Operation::decode(OPCODES::ALU64_ADD_IMM, 0),
        Some(Operation::Alu(AluOp::Add, Operand::Immediate))
    );
    assert_eq!(
        Operation::decode(OPCODES::ALU64_ARSH_REG, 0),
        Some(Operation::Alu(AluOp::Arsh, Operand::Register))
    );
    assert_eq!(Operation::decode(OPCODES::ALU64_NEG, 0), Some(Operation::Negate));
    assert_eq!(Operation::decode(MEMORY_INSTRUCTIONS::MEM_LDDW, 0), Some(Operation::LoadWide));
    assert_eq!(
        Operation::decode(MEMORY_INSTRUCTIONS::MEM_LDABSH, 0),
        Some(Operation::LoadAbsolute(Width::Half))
    );
    assert_eq!(
        Operation::decode(MEMORY_INSTRUCTIONS::MEM_LDINDDW, 0),
        Some(Operation::LoadIndirect(Width::DoubleWord))
    );
    assert_eq!(
        Operation::decode(MEMORY_INSTRUCTIONS::MEM_LDXB, 0),
        Some(Operation::LoadRegister(Width::Byte))
    );
    assert_eq!(
        Operation::decode(MEMORY_INSTRUCTIONS::MEM_STW, 0),
        Some(Operation::StoreImmediate(Width::Word))
    );
    assert_eq!(
        Operation::decode(MEMORY_INSTRUCTIONS::MEM_STXH, 0),
        Some(Operation::StoreRegister(Width::Half))
    );
    assert_eq!(Operation::decode(BRANCH_INSTRUCTIONS::BRANCH_JA, 0), Some(Operation::Jump));
    assert_eq!(
        Operation::decode(BRANCH_INSTRUCTIONS::BRANCH_JSLE_REG, 0),
        Some(Operation::Branch(Condition::SignedLessOrEqual, Operand::Register))
    );
    assert_eq!(
        Operation::decode(BRANCH_INSTRUCTIONS::BRANCH_JSET_IMM, 0),
        Some(Operation::Branch(Condition::AnyBitSet, Operand::Immediate))
    );
    assert_eq!(Operation::decode(BRANCH_INSTRUCTIONS::BRANCH_CALL, 7), Some(Operation::Call));
    assert_eq!(Operation::decode(BRANCH_INSTRUCTIONS::BRANCH_EXIT, 0), Some(Operation::Exit));
}

#[test]
fn byte_swap_width_comes_from_the_immediate() {
    assert_eq!(
        Operation::decode(0xd4, 16),
        Some(Operation::ByteSwap(ByteOrder::Little, Width::Half))
    );
    assert_eq!(
        Operation::decode(0xd4, 32),
        Some(Operation::ByteSwap(ByteOrder::Little, Width::Word))
    );
    assert_eq!(
        Operation::decode(0xd4, 64),
        Some(Operation::ByteSwap(ByteOrder::Little, Width::DoubleWord))
    );
    assert_eq!(
        Operation::decode(0xdc, 16),
        Some(Operation::ByteSwap(ByteOrder::Big, Width::Half))
    );
    assert_eq!(
        Operation::decode(0xdc, 64),
        Some(Operation::ByteSwap(ByteOrder::Big, Width::DoubleWord))
    );
    assert_eq!(Operation::decode(0xd4, 8), None);
    assert_eq!(Operation::decode(0xdc, 0), None);
    assert_eq!(Operation::decode(0xdc, -16), None);
}

#[test]
fn exactly_the_listed_opcodes_are_known() {
    let known: [u8; 73] = [
        0x07, 0x0f, 0x17, 0x1f, 0x27, 0x2f, 0x37, 0x3f, 0x47, 0x4f, 0x57, 0x5f, 0x67, 0x6f, 0x77,
        0x7f, 0x87, 0x97, 0x9f, 0xa7, 0xaf, 0xb7, 0xbf, 0xc7, 0xcf, 0xd4, 0xdc, 0x18, 0x20, 0x28,
        0x30, 0x38, 0x40, 0x48, 0x50, 0x58, 0x61, 0x69, 0x71, 0x79, 0x62, 0x6a, 0x72, 0x7a, 0x63,
        0x6b, 0x73, 0x7b, 0x05, 0x15, 0x1d, 0x25, 0x2d, 0x35, 0x3d, 0xa5, 0xad, 0xb5, 0xbd, 0x45,
        0x4d, 0x55, 0x5d, 0x65, 0x6d, 0x75, 0x7d, 0xc5, 0xcd, 0xd5, 0xdd, 0x85, 0x95,
    ];
    let mut count = 0;
    for opcode in 0..=255u8 {
        let decoded = Operation::decode(opcode, 64);
        assert_eq!(decoded.is_some(), known.contains(&opcode), "opcode {:#x}", opcode);
        if decoded.is_some() {
            count += 1;
        }
    }
    assert_eq!(count, 73);
}

#[test]
fn every_unknown_opcode_traps_and_changes_nothing() {
    for opcode in 0..=255u8 {
        if Operation::decode(opcode, 0).is_some() || opcode == 0xd4 || opcode == 0xdc {
            continue;
        }
        let mut state = machine();
        state.registers = [1, 2, 3, 4, 5, 6, 7, 8, 9, 10, 11];
        state.program_counter = 3;
        let d = state.execution_ix(ix(opcode, 1, 2, 3, 4), Some(ix(0, 0, 0, 0, 0)));
        assert_eq!(d, Directive::Trap(Trap::InvalidOpcode(opcode)));
        assert_eq!(state.registers, [1, 2, 3, 4, 5, 6, 7, 8, 9, 10, 11]);
        assert_eq!(state.memory, vec![0u8; 64]);
        assert_eq!(state.program_counter, 3);
    }
}

#[test]
fn register_fields_above_ten_trap_as_invalid() {
    let mut state = machine();
    let d = state.execution_ix(ix(OPCODES::ALU64_MOV_IMM, 11, 0, 0, 5), None);
    assert_eq!(d, Directive::Trap(Trap::InvalidOpcode(OPCODES::ALU64_MOV_IMM)));
    let d = state.execution_ix(ix(OPCODES::ALU64_MOV_REG, 0, 15, 0, 5), None);
    assert_eq!(d, Directive::Trap(Trap::InvalidOpcode(OPCODES::ALU64_MOV_REG)));
    let d = state.execution_ix(ix(BRANCH_INSTRUCTIONS::BRANCH_EXIT, 0, 11, 0, 0), None);
    assert_eq!(d, Directive::Trap(Trap::InvalidOpcode(BRANCH_INSTRUCTIONS::BRANCH_EXIT)));
    assert_eq!(state.registers, [0i64; 11]);
    let d = state.execution_ix(ix(OPCODES::ALU64_MOV_IMM, 10, 10, 0, 5), None);
    assert_eq!(d, Directive::Continue);
    assert_eq!(state.registers[10], 5);
}

#[test]
fn byte_swap_with_a_bad_width_traps_as_invalid() {
    let mut state = machine();
    state.registers[1] = 0x1234;
    let d = state.execution_ix(ix(0xdc, 1, 0, 0, 24), None);
    assert_eq!(d, Directive::Trap(Trap::InvalidOpcode(0xdc)));
    assert_eq!(state.registers[1], 0x1234);
}

#[test]
fn mov_imm_replaces_and_sign_extends() {
    let mut state = machine();
    state.registers[1] = 77;
    assert_eq!(state.execution_ix(ix(OPCODES::ALU64_MOV_IMM, 1, 0, 0, 5), None), Directive::Continue);
    assert_eq!(state.registers[1], 5);
    assert_eq!(state.execution_ix(ix(OPCODES::ALU64_MOV_IMM, 1, 0, 0, -1), None), Directive::Continue);
    assert_eq!(state.registers[1], -1);
}

#[test]
fn add_imm_wraps_without_trapping() {
    let mut state = machine();
    state.registers[4] = i64::MAX;
    let d = state.execution_ix(ix(OPCODES::ALU64_ADD_IMM, 4, 0, 0, 1), None);
    assert_eq!(d, Directive::Continue);
    assert_eq!(state.registers[4], i64::MIN);
}

#[test]
fn alu_reg_uses_the_source_register() {
    let mut state = machine();
    state.registers[1] = 5;
    state.registers[2] = 9;
    assert_eq!(state.execution_ix(ix(OPCODES::ALU64_ADD_REG, 1, 2, 0, 100), None), Directive::Continue);
    assert_eq!(state.registers[1], 14);
    assert_eq!(state.registers[2], 9);
    assert_eq!(state.execution_ix(ix(OPCODES::ALU64_SUB_REG, 1, 2, 0, 0), None), Directive::Continue);
    assert_eq!(state.registers[1], 5);
    assert_eq!(state.execution_ix(ix(OPCODES::ALU64_MUL_REG, 1, 2, 0, 0), None), Directive::Continue);
    assert_eq!(state.registers[1], 45);
    assert_eq!(state.execution_ix(ix(OPCODES::ALU64_DIV_REG, 1, 2, 0, 0), None), Directive::Continue);
    assert_eq!(state.registers[1], 5);
    assert_eq!(state.execution_ix(ix(OPCODES::ALU64_MOD_REG, 2, 1, 0, 0), None), Directive::Continue);
    assert_eq!(state.registers[2], 4);
    assert_eq!(state.execution_ix(ix(OPCODES::ALU64_MOV_REG, 0, 2, 0, 0), None), Directive::Continue);
    assert_eq!(state.registers[0], 4);
    assert_eq!(state.execution_ix(ix(OPCODES::ALU64_ADD_REG, 0, 0, 0, 0), None), Directive::Continue);
    assert_eq!(state.registers[0], 8);
}

#[test]
fn alu_imm_operations() {
    let mut state = machine();
    state.registers[3] = 0b1100;
    assert_eq!(state.execution_ix(ix(OPCODES::ALU64_OR_IMM, 3, 0, 0, 0b0011), None), Directive::Continue);
    assert_eq!(state.registers[3], 0b1111);
    assert_eq!(state.execution_ix(ix(OPCODES::ALU64_AND_IMM, 3, 0, 0, 0b0110), None), Directive::Continue);
    assert_eq!(state.registers[3], 0b0110);
    assert_eq!(state.execution_ix(ix(OPCODES::ALU64_XOR_IMM, 3, 0, 0, -1), None), Directive::Continue);
    assert_eq!(state.registers[3], !0b0110);
    assert_eq!(state.execution_ix(ix(OPCODES::ALU64_LSH_IMM, 3, 0, 0, 4), None), Directive::Continue);
    assert_eq!(state.registers[3], (!0b0110) << 4);
    assert_eq!(state.execution_ix(ix(OPCODES::ALU64_ARSH_IMM, 3, 0, 0, 4), None), Directive::Continue);
    assert_eq!(state.registers[3], !0b0110);
    assert_eq!(state.execution_ix(ix(OPCODES::ALU64_RSH_IMM, 3, 0, 0, 60), None), Directive::Continue);
    assert_eq!(state.registers[3], 0xf);
    assert_eq!(state.execution_ix(ix(OPCODES::ALU64_MUL_IMM, 3, 0, 0, -2), None), Directive::Continue);
    assert_eq!(state.registers[3], -30);
    assert_eq!(state.execution_ix(ix(OPCODES::ALU64_DIV_IMM, 3, 0, 0, 4), None), Directive::Continue);
    assert_eq!(state.registers[3], -7);
    assert_eq!(state.execution_ix(ix(OPCODES::ALU64_MOD_IMM, 3, 0, 0, 4), None), Directive::Continue);
    assert_eq!(state.registers[3], -3);
    assert_eq!(state.execution_ix(ix(OPCODES::ALU64_SUB_IMM, 3, 0, 0, -3), None), Directive::Continue);
    assert_eq!(state.registers[3], 0);
    assert_eq!(state.execution_ix(ix(OPCODES::ALU64_NEG, 3, 0, 0, 0), None), Directive::Continue);
    assert_eq!(state.registers[3], 0);
    state.registers[3] = 9;
    assert_eq!(state.execution_ix(ix(OPCODES::ALU64_NEG, 3, 0, 0, 0), None), Directive::Continue);
    assert_eq!(state.registers[3], -9);
}

#[test]
fn division_by_zero_traps_and_changes_nothing() {
    let mut state = machine();
    state.registers[1] = 10;
    let d = state.execution_ix(ix(OPCODES::ALU64_DIV_IMM, 1, 0, 0, 0), None);
    assert_eq!(d, Directive::Trap(Trap::DivisionByZero));
    let d = state.execution_ix(ix(OPCODES::ALU64_MOD_IMM, 1, 0, 0, 0), None);
    assert_eq!(d, Directive::Trap(Trap::DivisionByZero));
    let d = state.execution_ix(ix(OPCODES::ALU64_DIV_REG, 1, 2, 0, 5), None);
    assert_eq!(d, Directive::Trap(Trap::DivisionByZero));
    let d = state.execution_ix(ix(OPCODES::ALU64_MOD_REG, 1, 2, 0, 5), None);
    assert_eq!(d, Directive::Trap(Trap::DivisionByZero));
    assert_eq!(state.registers[1], 10);
}

#[test]
fn byte_swap_instructions() {
    let mut state = machine();
    state.registers[2] = 0x1122_3344_5566_7788;
    assert_eq!(state.execution_ix(ix(0xdc, 2, 0, 0, 32), None), Directive::Continue);
    assert_eq!(state.registers[2], 0x8877_6655);
    assert_eq!(state.execution_ix(ix(0xdc, 2, 0, 0, 16), None), Directive::Continue);
    assert_eq!(state.registers[2], 0x5566);
    state.registers[2] = -1;
    assert_eq!(state.execution_ix(ix(0xd4, 2, 0, 0, 16), None), Directive::Continue);
    assert_eq!(state.registers[2], 0xffff);
    state.registers[2] = 0x0102_0304_0506_0708;
    assert_eq!(state.execution_ix(ix(0xdc, 2, 0, 0, 64), None), Directive::Continue);
    assert_eq!(state.registers[2], 0x0807_0605_0403_0201);
    assert_eq!(state.execution_ix(ix(0xd4, 2, 0, 0, 64), None), Directive::Continue);
    assert_eq!(state.registers[2], 0x0807_0605_0403_0201);
}

#[test]
fn wide_load_takes_two_slots() {
    let mut state = machine();
    state.program_counter = 4;
    let first = ix(MEMORY_INSTRUCTIONS::MEM_LDDW, 6, 0, 0, 0x89ab_cdefu32 as i32);
    let second = ix(0, 0, 0, 0, 0x0123_4567);
    let d = state.execution_ix(first, Some(second));
    assert_eq!(d, Directive::Jump(6));
    assert_eq!(state.registers[6], 0x0123_4567_89ab_cdef);
    assert_eq!(state.program_counter, 4);
}

#[test]
fn wide_load_without_second_slot_traps() {
    let mut state = machine();
    let d = state.execution_ix(ix(MEMORY_INSTRUCTIONS::MEM_LDDW, 6, 0, 0, 1), None);
    assert_eq!(d, Directive::Trap(Trap::InvalidOpcode(0x18)));
    assert_eq!(state.registers, [0i64; 11]);
}

#[test]
fn register_relative_loads() {
    let mut state = machine();
    state.memory[8..16].copy_from_slice(&[0xf1, 0xf2, 0xf3, 0xf4, 0xf5, 0xf6, 0xf7, 0xf8]);
    state.registers[1] = 10;
    assert_eq!(state.execution_ix(ix(MEMORY_INSTRUCTIONS::MEM_LDXB, 2, 1, -2, 0), None), Directive::Continue);
    assert_eq!(state.registers[2], 0xf1);
    assert_eq!(state.execution_ix(ix(MEMORY_INSTRUCTIONS::MEM_LDXH, 2, 1, -2, 0), None), Directive::Continue);
    assert_eq!(state.registers[2], 0xf2f1);
    assert_eq!(state.execution_ix(ix(MEMORY_INSTRUCTIONS::MEM_LDXW, 2, 1, 2, 0), None), Directive::Continue);
    assert_eq!(state.registers[2], 0xf8f7_f6f5);
    assert_eq!(state.execution_ix(ix(MEMORY_INSTRUCTIONS::MEM_LDXDW, 2, 1, -2, 0), None), Directive::Continue);
    assert_eq!(state.registers[2], 0xf8f7_f6f5_f4f3_f2f1u64 as i64);
    assert_eq!(state.registers[1], 10);
}

#[test]
fn absolute_and_indirect_loads_read_the_linear_memory() {
    let mut state = machine();
    state.memory[20..28].copy_from_slice(&[1, 2, 3, 4, 5, 6, 7, 0x88]);
    assert_eq!(state.execution_ix(ix(MEMORY_INSTRUCTIONS::MEM_LDABSB, 3, 0, 0, 27), None), Directive::Continue);
    assert_eq!(state.registers[3], 0x88);
    assert_eq!(state.execution_ix(ix(MEMORY_INSTRUCTIONS::MEM_LDABSH, 3, 0, 0, 20), None), Directive::Continue);
    assert_eq!(state.registers[3], 0x0201);
    assert_eq!(state.execution_ix(ix(MEMORY_INSTRUCTIONS::MEM_LDABSW, 3, 0, 0, 20), None), Directive::Continue);
    assert_eq!(state.registers[3], 0x0403_0201);
    assert_eq!(state.execution_ix(ix(MEMORY_INSTRUCTIONS::MEM_LDABSDW, 3, 0, 0, 20), None), Directive::Continue);
    assert_eq!(state.registers[3], 0x8807_0605_0403_0201u64 as i64);
    state.registers[5] = 16;
    assert_eq!(state.execution_ix(ix(MEMORY_INSTRUCTIONS::MEM_LDINDB, 4, 5, 0, 4), None), Directive::Continue);
    assert_eq!(state.registers[4], 1);
    assert_eq!(state.execution_ix(ix(MEMORY_INSTRUCTIONS::MEM_LDINDH, 4, 5, 0, 6), None), Directive::Continue);
    assert_eq!(state.registers[4], 0x0403);
    assert_eq!(state.execution_ix(ix(MEMORY_INSTRUCTIONS::MEM_LDINDW, 4, 5, 0, 8), None), Directive::Continue);
    assert_eq!(state.registers[4], 0x8807_0605);
    state.registers[5] = 30;
    assert_eq!(state.execution_ix(ix(MEMORY_INSTRUCTIONS::MEM_LDINDDW, 4, 5, 0, -10), None), Directive::Continue);
    assert_eq!(state.registers[4], 0x8807_0605_0403_0201u64 as i64);
    assert_eq!(state.execution_ix(ix(MEMORY_INSTRUCTIONS::MEM_LDABSB, 3, 0, 0, -1), None), Directive::Trap(Trap::MemoryFault(-1, 1)));
    assert_eq!(state.execution_ix(ix(MEMORY_INSTRUCTIONS::MEM_LDINDW, 3, 5, 0, 31), None), Directive::Trap(Trap::MemoryFault(61, 4)));
}

#[test]
fn immediate_stores() {
    let mut state = machine();
    state.registers[1] = 8;
    assert_eq!(state.execution_ix(ix(MEMORY_INSTRUCTIONS::MEM_STW, 1, 0, 4, 0x0a0b_0c0d), None), Directive::Continue);
    assert_eq!(&state.memory[12..16], &[0x0d, 0x0c, 0x0b, 0x0a]);
    assert_eq!(state.execution_ix(ix(MEMORY_INSTRUCTIONS::MEM_STH, 1, 0, 0, 0x0a0b_0c0d), None), Directive::Continue);
    assert_eq!(&state.memory[8..12], &[0x0d, 0x0c, 0, 0]);
    assert_eq!(state.execution_ix(ix(MEMORY_INSTRUCTIONS::MEM_STB, 1, 0, -8, -2), None), Directive::Continue);
    assert_eq!(&state.memory[0..2], &[0xfe, 0]);
    assert_eq!(state.execution_ix(ix(MEMORY_INSTRUCTIONS::MEM_STDW, 1, 0, 16, -2), None), Directive::Continue);
    assert_eq!(&state.memory[24..32], &[0xfe, 0xff, 0xff, 0xff, 0xff, 0xff, 0xff, 0xff]);
    assert_eq!(state.registers[1], 8);
}

#[test]
fn register_stores() {
    let mut state = machine();
    state.registers[1] = 8;
    state.registers[2] = 0x1122_3344_5566_7788;
    assert_eq!(state.execution_ix(ix(MEMORY_INSTRUCTIONS::MEM_STXW, 1, 2, 0, 0), None), Directive::Continue);
    assert_eq!(&state.memory[8..12], &[0x88, 0x77, 0x66, 0x55]);
    assert_eq!(&state.memory[12..16], &[0, 0, 0, 0]);
    assert_eq!(state.execution_ix(ix(MEMORY_INSTRUCTIONS::MEM_STXH, 1, 2, 8, 0), None), Directive::Continue);
    assert_eq!(&state.memory[16..20], &[0x88, 0x77, 0, 0]);
    assert_eq!(state.execution_ix(ix(MEMORY_INSTRUCTIONS::MEM_STXB, 1, 2, 16, 0), None), Directive::Continue);
    assert_eq!(&state.memory[24..26], &[0x88, 0]);
    assert_eq!(state.execution_ix(ix(MEMORY_INSTRUCTIONS::MEM_STXDW, 1, 2, 24, 0), None), Directive::Continue);
    assert_eq!(&state.memory[32..40], &[0x88, 0x77, 0x66, 0x55, 0x44, 0x33, 0x22, 0x11]);
    assert_eq!(state.registers[1], 8);
    assert_eq!(state.registers[2], 0x1122_3344_5566_7788);
}

#[test]
fn memory_faults_become_traps_and_change_nothing() {
    let mut state = machine();
    state.memory = (0..64u8).collect();
    let before = state.memory.clone();
    state.registers[1] = 61;
    state.registers[2] = -1;
    assert_eq!(
        state.execution_ix(ix(MEMORY_INSTRUCTIONS::MEM_STXW, 1, 2, 0, 0), None),
        Directive::Trap(Trap::MemoryFault(61, 4))
    );
    assert_eq!(
        state.execution_ix(ix(MEMORY_INSTRUCTIONS::MEM_STDW, 1, 2, -4, 0), None),
        Directive::Trap(Trap::MemoryFault(57, 8))
    );
    assert_eq!(
        state.execution_ix(ix(MEMORY_INSTRUCTIONS::MEM_STB, 2, 0, 0, 9), None),
        Directive::Trap(Trap::MemoryFault(-1, 1))
    );
    assert_eq!(
        state.execution_ix(ix(MEMORY_INSTRUCTIONS::MEM_LDXH, 3, 1, 2, 0), None),
        Directive::Trap(Trap::MemoryFault(63, 2))
    );
    assert_eq!(
        state.execution_ix(ix(MEMORY_INSTRUCTIONS::MEM_LDXDW, 3, 2, 0, 0), None),
        Directive::Trap(Trap::MemoryFault(-1, 8))
    );
    assert_eq!(state.memory, before);
    assert_eq!(state.registers[3], 0);
    assert_eq!(state.registers[1], 61);
}

#[test]
fn addresses_wrap_around() {
    let mut state = machine();
    state.registers[1] = i64::MAX;
    assert_eq!(
        state.execution_ix(ix(MEMORY_INSTRUCTIONS::MEM_LDXB, 2, 1, 1, 0), None),
        Directive::Trap(Trap::MemoryFault(i64::MIN, 1))
    );
    state.registers[1] = -1;
    assert_eq!(
        state.execution_ix(ix(MEMORY_INSTRUCTIONS::MEM_LDXB, 2, 1, 1, 0), None),
        Directive::Continue
    );
}

#[test]
fn ja_jumps_to_pc_plus_one_plus_offset() {
    let mut state = machine();
    let d = state.execution_ix(ix(BRANCH_INSTRUCTIONS::BRANCH_JA, 0, 0, 2, 0), None);
    assert_eq!(d, Directive::Jump(3));
    state.program_counter = 7;
    let d = state.execution_ix(ix(BRANCH_INSTRUCTIONS::BRANCH_JA, 0, 0, -8, 0), None);
    assert_eq!(d, Directive::Jump(0));
    let d = state.execution_ix(ix(BRANCH_INSTRUCTIONS::BRANCH_JA, 0, 0, -1, 0), None);
    assert_eq!(d, Directive::Jump(7));
    assert_eq!(state.program_counter, 7);
}

#[test]
fn conditional_jumps_taken_and_not_taken() {
    let cases: [(u8, i64, i32, bool); 22] = [
        (BRANCH_INSTRUCTIONS::BRANCH_JEQ_IMM, 5, 5, true),
        (BRANCH_INSTRUCTIONS::BRANCH_JEQ_IMM, 5, 6, false),
        (BRANCH_INSTRUCTIONS::BRANCH_JNE_IMM, 5, 6, true),
        (BRANCH_INSTRUCTIONS::BRANCH_JNE_IMM, 5, 5, false),
        (BRANCH_INSTRUCTIONS::BRANCH_JGT_IMM, -1, 1, true),
        (BRANCH_INSTRUCTIONS::BRANCH_JGT_IMM, 1, -1, false),
        (BRANCH_INSTRUCTIONS::BRANCH_JGE_IMM, 1, 1, true),
        (BRANCH_INSTRUCTIONS::BRANCH_JGE_IMM, 0, 1, false),
        (BRANCH_INSTRUCTIONS::BRANCH_JLT_IMM, 1, -1, true),
        (BRANCH_INSTRUCTIONS::BRANCH_JLT_IMM, -1, 1, false),
        (BRANCH_INSTRUCTIONS::BRANCH_JLE_IMM, 1, 1, true),
        (BRANCH_INSTRUCTIONS::BRANCH_JLE_IMM, -1, 1, false),
        (BRANCH_INSTRUCTIONS::BRANCH_JSET_IMM, 6, 4, true),
        (BRANCH_INSTRUCTIONS::BRANCH_JSET_IMM, 6, 9, false),
        (BRANCH_INSTRUCTIONS::BRANCH_JSGT_IMM, 1, -1, true),
        (BRANCH_INSTRUCTIONS::BRANCH_JSGT_IMM, -1, 1, false),
        (BRANCH_INSTRUCTIONS::BRANCH_JSGE_IMM, -1, -1, true),
        (BRANCH_INSTRUCTIONS::BRANCH_JSGE_IMM, -2, -1, false),
        (BRANCH_INSTRUCTIONS::BRANCH_JSLT_IMM, -1, 1, true),
        (BRANCH_INSTRUCTIONS::BRANCH_JSLT_IMM, 1, -1, false),
        (BRANCH_INSTRUCTIONS::BRANCH_JSLE_IMM, -1, -1, true),
        (BRANCH_INSTRUCTIONS::BRANCH_JSLE_IMM, 0, -1, false),
    ];
    for (opcode, dst, operand, taken) in cases {
        let expected = if taken { Directive::Jump(14) } else { Directive::Continue };
        let mut state = machine();
        state.program_counter = 10;
        state.registers[1] = dst;
        assert_eq!(state.execution_ix(ix(opcode, 1, 0, 3, operand), None), expected, "imm {:#x}", opcode);
        let mut state = machine();
        state.program_counter = 10;
        state.registers[1] = dst;
        state.registers[2] = operand as i64;
        assert_eq!(
            state.execution_ix(ix(opcode + 8, 1, 2, 3, 0), None),
            expected,
            "reg {:#x}",
            opcode + 8
        );
        assert_eq!(state.registers[1], dst);
        assert_eq!(state.program_counter, 10);
    }
}

#[test]
fn call_and_exit_directives() {
    let mut state = machine();
    state.registers[0] = -3;
    assert_eq!(
        state.execution_ix(ix(BRANCH_INSTRUCTIONS::BRANCH_CALL, 0, 0, 0, 12), None),
        Directive::Call(12)
    );
    assert_eq!(
        state.execution_ix(ix(BRANCH_INSTRUCTIONS::BRANCH_EXIT, 0, 0, 0, 0), None),
        Directive::Halt(-3)
    );
    assert_eq!(state.registers[0], -3);
}

#[test]
fn an_instruction_changes_no_register_but_its_destination() {
    let opcodes = [
        OPCODES::ALU64_ADD_IMM,
        OPCODES::ALU64_MUL_REG,
        OPCODES::ALU64_NEG,
        OPCODES::ALU64_MOV_REG,
        0xdc,
        MEMORY_INSTRUCTIONS::MEM_LDXW,
        MEMORY_INSTRUCTIONS::MEM_LDABSDW,
        MEMORY_INSTRUCTIONS::MEM_LDDW,
        MEMORY_INSTRUCTIONS::MEM_STXDW,
        MEMORY_INSTRUCTIONS::MEM_STB,
        BRANCH_INSTRUCTIONS::BRANCH_JA,
        BRANCH_INSTRUCTIONS::BRANCH_JEQ_REG,
        BRANCH_INSTRUCTIONS::BRANCH_CALL,
        BRANCH_INSTRUCTIONS::BRANCH_EXIT,
    ];
    for opcode in opcodes {
        for dest in 0..=10u8 {
            let mut state = machine();
            state.registers = [3, 1, 4, 1, 5, 9, 2, 6, 5, 3, 5];
            let before = state.registers;
            let _ = state.execution_ix(ix(opcode, dest, 2, 1, 16), Some(ix(0, 0, 0, 0, 7)));
            for r in 0..11usize {
                if r != dest as usize {
                    assert_eq!(state.registers[r], before[r], "opcode {:#x} dest {}", opcode, dest);
                }
            }
            assert_eq!(state.program_counter, 0);
        }
    }
}
