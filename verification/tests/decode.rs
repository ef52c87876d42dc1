use ebpf_vm::{decode, encode, DecodeError, Instruction, BRANCH_INSTRUCTIONS, OPCODES};

#[test]
fn decodes_one_slot_field_by_field() {
    let bytes = vec![0xb7u8, 0x21, 0x34, 0x12, 0x78, 0x56, 0x34, 0x12];
    let program = decode(&bytes).unwrap();
    assert_eq!(program.len(), 1);
    assert_eq!(
        program[0],
        Instruction { opcode: 0xb7, dest: 1, src: 2, offset: 0x1234, imm: 0x1234_5678 }
    );
}

#[test]
fn decodes_negative_offset_and_immediate() {
    let bytes = vec![0x05u8, 0x00, 0xfe, 0xff, 0xff, 0xff, 0xff, 0xff];
    let program = decode(&bytes).unwrap();
    assert_eq!(program[0].offset, -2);
    assert_eq!(program[0].imm, -1);
    let bytes = vec![0x05u8, 0x00, 0x00, 0x80, 0x00, 0x00, 0x00, 0x80];
    let program = decode(&bytes).unwrap();
    assert_eq!(program[0].offset, i16::MIN);
    assert_eq!(program[0].imm, i32::MIN);
    let bytes = vec![0x05u8, 0x00, 0xff, 0x7f, 0xff, 0xff, 0xff, 0x7f];
    let program = decode(&bytes).unwrap();
    assert_eq!(program[0].offset, i16::MAX);
    assert_eq!(program[0].imm, i32::MAX);
}

#[test]
fn register_nibbles_are_split_low_then_high() {
    let bytes = vec![0x0fu8, 0xfa, 0, 0, 0, 0, 0, 0];
    let program = decode(&bytes).unwrap();
    assert_eq!(program[0].dest, 0x0a);
    assert_eq!(program[0].src, 0x0f);
}

#[test]
fn decodes_slots_in_buffer_order() {
    let mut bytes = Vec::new();
    for i in 0..5u8 {
        bytes.extend_from_slice(&[i, 0, 0, 0, i, 0, 0, 0]);
    }
    let program = decode(&bytes).unwrap();
    assert_eq!(program.len(), 5);
    for i in 0..5usize {
        assert_eq!(program[i].opcode, i as u8);
        assert_eq!(program[i].imm, i as i32);
    }
}

#[test]
fn empty_buffer_is_the_empty_program() {
    let program = decode(&[]).unwrap();
    assert!(program.is_empty());
}

#[test]
fn misaligned_length_is_rejected() {
    for len in [1usize, 7, 9, 15, 17] {
        let bytes = vec![0u8; len];
        assert_eq!(decode(&bytes), Err(DecodeError::MisalignedLength));
    }
}

#[test]
fn decode_then_encode_reproduces_the_bytes() {
    let mut bytes = Vec::new();
    let mut seed: u32 = 0x1234_5678;
    for _ in 0..8 * 64 {
        seed = seed.wrapping_mul(1_103_515_245).wrapping_add(12345);
        bytes.push((seed >> 16) as u8);
    }
    let program = decode(&bytes).unwrap();
    assert_eq!(program.len(), 64);
    assert_eq!(encode(&program), bytes);
    for (i, ix) in program.iter().enumerate() {
        assert_eq!(&ix.encode()[..], &bytes[8 * i..8 * i + 8]);
    }
}

#[test]
fn decode_round_trip_on_every_register_byte() {
    for b in 0..=255u8 {
        let bytes = vec![0x07u8, b, 0x01, 0x80, 0xff, 0x00, 0xff, 0x80];
        let program = decode(&bytes).unwrap();
        assert_eq!(program[0].dest, b & 0x0f);
        assert_eq!(program[0].src, b >> 4);
        assert_eq!(encode(&program), bytes);
    }
}

#[test]
fn encode_writes_little_endian_fields() {
    let ix = Instruction {
        opcode: OPCODES::ALU64_ADD_IMM,
        dest: 3,
        src: 4,
        offset: -2,
        imm: 0x0a0b_0c0d,
    };
    assert_eq!(ix.encode(), [0x07, 0x43, 0xfe, 0xff, 0x0d, 0x0c, 0x0b, 0x0a]);
    let ix = Instruction { opcode: BRANCH_INSTRUCTIONS::BRANCH_EXIT, dest: 0, src: 0, offset: 0x0102, imm: -2 };
    assert_eq!(ix.encode(), [0x95, 0x00, 0x02, 0x01, 0xfe, 0xff, 0xff, 0xff]);
}

#[test]
fn encode_then_decode_gives_the_instruction_back() {
    let program = vec![
        Instruction { opcode: 0xb7, dest: 10, src: 0, offset: i16::MIN, imm: i32::MIN },
        Instruction { opcode: 0x7b, dest: 0, src: 10, offset: i16::MAX, imm: i32::MAX },
        Instruction { opcode: 0x18, dest: 5, src: 5, offset: -1, imm: -1 },
    ];
    assert_eq!(decode(&encode(&program)).unwrap(), program);
}

#[test]
fn default_instruction_is_all_zero() {
    let ix = Instruction::default();
    assert_eq!(ix, Instruction { opcode: 0, dest: 0, src: 0, offset: 0, imm: 0 });
    assert_eq!(ix.encode(), [0u8; 8]);
}

#[test]
fn well_formed_means_both_registers_at_most_ten() {
    let ok = Instruction { opcode: 0, dest: 10, src: 10, offset: 0, imm: 0 };
    assert!(ok.is_well_formed());
    let bad_dest = Instruction { opcode: 0, dest: 11, src: 0, offset: 0, imm: 0 };
    assert!(!bad_dest.is_well_formed());
    let bad_src = Instruction { opcode: 0, dest: 0, src: 11, offset: 0, imm: 0 };
    assert!(!bad_src.is_well_formed());
}
