use rv32emu::decoder::{decode_instruction, DecodingError};
use rv32emu::instruction::Instruction;
use rv32emu::types::{Btype, Itype, Jtype, Rtype, Stype};

#[test]
fn test_decode() {
    assert_eq!(
        decode_instruction(0x00457593).unwrap(),
        Instruction::Andi(Itype::from(0x00457593))
    );
    assert_eq!(
        decode_instruction(0x00256613).unwrap(),
        Instruction::Ori(Itype::from(0x00256613))
    );
    assert_eq!(
        decode_instruction(0x00a54693).unwrap(),
        Instruction::Xori(Itype::from(0x00a54693))
    );
}

#[test]
fn test_decode_itype() {
    let inst = Itype::from(0x80152583); // lw	a1,-2047(a0)
    assert_eq!(inst.rs1, 10); // base
    assert_eq!(inst.rd, 11); // dst
    assert_eq!(inst.funct3, 0b010); // width
    assert_eq!(inst.imm, -2047); // offset
}

#[test]
fn test_decode_stype() {
    let inst = Stype::from(0x80b520a3); // sw	a1,-2047(a0)
    assert_eq!(inst.rs1, 10); // base
    assert_eq!(inst.rs2, 11); // src
    assert_eq!(inst.funct3, 0b010); // width
    assert_eq!(inst.imm, -2047); // offset

    let inst = Stype::from(0x7eb52fa3); // sw	a1,2047(a0)
    assert_eq!(inst.rs1, 10); // base
    assert_eq!(inst.rs2, 11); // src
    assert_eq!(inst.funct3, 0b010); // width
    assert_eq!(inst.imm, 2047); // offset
}

#[test]
fn itype_sign_extension_extremes() {
    // Immediate field 0xfff sign-extends to -1.
    assert_eq!(Itype::from(0xfff00093).imm, -1);
    // Immediate field 0x7ff sign-extends to +2047.
    assert_eq!(Itype::from(0x7ff00093).imm, 2047);
}

#[test]
fn stype_imm_matches_itype_imm() {
    // The store's split immediate reassembles to the same value as the
    // matching load's contiguous immediate.
    assert_eq!(Stype::from(0x80b520a3).imm, Itype::from(0x80152583).imm);
}

#[test]
fn add_sub_and_shift_pairs_selected_by_bit30() {
    // add a0,a0,a1 vs sub a0,a0,a1
    assert_eq!(
        decode_instruction(0x00b50533).unwrap(),
        Instruction::Add(Rtype::from(0x00b50533))
    );
    assert_eq!(
        decode_instruction(0x40b50533).unwrap(),
        Instruction::Sub(Rtype::from(0x40b50533))
    );
    // srl a0,a0,a1 vs sra a0,a0,a1
    assert_eq!(
        decode_instruction(0x00b55533).unwrap(),
        Instruction::Srl(Rtype::from(0x00b55533))
    );
    assert_eq!(
        decode_instruction(0x40b55533).unwrap(),
        Instruction::Sra(Rtype::from(0x40b55533))
    );
    // srli a1,a0,1 vs srai a1,a0,1
    assert_eq!(
        decode_instruction(0x00155593).unwrap(),
        Instruction::Srli(Itype::from(0x00155593))
    );
    assert_eq!(
        decode_instruction(0x40155593).unwrap(),
        Instruction::Srai(Itype::from(0x40155593))
    );
}

#[test]
fn branch_and_jump_offsets() {
    // beq x0,x0,-4: a backward branch offset.
    let beq = Btype::from(0xfe000ee3);
    assert_eq!(beq.imm, -4);
    assert_eq!(beq.funct3, 0b000);
    assert_eq!(beq.rs1, 0);
    assert_eq!(beq.rs2, 0);
    assert_eq!(
        decode_instruction(0xfe000ee3).unwrap(),
        Instruction::Beq(beq)
    );
    // jal ra,8: a forward jump offset.
    let jal = Jtype::from(0x008000ef);
    assert_eq!(jal.rd, 1);
    assert_eq!(jal.imm, 8);
    assert_eq!(
        decode_instruction(0x008000ef).unwrap(),
        Instruction::Jal(jal)
    );
}

#[test]
fn unsupported_words_are_rejected() {
    // A compressed (non-32-bit) encoding.
    assert_eq!(decode_instruction(0x00000001), Err(DecodingError::Unsupported));
    // An AMO-group word (lr.w): the whole group is unimplemented.
    assert_eq!(decode_instruction(0x1000272f), Err(DecodingError::Unsupported));
    // A SYSTEM-group word (ecall).
    assert_eq!(decode_instruction(0x00000073), Err(DecodingError::Unsupported));
    // A load with an unsupported width (ld, an RV64 encoding).
    assert_eq!(decode_instruction(0x00053503), Err(DecodingError::Unsupported));
    // A store with an unsupported width (sd, an RV64 encoding).
    assert_eq!(decode_instruction(0x00a53023), Err(DecodingError::Unsupported));
}
