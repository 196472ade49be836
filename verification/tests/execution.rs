use rv32emu::decoder::decode_instruction;
use rv32emu::emulator::{Emulator, Fault};
use rv32emu::instruction::Instruction;
use rv32emu::types::Btype;

const FUEL: u64 = 1000;

#[test]
fn test_addi_add() {
    let code = vec![
        0x13, 0x05, 0x60, 0x00, // addi a0,x0,6 (li a0,6)
        0x93, 0x05, 0x40, 0x00, // addi a1,x0,4 (li a1,4)
        0x33, 0x05, 0xb5, 0x00, // add a0,a0,a1
    ];

    let mut emu = Emulator::new(code);
    assert_eq!(emu.run(FUEL), Some(Ok(())));

    assert_eq!(emu.getreg(10), 0x0a);
}

#[test]
fn test_auipc_lw() {
    let code = vec![
        0x17, 0x05, 0x00, 0x00, // auipc a0,0x0
        0x03, 0x25, 0x05, 0x00, // lw    a0,0(a0)
    ];

    let mut emu = Emulator::new(code);
    assert_eq!(emu.run(FUEL), Some(Ok(())));

    assert_eq!(emu.getreg(10), 0x00000517);
}

#[test]
fn test_andi_ori_xori() {
    let code = vec![
        0x13, 0x05, 0x50, 0x00, // li   a0,5
        0x93, 0x75, 0x45, 0x00, // andi a1,a0,4
        0x13, 0x66, 0x25, 0x00, // ori  a2,a0,2
        0x93, 0x46, 0xa5, 0x00, // xori a3,a0,10
    ];

    let mut emu = Emulator::new(code);
    assert_eq!(emu.run(FUEL), Some(Ok(())));

    assert_eq!(emu.getreg(10), 0x00000005);
    assert_eq!(emu.getreg(11), 0x00000004);
    assert_eq!(emu.getreg(12), 0x00000007);
    assert_eq!(emu.getreg(13), 0x0000000f);
}

#[test]
fn fresh_engine_and_fetch() {
    let emu = Emulator::new(vec![0x93, 0x00, 0xa0, 0x02]);
    assert_eq!(emu.pc, 0);
    for i in 0..32 {
        assert_eq!(emu.getreg(i), 0);
    }
    // The fetched word assembles the four bytes little-endian.
    assert_eq!(emu.fetch_instruction(), 0x02a00093);
}

#[test]
fn register_zero_is_immutable() {
    // addi x0,x0,5 writes register 0; the write must be discarded.
    let code = vec![
        0x13, 0x00, 0x50, 0x00, // addi x0,x0,5
    ];
    let mut emu = Emulator::new(code);
    assert_eq!(emu.run(FUEL), Some(Ok(())));
    assert_eq!(emu.getreg(0), 0);

    // A direct write through the accessor is discarded too.
    emu.setreg(0, 99);
    assert_eq!(emu.getreg(0), 0);
}

#[test]
fn add_sub_wrap_around() {
    let mut emu = Emulator::new(vec![]);
    emu.setreg(1, 0xFFFF_FFFF_FFFF_FFFF);
    emu.setreg(2, 1);

    // add x3,x1,x2: the all-ones register plus 1 wraps to 0.
    let add = decode_instruction(0x002081b3).unwrap();
    assert_eq!(emu.execute_instruction(add), Ok(()));
    assert_eq!(emu.getreg(3), 0);

    // sub x4,x3,x2: 0 minus 1 wraps to the all-ones value.
    let sub = decode_instruction(0x40218233).unwrap();
    assert_eq!(emu.execute_instruction(sub), Ok(()));
    assert_eq!(emu.getreg(4), 0xFFFF_FFFF_FFFF_FFFF);
}

#[test]
fn backward_branch_is_pc_relative() {
    // beq x0,x0,-4 sits at address 4; the loop has already advanced
    // pc to 8.  The taken branch must land on 4 + (-4) = 0, an offset
    // from the branch's own address, not from the next instruction.
    let mut emu = Emulator::new(vec![0; 16]);
    emu.pc = 8;
    let beq = decode_instruction(0xfe000ee3).unwrap();
    assert_eq!(beq, Instruction::Beq(Btype::from(0xfe000ee3)));
    assert_eq!(emu.execute_instruction(beq), Ok(()));
    assert_eq!(emu.pc, 0);
}

#[test]
fn untaken_branch_leaves_pc() {
    let mut emu = Emulator::new(vec![0; 16]);
    emu.pc = 8;
    emu.setreg(1, 7);
    // beq x0,x1,-4 with unequal operands: pc stays on the next
    // instruction.
    let beq = Instruction::Beq(Btype { imm: -4, funct3: 0, rs1: 0, rs2: 1 });
    assert_eq!(emu.execute_instruction(beq), Ok(()));
    assert_eq!(emu.pc, 8);
}

#[test]
fn bge_and_bgeu_take_equal_operands() {
    // BGE and BGEU use the ISA's greater-or-equal relation, so equal
    // operands take the branch.
    let mut emu = Emulator::new(vec![0; 16]);
    emu.setreg(1, 5);
    emu.setreg(2, 5);
    emu.pc = 8;
    let bge = Instruction::Bge(Btype { imm: 8, funct3: 0b101, rs1: 1, rs2: 2 });
    assert_eq!(emu.execute_instruction(bge), Ok(()));
    assert_eq!(emu.pc, 12);

    emu.pc = 8;
    let bgeu = Instruction::Bgeu(Btype { imm: 8, funct3: 0b111, rs1: 1, rs2: 2 });
    assert_eq!(emu.execute_instruction(bgeu), Ok(()));
    assert_eq!(emu.pc, 12);
}

#[test]
fn blt_compares_signed_bltu_unsigned() {
    let mut emu = Emulator::new(vec![0; 16]);
    emu.setreg(1, 0xFFFF_FFFF_FFFF_FFFF); // -1 signed, huge unsigned
    emu.setreg(2, 0);

    // blt x1,x2: -1 < 0 signed, taken.
    emu.pc = 8;
    let blt = Instruction::Blt(Btype { imm: 8, funct3: 0b100, rs1: 1, rs2: 2 });
    assert_eq!(emu.execute_instruction(blt), Ok(()));
    assert_eq!(emu.pc, 12);

    // bltu x1,x2: the all-ones value is not below 0 unsigned, untaken.
    emu.pc = 8;
    let bltu = Instruction::Bltu(Btype { imm: 8, funct3: 0b110, rs1: 1, rs2: 2 });
    assert_eq!(emu.execute_instruction(bltu), Ok(()));
    assert_eq!(emu.pc, 8);
}

#[test]
fn decoding_fault_is_reported_with_word_and_address() {
    // An AMO-group word: the run must stop with the failing word and
    // its fetch address, and execute nothing further.
    let code = vec![
        0x2f, 0x27, 0x00, 0x10, // lr.w a4,(x0): unimplemented group
        0x13, 0x05, 0x50, 0x00, // li   a0,5: never reached
    ];
    let mut emu = Emulator::new(code);
    assert_eq!(
        emu.run(FUEL),
        Some(Err(Fault::DecodingUnsupported { word: 0x1000272f, addr: 0 }))
    );
    assert_eq!(emu.getreg(10), 0);
}

#[test]
fn out_of_bounds_load_faults() {
    let code = vec![
        0x03, 0x25, 0x40, 0x06, // lw a0,100(x0): beyond the 4-byte image
    ];
    let mut emu = Emulator::new(code);
    assert_eq!(emu.run(FUEL), Some(Err(Fault::MemoryOutOfBounds)));
    assert_eq!(emu.getreg(10), 0);
}

#[test]
fn truncated_fetch_faults() {
    // Two bytes of image: pc is inside the buffer but a 4-byte fetch
    // would cross its end.
    let mut emu = Emulator::new(vec![0x13, 0x00]);
    assert_eq!(emu.run(FUEL), Some(Err(Fault::MemoryOutOfBounds)));
}

#[test]
fn spent_fuel_reports_still_running() {
    let code = vec![
        0x63, 0x00, 0x00, 0x00, // beq x0,x0,0: branches to itself
    ];
    let mut emu = Emulator::new(code);
    assert_eq!(emu.run(5), None);
}

#[test]
fn word_store_load_roundtrip() {
    let code = vec![
        0x93, 0x00, 0xa0, 0x02, // addi x1,x0,42
        0x23, 0x28, 0x10, 0x00, // sw   x1,16(x0)
        0x03, 0x21, 0x00, 0x01, // lw   x2,16(x0)
    ];
    let mut code = code;
    code.resize(20, 0);
    let mut emu = Emulator::new(code);
    // pc runs into the zero padding at 12 and stops on a decode fault;
    // the store and load have already executed.
    assert_eq!(
        emu.run(FUEL),
        Some(Err(Fault::DecodingUnsupported { word: 0, addr: 12 }))
    );
    assert_eq!(emu.getreg(1), 42);
    assert_eq!(emu.getreg(2), 42);
    assert_eq!(emu.memory[16], 42);
}

#[test]
fn byte_store_load_extends_correctly() {
    let code = vec![
        0x93, 0x00, 0xf0, 0xff, // addi x1,x0,-1
        0x23, 0x08, 0x10, 0x00, // sb   x1,16(x0)
        0x03, 0x01, 0x00, 0x01, // lb   x2,16(x0)
        0x83, 0x41, 0x00, 0x01, // lbu  x3,16(x0)
    ];
    let mut code = code;
    code.resize(20, 0);
    let mut emu = Emulator::new(code);
    // pc runs into the padding at 16, where the sb above has left the
    // byte 0xff, and stops on a decode fault.
    assert_eq!(
        emu.run(FUEL),
        Some(Err(Fault::DecodingUnsupported { word: 0x000000ff, addr: 16 }))
    );
    // lb sign-extends the stored 0xff byte; lbu zero-extends it.
    assert_eq!(emu.getreg(2), 0xFFFF_FFFF_FFFF_FFFF);
    assert_eq!(emu.getreg(3), 0xFF);
}

#[test]
fn half_store_load_extends_correctly() {
    let code = vec![
        0x93, 0x00, 0xf0, 0xff, // addi x1,x0,-1
        0x23, 0x19, 0x10, 0x00, // sh   x1,18(x0)
        0x03, 0x11, 0x20, 0x01, // lh   x2,18(x0)
        0x83, 0x51, 0x20, 0x01, // lhu  x3,18(x0)
    ];
    let mut code = code;
    code.resize(20, 0);
    let mut emu = Emulator::new(code);
    let _ = emu.run(FUEL);
    // lh sign-extends the stored 0xffff halfword; lhu zero-extends it.
    assert_eq!(emu.getreg(2), 0xFFFF_FFFF_FFFF_FFFF);
    assert_eq!(emu.getreg(3), 0xFFFF);
}

#[test]
fn shifts_and_comparisons() {
    let code = vec![
        0x13, 0x05, 0x50, 0x00, // li   a0,5
        0x93, 0x15, 0x25, 0x00, // slli a1,a0,2
        0x13, 0x06, 0x80, 0xff, // addi a2,x0,-8
        0x93, 0x56, 0x16, 0x40, // srai a3,a2,1
        0x33, 0x27, 0xa6, 0x00, // slt  a4,a2,a0
        0xb3, 0x37, 0xa6, 0x00, // sltu a5,a2,a0
    ];
    let mut emu = Emulator::new(code);
    assert_eq!(emu.run(FUEL), Some(Ok(())));
    assert_eq!(emu.getreg(11), 20);
    // srai propagates the sign: -8 >> 1 == -4.
    assert_eq!(emu.getreg(13), 0xFFFF_FFFF_FFFF_FFFC);
    // slt: -8 < 5 signed.
    assert_eq!(emu.getreg(14), 1);
    // sltu: the two's-complement encoding of -8 is huge unsigned.
    assert_eq!(emu.getreg(15), 0);
}

#[test]
fn jal_and_jalr_link_and_jump() {
    let code = vec![
        0xef, 0x00, 0xc0, 0x00, // jal  x1,12
        0x13, 0x01, 0x30, 0x06, // addi x2,x0,99
        0x63, 0x06, 0x00, 0x00, // beq  x0,x0,12 (to 20, the image end)
        0xe7, 0x81, 0x00, 0x00, // jalr x3,0(x1)
    ];
    let mut code = code;
    code.resize(20, 0);
    let mut emu = Emulator::new(code);
    assert_eq!(emu.run(FUEL), Some(Ok(())));
    // jal at 0 linked x1 = 4 and jumped to 12.
    assert_eq!(emu.getreg(1), 4);
    // jalr at 12 linked x3 = 16 and jumped back to 4.
    assert_eq!(emu.getreg(3), 16);
    // The addi at 4 then ran, and the branch at 8 left the image.
    assert_eq!(emu.getreg(2), 99);
    assert_eq!(emu.pc, 20);
}

#[test]
fn lui_loads_upper_bits_sign_extended() {
    let code = vec![
        0x37, 0x55, 0x34, 0x12, // lui a0,0x12345
        0xb7, 0xf5, 0xff, 0xff, // lui a1,0xfffff
    ];
    let mut emu = Emulator::new(code);
    assert_eq!(emu.run(FUEL), Some(Ok(())));
    assert_eq!(emu.getreg(10), 0x12345000);
    assert_eq!(emu.getreg(11), 0xFFFF_FFFF_FFFF_F000);
}
