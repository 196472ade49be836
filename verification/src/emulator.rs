//! The execution engine: register file, program counter and memory,
//! the per-instruction execution semantics, and the
//! fetch-decode-execute loop.
//!
//! The abstract machine state is [`EmuView`]; [`step`] gives the
//! effect of one decoded instruction on it, and [`run_spec`] the
//! effect of the whole loop.  The executable engine is proved to
//! follow them exactly.

use vstd::prelude::*;

use crate::bits::{
    as_signed, imm_to_u64, lemma_byte_ranges, lemma_shamt_ranges, sext16, sext32, sext8,
    signed_lt, to_u64, wrap_add,
};
use crate::decoder::{decode_instruction, spec_decode};
use crate::instruction::Instruction;
use crate::types::{Btype, Rtype};

verus! {

/// A fault that stops the run loop: the fetched word is not a
/// supported instruction, or a load, store or fetch addressed a byte
/// beyond the fixed memory buffer.
#[derive(Debug, PartialEq, Eq, Structural)]
pub enum Fault {
    DecodingUnsupported { word: u32, addr: u64 },
    MemoryOutOfBounds,
}

/// The abstract machine state: the 32 register slots, the program
/// counter, and the byte-addressable memory.
#[verifier::ext_equal]
pub ghost struct EmuView {
    pub regs: Seq<u64>,
    pub pc: u64,
    pub mem: Seq<u8>,
}

/// Read a register slot: register 0 always reads as 0.
pub open spec fn read_reg(regs: Seq<u64>, r: int) -> u64 {
    if r == 0 {
        0
    } else {
        regs[r]
    }
}

/// Write a register slot: writes to register 0 are discarded.
pub open spec fn write_reg(regs: Seq<u64>, r: int, v: u64) -> Seq<u64> {
    if r == 0 {
        regs
    } else {
        regs.update(r, v)
    }
}

/// The 16-bit little-endian value at byte offset `a`.
pub open spec fn half_at(mem: Seq<u8>, a: int) -> u16 {
    (mem[a] as u16) | ((mem[a + 1] as u16) << 8)
}

/// The 32-bit little-endian value at byte offset `a`.
pub open spec fn word_at(mem: Seq<u8>, a: int) -> u32 {
    (mem[a] as u32) | ((mem[a + 1] as u32) << 8) | ((mem[a + 2] as u32) << 16) | ((mem[a + 3]
        as u32) << 24)
}

/// Arithmetic (sign-propagating) right shift of a 64-bit word.
pub open spec fn sra64(a: u64, sh: u64) -> u64 {
    (((a as i64) >> sh) as u64)
}

/// `s` with register slot `rd` set to `v`; writes to register 0 are
/// discarded.
pub open spec fn with_rd(s: EmuView, rd: int, v: u64) -> EmuView {
    EmuView { regs: write_reg(s.regs, rd, v), ..s }
}

/// The effect of one decoded instruction on the abstract machine
/// state.  `s.pc` is the address of the next sequential instruction:
/// the loop advances it past the instruction before executing, so
/// PC-relative semantics reconstruct the instruction's own address as
/// `s.pc - 4`.
pub open spec fn step(s: EmuView, inst: Instruction) -> Result<EmuView, Fault> {
    match inst {
        Instruction::Add(r) => {
            let a = read_reg(s.regs, r.rs1 as int);
            let b = read_reg(s.regs, r.rs2 as int);
            Ok(with_rd(s, r.rd as int, wrap_add(a, b as int)))
        },
        Instruction::Sub(r) => {
            let a = read_reg(s.regs, r.rs1 as int);
            let b = read_reg(s.regs, r.rs2 as int);
            Ok(with_rd(s, r.rd as int, wrap_add(a, -(b as int))))
        },
        Instruction::Sll(r) => {
            let a = read_reg(s.regs, r.rs1 as int);
            let b = read_reg(s.regs, r.rs2 as int);
            Ok(with_rd(s, r.rd as int, a << (b & 0x1f)))
        },
        Instruction::Slt(r) => {
            let a = read_reg(s.regs, r.rs1 as int);
            let b = read_reg(s.regs, r.rs2 as int);
            Ok(with_rd(s, r.rd as int, if as_signed(a) < as_signed(b) { 1u64 } else { 0u64 }))
        },
        Instruction::Sltu(r) => {
            let a = read_reg(s.regs, r.rs1 as int);
            let b = read_reg(s.regs, r.rs2 as int);
            Ok(with_rd(s, r.rd as int, if a < b { 1u64 } else { 0u64 }))
        },
        Instruction::Xor(r) => {
            let a = read_reg(s.regs, r.rs1 as int);
            let b = read_reg(s.regs, r.rs2 as int);
            Ok(with_rd(s, r.rd as int, a ^ b))
        },
        Instruction::Srl(r) => {
            let a = read_reg(s.regs, r.rs1 as int);
            let b = read_reg(s.regs, r.rs2 as int);
            Ok(with_rd(s, r.rd as int, a >> (b & 0x1f)))
        },
        Instruction::Sra(r) => {
            let a = read_reg(s.regs, r.rs1 as int);
            let b = read_reg(s.regs, r.rs2 as int);
            Ok(with_rd(s, r.rd as int, sra64(a, b & 0x1f)))
        },
        Instruction::Or(r) => {
            let a = read_reg(s.regs, r.rs1 as int);
            let b = read_reg(s.regs, r.rs2 as int);
            Ok(with_rd(s, r.rd as int, a | b))
        },
        Instruction::And(r) => {
            let a = read_reg(s.regs, r.rs1 as int);
            let b = read_reg(s.regs, r.rs2 as int);
            Ok(with_rd(s, r.rd as int, a & b))
        },
        Instruction::Addi(i) => {
            let a = read_reg(s.regs, i.rs1 as int);
            Ok(with_rd(s, i.rd as int, wrap_add(a, i.imm as int)))
        },
        Instruction::Slti(i) => {
            let a = read_reg(s.regs, i.rs1 as int);
            Ok(with_rd(s, i.rd as int, if as_signed(a) < i.imm as int { 1u64 } else { 0u64 }))
        },
        Instruction::Sltiu(i) => {
            let a = read_reg(s.regs, i.rs1 as int);
            Ok(with_rd(s, i.rd as int, if a < to_u64(i.imm as int) { 1u64 } else { 0u64 }))
        },
        Instruction::Xori(i) => {
            let a = read_reg(s.regs, i.rs1 as int);
            Ok(with_rd(s, i.rd as int, a ^ to_u64(i.imm as int)))
        },
        Instruction::Ori(i) => {
            let a = read_reg(s.regs, i.rs1 as int);
            Ok(with_rd(s, i.rd as int, a | to_u64(i.imm as int)))
        },
        Instruction::Andi(i) => {
            let a = read_reg(s.regs, i.rs1 as int);
            Ok(with_rd(s, i.rd as int, a & to_u64(i.imm as int)))
        },
        Instruction::Slli(i) => {
            let a = read_reg(s.regs, i.rs1 as int);
            Ok(with_rd(s, i.rd as int, a << (to_u64(i.imm as int) & 0x3f)))
        },
        Instruction::Srli(i) => {
            let a = read_reg(s.regs, i.rs1 as int);
            Ok(with_rd(s, i.rd as int, a >> (to_u64(i.imm as int) & 0x3f)))
        },
        Instruction::Srai(i) => {
            let a = read_reg(s.regs, i.rs1 as int);
            Ok(with_rd(s, i.rd as int, sra64(a, to_u64(i.imm as int) & 0x3f)))
        },
        Instruction::Lui(u) => Ok(with_rd(s, u.rd as int, to_u64(u.imm as int))),
        Instruction::Auipc(u) => Ok(with_rd(s, u.rd as int, wrap_add(s.pc, u.imm - 4))),
        Instruction::Lb(i) => {
            let addr = wrap_add(read_reg(s.regs, i.rs1 as int), i.imm as int);
            if addr + 1 <= s.mem.len() {
                Ok(with_rd(s, i.rd as int, to_u64(sext8(s.mem[addr as int]))))
            } else {
                Err(Fault::MemoryOutOfBounds)
            }
        },
        Instruction::Lh(i) => {
            let addr = wrap_add(read_reg(s.regs, i.rs1 as int), i.imm as int);
            if addr + 2 <= s.mem.len() {
                Ok(with_rd(s, i.rd as int, to_u64(sext16(half_at(s.mem, addr as int)))))
            } else {
                Err(Fault::MemoryOutOfBounds)
            }
        },
        Instruction::Lw(i) => {
            let addr = wrap_add(read_reg(s.regs, i.rs1 as int), i.imm as int);
            if addr + 4 <= s.mem.len() {
                Ok(with_rd(s, i.rd as int, to_u64(sext32(word_at(s.mem, addr as int)))))
            } else {
                Err(Fault::MemoryOutOfBounds)
            }
        },
        Instruction::Lbu(i) => {
            let addr = wrap_add(read_reg(s.regs, i.rs1 as int), i.imm as int);
            if addr + 1 <= s.mem.len() {
                Ok(with_rd(s, i.rd as int, s.mem[addr as int] as u64))
            } else {
                Err(Fault::MemoryOutOfBounds)
            }
        },
        Instruction::Lhu(i) => {
            let addr = wrap_add(read_reg(s.regs, i.rs1 as int), i.imm as int);
            if addr + 2 <= s.mem.len() {
                Ok(with_rd(s, i.rd as int, half_at(s.mem, addr as int) as u64))
            } else {
                Err(Fault::MemoryOutOfBounds)
            }
        },
        Instruction::Sb(st) => {
            let v = read_reg(s.regs, st.rs2 as int);
            let addr = wrap_add(read_reg(s.regs, st.rs1 as int), st.imm as int);
            if addr + 1 <= s.mem.len() {
                Ok(EmuView { mem: s.mem.update(addr as int, (v & 0xff) as u8), ..s })
            } else {
                Err(Fault::MemoryOutOfBounds)
            }
        },
        Instruction::Sh(st) => {
            let v = read_reg(s.regs, st.rs2 as int);
            let addr = wrap_add(read_reg(s.regs, st.rs1 as int), st.imm as int);
            if addr + 2 <= s.mem.len() {
                Ok(
                    EmuView {
                        mem: s.mem.update(addr as int, (v & 0xff) as u8).update(
                            addr as int + 1,
                            ((v >> 8) & 0xff) as u8,
                        ),
                        ..s
                    },
                )
            } else {
                Err(Fault::MemoryOutOfBounds)
            }
        },
        Instruction::Sw(st) => {
            let v = read_reg(s.regs, st.rs2 as int);
            let addr = wrap_add(read_reg(s.regs, st.rs1 as int), st.imm as int);
            if addr + 4 <= s.mem.len() {
                Ok(
                    EmuView {
                        mem: s.mem.update(addr as int, (v & 0xff) as u8).update(
                            addr as int + 1,
                            ((v >> 8) & 0xff) as u8,
                        ).update(addr as int + 2, ((v >> 16) & 0xff) as u8).update(
                            addr as int + 3,
                            ((v >> 24) & 0xff) as u8,
                        ),
                        ..s
                    },
                )
            } else {
                Err(Fault::MemoryOutOfBounds)
            }
        },
        Instruction::Beq(b) => {
            let x = read_reg(s.regs, b.rs1 as int);
            let y = read_reg(s.regs, b.rs2 as int);
            Ok(
                if x == y {
                    EmuView { pc: wrap_add(s.pc, b.imm - 4), ..s }
                } else {
                    s
                },
            )
        },
        Instruction::Bne(b) => {
            let x = read_reg(s.regs, b.rs1 as int);
            let y = read_reg(s.regs, b.rs2 as int);
            Ok(
                if x != y {
                    EmuView { pc: wrap_add(s.pc, b.imm - 4), ..s }
                } else {
                    s
                },
            )
        },
        Instruction::Blt(b) => {
            let x = read_reg(s.regs, b.rs1 as int);
            let y = read_reg(s.regs, b.rs2 as int);
            Ok(
                if as_signed(x) < as_signed(y) {
                    EmuView { pc: wrap_add(s.pc, b.imm - 4), ..s }
                } else {
                    s
                },
            )
        },
        Instruction::Bge(b) => {
            let x = read_reg(s.regs, b.rs1 as int);
            let y = read_reg(s.regs, b.rs2 as int);
            Ok(
                if as_signed(x) >= as_signed(y) {
                    EmuView { pc: wrap_add(s.pc, b.imm - 4), ..s }
                } else {
                    s
                },
            )
        },
        Instruction::Bltu(b) => {
            let x = read_reg(s.regs, b.rs1 as int);
            let y = read_reg(s.regs, b.rs2 as int);
            Ok(
                if x < y {
                    EmuView { pc: wrap_add(s.pc, b.imm - 4), ..s }
                } else {
                    s
                },
            )
        },
        Instruction::Bgeu(b) => {
            let x = read_reg(s.regs, b.rs1 as int);
            let y = read_reg(s.regs, b.rs2 as int);
            Ok(
                if x >= y {
                    EmuView { pc: wrap_add(s.pc, b.imm - 4), ..s }
                } else {
                    s
                },
            )
        },
        Instruction::Jal(j) => Ok(
            EmuView {
                regs: write_reg(s.regs, j.rd as int, s.pc),
                pc: wrap_add(s.pc, j.imm - 4),
                ..s
            },
        ),
        Instruction::Jalr(i) => {
            let regs2 = write_reg(s.regs, i.rd as int, s.pc);
            Ok(
                EmuView {
                    regs: regs2,
                    pc: wrap_add(read_reg(regs2, i.rs1 as int), i.imm as int),
                    ..s
                },
            )
        },
    }
}

/// The fetch-decode-execute loop from state `s`, allowed to execute
/// one instruction more than `fuel`: the state reached, paired with
/// the loop's outcome — `Some(Ok(()))` for a normal halt,
/// `Some(Err(f))` for a fault, and `None` when the machine is still
/// running with the budget spent.
///
/// One cycle: halt when pc has left the memory image; fault when the
/// 4-byte fetch would cross the image's end; otherwise fetch the word
/// at pc, advance pc by 4, then decode and execute.  A decode failure
/// reports the failing word and the address it was fetched from.
pub open spec fn run_spec(s: EmuView, fuel: nat) -> (EmuView, Option<Result<(), Fault>>)
    decreases fuel,
{
    if s.pc >= s.mem.len() {
        (s, Some(Ok(())))
    } else if s.pc + 4 > s.mem.len() {
        (s, Some(Err(Fault::MemoryOutOfBounds)))
    } else {
        let w = word_at(s.mem, s.pc as int);
        let s1 = EmuView { pc: (s.pc + 4) as u64, ..s };
        match spec_decode(w) {
            None => (s1, Some(Err(Fault::DecodingUnsupported { word: w, addr: s.pc }))),
            Some(inst) => match step(s1, inst) {
                Err(f) => (s1, Some(Err(f))),
                Ok(s2) => if fuel == 0 {
                    (s2, None)
                } else {
                    run_spec(s2, (fuel - 1) as nat)
                },
            },
        }
    }
}

/// The execution engine.  Owns the register file, the program counter
/// and the fixed-size memory buffer.
pub struct Emulator {
    pub regs: [u64; 32],
    pub pc: u64,
    pub memory: Vec<u8>,
}

impl View for Emulator {
    type V = EmuView;

    open spec fn view(&self) -> EmuView {
        EmuView { regs: self.regs@, pc: self.pc, mem: self.memory@ }
    }
}

impl Emulator {
    /// A fresh engine over the given program image: all registers 0,
    /// execution starting at address 0.
    pub fn new(memory: Vec<u8>) -> (r: Self)
        ensures
            r@.regs =~= Seq::new(32, |i: int| 0u64),
            r@.pc == 0,
            r@.mem == memory@,
    {
        Emulator { regs: [0u64; 32], pc: 0, memory }
    }

    /// Read a register slot; register 0 always reads as 0.
    pub fn getreg(&self, reg: usize) -> (r: u64)
        requires
            reg < 32,
        ensures
            r == read_reg(self@.regs, reg as int),
    {
        if reg == 0 {
            0
        } else {
            self.regs[reg]
        }
    }

    /// Write a register slot; writes to register 0 are discarded.
    pub fn setreg(&mut self, reg: usize, val: u64)
        requires
            reg < 32,
        ensures
            final(self)@ == (EmuView { regs: write_reg(old(self)@.regs, reg as int, val), ..old(
                self,
            )@ }),
    {
        if reg != 0 {
            self.regs[reg] = val;
        }
    }

    /// Fetch the raw 32-bit little-endian word at the program counter.
    pub fn fetch_instruction(&self) -> (r: u32)
        requires
            self@.pc + 4 <= self@.mem.len(),
        ensures
            r == word_at(self@.mem, self@.pc as int),
    {
        // The image length as a usize bounds pc for the casts below.
        let _len = self.memory.len();
        let a = self.pc as usize;
        (self.memory[a] as u32) | ((self.memory[a + 1] as u32) << 8) | ((self.memory[a + 2]
            as u32) << 16) | ((self.memory[a + 3] as u32) << 24)
    }

    /// Apply one decoded instruction: exactly the state transition
    /// [`step`] gives, with the state left untouched on a fault.
    pub fn execute_instruction(&mut self, inst: Instruction) -> (r: Result<(), Fault>)
        requires
            inst.wf(),
        ensures
            match step(old(self)@, inst) {
                Ok(s2) => r is Ok && final(self)@ == s2,
                Err(f) => r == Err::<(), Fault>(f) && final(self)@ == old(self)@,
            },
    {
        match inst {
            Instruction::Add(r) => {
                let v = self.getreg(r.rs1).wrapping_add(self.getreg(r.rs2));
                self.setreg(r.rd, v);
                Ok(())
            },
            Instruction::Sub(r) => {
                let v = self.getreg(r.rs1).wrapping_sub(self.getreg(r.rs2));
                self.setreg(r.rd, v);
                Ok(())
            },
            Instruction::Sll(r) => {
                let b = self.getreg(r.rs2);
                let sh = b & 0x1f;
                proof {
                    lemma_shamt_ranges(b);
                }
                let v = self.getreg(r.rs1) << sh;
                self.setreg(r.rd, v);
                Ok(())
            },
            Instruction::Slt(r) => {
                let v: u64 = if signed_lt(self.getreg(r.rs1), self.getreg(r.rs2)) {
                    1
                } else {
                    0
                };
                self.setreg(r.rd, v);
                Ok(())
            },
            Instruction::Sltu(r) => {
                let v: u64 = if self.getreg(r.rs1) < self.getreg(r.rs2) {
                    1
                } else {
                    0
                };
                self.setreg(r.rd, v);
                Ok(())
            },
            Instruction::Xor(r) => {
                let v = self.getreg(r.rs1) ^ self.getreg(r.rs2);
                self.setreg(r.rd, v);
                Ok(())
            },
            Instruction::Srl(r) => {
                let b = self.getreg(r.rs2);
                let sh = b & 0x1f;
                proof {
                    lemma_shamt_ranges(b);
                }
                let v = self.getreg(r.rs1) >> sh;
                self.setreg(r.rd, v);
                Ok(())
            },
            Instruction::Sra(r) => {
                let b = self.getreg(r.rs2);
                let sh = b & 0x1f;
                proof {
                    lemma_shamt_ranges(b);
                }
                let a = self.getreg(r.rs1);
                let v = #[verifier::truncate] (((#[verifier::truncate] (a as i64)) >> sh) as u64);
                self.setreg(r.rd, v);
                Ok(())
            },
            Instruction::Or(r) => {
                let v = self.getreg(r.rs1) | self.getreg(r.rs2);
                self.setreg(r.rd, v);
                Ok(())
            },
            Instruction::And(r) => {
                let v = self.getreg(r.rs1) & self.getreg(r.rs2);
                self.setreg(r.rd, v);
                Ok(())
            },
            Instruction::Addi(i) => {
                let v = self.getreg(i.rs1).wrapping_add_signed(i.imm as i64);
                self.setreg(i.rd, v);
                Ok(())
            },
            Instruction::Slti(i) => {
                let v: u64 = if signed_lt(self.getreg(i.rs1), imm_to_u64(i.imm)) {
                    1
                } else {
                    0
                };
                self.setreg(i.rd, v);
                Ok(())
            },
            Instruction::Sltiu(i) => {
                let v: u64 = if self.getreg(i.rs1) < imm_to_u64(i.imm) {
                    1
                } else {
                    0
                };
                self.setreg(i.rd, v);
                Ok(())
            },
            Instruction::Xori(i) => {
                let v = self.getreg(i.rs1) ^ imm_to_u64(i.imm);
                self.setreg(i.rd, v);
                Ok(())
            },
            Instruction::Ori(i) => {
                let v = self.getreg(i.rs1) | imm_to_u64(i.imm);
                self.setreg(i.rd, v);
                Ok(())
            },
            Instruction::Andi(i) => {
                let v = self.getreg(i.rs1) & imm_to_u64(i.imm);
                self.setreg(i.rd, v);
                Ok(())
            },
            Instruction::Slli(i) => {
                let imm64 = imm_to_u64(i.imm);
                let sh = imm64 & 0x3f;
                proof {
                    lemma_shamt_ranges(imm64);
                }
                let v = self.getreg(i.rs1) << sh;
                self.setreg(i.rd, v);
                Ok(())
            },
            Instruction::Srli(i) => {
                let imm64 = imm_to_u64(i.imm);
                let sh = imm64 & 0x3f;
                proof {
                    lemma_shamt_ranges(imm64);
                }
                let v = self.getreg(i.rs1) >> sh;
                self.setreg(i.rd, v);
                Ok(())
            },
            Instruction::Srai(i) => {
                let imm64 = imm_to_u64(i.imm);
                let sh = imm64 & 0x3f;
                proof {
                    lemma_shamt_ranges(imm64);
                }
                let a = self.getreg(i.rs1);
                let v = #[verifier::truncate] (((#[verifier::truncate] (a as i64)) >> sh) as u64);
                self.setreg(i.rd, v);
                Ok(())
            },
            Instruction::Lui(u) => {
                let v = imm_to_u64(u.imm);
                self.setreg(u.rd, v);
                Ok(())
            },
            Instruction::Auipc(u) => {
                // The loop has already advanced pc past this instruction,
                // so its own address is pc - 4.
                let v = self.pc.wrapping_add_signed(u.imm as i64 - 4);
                self.setreg(u.rd, v);
                Ok(())
            },
            Instruction::Lb(i) => {
                let addr = self.getreg(i.rs1).wrapping_add_signed(i.imm as i64);
                let len = self.memory.len();
                if addr >= len as u64 {
                    return Err(Fault::MemoryOutOfBounds);
                }
                let b = self.memory[addr as usize];
                let v: u64 = if b < 0x80 {
                    b as u64
                } else {
                    b as u64 + 0xFFFF_FFFF_FFFF_FF00
                };
                self.setreg(i.rd, v);
                Ok(())
            },
            Instruction::Lh(i) => {
                let addr = self.getreg(i.rs1).wrapping_add_signed(i.imm as i64);
                let len = self.memory.len();
                if (len as u64) < 2 || addr > len as u64 - 2 {
                    return Err(Fault::MemoryOutOfBounds);
                }
                let a = addr as usize;
                let h = (self.memory[a] as u16) | ((self.memory[a + 1] as u16) << 8);
                let v: u64 = if h < 0x8000 {
                    h as u64
                } else {
                    h as u64 + 0xFFFF_FFFF_FFFF_0000
                };
                self.setreg(i.rd, v);
                Ok(())
            },
            Instruction::Lw(i) => {
                let addr = self.getreg(i.rs1).wrapping_add_signed(i.imm as i64);
                let len = self.memory.len();
                if (len as u64) < 4 || addr > len as u64 - 4 {
                    return Err(Fault::MemoryOutOfBounds);
                }
                let a = addr as usize;
                let w = (self.memory[a] as u32) | ((self.memory[a + 1] as u32) << 8) | ((
                self.memory[a + 2] as u32) << 16) | ((self.memory[a + 3] as u32) << 24);
                let v: u64 = if w < 0x8000_0000 {
                    w as u64
                } else {
                    w as u64 + 0xFFFF_FFFF_0000_0000
                };
                self.setreg(i.rd, v);
                Ok(())
            },
            Instruction::Lbu(i) => {
                let addr = self.getreg(i.rs1).wrapping_add_signed(i.imm as i64);
                let len = self.memory.len();
                if addr >= len as u64 {
                    return Err(Fault::MemoryOutOfBounds);
                }
                let v = self.memory[addr as usize] as u64;
                self.setreg(i.rd, v);
                Ok(())
            },
            Instruction::Lhu(i) => {
                let addr = self.getreg(i.rs1).wrapping_add_signed(i.imm as i64);
                let len = self.memory.len();
                if (len as u64) < 2 || addr > len as u64 - 2 {
                    return Err(Fault::MemoryOutOfBounds);
                }
                let a = addr as usize;
                let h = (self.memory[a] as u16) | ((self.memory[a + 1] as u16) << 8);
                self.setreg(i.rd, h as u64);
                Ok(())
            },
            Instruction::Sb(st) => {
                let v = self.getreg(st.rs2);
                let addr = self.getreg(st.rs1).wrapping_add_signed(st.imm as i64);
                let len = self.memory.len();
                if addr >= len as u64 {
                    return Err(Fault::MemoryOutOfBounds);
                }
                proof {
                    lemma_byte_ranges(v);
                }
                self.memory[addr as usize] = (v & 0xff) as u8;
                Ok(())
            },
            Instruction::Sh(st) => {
                let v = self.getreg(st.rs2);
                let addr = self.getreg(st.rs1).wrapping_add_signed(st.imm as i64);
                let len = self.memory.len();
                if (len as u64) < 2 || addr > len as u64 - 2 {
                    return Err(Fault::MemoryOutOfBounds);
                }
                proof {
                    lemma_byte_ranges(v);
                }
                let a = addr as usize;
                self.memory[a] = (v & 0xff) as u8;
                self.memory[a + 1] = ((v >> 8) & 0xff) as u8;
                Ok(())
            },
            Instruction::Sw(st) => {
                let v = self.getreg(st.rs2);
                let addr = self.getreg(st.rs1).wrapping_add_signed(st.imm as i64);
                let len = self.memory.len();
                if (len as u64) < 4 || addr > len as u64 - 4 {
                    return Err(Fault::MemoryOutOfBounds);
                }
                proof {
                    lemma_byte_ranges(v);
                }
                let a = addr as usize;
                self.memory[a] = (v & 0xff) as u8;
                self.memory[a + 1] = ((v >> 8) & 0xff) as u8;
                self.memory[a + 2] = ((v >> 16) & 0xff) as u8;
                self.memory[a + 3] = ((v >> 24) & 0xff) as u8;
                Ok(())
            },
            Instruction::Beq(b) => {
                if self.getreg(b.rs1) == self.getreg(b.rs2) {
                    // pc - 4 is the branch's own address.
                    self.pc = self.pc.wrapping_add_signed(b.imm as i64 - 4);
                }
                Ok(())
            },
            Instruction::Bne(b) => {
                if self.getreg(b.rs1) != self.getreg(b.rs2) {
                    self.pc = self.pc.wrapping_add_signed(b.imm as i64 - 4);
                }
                Ok(())
            },
            Instruction::Blt(b) => {
                if signed_lt(self.getreg(b.rs1), self.getreg(b.rs2)) {
                    self.pc = self.pc.wrapping_add_signed(b.imm as i64 - 4);
                }
                Ok(())
            },
            Instruction::Bge(b) => {
                // Greater-or-equal, the relation the ISA gives BGE.
                if !signed_lt(self.getreg(b.rs1), self.getreg(b.rs2)) {
                    self.pc = self.pc.wrapping_add_signed(b.imm as i64 - 4);
                }
                Ok(())
            },
            Instruction::Bltu(b) => {
                if self.getreg(b.rs1) < self.getreg(b.rs2) {
                    self.pc = self.pc.wrapping_add_signed(b.imm as i64 - 4);
                }
                Ok(())
            },
            Instruction::Bgeu(b) => {
                // Greater-or-equal, the relation the ISA gives BGEU.
                if self.getreg(b.rs1) >= self.getreg(b.rs2) {
                    self.pc = self.pc.wrapping_add_signed(b.imm as i64 - 4);
                }
                Ok(())
            },
            Instruction::Jal(j) => {
                // pc is already the return address; the jump target is
                // relative to the instruction's own address, pc - 4.
                let ret = self.pc;
                self.setreg(j.rd, ret);
                self.pc = ret.wrapping_add_signed(j.imm as i64 - 4);
                Ok(())
            },
            Instruction::Jalr(i) => {
                // The return address is stored first; the target reads
                // rs1 afterwards.
                let ret = self.pc;
                self.setreg(i.rd, ret);
                let t = self.getreg(i.rs1);
                self.pc = t.wrapping_add_signed(i.imm as i64);
                Ok(())
            },
        }
    }

    /// Drive the fetch-decode-execute loop until the program counter
    /// leaves the memory image (a normal halt, `Some(Ok(()))`), a
    /// fault stops the run (`Some(Err(f))`), or one instruction more
    /// than `fuel` have been executed without reaching either (`None`,
    /// the machine still running).  State and outcome are exactly what
    /// [`run_spec`] gives from the starting state.
    #[verifier::loop_isolation(false)]
    pub fn run(&mut self, fuel: u64) -> (r: Option<Result<(), Fault>>)
        ensures
            (final(self)@, r) == run_spec(old(self)@, fuel as nat),
    {
        let ghost init = self@;
        let mut left = fuel;
        loop
            invariant
                run_spec(init, fuel as nat) == run_spec(self@, left as nat),
            decreases left,
        {
            let len = self.memory.len();
            if self.pc >= len as u64 {
                return Some(Ok(()));
            }
            if len as u64 - self.pc < 4 {
                return Some(Err(Fault::MemoryOutOfBounds));
            }
            let word = self.fetch_instruction();
            let addr = self.pc;
            self.pc = self.pc + 4;
            let decoded = match decode_instruction(word) {
                Ok(inst) => inst,
                Err(_) => {
                    return Some(Err(Fault::DecodingUnsupported { word, addr }));
                },
            };
            match self.execute_instruction(decoded) {
                Ok(_) => {
                    if left == 0 {
                        return None;
                    }
                    left = left - 1;
                },
                Err(f) => {
                    return Some(Err(f));
                },
            }
        }
    }
}

impl EmuView {
    /// The register file has exactly its 32 slots.  Every view of a
    /// real engine satisfies this.
    pub open spec fn wf(&self) -> bool {
        self.regs.len() == 32
    }
}

/// Law: register 0 is immutable.  Executing any well-formed
/// instruction — in particular one whose destination is register 0 —
/// leaves the read value of register 0 at 0.
pub proof fn lemma_reg0_immutable(s: EmuView, inst: Instruction)
    requires
        inst.wf(),
    ensures
        step(s, inst) matches Ok(s2) ==> read_reg(s2.regs, 0) == 0,
{
}

/// Law: Add and Sub never fault; their destination value is the sum
/// or difference reduced modulo 2^64, so overflow wraps around.
pub proof fn lemma_add_sub_wraparound(s: EmuView, r: Rtype)
    requires
        s.wf(),
        r.wf(),
    ensures
        step(s, Instruction::Add(r)) matches Ok(s2) && (r.rd != 0 ==> read_reg(
            s2.regs,
            r.rd as int,
        ) as int == (read_reg(s.regs, r.rs1 as int) + read_reg(s.regs, r.rs2 as int))
            % 0x1_0000_0000_0000_0000),
        step(s, Instruction::Sub(r)) matches Ok(s2) && (r.rd != 0 ==> read_reg(
            s2.regs,
            r.rd as int,
        ) as int == (read_reg(s.regs, r.rs1 as int) - read_reg(s.regs, r.rs2 as int))
            % 0x1_0000_0000_0000_0000),
{
    let m: int = 0x1_0000_0000_0000_0000;
    let a = read_reg(s.regs, r.rs1 as int) as int;
    let b = read_reg(s.regs, r.rs2 as int) as int;
    assert((a + b) % m == if a + b > u64::MAX { a + b - m } else { a + b }) by {
        if a + b > u64::MAX {
            vstd::arithmetic::div_mod::lemma_mod_add_multiples_vanish(a + b - m, m);
            vstd::arithmetic::div_mod::lemma_small_mod((a + b - m) as nat, m as nat);
        } else {
            vstd::arithmetic::div_mod::lemma_small_mod((a + b) as nat, m as nat);
        }
    };
    assert((a - b) % m == if a - b < 0 { a - b + m } else { a - b }) by {
        if a - b < 0 {
            vstd::arithmetic::div_mod::lemma_mod_add_multiples_vanish(a - b, m);
            vstd::arithmetic::div_mod::lemma_small_mod((a - b + m) as nat, m as nat);
        } else {
            vstd::arithmetic::div_mod::lemma_small_mod((a - b) as nat, m as nat);
        }
    };
}

/// Law: a taken branch targets the branch instruction's own address
/// plus its encoded offset.  With pc already advanced past the branch
/// at address `a`, a taken BEQ moves pc to `a + imm` (mod 2^64) — for
/// a negative offset, backward by exactly that amount from the
/// branch's own address, not from the following instruction.
pub proof fn lemma_branch_target_pc_relative(s: EmuView, b: Btype, a: u64)
    requires
        s.pc == wrap_add(a, 4),
        read_reg(s.regs, b.rs1 as int) == read_reg(s.regs, b.rs2 as int),
    ensures
        step(s, Instruction::Beq(b)) matches Ok(s2) && s2.pc == wrap_add(a, b.imm as int),
{
}

} // verus!
