//! The closed set of decoded instructions: one tagged variant per
//! supported mnemonic, each carrying its format payload.

use vstd::prelude::*;

use crate::types::{Btype, Itype, Jtype, Rtype, Stype, Utype};

verus! {

/// A decoded instruction, produced once per cycle by the decoder and
/// consumed once by the execution engine.
#[derive(Debug, PartialEq, Eq, Structural)]
pub enum Instruction {
    Add(Rtype),
    Sub(Rtype),
    Sll(Rtype),
    Slt(Rtype),
    Sltu(Rtype),
    Xor(Rtype),
    Srl(Rtype),
    Sra(Rtype),
    Or(Rtype),
    And(Rtype),
    Addi(Itype),
    Slti(Itype),
    Sltiu(Itype),
    Xori(Itype),
    Ori(Itype),
    Andi(Itype),
    Slli(Itype),
    Srli(Itype),
    Srai(Itype),
    Lui(Utype),
    Auipc(Utype),
    Lb(Itype),
    Lh(Itype),
    Lw(Itype),
    Lbu(Itype),
    Lhu(Itype),
    Sb(Stype),
    Sh(Stype),
    Sw(Stype),
    Beq(Btype),
    Bne(Btype),
    Blt(Btype),
    Bge(Btype),
    Bltu(Btype),
    Bgeu(Btype),
    Jal(Jtype),
    Jalr(Itype),
}

impl Instruction {
    /// All register indices in the payload address one of the 32
    /// register slots.  Every instruction the decoder produces is
    /// well-formed in this sense.
    pub open spec fn wf(&self) -> bool {
        match *self {
            Instruction::Add(r) => r.wf(),
            Instruction::Sub(r) => r.wf(),
            Instruction::Sll(r) => r.wf(),
            Instruction::Slt(r) => r.wf(),
            Instruction::Sltu(r) => r.wf(),
            Instruction::Xor(r) => r.wf(),
            Instruction::Srl(r) => r.wf(),
            Instruction::Sra(r) => r.wf(),
            Instruction::Or(r) => r.wf(),
            Instruction::And(r) => r.wf(),
            Instruction::Addi(i) => i.wf(),
            Instruction::Slti(i) => i.wf(),
            Instruction::Sltiu(i) => i.wf(),
            Instruction::Xori(i) => i.wf(),
            Instruction::Ori(i) => i.wf(),
            Instruction::Andi(i) => i.wf(),
            Instruction::Slli(i) => i.wf(),
            Instruction::Srli(i) => i.wf(),
            Instruction::Srai(i) => i.wf(),
            Instruction::Lui(u) => u.wf(),
            Instruction::Auipc(u) => u.wf(),
            Instruction::Lb(i) => i.wf(),
            Instruction::Lh(i) => i.wf(),
            Instruction::Lw(i) => i.wf(),
            Instruction::Lbu(i) => i.wf(),
            Instruction::Lhu(i) => i.wf(),
            Instruction::Sb(s) => s.wf(),
            Instruction::Sh(s) => s.wf(),
            Instruction::Sw(s) => s.wf(),
            Instruction::Beq(b) => b.wf(),
            Instruction::Bne(b) => b.wf(),
            Instruction::Blt(b) => b.wf(),
            Instruction::Bge(b) => b.wf(),
            Instruction::Bltu(b) => b.wf(),
            Instruction::Bgeu(b) => b.wf(),
            Instruction::Jal(j) => j.wf(),
            Instruction::Jalr(i) => i.wf(),
        }
    }
}

} // verus!
