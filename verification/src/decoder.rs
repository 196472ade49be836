//! The opcode dispatcher: classifies a raw 32-bit word by its low 7
//! opcode bits and its function-select bits into exactly one decoded
//! [`Instruction`], or reports that the word is unsupported.
//!
//! [`spec_decode`] is the decoding table stated as a function; the
//! executable [`decode_instruction`] returns `Ok` exactly on the words
//! that table covers.

use vstd::prelude::*;

use crate::instruction::Instruction;
use crate::types::{
    funct3_field, lemma_field_ranges, spec_btype, spec_itype, spec_jtype, spec_rtype, spec_stype,
    spec_utype, Btype, Itype, Jtype, Rtype, Stype, Utype,
};

verus! {

/// Decoding failure: the word matches no supported opcode and
/// function-select combination, or is a compressed (non-32-bit)
/// encoding.
#[derive(Debug, PartialEq, Eq, Structural)]
pub enum DecodingError {
    Unsupported,
}

/// The load group: LB, LH, LW, LBU, LHU by funct3.
pub open spec fn spec_decode_load(w: u32) -> Option<Instruction> {
    let i = spec_itype(w);
    if i.funct3 == 0b000 {
        Some(Instruction::Lb(i))
    } else if i.funct3 == 0b001 {
        Some(Instruction::Lh(i))
    } else if i.funct3 == 0b010 {
        Some(Instruction::Lw(i))
    } else if i.funct3 == 0b100 {
        Some(Instruction::Lbu(i))
    } else if i.funct3 == 0b101 {
        Some(Instruction::Lhu(i))
    } else {
        None
    }
}

/// The register-immediate group.  SRLI and SRAI share funct3 0b101 and
/// are told apart by word bit 30: 0 selects the logical shift, 1 the
/// arithmetic shift.
pub open spec fn spec_decode_op_imm(w: u32) -> Option<Instruction> {
    let i = spec_itype(w);
    if i.funct3 == 0b000 {
        Some(Instruction::Addi(i))
    } else if i.funct3 == 0b001 {
        Some(Instruction::Slli(i))
    } else if i.funct3 == 0b010 {
        Some(Instruction::Slti(i))
    } else if i.funct3 == 0b011 {
        Some(Instruction::Sltiu(i))
    } else if i.funct3 == 0b100 {
        Some(Instruction::Xori(i))
    } else if i.funct3 == 0b101 {
        if (w >> 30) & 1 == 0 {
            Some(Instruction::Srli(i))
        } else {
            Some(Instruction::Srai(i))
        }
    } else if i.funct3 == 0b110 {
        Some(Instruction::Ori(i))
    } else {
        Some(Instruction::Andi(i))
    }
}

/// The store group: SB, SH, SW by funct3.
pub open spec fn spec_decode_store(w: u32) -> Option<Instruction> {
    let s = spec_stype(w);
    if s.funct3 == 0b000 {
        Some(Instruction::Sb(s))
    } else if s.funct3 == 0b001 {
        Some(Instruction::Sh(s))
    } else if s.funct3 == 0b010 {
        Some(Instruction::Sw(s))
    } else {
        None
    }
}

/// The register-register group.  ADD and SUB share funct3 0b000, SRL
/// and SRA share funct3 0b101; each pair is told apart by word bit 30:
/// 0 selects the plain operation, 1 the alternate one.
pub open spec fn spec_decode_op(w: u32) -> Option<Instruction> {
    let r = spec_rtype(w);
    if r.funct3 == 0b000 {
        if (w >> 30) & 1 == 0 {
            Some(Instruction::Add(r))
        } else {
            Some(Instruction::Sub(r))
        }
    } else if r.funct3 == 0b001 {
        Some(Instruction::Sll(r))
    } else if r.funct3 == 0b010 {
        Some(Instruction::Slt(r))
    } else if r.funct3 == 0b011 {
        Some(Instruction::Sltu(r))
    } else if r.funct3 == 0b100 {
        Some(Instruction::Xor(r))
    } else if r.funct3 == 0b101 {
        if (w >> 30) & 1 == 0 {
            Some(Instruction::Srl(r))
        } else {
            Some(Instruction::Sra(r))
        }
    } else if r.funct3 == 0b110 {
        Some(Instruction::Or(r))
    } else {
        Some(Instruction::And(r))
    }
}

/// The branch group: BEQ, BNE, BLT, BGE, BLTU, BGEU by funct3.
pub open spec fn spec_decode_branch(w: u32) -> Option<Instruction> {
    let b = spec_btype(w);
    if b.funct3 == 0b000 {
        Some(Instruction::Beq(b))
    } else if b.funct3 == 0b001 {
        Some(Instruction::Bne(b))
    } else if b.funct3 == 0b100 {
        Some(Instruction::Blt(b))
    } else if b.funct3 == 0b101 {
        Some(Instruction::Bge(b))
    } else if b.funct3 == 0b110 {
        Some(Instruction::Bltu(b))
    } else if b.funct3 == 0b111 {
        Some(Instruction::Bgeu(b))
    } else {
        None
    }
}

/// The decoding table: the meaning of a raw 32-bit word, or `None`
/// when the word is a compressed encoding or falls in an opcode group
/// or function-select combination outside the supported set.
pub open spec fn spec_decode(w: u32) -> Option<Instruction> {
    if w & 0b11 != 0b11 {
        None
    } else {
        let group = (w & 0x7f) >> 2;
        if group == 0b00000 {
            spec_decode_load(w)
        } else if group == 0b00100 {
            spec_decode_op_imm(w)
        } else if group == 0b00101 {
            Some(Instruction::Auipc(spec_utype(w)))
        } else if group == 0b01000 {
            spec_decode_store(w)
        } else if group == 0b01100 {
            spec_decode_op(w)
        } else if group == 0b01101 {
            Some(Instruction::Lui(spec_utype(w)))
        } else if group == 0b11000 {
            spec_decode_branch(w)
        } else if group == 0b11001 {
            if funct3_field(w) == 0b000 {
                Some(Instruction::Jalr(spec_itype(w)))
            } else {
                None
            }
        } else if group == 0b11011 {
            Some(Instruction::Jal(spec_jtype(w)))
        } else {
            None
        }
    }
}

/// Every instruction the decoding table produces is well-formed: its
/// register indices address one of the 32 register slots.
pub proof fn lemma_decode_wf(w: u32)
    ensures
        spec_decode(w) matches Some(i) ==> i.wf(),
{
    lemma_field_ranges(w);
}

/// Decode one raw 32-bit word.  Returns the instruction the decoding
/// table gives it, and reports `Unsupported` exactly on the words the
/// table does not cover.
pub fn decode_instruction(inst: u32) -> (r: Result<Instruction, DecodingError>)
    ensures
        match r {
            Ok(i) => spec_decode(inst) == Some(i) && i.wf(),
            Err(e) => spec_decode(inst) is None && e == DecodingError::Unsupported,
        },
{
    proof {
        lemma_decode_wf(inst);
    }
    if inst & 0b11 != 0b11 {
        // Compressed (non-32-bit) encoding.
        return Err(DecodingError::Unsupported);
    }
    match (inst & 0x7f) >> 2 {
        0b00000 => {
            // LOAD
            let i = Itype::from(inst);
            match i.funct3 {
                0b000 => Ok(Instruction::Lb(i)),
                0b001 => Ok(Instruction::Lh(i)),
                0b010 => Ok(Instruction::Lw(i)),
                0b100 => Ok(Instruction::Lbu(i)),
                0b101 => Ok(Instruction::Lhu(i)),
                _ => Err(DecodingError::Unsupported),
            }
        },
        0b00100 => {
            // OP-IMM
            let i = Itype::from(inst);
            match i.funct3 {
                0b000 => Ok(Instruction::Addi(i)),
                0b001 => Ok(Instruction::Slli(i)),
                0b010 => Ok(Instruction::Slti(i)),
                0b011 => Ok(Instruction::Sltiu(i)),
                0b100 => Ok(Instruction::Xori(i)),
                0b101 => if (inst >> 30) & 1 == 0 {
                    Ok(Instruction::Srli(i))
                } else {
                    Ok(Instruction::Srai(i))
                },
                0b110 => Ok(Instruction::Ori(i)),
                _ => Ok(Instruction::Andi(i)),
            }
        },
        0b00101 => {
            // AUIPC
            Ok(Instruction::Auipc(Utype::from(inst)))
        },
        0b01000 => {
            // STORE
            let s = Stype::from(inst);
            match s.funct3 {
                0b000 => Ok(Instruction::Sb(s)),
                0b001 => Ok(Instruction::Sh(s)),
                0b010 => Ok(Instruction::Sw(s)),
                _ => Err(DecodingError::Unsupported),
            }
        },
        0b01100 => {
            // OP
            let r = Rtype::from(inst);
            match r.funct3 {
                0b000 => if (inst >> 30) & 1 == 0 {
                    Ok(Instruction::Add(r))
                } else {
                    Ok(Instruction::Sub(r))
                },
                0b001 => Ok(Instruction::Sll(r)),
                0b010 => Ok(Instruction::Slt(r)),
                0b011 => Ok(Instruction::Sltu(r)),
                0b100 => Ok(Instruction::Xor(r)),
                0b101 => if (inst >> 30) & 1 == 0 {
                    Ok(Instruction::Srl(r))
                } else {
                    Ok(Instruction::Sra(r))
                },
                0b110 => Ok(Instruction::Or(r)),
                _ => Ok(Instruction::And(r)),
            }
        },
        0b01101 => {
            // LUI
            Ok(Instruction::Lui(Utype::from(inst)))
        },
        0b11000 => {
            // BRANCH
            let b = Btype::from(inst);
            match b.funct3 {
                0b000 => Ok(Instruction::Beq(b)),
                0b001 => Ok(Instruction::Bne(b)),
                0b100 => Ok(Instruction::Blt(b)),
                0b101 => Ok(Instruction::Bge(b)),
                0b110 => Ok(Instruction::Bltu(b)),
                0b111 => Ok(Instruction::Bgeu(b)),
                _ => Err(DecodingError::Unsupported),
            }
        },
        0b11001 => {
            // JALR
            let i = Itype::from(inst);
            match i.funct3 {
                0b000 => Ok(Instruction::Jalr(i)),
                _ => Err(DecodingError::Unsupported),
            }
        },
        0b11011 => {
            // JAL
            Ok(Instruction::Jal(Jtype::from(inst)))
        },
        _ => Err(DecodingError::Unsupported),
    }
}

} // verus!
