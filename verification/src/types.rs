//! The six RV32I instruction-format layouts and their field extraction.
//!
//! A format value is an immutable record of the register indices,
//! function-select fields and sign-extended immediate that one 32-bit
//! instruction word carries.  The spec functions `spec_rtype`,
//! `spec_itype`, `spec_stype`, `spec_btype`, `spec_utype` and
//! `spec_jtype` are the mathematical meaning of each layout; the `From`
//! impls compute them.

use vstd::prelude::*;

use crate::bits::{sext12, sext13, sext21, sext32};

verus! {

/// Destination register index: instruction bits [11:7].
pub open spec fn rd_field(w: u32) -> u32 {
    (w >> 7) & 0x1f
}

/// Function-select field: instruction bits [14:12].
pub open spec fn funct3_field(w: u32) -> u32 {
    (w >> 12) & 0x7
}

/// First source register index: instruction bits [19:15].
pub open spec fn rs1_field(w: u32) -> u32 {
    (w >> 15) & 0x1f
}

/// Second source register index: instruction bits [24:20].
pub open spec fn rs2_field(w: u32) -> u32 {
    (w >> 20) & 0x1f
}

/// Second function-select field: instruction bits [31:25].
pub open spec fn funct7_field(w: u32) -> u32 {
    (w >> 25) & 0x7f
}

/// I-type immediate field: instruction bits [31:20].
pub open spec fn i_imm_field(w: u32) -> u32 {
    w >> 20
}

/// S-type immediate field: bits [31:25] over bits [11:7].
pub open spec fn s_imm_field(w: u32) -> u32 {
    ((w >> 25) << 5) | ((w >> 7) & 0x1f)
}

/// B-type immediate field: sign in bit 31, then bits [7], [30:25],
/// [11:8], with an implicit 0 in bit 0.
pub open spec fn b_imm_field(w: u32) -> u32 {
    ((w >> 31) << 12) | (((w >> 7) & 1) << 11) | (((w >> 25) & 0x3f) << 5) | (((w >> 8) & 0xf)
        << 1)
}

/// U-type immediate field: the word masked to its upper 20 bits.
pub open spec fn u_imm_field(w: u32) -> u32 {
    w & 0xffff_f000
}

/// J-type immediate field: sign in bit 31, then bits [19:12], [20],
/// [30:21], with an implicit 0 in bit 0.
pub open spec fn j_imm_field(w: u32) -> u32 {
    ((w >> 31) << 20) | (((w >> 12) & 0xff) << 12) | (((w >> 20) & 1) << 11) | (((w >> 21)
        & 0x3ff) << 1)
}

/// Ranges of the extracted fields: register indices fit the 32-slot
/// register file, each immediate field fits its bit width, and the
/// B-type and J-type byte offsets are even.
pub proof fn lemma_field_ranges(w: u32)
    by (bit_vector)
    ensures
        rd_field(w) < 32,
        funct3_field(w) < 8,
        rs1_field(w) < 32,
        rs2_field(w) < 32,
        funct7_field(w) < 128,
        i_imm_field(w) < 0x1000,
        s_imm_field(w) < 0x1000,
        b_imm_field(w) < 0x2000,
        b_imm_field(w) % 2 == 0,
        u_imm_field(w) % 0x1000 == 0,
        j_imm_field(w) < 0x20_0000,
        j_imm_field(w) % 2 == 0,
{
}

/// R-type layout: register-register operations.
#[derive(Debug, PartialEq, Eq, Structural)]
pub struct Rtype {
    pub rd: usize,
    pub funct3: u32,
    pub rs1: usize,
    pub rs2: usize,
    pub funct7: u32,
}

/// The fields an R-type instruction word carries.
pub open spec fn spec_rtype(w: u32) -> Rtype {
    Rtype {
        rd: rd_field(w) as usize,
        funct3: funct3_field(w),
        rs1: rs1_field(w) as usize,
        rs2: rs2_field(w) as usize,
        funct7: funct7_field(w),
    }
}

impl Rtype {
    /// All register indices address one of the 32 register slots.
    pub open spec fn wf(&self) -> bool {
        self.rd < 32 && self.rs1 < 32 && self.rs2 < 32
    }
}

impl From<u32> for Rtype {
    fn from(w: u32) -> (r: Self) {
        Rtype {
            rd: ((w >> 7) & 0x1f) as usize,
            funct3: (w >> 12) & 0x7,
            rs1: ((w >> 15) & 0x1f) as usize,
            rs2: ((w >> 20) & 0x1f) as usize,
            funct7: (w >> 25) & 0x7f,
        }
    }
}

impl vstd::std_specs::convert::FromSpecImpl<u32> for Rtype {
    open spec fn obeys_from_spec() -> bool {
        true
    }

    open spec fn from_spec(w: u32) -> Self {
        spec_rtype(w)
    }
}

/// I-type layout: register-immediate operations, loads, and JALR.
#[derive(Debug, PartialEq, Eq, Structural)]
pub struct Itype {
    pub rd: usize,
    pub funct3: u32,
    pub rs1: usize,
    pub imm: i32,
}

/// The fields an I-type instruction word carries; the immediate is
/// bits [31:20] sign-extended.
pub open spec fn spec_itype(w: u32) -> Itype {
    Itype {
        rd: rd_field(w) as usize,
        funct3: funct3_field(w),
        rs1: rs1_field(w) as usize,
        imm: sext12(i_imm_field(w)) as i32,
    }
}

impl Itype {
    /// All register indices address one of the 32 register slots.
    pub open spec fn wf(&self) -> bool {
        self.rd < 32 && self.rs1 < 32
    }
}

impl From<u32> for Itype {
    fn from(w: u32) -> (r: Self) {
        proof {
            lemma_field_ranges(w);
        }
        let f = w >> 20;
        Itype {
            rd: ((w >> 7) & 0x1f) as usize,
            funct3: (w >> 12) & 0x7,
            rs1: ((w >> 15) & 0x1f) as usize,
            imm: if f < 0x800 {
                f as i32
            } else {
                (f as i32) - 0x1000
            },
        }
    }
}

impl vstd::std_specs::convert::FromSpecImpl<u32> for Itype {
    open spec fn obeys_from_spec() -> bool {
        true
    }

    open spec fn from_spec(w: u32) -> Self {
        spec_itype(w)
    }
}

/// S-type layout: stores.
#[derive(Debug, PartialEq, Eq, Structural)]
pub struct Stype {
    pub imm: i32,
    pub funct3: u32,
    pub rs1: usize,
    pub rs2: usize,
}

/// The fields an S-type instruction word carries; the immediate is
/// reassembled from its two split bit ranges, then sign-extended.
pub open spec fn spec_stype(w: u32) -> Stype {
    Stype {
        imm: sext12(s_imm_field(w)) as i32,
        funct3: funct3_field(w),
        rs1: rs1_field(w) as usize,
        rs2: rs2_field(w) as usize,
    }
}

impl Stype {
    /// All register indices address one of the 32 register slots.
    pub open spec fn wf(&self) -> bool {
        self.rs1 < 32 && self.rs2 < 32
    }
}

impl From<u32> for Stype {
    fn from(w: u32) -> (r: Self) {
        proof {
            lemma_field_ranges(w);
        }
        let f = ((w >> 25) << 5) | ((w >> 7) & 0x1f);
        Stype {
            imm: if f < 0x800 {
                f as i32
            } else {
                (f as i32) - 0x1000
            },
            funct3: (w >> 12) & 0x7,
            rs1: ((w >> 15) & 0x1f) as usize,
            rs2: ((w >> 20) & 0x1f) as usize,
        }
    }
}

impl vstd::std_specs::convert::FromSpecImpl<u32> for Stype {
    open spec fn obeys_from_spec() -> bool {
        true
    }

    open spec fn from_spec(w: u32) -> Self {
        spec_stype(w)
    }
}

/// B-type layout: conditional branches.
#[derive(Debug, PartialEq, Eq, Structural)]
pub struct Btype {
    pub imm: i32,
    pub funct3: u32,
    pub rs1: usize,
    pub rs2: usize,
}

/// The fields a B-type instruction word carries; the immediate is the
/// even, sign-extended PC-relative byte offset.
pub open spec fn spec_btype(w: u32) -> Btype {
    Btype {
        imm: sext13(b_imm_field(w)) as i32,
        funct3: funct3_field(w),
        rs1: rs1_field(w) as usize,
        rs2: rs2_field(w) as usize,
    }
}

impl Btype {
    /// All register indices address one of the 32 register slots.
    pub open spec fn wf(&self) -> bool {
        self.rs1 < 32 && self.rs2 < 32
    }
}

impl From<u32> for Btype {
    fn from(w: u32) -> (r: Self) {
        proof {
            lemma_field_ranges(w);
        }
        let f = ((w >> 31) << 12) | (((w >> 7) & 1) << 11) | (((w >> 25) & 0x3f) << 5) | (((w
            >> 8) & 0xf) << 1);
        Btype {
            imm: if f < 0x1000 {
                f as i32
            } else {
                (f as i32) - 0x2000
            },
            funct3: (w >> 12) & 0x7,
            rs1: ((w >> 15) & 0x1f) as usize,
            rs2: ((w >> 20) & 0x1f) as usize,
        }
    }
}

impl vstd::std_specs::convert::FromSpecImpl<u32> for Btype {
    open spec fn obeys_from_spec() -> bool {
        true
    }

    open spec fn from_spec(w: u32) -> Self {
        spec_btype(w)
    }
}

/// U-type layout: LUI and AUIPC.
#[derive(Debug, PartialEq, Eq, Structural)]
pub struct Utype {
    pub rd: usize,
    pub imm: i32,
}

/// The fields a U-type instruction word carries; the immediate
/// occupies the upper 20 bits with the low 12 bits zero.
pub open spec fn spec_utype(w: u32) -> Utype {
    Utype { rd: rd_field(w) as usize, imm: sext32(u_imm_field(w)) as i32 }
}

impl Utype {
    /// The destination register index addresses one of the 32 slots.
    pub open spec fn wf(&self) -> bool {
        self.rd < 32
    }
}

impl From<u32> for Utype {
    fn from(w: u32) -> (r: Self) {
        let f = w & 0xffff_f000;
        Utype {
            rd: ((w >> 7) & 0x1f) as usize,
            imm: if f < 0x8000_0000 {
                f as i32
            } else {
                i32::MIN + ((f - 0x8000_0000) as i32)
            },
        }
    }
}

impl vstd::std_specs::convert::FromSpecImpl<u32> for Utype {
    open spec fn obeys_from_spec() -> bool {
        true
    }

    open spec fn from_spec(w: u32) -> Self {
        spec_utype(w)
    }
}

/// J-type layout: JAL.
#[derive(Debug, PartialEq, Eq, Structural)]
pub struct Jtype {
    pub rd: usize,
    pub imm: i32,
}

/// The fields a J-type instruction word carries; the immediate is the
/// even, sign-extended PC-relative byte offset.
pub open spec fn spec_jtype(w: u32) -> Jtype {
    Jtype { rd: rd_field(w) as usize, imm: sext21(j_imm_field(w)) as i32 }
}

impl Jtype {
    /// The destination register index addresses one of the 32 slots.
    pub open spec fn wf(&self) -> bool {
        self.rd < 32
    }
}

impl From<u32> for Jtype {
    fn from(w: u32) -> (r: Self) {
        proof {
            lemma_field_ranges(w);
        }
        let f = ((w >> 31) << 20) | (((w >> 12) & 0xff) << 12) | (((w >> 20) & 1) << 11) | (((w
            >> 21) & 0x3ff) << 1);
        Jtype {
            rd: ((w >> 7) & 0x1f) as usize,
            imm: if f < 0x10_0000 {
                f as i32
            } else {
                (f as i32) - 0x20_0000
            },
        }
    }
}

impl vstd::std_specs::convert::FromSpecImpl<u32> for Jtype {
    open spec fn obeys_from_spec() -> bool {
        true
    }

    open spec fn from_spec(w: u32) -> Self {
        spec_jtype(w)
    }
}

/// Law: decoding an I-type word sign-extends the 12-bit immediate
/// field correctly.  The decoded immediate lies in [-2048, 2047] and
/// is congruent to the raw field modulo 2^12.
pub proof fn lemma_itype_sign_extension(w: u32)
    ensures
        -2048 <= spec_itype(w).imm <= 2047,
        spec_itype(w).imm as int % 0x1000 == i_imm_field(w),
{
    lemma_field_ranges(w);
}

/// Law: the split S-type immediate reassembles to the same value as a
/// contiguous I-type immediate carrying the same 12-bit pattern, so a
/// store's offset round-trips exactly like the matching load's.
pub proof fn lemma_stype_itype_imm_agree(ws: u32, wi: u32)
    requires
        s_imm_field(ws) == i_imm_field(wi),
    ensures
        spec_stype(ws).imm == spec_itype(wi).imm,
{
}

} // verus!
