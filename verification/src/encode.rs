use vstd::prelude::*;

use crate::decode::{imm_f, sext};

verus! {

/// The opcode field of an instruction word.
pub open spec fn opcode_of(i: u32) -> u32 {
    i & 0x7F
}

/// The destination-register field.
pub open spec fn rd_of(i: u32) -> u32 {
    (i >> 7) & 0x1F
}

/// The funct3 field.
pub open spec fn funct3_of(i: u32) -> u32 {
    (i >> 12) & 0x7
}

/// The first source-register field.
pub open spec fn rs1_of(i: u32) -> u32 {
    (i >> 15) & 0x1F
}

/// The second source-register field.
pub open spec fn rs2_of(i: u32) -> u32 {
    (i >> 20) & 0x1F
}

/// Encodes `addi rd, rs1, imm`: the decoder recovers every field and the
/// immediate generator recovers the sign-extended low twelve bits.
pub fn encode_addi(rd: u32, rs1: u32, imm: u32) -> (r: u32)
    requires
        rd < 32,
        rs1 < 32,
    ensures
        opcode_of(r) == 0x13,
        rd_of(r) == rd,
        funct3_of(r) == 0,
        rs1_of(r) == rs1,
        imm_f(r) == sext(imm & 0xFFF, 12),
{
    let r = 0x13u32 | (rd << 7u32) | (rs1 << 15u32) | ((imm & 0xFFF) << 20u32);
    proof {
        let rr = r;
        assert(rd < 32 && rs1 < 32 && rr == 0x13u32 | (rd << 7u32) | (rs1 << 15u32) | ((imm
            & 0xFFF) << 20u32) ==> (rr & 0x7F) == 0x13 && ((rr >> 7) & 0x1F) == rd && ((rr >> 12)
            & 0x7) == 0 && ((rr >> 15) & 0x1F) == rs1 && ((if (rr >> 31) & 1 == 1 {
            (rr >> 20) | (0xFFFF_FFFFu32 << 12)
        } else {
            rr >> 20
        }) == (if (imm & 0xFFF) & (1u32 << 11) != 0 {
            (imm & 0xFFF) | (0xFFFF_FFFFu32 << 12)
        } else {
            (imm & 0xFFF) & !(0xFFFF_FFFFu32 << 12)
        }))) by (bit_vector);
        lemma_sra20_is_imm_i(r);
    }
    r
}

/// Bridges the arithmetic-shift form the immediate generator uses to the
/// plain-shift form bit-level reasoning prefers.
proof fn lemma_sra20_is_imm_i(r: u32)
    ensures
        crate::ex_stage::alu::sra_s(r, 20) == (if (r >> 31) & 1 == 1 {
            (r >> 20) | (0xFFFF_FFFFu32 << 12)
        } else {
            r >> 20
        }),
{
    assert((if r & 0x8000_0000u32 != 0 {
        (r >> 20) | !(0xFFFF_FFFFu32 >> 20)
    } else {
        (r >> 20) | 0u32
    }) == (if (r >> 31) & 1 == 1 {
        (r >> 20) | (0xFFFF_FFFFu32 << 12)
    } else {
        r >> 20
    })) by (bit_vector);
}

/// Encodes `sw rs2, off(rs1)`: an S-type store whose immediate generator
/// output is the sign-extended low twelve bits of `off`.
pub fn encode_sw(rs2: u32, off: u32, rs1: u32) -> (r: u32)
    requires
        rs2 < 32,
        rs1 < 32,
    ensures
        opcode_of(r) == 0x23,
        funct3_of(r) == 2,
        rs1_of(r) == rs1,
        rs2_of(r) == rs2,
        imm_f(r) == sext(off & 0xFFF, 12),
{
    let lo = off & 0x1F;
    let hi = (off >> 5u32) & 0x7F;
    let r = 0x23u32 | (lo << 7u32) | (2u32 << 12u32) | (rs1 << 15u32) | (rs2 << 20u32) | (hi
        << 25u32);
    proof {
        let rr = r;
        assert(rs2 < 32 && rs1 < 32 && rr == 0x23u32 | ((off & 0x1F) << 7u32) | (2u32 << 12u32) | (
        rs1 << 15u32) | (rs2 << 20u32) | (((off >> 5u32) & 0x7F) << 25u32) ==> (rr & 0x7F) == 0x23
            && ((rr >> 7) & 0x1F) == (off & 0x1F) && ((rr >> 12) & 0x7) == 2 && ((rr >> 15) & 0x1F)
            == rs1 && ((rr >> 20) & 0x1F) == rs2 && ((((rr >> 25) << 5) | ((rr >> 7) & 0x1F)) & (
        1u32 << 11) != 0) == ((off & 0xFFF) & (1u32 << 11) != 0) && ((((rr >> 25) << 5) | ((rr >> 7)
            & 0x1F)) | (0xFFFF_FFFFu32 << 12)) == ((off & 0xFFF) | (0xFFFF_FFFFu32 << 12)) && ((((
        rr >> 25) << 5) | ((rr >> 7) & 0x1F)) & !(0xFFFF_FFFFu32 << 12)) == ((off & 0xFFF) & !(
        0xFFFF_FFFFu32 << 12))) by (bit_vector);
    }
    r
}

/// Encodes `lw rd, off(rs1)`: an I-type load.
pub fn encode_lw(rd: u32, off: u32, rs1: u32) -> (r: u32)
    requires
        rd < 32,
        rs1 < 32,
    ensures
        opcode_of(r) == 0x03,
        rd_of(r) == rd,
        funct3_of(r) == 2,
        rs1_of(r) == rs1,
        imm_f(r) == sext(off & 0xFFF, 12),
{
    let r = 0x03u32 | (rd << 7u32) | (2u32 << 12u32) | (rs1 << 15u32) | ((off & 0xFFF) << 20u32);
    proof {
        let rr = r;
        assert(rd < 32 && rs1 < 32 && rr == 0x03u32 | (rd << 7u32) | (2u32 << 12u32) | (rs1
            << 15u32) | ((off & 0xFFF) << 20u32) ==> (rr & 0x7F) == 0x03 && ((rr >> 7) & 0x1F) == rd
            && ((rr >> 12) & 0x7) == 2 && ((rr >> 15) & 0x1F) == rs1 && ((if (rr >> 31) & 1 == 1 {
            (rr >> 20) | (0xFFFF_FFFFu32 << 12)
        } else {
            rr >> 20
        }) == (if (off & 0xFFF) & (1u32 << 11) != 0 {
            (off & 0xFFF) | (0xFFFF_FFFFu32 << 12)
        } else {
            (off & 0xFFF) & !(0xFFFF_FFFFu32 << 12)
        }))) by (bit_vector);
        lemma_sra20_is_imm_i(r);
    }
    r
}

/// Encodes `add rd, rs1, rs2`.
pub fn encode_add(rd: u32, rs1: u32, rs2: u32) -> (r: u32)
    requires
        rd < 32,
        rs1 < 32,
        rs2 < 32,
    ensures
        opcode_of(r) == 0x33,
        rd_of(r) == rd,
        funct3_of(r) == 0,
        rs1_of(r) == rs1,
        rs2_of(r) == rs2,
        (r >> 25) == 0,
{
    let r = 0x33u32 | (rd << 7u32) | (rs1 << 15u32) | (rs2 << 20u32);
    proof {
        let rr = r;
        assert(rd < 32 && rs1 < 32 && rs2 < 32 && rr == 0x33u32 | (rd << 7u32) | (rs1 << 15u32) | (
        rs2 << 20u32) ==> (rr & 0x7F) == 0x33 && ((rr >> 7) & 0x1F) == rd && ((rr >> 12) & 0x7) == 0
            && ((rr >> 15) & 0x1F) == rs1 && ((rr >> 20) & 0x1F) == rs2 && (rr >> 25) == 0)
            by (bit_vector);
    }
    r
}

/// Encodes `jal rd, off` for a forward jump: a J-type unconditional jump
/// whose immediate generator output equals `off` for even offsets below
/// 2048.
pub fn encode_jal(rd: u32, off: u32) -> (r: u32)
    requires
        rd < 32,
        off < 2048,
        off % 2 == 0,
    ensures
        opcode_of(r) == 0x6F,
        rd_of(r) == rd,
        imm_f(r) == off,
{
    let r = 0x6Fu32 | (rd << 7u32) | (((off >> 1u32) & 0x3FF) << 21u32);
    proof {
        let rr = r;
        assert(rd < 32 && off < 2048 && off % 2 == 0 && rr == 0x6Fu32 | (rd << 7u32) | (((off
            >> 1u32) & 0x3FF) << 21u32) ==> (rr & 0x7F) == 0x6F && ((rr >> 7) & 0x1F) == rd && (((((
        rr >> 31) & 1) << 20) | (((rr >> 12) & 0xFF) << 12) | (((rr >> 20) & 1) << 11) | (((rr
            >> 21) & 0x3FF) << 1)) == off) && ((((((rr >> 31) & 1) << 20) | (((rr >> 12) & 0xFF)
            << 12) | (((rr >> 20) & 1) << 11) | (((rr >> 21) & 0x3FF) << 1)) & (1u32 << 20)) == 0)
            && ((off & !(0xFFFF_FFFFu32 << 21)) == off)) by (bit_vector);
    }
    r
}

} // verus!
