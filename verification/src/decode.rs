use vstd::prelude::*;

verus! {

/// A combinational bit-field extractor: `(in >> lo) & mask`.
pub struct BitSel {
    pub input: Option<usize>,
    pub lo: u32,
    pub mask: u32,
}

/// The extracted field; a shift amount of 32 or more reads as 0.
pub open spec fn bitsel_f(v: u32, lo: u32, mask: u32) -> u32 {
    if lo < 32 { (v >> lo) & mask } else { 0 }
}

/// Computes the extracted field.
pub fn bitsel_exec(v: u32, lo: u32, mask: u32) -> (r: u32)
    ensures
        r == bitsel_f(v, lo, mask),
{
    if lo < 32 { (v >> lo) & mask } else { 0 }
}

/// The immediate generator: a pure function of the instruction word, the
/// encoding (I, S, B, U or J) being selected by the opcode field.
pub struct ImmGen {
    pub input: Option<usize>,
}

/// Sign extension of the low `n` bits of `x`, for 0 < n < 32.
pub open spec fn sext(x: u32, n: u32) -> u32 {
    if x & (1u32 << (((n - 1) as u32))) != 0 {
        x | (0xFFFF_FFFFu32 << n)
    } else {
        x & !(0xFFFF_FFFFu32 << n)
    }
}

/// The I-type immediate: bits 31..20 sign-extended.
pub open spec fn imm_i(inst: u32) -> u32 {
    crate::ex_stage::alu::sra_s(inst, 20)
}

/// The S-type immediate.
pub open spec fn imm_s(inst: u32) -> u32 {
    sext(((inst >> 25) << 5) | ((inst >> 7) & 0x1F), 12)
}

/// The B-type immediate (bit 0 is always zero).
pub open spec fn imm_b(inst: u32) -> u32 {
    sext(
        (((inst >> 31) & 1) << 12) | (((inst >> 7) & 1) << 11) | (((inst >> 25) & 0x3F) << 5)
            | (((inst >> 8) & 0xF) << 1),
        13,
    )
}

/// The U-type immediate: the high 20 bits, low 12 zero.
pub open spec fn imm_u(inst: u32) -> u32 {
    inst & 0xFFFF_F000
}

/// The J-type immediate (bit 0 is always zero).
pub open spec fn imm_j(inst: u32) -> u32 {
    sext(
        (((inst >> 31) & 1) << 20) | (((inst >> 12) & 0xFF) << 12) | (((inst >> 20) & 1) << 11)
            | (((inst >> 21) & 0x3FF) << 1),
        21,
    )
}

/// The immediate for an instruction word, selected by its opcode; opcodes
/// with no immediate yield 0.
pub open spec fn imm_f(inst: u32) -> u32 {
    let op = inst & 0x7F;
    if op == 0x03 || op == 0x13 || op == 0x67 {
        imm_i(inst)
    } else if op == 0x23 {
        imm_s(inst)
    } else if op == 0x63 {
        imm_b(inst)
    } else if op == 0x37 || op == 0x17 {
        imm_u(inst)
    } else if op == 0x6F {
        imm_j(inst)
    } else {
        0
    }
}

/// Computes the sign extension of the low `n` bits of `x`.
pub fn sext_exec(x: u32, n: u32) -> (r: u32)
    requires
        0 < n < 32,
    ensures
        r == sext(x, n),
{
    if x & (1u32 << (n - 1)) != 0 { x | (0xFFFF_FFFFu32 << n) } else { x & !(0xFFFF_FFFFu32 << n) }
}

/// Computes the immediate for an instruction word.
pub fn imm_exec(inst: u32) -> (r: u32)
    ensures
        r == imm_f(inst),
{
    let op: u32 = inst & 0x7F;
    if op == 0x03 || op == 0x13 || op == 0x67 {
        crate::ex_stage::alu::sra_exec(inst, 20)
    } else if op == 0x23 {
        sext_exec(((inst >> 25) << 5) | ((inst >> 7) & 0x1F), 12)
    } else if op == 0x63 {
        sext_exec(
            (((inst >> 31) & 1) << 12) | (((inst >> 7) & 1) << 11) | (((inst >> 25) & 0x3F) << 5)
                | (((inst >> 8) & 0xF) << 1),
            13,
        )
    } else if op == 0x37 || op == 0x17 {
        inst & 0xFFFF_F000
    } else if op == 0x6F {
        sext_exec(
            (((inst >> 31) & 1) << 20) | (((inst >> 12) & 0xFF) << 12) | (((inst >> 20) & 1) << 11)
                | (((inst >> 21) & 0x3FF) << 1),
            21,
        )
    } else {
        0
    }
}

/// Which control signal a control-unit node produces.
pub enum Sig {
    RegWrite,
    MemRead,
    MemWrite,
    Branch,
    Jal,
    Jalr,
    AluSrcPc,
    AluSrcImm,
    AluCtrl,
    WbSel,
    BranchType,
}

/// One line of the control unit: a pure function of opcode, funct3 and
/// funct7 producing a single named signal.
pub struct CtlSig {
    pub sig: Sig,
    pub opcode: Option<usize>,
    pub funct3: Option<usize>,
    pub funct7: Option<usize>,
}

/// The ALU control code for the R-type and I-type operate instructions;
/// every other opcode adds (address generation, jumps, upper immediates).
pub open spec fn alu_ctrl_f(op: u32, f3: u32, f7: u32) -> u32 {
    if op == 0x33 || op == 0x13 {
        if f3 == 0 {
            if op == 0x33 && f7 == 0x20 { 7 } else { 1 }
        } else if f3 == 1 {
            4
        } else if f3 == 2 {
            8
        } else if f3 == 3 {
            9
        } else if f3 == 4 {
            3
        } else if f3 == 5 {
            if f7 == 0x20 { 6 } else { 5 }
        } else if f3 == 6 {
            2
        } else {
            0
        }
    } else {
        1
    }
}

/// The canonical RV32I control table, one signal at a time. Unknown opcodes
/// produce the all-zero (no-op) vector. `AluSrcPc` selects the first ALU
/// operand: 0 rs1, 1 pc, 2 the constant 0 (upper immediates). `WbSel`
/// selects the write-back source: 0 the link address, 1 the ALU result,
/// 2 the memory read.
pub open spec fn ctl_f(sig: Sig, op: u32, f3: u32, f7: u32) -> u32 {
    match sig {
        Sig::RegWrite => if op == 0x33 || op == 0x13 || op == 0x03 || op == 0x37 || op == 0x17
            || op == 0x6F || op == 0x67 { 1 } else { 0 },
        Sig::MemRead => if op == 0x03 { 1 } else { 0 },
        Sig::MemWrite => if op == 0x23 { 1 } else { 0 },
        Sig::Branch => if op == 0x63 { 1 } else { 0 },
        Sig::Jal => if op == 0x6F { 1 } else { 0 },
        Sig::Jalr => if op == 0x67 { 1 } else { 0 },
        Sig::AluSrcPc => if op == 0x6F || op == 0x17 || op == 0x63 { 1 } else if op == 0x37 { 2 } else { 0 },
        Sig::AluSrcImm => if op == 0x33 { 0 } else { 1 },
        Sig::AluCtrl => alu_ctrl_f(op, f3, f7),
        Sig::WbSel => if op == 0x6F || op == 0x67 { 0 } else if op == 0x03 { 2 } else { 1 },
        Sig::BranchType => if op == 0x63 { f3 } else { 0 },
    }
}

/// Computes one line of the control table.
pub fn ctl_exec(sig: &Sig, op: u32, f3: u32, f7: u32) -> (r: u32)
    ensures
        r == ctl_f(*sig, op, f3, f7),
{
    match sig {
        Sig::RegWrite => if op == 0x33 || op == 0x13 || op == 0x03 || op == 0x37 || op == 0x17
            || op == 0x6F || op == 0x67 { 1 } else { 0 },
        Sig::MemRead => if op == 0x03 { 1 } else { 0 },
        Sig::MemWrite => if op == 0x23 { 1 } else { 0 },
        Sig::Branch => if op == 0x63 { 1 } else { 0 },
        Sig::Jal => if op == 0x6F { 1 } else { 0 },
        Sig::Jalr => if op == 0x67 { 1 } else { 0 },
        Sig::AluSrcPc => if op == 0x6F || op == 0x17 || op == 0x63 { 1 } else if op == 0x37 { 2 } else { 0 },
        Sig::AluSrcImm => if op == 0x33 { 0 } else { 1 },
        Sig::AluCtrl => {
            if op == 0x33 || op == 0x13 {
                if f3 == 0 {
                    if op == 0x33 && f7 == 0x20 { 7 } else { 1 }
                } else if f3 == 1 {
                    4
                } else if f3 == 2 {
                    8
                } else if f3 == 3 {
                    9
                } else if f3 == 4 {
                    3
                } else if f3 == 5 {
                    if f7 == 0x20 { 6 } else { 5 }
                } else if f3 == 6 {
                    2
                } else {
                    0
                }
            } else {
                1
            }
        },
        Sig::WbSel => if op == 0x6F || op == 0x67 { 0 } else if op == 0x03 { 2 } else { 1 },
        Sig::BranchType => if op == 0x63 { f3 } else { 0 },
    }
}

} // verus!
