use vstd::prelude::*;

verus! {

/// The load-use hazard detector: stalls when the instruction in EX is a
/// load whose destination matches a source register read in ID.
pub struct Hazard {
    pub mem_read: Option<usize>,
    pub rd: Option<usize>,
    pub rs1: Option<usize>,
    pub rs2: Option<usize>,
}

/// The stall line: 1 when a load in EX writes a non-zero register that the
/// instruction in ID reads, else 0.
pub open spec fn hazard_f(mr: u32, rd: u32, rs1: u32, rs2: u32) -> u32 {
    if mr == 1 && rd != 0 && (rd == rs1 || rd == rs2) { 1 } else { 0 }
}

/// Computes the stall line.
pub fn hazard_exec(mr: u32, rd: u32, rs1: u32, rs2: u32) -> (r: u32)
    ensures
        r == hazard_f(mr, rd, rs1, rs2),
{
    if mr == 1 && rd != 0 && (rd == rs1 || rd == rs2) { 1 } else { 0 }
}

} // verus!
