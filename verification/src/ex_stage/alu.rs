use vstd::prelude::*;

verus! {

/// Output selector of the ALU.
pub enum Alloc {
    Res,
}

/// Input selectors of the ALU.
pub enum Connect {
    Op1,
    Op2,
    Ctrl,
}

/// The arithmetic-logic unit: a pure function of two operands and a 4-bit
/// control code.
pub struct Alu {
    pub op1: Option<usize>,
    pub op2: Option<usize>,
    pub ctrl: Option<usize>,
}

/// Two's-complement signed less-than, stated over the unsigned words by
/// biasing both sides with 2^31.
pub open spec fn slt_s(a: u32, b: u32) -> bool {
    (a ^ 0x8000_0000) < (b ^ 0x8000_0000)
}

/// Arithmetic shift right by `sh < 32`: the sign bit is replicated into
/// the vacated positions.
pub open spec fn sra_s(a: u32, sh: u32) -> u32 {
    (a >> sh) | (if a & 0x8000_0000u32 != 0 {
        !(0xFFFF_FFFFu32 >> sh)
    } else {
        0u32
    })
}

/// Computes the arithmetic shift right.
pub fn sra_exec(a: u32, sh: u32) -> (r: u32)
    requires
        sh < 32,
    ensures
        r == sra_s(a, sh),
{
    (a >> sh) | (if a & 0x8000_0000u32 != 0 {
        !(0xFFFF_FFFFu32 >> sh)
    } else {
        0u32
    })
}

/// The ALU function table: 0 AND, 1 ADD, 2 OR, 3 XOR, 4 shift left,
/// 5 logical shift right, 6 arithmetic shift right, 7 SUB, 8 signed
/// set-less-than, 9 unsigned set-less-than; any other code yields 0.
/// Additions and subtractions wrap, shifts use the low five bits of the
/// second operand.
pub open spec fn alu_f(ctrl: u32, a: u32, b: u32) -> u32 {
    if ctrl == 0 {
        a & b
    } else if ctrl == 1 {
        (((a + b) % 0x1_0000_0000) as u32)
    } else if ctrl == 2 {
        a | b
    } else if ctrl == 3 {
        a ^ b
    } else if ctrl == 4 {
        a << (b % 32)
    } else if ctrl == 5 {
        a >> (b % 32)
    } else if ctrl == 6 {
        sra_s(a, b % 32)
    } else if ctrl == 7 {
        (((a + 0x1_0000_0000 - b) % 0x1_0000_0000) as u32)
    } else if ctrl == 8 {
        if slt_s(a, b) { 1 } else { 0 }
    } else if ctrl == 9 {
        if a < b { 1 } else { 0 }
    } else {
        0
    }
}

/// Computes the ALU function table.
pub fn alu_exec(ctrl: u32, a: u32, b: u32) -> (r: u32)
    ensures
        r == alu_f(ctrl, a, b),
{
    if ctrl == 0 {
        a & b
    } else if ctrl == 1 {
        let s: u64 = (a as u64) + (b as u64);
        (s % 0x1_0000_0000) as u32
    } else if ctrl == 2 {
        a | b
    } else if ctrl == 3 {
        a ^ b
    } else if ctrl == 4 {
        a << (b % 32)
    } else if ctrl == 5 {
        a >> (b % 32)
    } else if ctrl == 6 {
        sra_exec(a, b % 32)
    } else if ctrl == 7 {
        let s: u64 = (a as u64) + 0x1_0000_0000 - (b as u64);
        (s % 0x1_0000_0000) as u32
    } else if ctrl == 8 {
        if (a ^ 0x8000_0000) < (b ^ 0x8000_0000) { 1 } else { 0 }
    } else if ctrl == 9 {
        if a < b { 1 } else { 0 }
    } else {
        0
    }
}

} // verus!
use crate::rtl::{lemma_view_update, view_node, wf, Node, NodeV, PortRef, Rtl, RtlV};

verus! {

pub open spec fn alu_with(n: NodeV, op1: Option<usize>, op2: Option<usize>, ctrl: Option<usize>) -> NodeV {
    match n {
        NodeV::Alu { .. } => NodeV::Alu { op1, op2, ctrl },
        other => other,
    }
}

pub open spec fn alu_ports(n: NodeV) -> (Option<usize>, Option<usize>, Option<usize>) {
    match n {
        NodeV::Alu { op1, op2, ctrl } => (op1, op2, ctrl),
        _ => (Option::None, Option::None, Option::None),
    }
}

/// Builds one ALU node.
pub struct AluBuilder {
    pub node: usize,
}

impl AluBuilder {
    pub open spec fn wf_b(&self, v: RtlV) -> bool {
        (self.node as int) < v.nodes.len() && v.nodes[self.node as int] is Alu
    }

    /// Adds an ALU with the given operand wires (holes where `None`).
    pub fn new(rtl: &mut Rtl, op1: Option<usize>, op2: Option<usize>, ctrl: Option<usize>) -> (r:
        AluBuilder)
        ensures
            final(rtl)@.nodes == old(rtl)@.nodes.push(NodeV::Alu { op1, op2, ctrl }),
            final(rtl)@.asms == old(rtl)@.asms,
            wf(final(rtl)@.nodes, final(rtl)@.ranks),
            crate::ranks::ranks_complete(final(rtl)@.nodes, final(rtl)@.ranks),
            r.node == old(rtl)@.nodes.len(),
            r.wf_b(final(rtl)@),
    {
        let n = rtl.push_node(Node::Alu(Alu { op1, op2, ctrl }));
        AluBuilder { node: n }
    }

    /// Wires one ALU input.
    pub fn connect(&self, rtl: &mut Rtl, pin: PortRef, id: Connect)
        requires
            wf(old(rtl)@.nodes, old(rtl)@.ranks),
        ensures
            wf(final(rtl)@.nodes, final(rtl)@.ranks),
            crate::ranks::ranks_complete(final(rtl)@.nodes, final(rtl)@.ranks),
            final(rtl)@.asms == old(rtl)@.asms,
            final(rtl)@.nodes.len() == old(rtl)@.nodes.len(),
            self.wf_b(old(rtl)@) ==> self.wf_b(final(rtl)@),
            self.wf_b(old(rtl)@) ==> ({
                let p = alu_ports(old(rtl)@.nodes[self.node as int]);
                final(rtl)@.nodes == old(rtl)@.nodes.update(
                    self.node as int,
                    match id {
                        Connect::Op1 => alu_with(
                            old(rtl)@.nodes[self.node as int],
                            Option::Some(pin.id),
                            p.1,
                            p.2,
                        ),
                        Connect::Op2 => alu_with(
                            old(rtl)@.nodes[self.node as int],
                            p.0,
                            Option::Some(pin.id),
                            p.2,
                        ),
                        Connect::Ctrl => alu_with(
                            old(rtl)@.nodes[self.node as int],
                            p.0,
                            p.1,
                            Option::Some(pin.id),
                        ),
                    },
                )
            }),
    {
        let ghost pre = rtl.nodes@;
        proof {
            if (self.node as int) < rtl.nodes@.len() {
                assert(rtl@.nodes[self.node as int] == view_node(rtl.nodes@[self.node as int]));
            }
        }
        if self.node >= rtl.nodes.len() {
            rtl.recompute_ranks();
            return;
        }
        match &mut rtl.nodes[self.node] {
            Node::Alu(a) => {
                match id {
                    Connect::Op1 => {
                        a.op1 = Option::Some(pin.id);
                    },
                    Connect::Op2 => {
                        a.op2 = Option::Some(pin.id);
                    },
                    Connect::Ctrl => {
                        a.ctrl = Option::Some(pin.id);
                    },
                }
            },
            _ => {},
        }
        proof {
            lemma_view_update(pre, self.node as int, rtl.nodes@[self.node as int]);
        }
        rtl.recompute_ranks();
    }

    /// Hands out the ALU's result port.
    pub fn alloc_port(&self, _id: Alloc) -> (p: PortRef)
        ensures
            p.id == self.node,
    {
        PortRef { id: self.node }
    }
}

} // verus!
