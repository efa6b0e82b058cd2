use vstd::prelude::*;

verus! {

/// Output selector of the branch unit: the branch-taken line.
pub enum Alloc {
    BK,
}

/// Input selectors of the branch unit.
pub enum Connect {
    Op1,
    Op2,
    BranchSel,
    BranchType,
    Jal_,
}

/// The branch unit: decides whether the next PC leaves the sequential path.
pub struct Branch {
    pub op1: Option<usize>,
    pub op2: Option<usize>,
    pub branch_sel: Option<usize>,
    pub branch_type: Option<usize>,
    pub jal: Option<usize>,
}

/// The branch condition table, selected by the funct3-like code:
/// 0 eq, 1 neq, 4 signed lt, 5 signed ge, 6 unsigned lt, 7 unsigned ge;
/// other codes never take the branch.
pub open spec fn branch_cond(bt: u32, a: u32, b: u32) -> bool {
    if bt == 0 {
        a == b
    } else if bt == 1 {
        a != b
    } else if bt == 4 {
        crate::ex_stage::alu::slt_s(a, b)
    } else if bt == 5 {
        !crate::ex_stage::alu::slt_s(a, b)
    } else if bt == 6 {
        a < b
    } else if bt == 7 {
        a >= b
    } else {
        false
    }
}

/// The branch-taken line: 1 when jumping unconditionally or when a selected
/// branch condition holds, else 0.
pub open spec fn branch_f(jal: u32, bsel: u32, bt: u32, a: u32, b: u32) -> u32 {
    if jal == 1 || (bsel == 1 && branch_cond(bt, a, b)) { 1 } else { 0 }
}

/// Computes the branch-taken line.
pub fn branch_exec(jal: u32, bsel: u32, bt: u32, a: u32, b: u32) -> (r: u32)
    ensures
        r == branch_f(jal, bsel, bt, a, b),
{
    let cond: bool = if bt == 0 {
        a == b
    } else if bt == 1 {
        a != b
    } else if bt == 4 {
        (a ^ 0x8000_0000) < (b ^ 0x8000_0000)
    } else if bt == 5 {
        (a ^ 0x8000_0000) >= (b ^ 0x8000_0000)
    } else if bt == 6 {
        a < b
    } else if bt == 7 {
        a >= b
    } else {
        false
    };
    if jal == 1 || (bsel == 1 && cond) { 1 } else { 0 }
}

} // verus!
use crate::rtl::{lemma_view_update, view_node, wf, Node, NodeV, PortRef, Rtl, RtlV};

verus! {

pub open spec fn branch_with(
    n: NodeV,
    op1: Option<usize>,
    op2: Option<usize>,
    branch_sel: Option<usize>,
    branch_type: Option<usize>,
    jal: Option<usize>,
) -> NodeV {
    match n {
        NodeV::Branch { .. } => NodeV::Branch { op1, op2, branch_sel, branch_type, jal },
        other => other,
    }
}

pub open spec fn branch_ports(n: NodeV) -> (
    Option<usize>,
    Option<usize>,
    Option<usize>,
    Option<usize>,
    Option<usize>,
) {
    match n {
        NodeV::Branch { op1, op2, branch_sel, branch_type, jal } => (
            op1,
            op2,
            branch_sel,
            branch_type,
            jal,
        ),
        _ => (Option::None, Option::None, Option::None, Option::None, Option::None),
    }
}

/// Builds one branch-unit node.
pub struct BranchBuilder {
    pub node: usize,
}

impl BranchBuilder {
    pub open spec fn wf_b(&self, v: RtlV) -> bool {
        (self.node as int) < v.nodes.len() && v.nodes[self.node as int] is Branch
    }

    /// Adds a branch unit with the given comparand wires.
    pub fn new(rtl: &mut Rtl, op1: Option<usize>, op2: Option<usize>) -> (r: BranchBuilder)
        ensures
            final(rtl)@.nodes == old(rtl)@.nodes.push(
                NodeV::Branch {
                    op1,
                    op2,
                    branch_sel: Option::None,
                    branch_type: Option::None,
                    jal: Option::None,
                },
            ),
            final(rtl)@.asms == old(rtl)@.asms,
            wf(final(rtl)@.nodes, final(rtl)@.ranks),
            crate::ranks::ranks_complete(final(rtl)@.nodes, final(rtl)@.ranks),
            r.node == old(rtl)@.nodes.len(),
            r.wf_b(final(rtl)@),
    {
        let n = rtl.push_node(
            Node::Branch(
                Branch {
                    op1,
                    op2,
                    branch_sel: Option::None,
                    branch_type: Option::None,
                    jal: Option::None,
                },
            ),
        );
        BranchBuilder { node: n }
    }

    /// Wires one branch-unit input.
    pub fn connect(&self, rtl: &mut Rtl, pin: PortRef, id: Connect)
        requires
            wf(old(rtl)@.nodes, old(rtl)@.ranks),
        ensures
            wf(final(rtl)@.nodes, final(rtl)@.ranks),
            crate::ranks::ranks_complete(final(rtl)@.nodes, final(rtl)@.ranks),
            final(rtl)@.asms == old(rtl)@.asms,
            final(rtl)@.nodes.len() == old(rtl)@.nodes.len(),
            self.wf_b(old(rtl)@) ==> self.wf_b(final(rtl)@),
            self.wf_b(old(rtl)@) ==> ({
                let p = branch_ports(old(rtl)@.nodes[self.node as int]);
                final(rtl)@.nodes == old(rtl)@.nodes.update(
                    self.node as int,
                    match id {
                        Connect::Op1 => branch_with(
                            old(rtl)@.nodes[self.node as int],
                            Option::Some(pin.id),
                            p.1,
                            p.2,
                            p.3,
                            p.4,
                        ),
                        Connect::Op2 => branch_with(
                            old(rtl)@.nodes[self.node as int],
                            p.0,
                            Option::Some(pin.id),
                            p.2,
                            p.3,
                            p.4,
                        ),
                        Connect::BranchSel => branch_with(
                            old(rtl)@.nodes[self.node as int],
                            p.0,
                            p.1,
                            Option::Some(pin.id),
                            p.3,
                            p.4,
                        ),
                        Connect::BranchType => branch_with(
                            old(rtl)@.nodes[self.node as int],
                            p.0,
                            p.1,
                            p.2,
                            Option::Some(pin.id),
                            p.4,
                        ),
                        Connect::Jal_ => branch_with(
                            old(rtl)@.nodes[self.node as int],
                            p.0,
                            p.1,
                            p.2,
                            p.3,
                            Option::Some(pin.id),
                        ),
                    },
                )
            }),
    {
        let ghost pre = rtl.nodes@;
        proof {
            if (self.node as int) < rtl.nodes@.len() {
                assert(rtl@.nodes[self.node as int] == view_node(rtl.nodes@[self.node as int]));
            }
        }
        if self.node >= rtl.nodes.len() {
            rtl.recompute_ranks();
            return;
        }
        match &mut rtl.nodes[self.node] {
            Node::Branch(b) => {
                match id {
                    Connect::Op1 => {
                        b.op1 = Option::Some(pin.id);
                    },
                    Connect::Op2 => {
                        b.op2 = Option::Some(pin.id);
                    },
                    Connect::BranchSel => {
                        b.branch_sel = Option::Some(pin.id);
                    },
                    Connect::BranchType => {
                        b.branch_type = Option::Some(pin.id);
                    },
                    Connect::Jal_ => {
                        b.jal = Option::Some(pin.id);
                    },
                }
            },
            _ => {},
        }
        proof {
            lemma_view_update(pre, self.node as int, rtl.nodes@[self.node as int]);
        }
        rtl.recompute_ranks();
    }

    /// Hands out the branch-taken port.
    pub fn alloc_port(&self, _id: Alloc) -> (p: PortRef)
        ensures
            p.id == self.node,
    {
        PortRef { id: self.node }
    }
}

} // verus!
