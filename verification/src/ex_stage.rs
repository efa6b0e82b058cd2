use vstd::prelude::*;

pub mod alu;
pub mod branch;
pub mod forward;

use crate::mux::{MuxAlloc, MuxBuilder, MuxConnect};
use crate::rtl::{wf, Node, NodeV, ControlRef, PortRef, Rtl, RtlV};
use self::alu::{alu_ports, alu_with, Alu, AluBuilder};
use self::branch::{branch_ports, branch_with, Branch, BranchBuilder};
use self::forward::{forward_ports, forward_with, Forward, ForwardBuilder};
use crate::mux::{grow_slots, mux_inputs, mux_select, Mux};

verus! {

/// Output pins of the EX stage.
pub enum Alloc {
    BranchSel,
    AluRes,
    Rs2Data,
}

/// Input pins of the EX stage.
pub enum Connect {
    Jal_,
    BranchEn,
    PcSel,
    ImmSel,
    AluCtrl,
    BranchType,
    Pc,
    Rs1Data,
    Rs2Data,
    Imm,
    Rs1,
    Rs2,
    RdMem,
    RdMemWrite,
    RdMemData,
    RdWb,
    RdWbWrite,
    RdWbData,
}

/// The EX stage: two forwarding multiplexers in front of the ALU and the
/// branch unit, a pc-vs-rs1 multiplexer for the first ALU operand (with a
/// third, constant-zero way for the upper-immediate instructions) and an
/// imm-vs-rs2 multiplexer for the second.
pub struct ExStageBuilder {
    pub fwd_mux_1: MuxBuilder,
    pub fwd_mux_2: MuxBuilder,
    pub pc_sel: MuxBuilder,
    pub imm_sel: MuxBuilder,
    pub branch: BranchBuilder,
    pub forward: ForwardBuilder,
    pub alu: AluBuilder,
}

/// A three-slot multiplexer with every data slot still a hole.
pub open spec fn mux3_holes(select: Option<usize>) -> NodeV {
    NodeV::Mux {
        inputs: seq![Option::<usize>::None, Option::<usize>::None, Option::<usize>::None],
        select,
    }
}

impl ExStageBuilder {
    pub open spec fn wf_b(&self, v: RtlV) -> bool {
        &&& self.fwd_mux_1.wf_b(v)
        &&& self.fwd_mux_2.wf_b(v)
        &&& self.pc_sel.wf_b(v)
        &&& self.imm_sel.wf_b(v)
        &&& self.branch.wf_b(v)
        &&& self.forward.wf_b(v)
        &&& self.alu.wf_b(v)
        &&& self.forward.lane1 != self.forward.lane2
        &&& self.fwd_mux_1.node != self.fwd_mux_2.node
    }

    /// Assembles the EX-internal wiring: the forwarding lanes drive the
    /// two forwarding multiplexers, which feed the branch comparands and,
    /// through the two operand multiplexers, the ALU.
    pub fn new(rtl: &mut Rtl) -> (r: ExStageBuilder)
        ensures
            wf(final(rtl)@.nodes, final(rtl)@.ranks),
            crate::ranks::ranks_complete(final(rtl)@.nodes, final(rtl)@.ranks),
            final(rtl)@.asms == old(rtl)@.asms,
            r.wf_b(final(rtl)@),
            ({
                let n0 = old(rtl)@.nodes.len() as int;
                &&& r.forward.lane1 == n0
                &&& r.forward.lane2 == n0 + 1
                &&& r.fwd_mux_1.node == n0 + 2
                &&& r.fwd_mux_2.node == n0 + 3
                &&& r.pc_sel.node == n0 + 5
                &&& r.imm_sel.node == n0 + 6
                &&& r.alu.node == n0 + 7
                &&& r.branch.node == n0 + 8
                &&& final(rtl)@.nodes == old(rtl)@.nodes.push(
                    NodeV::Forward {
                        rs: Option::None,
                        rd_mem: Option::None,
                        rd_mem_write: Option::None,
                        rd_wb: Option::None,
                        rd_wb_write: Option::None,
                    },
                ).push(
                    NodeV::Forward {
                        rs: Option::None,
                        rd_mem: Option::None,
                        rd_mem_write: Option::None,
                        rd_wb: Option::None,
                        rd_wb_write: Option::None,
                    },
                ).push(mux3_holes(Option::Some((n0) as usize))).push(
                    mux3_holes(Option::Some((n0 + 1) as usize)),
                ).push(NodeV::Cst(0)).push(
                    NodeV::Mux {
                        inputs: seq![
                            Option::Some((n0 + 2) as usize),
                            Option::<usize>::None,
                            Option::Some((n0 + 4) as usize),
                        ],
                        select: Option::None,
                    },
                ).push(
                    NodeV::Mux {
                        inputs: seq![Option::Some((n0 + 3) as usize), Option::<usize>::None],
                        select: Option::None,
                    },
                ).push(
                    NodeV::Alu {
                        op1: Option::Some((n0 + 5) as usize),
                        op2: Option::Some((n0 + 6) as usize),
                        ctrl: Option::None,
                    },
                ).push(
                    NodeV::Branch {
                        op1: Option::Some((n0 + 2) as usize),
                        op2: Option::Some((n0 + 3) as usize),
                        branch_sel: Option::None,
                        branch_type: Option::None,
                        jal: Option::None,
                    },
                )
            }),
    {
        let forward = ForwardBuilder::new(rtl);
        let mut s1: Vec<Option<usize>> = Vec::new();
        s1.push(Option::None);
        s1.push(Option::None);
        s1.push(Option::None);
        proof {
            assert(s1@ =~= seq![Option::<usize>::None, Option::<usize>::None, Option::<usize>::None]);
        }
        let mut s2: Vec<Option<usize>> = Vec::new();
        s2.push(Option::None);
        s2.push(Option::None);
        s2.push(Option::None);
        proof {
            assert(s2@ =~= seq![Option::<usize>::None, Option::<usize>::None, Option::<usize>::None]);
        }
        let m1 = rtl.push_node(
            Node::Mux(Mux { inputs: s1, select: Option::Some(forward.lane1) }),
        );
        let m2 = rtl.push_node(
            Node::Mux(Mux { inputs: s2, select: Option::Some(forward.lane2) }),
        );
        let z = rtl.push_node(Node::Cst(0));
        let mut s3: Vec<Option<usize>> = Vec::new();
        s3.push(Option::Some(m1));
        s3.push(Option::None);
        s3.push(Option::Some(z));
        proof {
            assert(s3@ =~= seq![Option::Some(m1), Option::<usize>::None, Option::Some(z)]);
        }
        let ps = rtl.push_node(Node::Mux(Mux { inputs: s3, select: Option::None }));
        let mut s4: Vec<Option<usize>> = Vec::new();
        s4.push(Option::Some(m2));
        s4.push(Option::None);
        proof {
            assert(s4@ =~= seq![Option::Some(m2), Option::<usize>::None]);
        }
        let is = rtl.push_node(Node::Mux(Mux { inputs: s4, select: Option::None }));
        let al = rtl.push_node(
            Node::Alu(Alu { op1: Option::Some(ps), op2: Option::Some(is), ctrl: Option::None }),
        );
        let br = rtl.push_node(
            Node::Branch(
                Branch {
                    op1: Option::Some(m1),
                    op2: Option::Some(m2),
                    branch_sel: Option::None,
                    branch_type: Option::None,
                    jal: Option::None,
                },
            ),
        );
        ExStageBuilder {
            fwd_mux_1: MuxBuilder { node: m1 },
            fwd_mux_2: MuxBuilder { node: m2 },
            pc_sel: MuxBuilder { node: ps },
            imm_sel: MuxBuilder { node: is },
            branch: BranchBuilder { node: br },
            forward,
            alu: AluBuilder { node: al },
        }
    }

    /// The nodes after wiring one stage-level pin to the component that
    /// consumes it: the forwarding destination/enable lines fan out to
    /// both lanes, the downstream data values into slot 1 (EX/MEM) or
    /// slot 2 (MEM/WB) of both forwarding multiplexers.
    pub open spec fn conn_spec(self, pre: Seq<NodeV>, pin: usize, id: Connect) -> Seq<NodeV> {
        let b = self.branch.node as int;
        let a = self.alu.node as int;
        let ps = self.pc_sel.node as int;
        let is = self.imm_sel.node as int;
        let m1 = self.fwd_mux_1.node as int;
        let m2 = self.fwd_mux_2.node as int;
        let l1 = self.forward.lane1 as int;
        let l2 = self.forward.lane2 as int;
        let bp = branch_ports(pre[b]);
        let ap = alu_ports(pre[a]);
        let f1 = forward_ports(pre[l1]);
        let f2 = forward_ports(pre[l2]);
        match id {
            Connect::Jal_ => pre.update(
                b,
                branch_with(pre[b], bp.0, bp.1, bp.2, bp.3, Option::Some(pin)),
            ),
            Connect::BranchEn => pre.update(
                b,
                branch_with(pre[b], bp.0, bp.1, Option::Some(pin), bp.3, bp.4),
            ),
            Connect::PcSel => pre.update(
                ps,
                NodeV::Mux { inputs: mux_inputs(pre[ps]), select: Option::Some(pin) },
            ),
            Connect::ImmSel => pre.update(
                is,
                NodeV::Mux { inputs: mux_inputs(pre[is]), select: Option::Some(pin) },
            ),
            Connect::AluCtrl => pre.update(
                a,
                alu_with(pre[a], ap.0, ap.1, Option::Some(pin)),
            ),
            Connect::BranchType => pre.update(
                b,
                branch_with(pre[b], bp.0, bp.1, bp.2, Option::Some(pin), bp.4),
            ),
            Connect::Pc => pre.update(
                ps,
                NodeV::Mux {
                    inputs: grow_slots(mux_inputs(pre[ps]), 2).update(1, Option::Some(pin)),
                    select: mux_select(pre[ps]),
                },
            ),
            Connect::Rs1Data => pre.update(
                m1,
                NodeV::Mux {
                    inputs: grow_slots(mux_inputs(pre[m1]), 1).update(0, Option::Some(pin)),
                    select: mux_select(pre[m1]),
                },
            ),
            Connect::Rs2Data => pre.update(
                m2,
                NodeV::Mux {
                    inputs: grow_slots(mux_inputs(pre[m2]), 1).update(0, Option::Some(pin)),
                    select: mux_select(pre[m2]),
                },
            ),
            Connect::Imm => pre.update(
                is,
                NodeV::Mux {
                    inputs: grow_slots(mux_inputs(pre[is]), 2).update(1, Option::Some(pin)),
                    select: mux_select(pre[is]),
                },
            ),
            Connect::Rs1 => pre.update(
                l1,
                forward_with(pre[l1], Option::Some(pin), f1.1, f1.2, f1.3, f1.4),
            ),
            Connect::Rs2 => pre.update(
                l2,
                forward_with(pre[l2], Option::Some(pin), f2.1, f2.2, f2.3, f2.4),
            ),
            Connect::RdMem => pre.update(
                l1,
                forward_with(pre[l1], f1.0, Option::Some(pin), f1.2, f1.3, f1.4),
            ).update(l2, forward_with(pre[l2], f2.0, Option::Some(pin), f2.2, f2.3, f2.4)),
            Connect::RdMemWrite => pre.update(
                l1,
                forward_with(pre[l1], f1.0, f1.1, Option::Some(pin), f1.3, f1.4),
            ).update(l2, forward_with(pre[l2], f2.0, f2.1, Option::Some(pin), f2.3, f2.4)),
            Connect::RdMemData => pre.update(
                m1,
                NodeV::Mux {
                    inputs: grow_slots(mux_inputs(pre[m1]), 2).update(1, Option::Some(pin)),
                    select: mux_select(pre[m1]),
                },
            ).update(
                m2,
                NodeV::Mux {
                    inputs: grow_slots(mux_inputs(pre[m2]), 2).update(1, Option::Some(pin)),
                    select: mux_select(pre[m2]),
                },
            ),
            Connect::RdWb => pre.update(
                l1,
                forward_with(pre[l1], f1.0, f1.1, f1.2, Option::Some(pin), f1.4),
            ).update(l2, forward_with(pre[l2], f2.0, f2.1, f2.2, Option::Some(pin), f2.4)),
            Connect::RdWbWrite => pre.update(
                l1,
                forward_with(pre[l1], f1.0, f1.1, f1.2, f1.3, Option::Some(pin)),
            ).update(l2, forward_with(pre[l2], f2.0, f2.1, f2.2, f2.3, Option::Some(pin))),
            Connect::RdWbData => pre.update(
                m1,
                NodeV::Mux {
                    inputs: grow_slots(mux_inputs(pre[m1]), 3).update(2, Option::Some(pin)),
                    select: mux_select(pre[m1]),
                },
            ).update(
                m2,
                NodeV::Mux {
                    inputs: grow_slots(mux_inputs(pre[m2]), 3).update(2, Option::Some(pin)),
                    select: mux_select(pre[m2]),
                },
            ),
        }
    }

    /// Wires one stage-level pin to the component that consumes it.
    pub fn connect(&self, rtl: &mut Rtl, pin: PortRef, id: Connect)
        requires
            wf(old(rtl)@.nodes, old(rtl)@.ranks),
        ensures
            wf(final(rtl)@.nodes, final(rtl)@.ranks),
            crate::ranks::ranks_complete(final(rtl)@.nodes, final(rtl)@.ranks),
            final(rtl)@.asms == old(rtl)@.asms,
            final(rtl)@.nodes.len() == old(rtl)@.nodes.len(),
            self.wf_b(old(rtl)@) ==> final(rtl)@.nodes == self.conn_spec(
                old(rtl)@.nodes,
                pin.id,
                id,
            ),
    {
        let ghost pre = rtl@.nodes;
        match id {
            Connect::Jal_ => self.branch.connect(rtl, pin, branch::Connect::Jal_),
            Connect::BranchEn => self.branch.connect(rtl, pin, branch::Connect::BranchSel),
            Connect::PcSel => self.pc_sel.connect(rtl, pin, MuxConnect::Select),
            Connect::ImmSel => self.imm_sel.connect(rtl, pin, MuxConnect::Select),
            Connect::AluCtrl => self.alu.connect(rtl, pin, alu::Connect::Ctrl),
            Connect::BranchType => self.branch.connect(rtl, pin, branch::Connect::BranchType),
            Connect::Pc => self.pc_sel.connect(rtl, pin, MuxConnect::In(1)),
            Connect::Rs1Data => self.fwd_mux_1.connect(rtl, pin, MuxConnect::In(0)),
            Connect::Rs2Data => self.fwd_mux_2.connect(rtl, pin, MuxConnect::In(0)),
            Connect::Imm => self.imm_sel.connect(rtl, pin, MuxConnect::In(1)),
            Connect::Rs1 => {
                self.forward.connect(rtl, pin, forward::Connect::Rs1);
                proof {
                    if self.wf_b(RtlV { nodes: pre, ranks: old(rtl)@.ranks, asms: old(rtl)@.asms }) {
                        assert(rtl@.nodes =~= self.conn_spec(pre, pin.id, id));
                    }
                }
            },
            Connect::Rs2 => {
                self.forward.connect(rtl, pin, forward::Connect::Rs2);
                proof {
                    if self.wf_b(RtlV { nodes: pre, ranks: old(rtl)@.ranks, asms: old(rtl)@.asms }) {
                        assert(rtl@.nodes =~= self.conn_spec(pre, pin.id, id));
                    }
                }
            },
            Connect::RdMem => {
                self.forward.connect(rtl, pin, forward::Connect::RdMem);
                proof {
                    if self.wf_b(RtlV { nodes: pre, ranks: old(rtl)@.ranks, asms: old(rtl)@.asms }) {
                        assert(rtl@.nodes =~= self.conn_spec(pre, pin.id, id));
                    }
                }
            },
            Connect::RdMemWrite => {
                self.forward.connect(rtl, pin, forward::Connect::RdMemWrite);
                proof {
                    if self.wf_b(RtlV { nodes: pre, ranks: old(rtl)@.ranks, asms: old(rtl)@.asms }) {
                        assert(rtl@.nodes =~= self.conn_spec(pre, pin.id, id));
                    }
                }
            },
            Connect::RdMemData => {
                self.fwd_mux_1.connect(rtl, pin, MuxConnect::In(1));
                self.fwd_mux_2.connect(rtl, pin, MuxConnect::In(1));
            },
            Connect::RdWb => {
                self.forward.connect(rtl, pin, forward::Connect::RdWb);
                proof {
                    if self.wf_b(RtlV { nodes: pre, ranks: old(rtl)@.ranks, asms: old(rtl)@.asms }) {
                        assert(rtl@.nodes =~= self.conn_spec(pre, pin.id, id));
                    }
                }
            },
            Connect::RdWbWrite => {
                self.forward.connect(rtl, pin, forward::Connect::RdWbWrite);
                proof {
                    if self.wf_b(RtlV { nodes: pre, ranks: old(rtl)@.ranks, asms: old(rtl)@.asms }) {
                        assert(rtl@.nodes =~= self.conn_spec(pre, pin.id, id));
                    }
                }
            },
            Connect::RdWbData => {
                self.fwd_mux_1.connect(rtl, pin, MuxConnect::In(2));
                self.fwd_mux_2.connect(rtl, pin, MuxConnect::In(2));
            },
        }
    }

    /// Hands out one stage-level output pin.
    pub fn alloc_port(&self, id: Alloc) -> (p: PortRef)
        ensures
            p.id == (match id {
                Alloc::BranchSel => self.branch.node,
                Alloc::AluRes => self.alu.node,
                Alloc::Rs2Data => self.fwd_mux_2.node,
            }),
    {
        match id {
            Alloc::BranchSel => self.branch.alloc_port(branch::Alloc::BK),
            Alloc::AluRes => self.alu.alloc_port(alu::Alloc::Res),
            Alloc::Rs2Data => self.fwd_mux_2.alloc_port(MuxAlloc::Out),
        }
    }

    /// Freezes the stage; none of its components hold clocked state.
    pub fn build(self) -> (c: ControlRef)
        ensures
            c.members@.len() == 0,
            c.asm_members@.len() == 0,
    {
        ControlRef { members: Vec::new(), asm_members: Vec::new() }
    }
}

impl ExStageBuilder {
    /// Freezes the stage into a record of its component ids.
    pub fn stage(&self) -> (r: Exstage)
        ensures
            r.branch == self.branch.node,
            r.alu == self.alu.node,
            r.forward1 == self.forward.lane1,
            r.forward2 == self.forward.lane2,
            r.fwd_mux_1 == self.fwd_mux_1.node,
            r.fwd_mux_2 == self.fwd_mux_2.node,
            r.pc_sel == self.pc_sel.node,
            r.imm_sel == self.imm_sel.node,
    {
        Exstage {
            fwd_mux_1: self.fwd_mux_1.node,
            fwd_mux_2: self.fwd_mux_2.node,
            pc_sel: self.pc_sel.node,
            imm_sel: self.imm_sel.node,
            branch: self.branch.node,
            forward1: self.forward.lane1,
            forward2: self.forward.lane2,
            alu: self.alu.node,
        }
    }
}

/// The built EX stage: the ids of its components, kept for inspection.
pub struct Exstage {
    pub fwd_mux_1: usize,
    pub fwd_mux_2: usize,
    pub pc_sel: usize,
    pub imm_sel: usize,
    pub branch: usize,
    pub forward1: usize,
    pub forward2: usize,
    pub alu: usize,
}

impl Exstage {
    /// The stage's observable signals, labelled.
    pub fn output(&self, rtl: &Rtl) -> (r: Vec<(&'static str, Option<u32>)>)
        requires
            wf(rtl@.nodes, rtl@.ranks),
            self.branch < rtl@.nodes.len(),
            self.alu < rtl@.nodes.len(),
            self.forward1 < rtl@.nodes.len(),
            self.forward2 < rtl@.nodes.len(),
        ensures
            r@.len() == 4,
            r@[0].1 == crate::rtl::node_value(rtl@.nodes, rtl@.ranks, self.branch as int),
            r@[1].1 == crate::rtl::node_value(rtl@.nodes, rtl@.ranks, self.alu as int),
            r@[2].1 == crate::rtl::node_value(rtl@.nodes, rtl@.ranks, self.forward1 as int),
            r@[3].1 == crate::rtl::node_value(rtl@.nodes, rtl@.ranks, self.forward2 as int),
    {
        let mut r: Vec<(&'static str, Option<u32>)> = Vec::new();
        r.push(("branch_sel", rtl.read_node(self.branch)));
        r.push(("alu_res", rtl.read_node(self.alu)));
        r.push(("forward_1", rtl.read_node(self.forward1)));
        r.push(("forward_2", rtl.read_node(self.forward2)));
        r
    }

    /// The stage's internal signals, labelled.
    pub fn inner_signal(&self, rtl: &Rtl) -> (r: Vec<(&'static str, Option<u32>)>)
        requires
            wf(rtl@.nodes, rtl@.ranks),
            self.fwd_mux_1 < rtl@.nodes.len(),
            self.fwd_mux_2 < rtl@.nodes.len(),
            self.pc_sel < rtl@.nodes.len(),
            self.imm_sel < rtl@.nodes.len(),
        ensures
            r@.len() == 4,
            r@[0].1 == crate::rtl::node_value(rtl@.nodes, rtl@.ranks, self.fwd_mux_1 as int),
            r@[1].1 == crate::rtl::node_value(rtl@.nodes, rtl@.ranks, self.fwd_mux_2 as int),
            r@[2].1 == crate::rtl::node_value(rtl@.nodes, rtl@.ranks, self.pc_sel as int),
            r@[3].1 == crate::rtl::node_value(rtl@.nodes, rtl@.ranks, self.imm_sel as int),
    {
        let mut r: Vec<(&'static str, Option<u32>)> = Vec::new();
        r.push(("fwd1_data", rtl.read_node(self.fwd_mux_1)));
        r.push(("fwd2_data", rtl.read_node(self.fwd_mux_2)));
        r.push(("op1", rtl.read_node(self.pc_sel)));
        r.push(("op2", rtl.read_node(self.imm_sel)));
        r
    }
}

} // verus!
