use vstd::prelude::*;

verus! {

/// Output selectors of the forwarding unit, one per EX operand.
pub enum Alloc {
    Forward1,
    Forward2,
}

/// Input selectors of the forwarding unit.
pub enum Connect {
    Rs1,
    Rs2,
    RdMem,
    RdMemWrite,
    RdWb,
    RdWbWrite,
}

/// One lane of the forwarding unit: decides where one EX operand comes from.
pub struct Forward {
    pub rs: Option<usize>,
    pub rd_mem: Option<usize>,
    pub rd_mem_write: Option<usize>,
    pub rd_wb: Option<usize>,
    pub rd_wb_write: Option<usize>,
}

/// The forwarding choice for one operand: 1 selects the EX/MEM result, 2 the
/// MEM/WB result, 0 the register-file read. The EX/MEM match takes priority
/// over MEM/WB, and register 0 is never forwarded.
pub open spec fn forward_f(rs: u32, rdm: u32, rdmw: u32, rdw: u32, rdww: u32) -> u32 {
    if rdmw == 1 && rdm != 0 && rdm == rs {
        1
    } else if rdww == 1 && rdw != 0 && rdw == rs {
        2
    } else {
        0
    }
}

/// Computes the forwarding choice for one operand.
pub fn forward_exec(rs: u32, rdm: u32, rdmw: u32, rdw: u32, rdww: u32) -> (r: u32)
    ensures
        r == forward_f(rs, rdm, rdmw, rdw, rdww),
{
    if rdmw == 1 && rdm != 0 && rdm == rs {
        1
    } else if rdww == 1 && rdw != 0 && rdw == rs {
        2
    } else {
        0
    }
}

} // verus!
use crate::rtl::{lemma_view_update, view_node, wf, Node, NodeV, PortRef, Rtl, RtlV};

verus! {

pub open spec fn forward_with(
    n: NodeV,
    rs: Option<usize>,
    rd_mem: Option<usize>,
    rd_mem_write: Option<usize>,
    rd_wb: Option<usize>,
    rd_wb_write: Option<usize>,
) -> NodeV {
    match n {
        NodeV::Forward { .. } => NodeV::Forward { rs, rd_mem, rd_mem_write, rd_wb, rd_wb_write },
        other => other,
    }
}

pub open spec fn forward_ports(n: NodeV) -> (
    Option<usize>,
    Option<usize>,
    Option<usize>,
    Option<usize>,
    Option<usize>,
) {
    match n {
        NodeV::Forward { rs, rd_mem, rd_mem_write, rd_wb, rd_wb_write } => (
            rs,
            rd_mem,
            rd_mem_write,
            rd_wb,
            rd_wb_write,
        ),
        _ => (Option::None, Option::None, Option::None, Option::None, Option::None),
    }
}

/// Builds the forwarding unit: one lane per EX operand.
pub struct ForwardBuilder {
    pub lane1: usize,
    pub lane2: usize,
}

impl ForwardBuilder {
    pub open spec fn wf_b(&self, v: RtlV) -> bool {
        (self.lane1 as int) < v.nodes.len() && v.nodes[self.lane1 as int] is Forward
            && (self.lane2 as int) < v.nodes.len() && v.nodes[self.lane2 as int] is Forward
    }

    /// Adds the two forwarding lanes, all inputs still holes.
    pub fn new(rtl: &mut Rtl) -> (r: ForwardBuilder)
        ensures
            final(rtl)@.nodes == old(rtl)@.nodes.push(
                NodeV::Forward {
                    rs: Option::None,
                    rd_mem: Option::None,
                    rd_mem_write: Option::None,
                    rd_wb: Option::None,
                    rd_wb_write: Option::None,
                },
            ).push(
                NodeV::Forward {
                    rs: Option::None,
                    rd_mem: Option::None,
                    rd_mem_write: Option::None,
                    rd_wb: Option::None,
                    rd_wb_write: Option::None,
                },
            ),
            final(rtl)@.asms == old(rtl)@.asms,
            wf(final(rtl)@.nodes, final(rtl)@.ranks),
            crate::ranks::ranks_complete(final(rtl)@.nodes, final(rtl)@.ranks),
            r.lane1 == old(rtl)@.nodes.len(),
            r.lane2 == old(rtl)@.nodes.len() + 1,
            r.wf_b(final(rtl)@),
    {
        let l1 = rtl.push_node(
            Node::Forward(
                Forward {
                    rs: Option::None,
                    rd_mem: Option::None,
                    rd_mem_write: Option::None,
                    rd_wb: Option::None,
                    rd_wb_write: Option::None,
                },
            ),
        );
        let l2 = rtl.push_node(
            Node::Forward(
                Forward {
                    rs: Option::None,
                    rd_mem: Option::None,
                    rd_mem_write: Option::None,
                    rd_wb: Option::None,
                    rd_wb_write: Option::None,
                },
            ),
        );
        ForwardBuilder { lane1: l1, lane2: l2 }
    }

    /// Wires one forwarding input: `Rs1`/`Rs2` go to their own lane, the
    /// downstream destination and write-enable wires fan out to both.
    pub fn connect(&self, rtl: &mut Rtl, pin: PortRef, id: Connect)
        requires
            wf(old(rtl)@.nodes, old(rtl)@.ranks),
        ensures
            wf(final(rtl)@.nodes, final(rtl)@.ranks),
            crate::ranks::ranks_complete(final(rtl)@.nodes, final(rtl)@.ranks),
            final(rtl)@.asms == old(rtl)@.asms,
            self.wf_b(old(rtl)@) ==> self.wf_b(final(rtl)@),
            final(rtl)@.nodes.len() == old(rtl)@.nodes.len(),
            self.wf_b(old(rtl)@) && self.lane1 != self.lane2 ==> (forall|j: int|
                0 <= j < old(rtl)@.nodes.len() && j != self.lane1 as int && j != self.lane2 as int
                    ==> final(rtl)@.nodes[j] == old(rtl)@.nodes[j]),
            self.wf_b(old(rtl)@) && self.lane1 != self.lane2 ==> ({
                let p1 = forward_ports(old(rtl)@.nodes[self.lane1 as int]);
                let p2 = forward_ports(old(rtl)@.nodes[self.lane2 as int]);
                match id {
                    Connect::Rs1 => final(rtl)@.nodes[self.lane1 as int] == forward_with(
                        old(rtl)@.nodes[self.lane1 as int],
                        Option::Some(pin.id),
                        p1.1,
                        p1.2,
                        p1.3,
                        p1.4,
                    ) && final(rtl)@.nodes[self.lane2 as int] == old(rtl)@.nodes[self.lane2 as int],
                    Connect::Rs2 => final(rtl)@.nodes[self.lane2 as int] == forward_with(
                        old(rtl)@.nodes[self.lane2 as int],
                        Option::Some(pin.id),
                        p2.1,
                        p2.2,
                        p2.3,
                        p2.4,
                    ) && final(rtl)@.nodes[self.lane1 as int] == old(rtl)@.nodes[self.lane1 as int],
                    Connect::RdMem => final(rtl)@.nodes[self.lane1 as int] == forward_with(
                        old(rtl)@.nodes[self.lane1 as int],
                        p1.0,
                        Option::Some(pin.id),
                        p1.2,
                        p1.3,
                        p1.4,
                    ) && final(rtl)@.nodes[self.lane2 as int] == forward_with(
                        old(rtl)@.nodes[self.lane2 as int],
                        p2.0,
                        Option::Some(pin.id),
                        p2.2,
                        p2.3,
                        p2.4,
                    ),
                    Connect::RdMemWrite => final(rtl)@.nodes[self.lane1 as int] == forward_with(
                        old(rtl)@.nodes[self.lane1 as int],
                        p1.0,
                        p1.1,
                        Option::Some(pin.id),
                        p1.3,
                        p1.4,
                    ) && final(rtl)@.nodes[self.lane2 as int] == forward_with(
                        old(rtl)@.nodes[self.lane2 as int],
                        p2.0,
                        p2.1,
                        Option::Some(pin.id),
                        p2.3,
                        p2.4,
                    ),
                    Connect::RdWb => final(rtl)@.nodes[self.lane1 as int] == forward_with(
                        old(rtl)@.nodes[self.lane1 as int],
                        p1.0,
                        p1.1,
                        p1.2,
                        Option::Some(pin.id),
                        p1.4,
                    ) && final(rtl)@.nodes[self.lane2 as int] == forward_with(
                        old(rtl)@.nodes[self.lane2 as int],
                        p2.0,
                        p2.1,
                        p2.2,
                        Option::Some(pin.id),
                        p2.4,
                    ),
                    Connect::RdWbWrite => final(rtl)@.nodes[self.lane1 as int] == forward_with(
                        old(rtl)@.nodes[self.lane1 as int],
                        p1.0,
                        p1.1,
                        p1.2,
                        p1.3,
                        Option::Some(pin.id),
                    ) && final(rtl)@.nodes[self.lane2 as int] == forward_with(
                        old(rtl)@.nodes[self.lane2 as int],
                        p2.0,
                        p2.1,
                        p2.2,
                        p2.3,
                        Option::Some(pin.id),
                    ),
                }
            }),
    {
        let ghost pre = rtl.nodes@;
        if self.lane1 >= rtl.nodes.len() || self.lane2 >= rtl.nodes.len() {
            rtl.recompute_ranks();
            return;
        }
        proof {
            assert(rtl@.nodes[self.lane1 as int] == view_node(rtl.nodes@[self.lane1 as int]));
            assert(rtl@.nodes[self.lane2 as int] == view_node(rtl.nodes@[self.lane2 as int]));
        }
        match id {
            Connect::Rs1 => {
                match &mut rtl.nodes[self.lane1] {
                    Node::Forward(f) => {
                        f.rs = Option::Some(pin.id);
                    },
                    _ => {},
                }
            },
            Connect::Rs2 => {
                match &mut rtl.nodes[self.lane2] {
                    Node::Forward(f) => {
                        f.rs = Option::Some(pin.id);
                    },
                    _ => {},
                }
            },
            Connect::RdMem => {
                match &mut rtl.nodes[self.lane1] {
                    Node::Forward(f) => {
                        f.rd_mem = Option::Some(pin.id);
                    },
                    _ => {},
                }
                match &mut rtl.nodes[self.lane2] {
                    Node::Forward(f) => {
                        f.rd_mem = Option::Some(pin.id);
                    },
                    _ => {},
                }
            },
            Connect::RdMemWrite => {
                match &mut rtl.nodes[self.lane1] {
                    Node::Forward(f) => {
                        f.rd_mem_write = Option::Some(pin.id);
                    },
                    _ => {},
                }
                match &mut rtl.nodes[self.lane2] {
                    Node::Forward(f) => {
                        f.rd_mem_write = Option::Some(pin.id);
                    },
                    _ => {},
                }
            },
            Connect::RdWb => {
                match &mut rtl.nodes[self.lane1] {
                    Node::Forward(f) => {
                        f.rd_wb = Option::Some(pin.id);
                    },
                    _ => {},
                }
                match &mut rtl.nodes[self.lane2] {
                    Node::Forward(f) => {
                        f.rd_wb = Option::Some(pin.id);
                    },
                    _ => {},
                }
            },
            Connect::RdWbWrite => {
                match &mut rtl.nodes[self.lane1] {
                    Node::Forward(f) => {
                        f.rd_wb_write = Option::Some(pin.id);
                    },
                    _ => {},
                }
                match &mut rtl.nodes[self.lane2] {
                    Node::Forward(f) => {
                        f.rd_wb_write = Option::Some(pin.id);
                    },
                    _ => {},
                }
            },
        }
        proof {
            assert(rtl@.nodes[self.lane1 as int] == view_node(rtl.nodes@[self.lane1 as int]));
            assert(rtl@.nodes[self.lane2 as int] == view_node(rtl.nodes@[self.lane2 as int]));
            assert forall|j: int|
                0 <= j < pre.len() && j != self.lane1 as int && j != self.lane2 as int implies rtl@.nodes[j]
                == pre.map_values(|n: Node| view_node(n))[j] by {}
        }
        rtl.recompute_ranks();
    }

    /// Hands out one lane's forwarding choice.
    pub fn alloc_port(&self, id: Alloc) -> (p: PortRef)
        ensures
            p.id == (match id {
                Alloc::Forward1 => self.lane1,
                Alloc::Forward2 => self.lane2,
            }),
    {
        match id {
            Alloc::Forward1 => PortRef { id: self.lane1 },
            Alloc::Forward2 => PortRef { id: self.lane2 },
        }
    }
}

} // verus!
