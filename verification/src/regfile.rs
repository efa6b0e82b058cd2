use vstd::prelude::*;

verus! {

/// The architectural register file: 32 registers, register 0 hard-wired to
/// zero. On the rising edge it latches the write-back destination, data and
/// enable; on the falling edge it commits them unless the destination is
/// register 0. A read in the same cycle as a write returns the old value.
pub struct RegFile {
    pub regs: Vec<u32>,
    pub rd: Option<usize>,
    pub rd_data: Option<usize>,
    pub reg_write: Option<usize>,
    pub rd_cache: u32,
    pub rd_data_cache: u32,
    pub reg_write_cache: u32,
}

/// A combinational read port of the register file: reads the register named
/// by the address port. Reading the state of the file does not recurse, so
/// a read port only depends combinationally on its address.
pub struct RfRead {
    pub rf: usize,
    pub addr: Option<usize>,
}

/// The value a read port returns: register 0 reads as zero, out-of-range
/// addresses read as zero.
pub open spec fn rf_read_f(regs: Seq<u32>, a: u32) -> u32 {
    if a == 0 {
        0
    } else if (a as int) < regs.len() {
        regs[a as int]
    } else {
        0
    }
}

} // verus!
use crate::rtl::{lemma_view_update, view_node, wf, ControlRef, Node, NodeV, PortRef, Rtl, RtlV};

verus! {

pub open spec fn rf_ports(n: NodeV) -> (Option<usize>, Option<usize>, Option<usize>) {
    match n {
        NodeV::Rf { rd, rd_data, reg_write, .. } => (rd, rd_data, reg_write),
        _ => (Option::None, Option::None, Option::None),
    }
}

pub open spec fn rf_with_ports(
    n: NodeV,
    rd: Option<usize>,
    rd_data: Option<usize>,
    reg_write: Option<usize>,
) -> NodeV {
    match n {
        NodeV::Rf { regs, rd_cache, rd_data_cache, reg_write_cache, .. } => NodeV::Rf {
            regs,
            rd,
            rd_data,
            reg_write,
            rd_cache,
            rd_data_cache,
            reg_write_cache,
        },
        other => other,
    }
}

/// Input selectors of the register file's write side.
pub enum RfConnect {
    Rd,
    RdData,
    RegWrite,
}

/// Builds the register file and its read ports.
pub struct RegFileBuilder {
    pub rf: usize,
}

impl RegFileBuilder {
    pub open spec fn wf_b(&self, v: RtlV) -> bool {
        (self.rf as int) < v.nodes.len() && v.nodes[self.rf as int] is Rf
    }

    /// Adds the register file: 32 registers, all zero but for the stack
    /// pointer `x2`, which starts at `sp`.
    pub fn new(rtl: &mut Rtl, sp: u32) -> (r: RegFileBuilder)
        ensures
            wf(final(rtl)@.nodes, final(rtl)@.ranks),
            crate::ranks::ranks_complete(final(rtl)@.nodes, final(rtl)@.ranks),
            final(rtl)@.asms == old(rtl)@.asms,
            final(rtl)@.nodes == old(rtl)@.nodes.push(
                NodeV::Rf {
                    regs: Seq::new(32, |i: int| if i == 2 { sp } else { 0u32 }),
                    rd: Option::None,
                    rd_data: Option::None,
                    reg_write: Option::None,
                    rd_cache: 0,
                    rd_data_cache: 0,
                    reg_write_cache: 0,
                },
            ),
            r.rf == old(rtl)@.nodes.len(),
            r.wf_b(final(rtl)@),
    {
        let mut regs: Vec<u32> = Vec::new();
        let mut t: usize = 0;
        while t < 32
            invariant
                regs@.len() == t,
                0 <= t <= 32,
                forall|i: int| 0 <= i < t ==> regs@[i] == (if i == 2 { sp } else { 0u32 }),
            decreases 32 - t,
        {
            if t == 2 {
                regs.push(sp);
            } else {
                regs.push(0);
            }
            t = t + 1;
        }
        proof {
            assert(regs@ =~= Seq::new(32, |i: int| if i == 2 { sp } else { 0u32 }));
        }
        let n = rtl.push_node(
            Node::Rf(
                RegFile {
                    regs,
                    rd: Option::None,
                    rd_data: Option::None,
                    reg_write: Option::None,
                    rd_cache: 0,
                    rd_data_cache: 0,
                    reg_write_cache: 0,
                },
            ),
        );
        RegFileBuilder { rf: n }
    }

    /// Adds a combinational read port over the given address wire.
    pub fn read_port(&self, rtl: &mut Rtl, addr: PortRef) -> (p: PortRef)
        ensures
            wf(final(rtl)@.nodes, final(rtl)@.ranks),
            crate::ranks::ranks_complete(final(rtl)@.nodes, final(rtl)@.ranks),
            final(rtl)@.asms == old(rtl)@.asms,
            final(rtl)@.nodes == old(rtl)@.nodes.push(
                NodeV::RfRead { rf: self.rf, addr: Option::Some(addr.id) },
            ),
            p.id == old(rtl)@.nodes.len(),
    {
        let n = rtl.push_node(Node::RfRead(RfRead { rf: self.rf, addr: Option::Some(addr.id) }));
        PortRef { id: n }
    }

    /// Wires the write-back destination, data or enable.
    pub fn connect(&self, rtl: &mut Rtl, pin: PortRef, id: RfConnect)
        requires
            wf(old(rtl)@.nodes, old(rtl)@.ranks),
        ensures
            wf(final(rtl)@.nodes, final(rtl)@.ranks),
            crate::ranks::ranks_complete(final(rtl)@.nodes, final(rtl)@.ranks),
            final(rtl)@.asms == old(rtl)@.asms,
            final(rtl)@.nodes.len() == old(rtl)@.nodes.len(),
            self.wf_b(old(rtl)@) ==> self.wf_b(final(rtl)@),
            self.wf_b(old(rtl)@) ==> ({
                let p = rf_ports(old(rtl)@.nodes[self.rf as int]);
                final(rtl)@.nodes == old(rtl)@.nodes.update(
                    self.rf as int,
                    match id {
                        RfConnect::Rd => rf_with_ports(
                            old(rtl)@.nodes[self.rf as int],
                            Option::Some(pin.id),
                            p.1,
                            p.2,
                        ),
                        RfConnect::RdData => rf_with_ports(
                            old(rtl)@.nodes[self.rf as int],
                            p.0,
                            Option::Some(pin.id),
                            p.2,
                        ),
                        RfConnect::RegWrite => rf_with_ports(
                            old(rtl)@.nodes[self.rf as int],
                            p.0,
                            p.1,
                            Option::Some(pin.id),
                        ),
                    },
                )
            }),
    {
        let ghost pre = rtl.nodes@;
        proof {
            if (self.rf as int) < rtl.nodes@.len() {
                assert(rtl@.nodes[self.rf as int] == view_node(rtl.nodes@[self.rf as int]));
            }
        }
        if self.rf >= rtl.nodes.len() {
            rtl.recompute_ranks();
            return;
        }
        match &mut rtl.nodes[self.rf] {
            Node::Rf(f) => {
                match id {
                    RfConnect::Rd => {
                        f.rd = Option::Some(pin.id);
                    },
                    RfConnect::RdData => {
                        f.rd_data = Option::Some(pin.id);
                    },
                    RfConnect::RegWrite => {
                        f.reg_write = Option::Some(pin.id);
                    },
                }
            },
            _ => {},
        }
        proof {
            lemma_view_update(pre, self.rf as int, rtl.nodes@[self.rf as int]);
        }
        rtl.recompute_ranks();
    }

    /// Freezes the register file into a control clocking this one node.
    pub fn build(self) -> (c: ControlRef)
        ensures
            c.members@ == seq![self.rf],
            c.asm_members@.len() == 0,
    {
        let mut members: Vec<usize> = Vec::new();
        members.push(self.rf);
        proof {
            assert(members@ =~= seq![self.rf]);
        }
        ControlRef { members, asm_members: Vec::new() }
    }
}

/// Anything that reads one 32-bit value per index.
pub trait IndexPort {
    fn read(&self, index: usize) -> u32;
}

impl IndexPort for RegFile {
    /// Register 0 and out-of-range indices read as zero.
    fn read(&self, index: usize) -> u32 {
        if index == 0 {
            0
        } else if index < self.regs.len() {
            self.regs[index]
        } else {
            0
        }
    }
}

/// A by-value container for an indexed port, standing where the wiring
/// needs a single owner.
pub struct Shared<T>(pub T);

/// An exclusive handle around an indexed-port component.
pub struct IndexPortShared<T: IndexPort>(pub T);

impl<T: IndexPort> IndexPortShared<T> {
    /// Wraps a component.
    pub fn new(component: T) -> (r: IndexPortShared<T>)
        ensures
            r.0 == component,
    {
        IndexPortShared(component)
    }

    /// Borrows the component.
    pub fn borrow(&self) -> (r: &T)
        ensures
            *r == self.0,
    {
        &self.0
    }

    /// Borrows the component mutably.
    pub fn borrow_mut(&mut self) -> (r: &mut T)
        ensures
            *r == old(self).0,
            final(self).0 == *final(r),
    {
        &mut self.0
    }

    /// Clones the component out as a shared value.
    pub fn shared(&self) -> (r: Shared<T>) where T: Clone {
        Shared(self.0.clone())
    }

    /// Unwraps the component.
    pub fn into_shared(self) -> (r: Shared<T>)
        ensures
            r.0 == self.0,
    {
        Shared(self.0)
    }
}

} // verus!
