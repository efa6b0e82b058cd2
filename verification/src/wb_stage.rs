use vstd::prelude::*;

use crate::mux::{grow_slots, mux_inputs, mux_select, MuxAlloc, MuxBuilder, MuxConnect};
use crate::rtl::{wf, ControlRef, NodeV, PortRef, Rtl, RtlV};

verus! {

/// Output pin of the WB stage.
pub enum Alloc {
    Out,
}

/// Input pins of the WB stage.
pub enum Connect {
    WbSel,
    Npc,
    AluRes,
    MemData,
}

/// The WB stage: one multiplexer choosing the write-back value among the
/// link address, the ALU result and the memory read, per `WbSel`.
pub struct WbStageBuilder {
    pub mux: MuxBuilder,
}

impl WbStageBuilder {
    pub open spec fn wf_b(&self, v: RtlV) -> bool {
        self.mux.wf_b(v)
    }

    /// Adds the write-back multiplexer with all ways still holes.
    pub fn new(rtl: &mut Rtl) -> (r: WbStageBuilder)
        ensures
            wf(final(rtl)@.nodes, final(rtl)@.ranks),
            crate::ranks::ranks_complete(final(rtl)@.nodes, final(rtl)@.ranks),
            final(rtl)@.asms == old(rtl)@.asms,
            final(rtl)@.nodes == old(rtl)@.nodes.push(
                NodeV::Mux { inputs: Seq::empty(), select: Option::None },
            ),
            r.mux.node == old(rtl)@.nodes.len(),
            r.wf_b(final(rtl)@),
    {
        WbStageBuilder { mux: MuxBuilder::new(rtl) }
    }

    /// Wires one stage-level pin to its way of the multiplexer: the
    /// select line, or the link address, ALU result and memory read into
    /// ways 0, 1 and 2, the encoding `WbSel` selects by.
    pub fn connect(&self, rtl: &mut Rtl, pin: PortRef, id: Connect)
        requires
            wf(old(rtl)@.nodes, old(rtl)@.ranks),
        ensures
            wf(final(rtl)@.nodes, final(rtl)@.ranks),
            crate::ranks::ranks_complete(final(rtl)@.nodes, final(rtl)@.ranks),
            final(rtl)@.asms == old(rtl)@.asms,
            final(rtl)@.nodes.len() == old(rtl)@.nodes.len(),
            self.wf_b(old(rtl)@) ==> ({
                let m = self.mux.node as int;
                let pre = old(rtl)@.nodes[m];
                final(rtl)@.nodes == old(rtl)@.nodes.update(
                    m,
                    match id {
                        Connect::WbSel => NodeV::Mux {
                            inputs: mux_inputs(pre),
                            select: Option::Some(pin.id),
                        },
                        Connect::Npc => NodeV::Mux {
                            inputs: grow_slots(mux_inputs(pre), 1).update(0, Option::Some(pin.id)),
                            select: mux_select(pre),
                        },
                        Connect::AluRes => NodeV::Mux {
                            inputs: grow_slots(mux_inputs(pre), 2).update(1, Option::Some(pin.id)),
                            select: mux_select(pre),
                        },
                        Connect::MemData => NodeV::Mux {
                            inputs: grow_slots(mux_inputs(pre), 3).update(2, Option::Some(pin.id)),
                            select: mux_select(pre),
                        },
                    },
                )
            }),
    {
        match id {
            Connect::WbSel => self.mux.connect(rtl, pin, MuxConnect::Select),
            Connect::Npc => self.mux.connect(rtl, pin, MuxConnect::In(0)),
            Connect::AluRes => self.mux.connect(rtl, pin, MuxConnect::In(1)),
            Connect::MemData => self.mux.connect(rtl, pin, MuxConnect::In(2)),
        }
    }

    /// Hands out the write-back value port.
    pub fn alloc_port(&self, _id: Alloc) -> (p: PortRef)
        ensures
            p.id == self.mux.node,
    {
        self.mux.alloc_port(MuxAlloc::Out)
    }

    /// Freezes the stage; the multiplexer holds no state.
    pub fn build(self) -> (c: ControlRef)
        ensures
            c.members@.len() == 0,
            c.asm_members@.len() == 0,
    {
        self.mux.build()
    }
}

} // verus!
