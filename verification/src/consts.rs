use vstd::prelude::*;

use crate::rtl::{wf, NodeV, Node, PortRef, Rtl};

verus! {

/// Output selector of a constant source: one output per literal value.
pub enum ConstsAlloc {
    Out(u32),
}

/// The literal a constant allocation names.
pub open spec fn const_of(id: ConstsAlloc) -> u32 {
    match id {
        ConstsAlloc::Out(v) => v,
    }
}

/// A source of constant outputs: allocating `Out(v)` yields a fresh port
/// that always reads `v`.
pub struct ConstsBuilder {}

impl ConstsBuilder {
    /// A constant source with no outputs yet.
    pub fn new() -> (r: ConstsBuilder) {
        ConstsBuilder {  }
    }

    /// Allocates a port that always reads the given literal.
    pub fn alloc_port(&self, rtl: &mut Rtl, id: ConstsAlloc) -> (p: PortRef)
        ensures
            final(rtl)@.nodes == old(rtl)@.nodes.push(NodeV::Cst(const_of(id))),
            final(rtl)@.asms == old(rtl)@.asms,
            final(rtl)@.ranks.len() == final(rtl)@.nodes.len(),
            wf(final(rtl)@.nodes, final(rtl)@.ranks),
            crate::ranks::ranks_complete(final(rtl)@.nodes, final(rtl)@.ranks),
            p.id == old(rtl)@.nodes.len(),
    {
        let ConstsAlloc::Out(v) = id;
        let n = rtl.push_node(Node::Cst(v));
        PortRef { id: n }
    }
}

} // verus!
