use vstd::prelude::*;

verus! {

/// Output selector of an adder: its single sum output.
pub enum Alloc {
    Out,
}

/// Input selector of an adder: the i-th summand.
pub enum Connect {
    In(usize),
}

/// A variadic combinational adder: its output is the wrapping sum of all
/// connected inputs.
pub struct Add {
    pub inputs: Vec<usize>,
}

} // verus!
use crate::rtl::{lemma_view_update, view_node, wf, Node, NodeV, ControlRef, PortRef, Rtl};

verus! {

/// The input list of an adder node; other nodes are not adders.
pub open spec fn add_inputs(n: NodeV) -> Seq<usize> {
    match n {
        NodeV::Add(inputs) => inputs,
        _ => Seq::empty(),
    }
}

/// Builds one adder node and records its wiring.
pub struct AddBuilder {
    pub node: usize,
}

impl AddBuilder {
    /// Whether this builder's node is an adder inside the circuit.
    pub open spec fn wf_b(&self, v: crate::rtl::RtlV) -> bool {
        (self.node as int) < v.nodes.len() && v.nodes[self.node as int] is Add
    }

    /// Adds a fresh adder with no inputs.
    pub fn new(rtl: &mut Rtl) -> (r: AddBuilder)
        ensures
            final(rtl)@.nodes == old(rtl)@.nodes.push(NodeV::Add(Seq::empty())),
            final(rtl)@.asms == old(rtl)@.asms,
            wf(final(rtl)@.nodes, final(rtl)@.ranks),
            crate::ranks::ranks_complete(final(rtl)@.nodes, final(rtl)@.ranks),
            r.node == old(rtl)@.nodes.len(),
            r.wf_b(final(rtl)@),
    {
        let n = rtl.push_node(Node::Add(Add { inputs: Vec::new() }));
        AddBuilder { node: n }
    }

    /// Wires one more summand to the adder.
    pub fn connect(&self, rtl: &mut Rtl, pin: PortRef, _id: Connect)
        requires
            wf(old(rtl)@.nodes, old(rtl)@.ranks),
        ensures
            self.wf_b(old(rtl)@) ==> final(rtl)@.nodes == old(rtl)@.nodes.update(
                self.node as int,
                NodeV::Add(add_inputs(old(rtl)@.nodes[self.node as int]).push(pin.id)),
            ),
            final(rtl)@.nodes.len() == old(rtl)@.nodes.len(),
            final(rtl)@.asms == old(rtl)@.asms,
            wf(final(rtl)@.nodes, final(rtl)@.ranks),
            crate::ranks::ranks_complete(final(rtl)@.nodes, final(rtl)@.ranks),
            self.wf_b(old(rtl)@) ==> self.wf_b(final(rtl)@),
    {
        let ghost pre = rtl.nodes@;
        proof {
            if (self.node as int) < rtl.nodes@.len() {
                assert(rtl@.nodes[self.node as int] == view_node(rtl.nodes@[self.node as int]));
            }
        }
        if self.node < rtl.nodes.len() {
            match &mut rtl.nodes[self.node] {
                Node::Add(a) => {
                    a.inputs.push(pin.id);
                },
                _ => {},
            }
            proof {
                lemma_view_update(pre, self.node as int, rtl.nodes@[self.node as int]);
            }
        }
        rtl.recompute_ranks();
    }

    /// Hands out the adder's output port.
    pub fn alloc_port(&self, _id: Alloc) -> (p: PortRef)
        ensures
            p.id == self.node,
    {
        PortRef { id: self.node }
    }

    /// Freezes the adder; it holds no state, so the control is empty.
    pub fn build(self) -> (c: ControlRef)
        ensures
            c.members@.len() == 0,
            c.asm_members@.len() == 0,
    {
        ControlRef { members: Vec::new(), asm_members: Vec::new() }
    }
}

} // verus!
