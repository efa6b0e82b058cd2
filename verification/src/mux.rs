use vstd::prelude::*;

verus! {

/// Output selector of a multiplexer.
pub enum MuxAlloc {
    Out,
}

/// Input selectors of a multiplexer: data input `In(i)` or the select line.
pub enum MuxConnect {
    In(usize),
    Select,
}

/// An N-input multiplexer: the output is the input chosen by the select line.
pub struct Mux {
    pub inputs: Vec<Option<usize>>,
    pub select: Option<usize>,
}

} // verus!
use crate::rtl::{lemma_view_update, view_node, wf, ControlRef, Node, NodeV, PortRef, Rtl, RtlV};

verus! {

pub open spec fn mux_inputs(n: NodeV) -> Seq<Option<usize>> {
    match n {
        NodeV::Mux { inputs, .. } => inputs,
        _ => Seq::empty(),
    }
}

pub open spec fn mux_select(n: NodeV) -> Option<usize> {
    match n {
        NodeV::Mux { select, .. } => select,
        _ => Option::None,
    }
}

/// A slot list grown with holes to at least `m` entries.
pub open spec fn grow_slots(s: Seq<Option<usize>>, m: int) -> Seq<Option<usize>> {
    if m <= s.len() {
        s
    } else {
        s + Seq::new((m - s.len()) as nat, |x: int| Option::<usize>::None)
    }
}

/// Builds one multiplexer node and records its wiring.
pub struct MuxBuilder {
    pub node: usize,
}

impl MuxBuilder {
    pub open spec fn wf_b(&self, v: RtlV) -> bool {
        (self.node as int) < v.nodes.len() && v.nodes[self.node as int] is Mux
    }

    /// Adds a fresh multiplexer with no inputs and no select line.
    pub fn new(rtl: &mut Rtl) -> (r: MuxBuilder)
        ensures
            final(rtl)@.nodes == old(rtl)@.nodes.push(
                NodeV::Mux { inputs: Seq::empty(), select: Option::None },
            ),
            final(rtl)@.asms == old(rtl)@.asms,
            wf(final(rtl)@.nodes, final(rtl)@.ranks),
            crate::ranks::ranks_complete(final(rtl)@.nodes, final(rtl)@.ranks),
            r.node == old(rtl)@.nodes.len(),
            r.wf_b(final(rtl)@),
    {
        let n = rtl.push_node(Node::Mux(Mux { inputs: Vec::new(), select: Option::None }));
        MuxBuilder { node: n }
    }

    /// Wires a data input into slot `i` or the select line.
    pub fn connect(&self, rtl: &mut Rtl, pin: PortRef, id: MuxConnect)
        requires
            wf(old(rtl)@.nodes, old(rtl)@.ranks),
        ensures
            wf(final(rtl)@.nodes, final(rtl)@.ranks),
            crate::ranks::ranks_complete(final(rtl)@.nodes, final(rtl)@.ranks),
            final(rtl)@.asms == old(rtl)@.asms,
            final(rtl)@.nodes.len() == old(rtl)@.nodes.len(),
            self.wf_b(old(rtl)@) ==> self.wf_b(final(rtl)@),
            self.wf_b(old(rtl)@) ==> (id matches MuxConnect::In(i) ==> final(rtl)@.nodes == old(rtl)@.nodes.update(
                self.node as int,
                NodeV::Mux {
                    inputs: grow_slots(
                        mux_inputs(old(rtl)@.nodes[self.node as int]),
                        i + 1,
                    ).update(i as int, Option::Some(pin.id)),
                    select: mux_select(old(rtl)@.nodes[self.node as int]),
                },
            )),
            self.wf_b(old(rtl)@) ==> (id matches MuxConnect::Select ==> final(rtl)@.nodes == old(rtl)@.nodes.update(
                self.node as int,
                NodeV::Mux {
                    inputs: mux_inputs(old(rtl)@.nodes[self.node as int]),
                    select: Option::Some(pin.id),
                },
            )),
    {
        let ghost pre = rtl.nodes@;
        proof {
            if (self.node as int) < rtl.nodes@.len() {
                assert(rtl@.nodes[self.node as int] == view_node(rtl.nodes@[self.node as int]));
            }
        }
        if self.node >= rtl.nodes.len() {
            rtl.recompute_ranks();
            return;
        }
        match id {
            MuxConnect::In(i) => {
                match &mut rtl.nodes[self.node] {
                    Node::Mux(m) => {
                        let ghost olds = m.inputs@;
                        let ghost sel0 = m.select;
                        while m.inputs.len() <= i
                            invariant
                                olds.len() <= m.inputs@.len(),
                                m.inputs@.len() <= i + 1 || m.inputs@.len() == olds.len(),
                                forall|j: int| 0 <= j < olds.len() ==> m.inputs@[j] == olds[j],
                                forall|j: int|
                                    olds.len() <= j < m.inputs@.len() ==> m.inputs@[j] is None,
                                m.select == sel0,
                            decreases i + 1 - m.inputs@.len(),
                        {
                            m.inputs.push(Option::None);
                        }
                        proof {
                            assert(m.inputs@ =~= grow_slots(olds, i + 1));
                        }
                        m.inputs[i] = Option::Some(pin.id);
                    },
                    _ => {},
                }
            },
            MuxConnect::Select => {
                match &mut rtl.nodes[self.node] {
                    Node::Mux(m) => {
                        m.select = Option::Some(pin.id);
                    },
                    _ => {},
                }
            },
        }
        proof {
            lemma_view_update(pre, self.node as int, rtl.nodes@[self.node as int]);
        }
        rtl.recompute_ranks();
    }

    /// Hands out the multiplexer's output port.
    pub fn alloc_port(&self, _id: MuxAlloc) -> (p: PortRef)
        ensures
            p.id == self.node,
    {
        PortRef { id: self.node }
    }

    /// Freezes the multiplexer; it holds no state.
    pub fn build(self) -> (c: ControlRef)
        ensures
            c.members@.len() == 0,
            c.asm_members@.len() == 0,
    {
        ControlRef { members: Vec::new(), asm_members: Vec::new() }
    }
}

} // verus!
