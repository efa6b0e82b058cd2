use vstd::prelude::*;

verus! {

/// Output selector of a register.
pub enum RegAlloc {
    Out,
}

/// Input selectors of a register.
pub enum RegConnect {
    In,
    Enable,
    Clear,
}

/// A 32-bit edge-triggered register. On the rising edge the shadow samples
/// the input (clear wins over enable, a missing enable defaults to 1 and a
/// missing clear to 0); on the falling edge the shadow becomes visible.
/// Its output reads the visible value only, so a register breaks every
/// combinational cycle it sits on.
pub struct Reg {
    pub input: Option<usize>,
    pub enable: Option<usize>,
    pub clear: Option<usize>,
    pub visible: u32,
    pub shadow: u32,
}

} // verus!
use crate::rtl::{lemma_view_update, view_node, wf, ControlRef, Node, NodeV, PortRef, Rtl, RtlV};

verus! {

pub open spec fn reg_fields(n: NodeV) -> (Option<usize>, Option<usize>, Option<usize>, u32, u32) {
    match n {
        NodeV::Reg { input, enable, clear, visible, shadow } => (input, enable, clear, visible, shadow),
        _ => (Option::None, Option::None, Option::None, 0, 0),
    }
}

/// The effect of wiring one register pin: the named port becomes the
/// given wire, everything else stays.
pub open spec fn reg_conn(n: NodeV, pin: usize, id: RegConnect) -> NodeV {
    match n {
        NodeV::Reg { input, enable, clear, visible, shadow } => match id {
            RegConnect::In => NodeV::Reg {
                input: Option::Some(pin),
                enable,
                clear,
                visible,
                shadow,
            },
            RegConnect::Enable => NodeV::Reg {
                input,
                enable: Option::Some(pin),
                clear,
                visible,
                shadow,
            },
            RegConnect::Clear => NodeV::Reg {
                input,
                enable,
                clear: Option::Some(pin),
                visible,
                shadow,
            },
        },
        other => other,
    }
}

/// Builds one register node and records its wiring.
pub struct RegBuilder {
    pub node: usize,
}

impl RegBuilder {
    pub open spec fn wf_b(&self, v: RtlV) -> bool {
        (self.node as int) < v.nodes.len() && v.nodes[self.node as int] is Reg
    }

    /// Adds a fresh register holding `init`, with enable defaulting to 1
    /// and clear to 0 until wired.
    pub fn new(rtl: &mut Rtl, init: u32) -> (r: RegBuilder)
        ensures
            final(rtl)@.nodes == old(rtl)@.nodes.push(
                NodeV::Reg {
                    input: Option::None,
                    enable: Option::None,
                    clear: Option::None,
                    visible: init,
                    shadow: init,
                },
            ),
            final(rtl)@.asms == old(rtl)@.asms,
            wf(final(rtl)@.nodes, final(rtl)@.ranks),
            crate::ranks::ranks_complete(final(rtl)@.nodes, final(rtl)@.ranks),
            r.node == old(rtl)@.nodes.len(),
            r.wf_b(final(rtl)@),
    {
        let n = rtl.push_node(
            Node::Reg(
                Reg {
                    input: Option::None,
                    enable: Option::None,
                    clear: Option::None,
                    visible: init,
                    shadow: init,
                },
            ),
        );
        RegBuilder { node: n }
    }

    /// Wires the data input, the enable line or the clear line.
    pub fn connect(&self, rtl: &mut Rtl, pin: PortRef, id: RegConnect)
        requires
            wf(old(rtl)@.nodes, old(rtl)@.ranks),
        ensures
            wf(final(rtl)@.nodes, final(rtl)@.ranks),
            crate::ranks::ranks_complete(final(rtl)@.nodes, final(rtl)@.ranks),
            final(rtl)@.asms == old(rtl)@.asms,
            final(rtl)@.nodes.len() == old(rtl)@.nodes.len(),
            self.wf_b(old(rtl)@) ==> self.wf_b(final(rtl)@),
            self.wf_b(old(rtl)@) ==> ({
                let f = reg_fields(old(rtl)@.nodes[self.node as int]);
                final(rtl)@.nodes == old(rtl)@.nodes.update(
                    self.node as int,
                    match id {
                        RegConnect::In => NodeV::Reg {
                            input: Option::Some(pin.id),
                            enable: f.1,
                            clear: f.2,
                            visible: f.3,
                            shadow: f.4,
                        },
                        RegConnect::Enable => NodeV::Reg {
                            input: f.0,
                            enable: Option::Some(pin.id),
                            clear: f.2,
                            visible: f.3,
                            shadow: f.4,
                        },
                        RegConnect::Clear => NodeV::Reg {
                            input: f.0,
                            enable: f.1,
                            clear: Option::Some(pin.id),
                            visible: f.3,
                            shadow: f.4,
                        },
                    },
                )
            }),
    {
        let ghost pre = rtl.nodes@;
        proof {
            if (self.node as int) < rtl.nodes@.len() {
                assert(rtl@.nodes[self.node as int] == view_node(rtl.nodes@[self.node as int]));
            }
        }
        if self.node >= rtl.nodes.len() {
            rtl.recompute_ranks();
            return;
        }
        match &mut rtl.nodes[self.node] {
            Node::Reg(r) => {
                match id {
                    RegConnect::In => {
                        r.input = Option::Some(pin.id);
                    },
                    RegConnect::Enable => {
                        r.enable = Option::Some(pin.id);
                    },
                    RegConnect::Clear => {
                        r.clear = Option::Some(pin.id);
                    },
                }
            },
            _ => {},
        }
        proof {
            lemma_view_update(pre, self.node as int, rtl.nodes@[self.node as int]);
        }
        rtl.recompute_ranks();
    }

    /// Hands out the register's output port, which reads the visible value.
    pub fn alloc_port(&self, _id: RegAlloc) -> (p: PortRef)
        ensures
            p.id == self.node,
    {
        PortRef { id: self.node }
    }

    /// Freezes the register into a control clocking this one node.
    pub fn build(self) -> (c: ControlRef)
        ensures
            c.members@ == seq![self.node],
            c.asm_members@.len() == 0,
    {
        let mut members: Vec<usize> = Vec::new();
        members.push(self.node);
        proof {
            assert(members@ =~= seq![self.node]);
        }
        ControlRef { members, asm_members: Vec::new() }
    }
}

} // verus!
