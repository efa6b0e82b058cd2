use vstd::prelude::*;

verus! {

/// The disassembly memory: a read-only array of strings addressed by the
/// byte address of the instruction they describe.
pub struct Asm {
    pub address: Option<usize>,
    pub mem: Vec<String>,
}

/// A disassembly register: latches the string presented at its input on
/// the rising edge and shows it after the falling edge.
pub struct AsmReg {
    pub input: Option<usize>,
    pub visible: String,
    pub shadow: String,
}

} // verus!
use crate::rtl::{
    lemma_view_asm_update, view_asm, wf, AsmNode, AsmPortRef, AsmV, ControlRef, PortRef, Rtl, RtlV,
};

verus! {

/// Input selector of the disassembly memory.
pub enum Connect {
    Address,
}

/// Selectors of a disassembly register.
pub enum AsmRegAlloc {
    Out,
}

pub enum AsmRegConnect {
    In,
}

impl Asm {
    /// A disassembly memory over the given strings, address not yet wired.
    pub fn new(mem: Vec<String>) -> (r: Asm)
        ensures
            r.address is None,
            r.mem@ == mem@,
    {
        Asm { address: Option::None, mem }
    }
}

/// A shared handle to a disassembly source placed in the circuit.
pub struct AsmPortShared {
    pub id: usize,
}

impl AsmPortShared {
    /// Places a disassembly memory in the circuit and hands out its port.
    pub fn new(rtl: &mut Rtl, a: Asm) -> (r: AsmPortShared)
        ensures
            final(rtl)@.asms == old(rtl)@.asms.push(view_asm(AsmNode::AMem(a))),
            final(rtl)@.nodes == old(rtl)@.nodes,
            final(rtl)@.ranks == old(rtl)@.ranks,
            r.id == old(rtl)@.asms.len(),
    {
        let id = rtl.push_asm(AsmNode::AMem(a));
        AsmPortShared { id }
    }
}

impl AsmPortRef {
    /// Reads the string this disassembly port currently shows.
    pub fn read(&self, rtl: &Rtl) -> (r: Option<String>)
        requires
            wf(rtl@.nodes, rtl@.ranks),
            self.id < rtl@.asms.len(),
        ensures
            match r {
                Option::Some(s) => crate::clock::asm_value(
                    rtl@.nodes,
                    rtl@.ranks,
                    rtl@.asms,
                    self.id as int,
                ) == Option::Some(s@),
                Option::None => crate::clock::asm_value(
                    rtl@.nodes,
                    rtl@.ranks,
                    rtl@.asms,
                    self.id as int,
                ) is None,
            },
    {
        rtl.read_asm(self.id)
    }
}

pub open spec fn amem_strings(n: AsmV) -> Seq<Seq<char>> {
    match n {
        AsmV::AMem { mem, .. } => mem,
        _ => Seq::empty(),
    }
}

/// Builds the disassembly memory.
pub struct AsmMemBuilder {
    pub node: usize,
}

impl AsmMemBuilder {
    pub open spec fn wf_b(&self, v: RtlV) -> bool {
        (self.node as int) < v.asms.len() && v.asms[self.node as int] is AMem
    }

    /// Adds a disassembly memory over the given strings.
    pub fn new(rtl: &mut Rtl, mem: Vec<String>) -> (r: AsmMemBuilder)
        ensures
            final(rtl)@.asms == old(rtl)@.asms.push(
                AsmV::AMem {
                    address: Option::None,
                    mem: mem@.map_values(|s: String| s@),
                },
            ),
            final(rtl)@.nodes == old(rtl)@.nodes,
            final(rtl)@.ranks == old(rtl)@.ranks,
            r.node == old(rtl)@.asms.len(),
            r.wf_b(final(rtl)@),
    {
        let id = rtl.push_asm(AsmNode::AMem(Asm { address: Option::None, mem }));
        AsmMemBuilder { node: id }
    }

    /// Hands out the disassembly read port.
    pub fn asm_alloc(&self, _id: usize) -> (p: AsmPortRef)
        ensures
            p.id == self.node,
    {
        AsmPortRef { id: self.node }
    }

    /// Wires the byte-address port that selects the string.
    pub fn connect(&self, rtl: &mut Rtl, pin: PortRef, _id: Connect)
        ensures
            self.wf_b(old(rtl)@) ==> final(rtl)@.asms == old(rtl)@.asms.update(
                self.node as int,
                AsmV::AMem {
                    address: Option::Some(pin.id),
                    mem: amem_strings(old(rtl)@.asms[self.node as int]),
                },
            ),
            final(rtl)@.asms.len() == old(rtl)@.asms.len(),
            final(rtl)@.nodes == old(rtl)@.nodes,
            final(rtl)@.ranks == old(rtl)@.ranks,
            self.wf_b(old(rtl)@) ==> self.wf_b(final(rtl)@),
    {
        let ghost pre = rtl.asm_nodes@;
        if self.node >= rtl.asm_nodes.len() {
            return;
        }
        proof {
            assert(rtl@.asms[self.node as int] == view_asm(rtl.asm_nodes@[self.node as int]));
        }
        match &mut rtl.asm_nodes[self.node] {
            AsmNode::AMem(a) => {
                a.address = Option::Some(pin.id);
            },
            _ => {},
        }
        proof {
            lemma_view_asm_update(pre, self.node as int, rtl.asm_nodes@[self.node as int]);
        }
    }

    /// Freezes the disassembly memory; it holds no clocked state.
    pub fn build(self) -> (c: ControlRef)
        ensures
            c.members@.len() == 0,
            c.asm_members@.len() == 0,
    {
        ControlRef { members: Vec::new(), asm_members: Vec::new() }
    }
}

/// Builds one disassembly register.
pub struct AsmRegBuilder {
    pub node: usize,
}

impl AsmRegBuilder {
    pub open spec fn wf_b(&self, v: RtlV) -> bool {
        (self.node as int) < v.asms.len() && v.asms[self.node as int] is AReg
    }

    /// Adds a fresh disassembly register holding the empty string.
    pub fn new(rtl: &mut Rtl) -> (r: AsmRegBuilder)
        ensures
            final(rtl)@.asms == old(rtl)@.asms.push(
                AsmV::AReg {
                    input: Option::None,
                    visible: Seq::empty(),
                    shadow: Seq::empty(),
                },
            ),
            final(rtl)@.nodes == old(rtl)@.nodes,
            final(rtl)@.ranks == old(rtl)@.ranks,
            r.node == old(rtl)@.asms.len(),
            r.wf_b(final(rtl)@),
    {
        let id = rtl.push_asm(
            AsmNode::AReg(AsmReg { input: Option::None, visible: String::new(), shadow: String::new() }),
        );
        AsmRegBuilder { node: id }
    }

    /// Wires the upstream disassembly port.
    pub fn asm_connect(&self, rtl: &mut Rtl, pin: AsmPortRef, _id: AsmRegConnect)
        ensures
            self.wf_b(old(rtl)@) ==> final(rtl)@.asms == old(rtl)@.asms.update(
                self.node as int,
                match old(rtl)@.asms[self.node as int] {
                    AsmV::AReg { input, visible, shadow } => AsmV::AReg {
                        input: Option::Some(pin.id),
                        visible,
                        shadow,
                    },
                    other => other,
                },
            ),
            final(rtl)@.asms.len() == old(rtl)@.asms.len(),
            final(rtl)@.nodes == old(rtl)@.nodes,
            final(rtl)@.ranks == old(rtl)@.ranks,
            self.wf_b(old(rtl)@) ==> self.wf_b(final(rtl)@),
    {
        let ghost pre = rtl.asm_nodes@;
        if self.node >= rtl.asm_nodes.len() {
            return;
        }
        proof {
            assert(rtl@.asms[self.node as int] == view_asm(rtl.asm_nodes@[self.node as int]));
        }
        match &mut rtl.asm_nodes[self.node] {
            AsmNode::AReg(r) => {
                r.input = Option::Some(pin.id);
            },
            _ => {},
        }
        proof {
            lemma_view_asm_update(pre, self.node as int, rtl.asm_nodes@[self.node as int]);
        }
    }

    /// Hands out this register's disassembly port.
    pub fn asm_alloc(&self, _id: AsmRegAlloc) -> (p: AsmPortRef)
        ensures
            p.id == self.node,
    {
        AsmPortRef { id: self.node }
    }

    /// Freezes the register into a control clocking this one node.
    pub fn build(self) -> (c: ControlRef)
        ensures
            c.members@.len() == 0,
            c.asm_members@ == seq![self.node],
    {
        let mut asm_members: Vec<usize> = Vec::new();
        asm_members.push(self.node);
        proof {
            assert(asm_members@ =~= seq![self.node]);
        }
        ControlRef { members: Vec::new(), asm_members }
    }
}

} // verus!
