use vstd::prelude::*;

use crate::add::Add;
use crate::dis::{Asm, AsmReg};
use crate::decode::{bitsel_f, ctl_f, imm_f, BitSel, CtlSig, ImmGen, Sig};
use crate::ex_stage::alu::{alu_f, Alu};
use crate::ex_stage::branch::{branch_f, Branch};
use crate::ex_stage::forward::{forward_f, Forward};
use crate::hazard::{hazard_f, Hazard};
use crate::logic::{NotGate, OrGate};
use crate::mem::{Mem, STACK_ADDR};
use crate::mux::Mux;
use crate::reg::Reg;
use crate::regfile::{rf_read_f, RegFile, RfRead};

verus! {

/// A shared handle to one output port: combinational values are read
/// through it. Ports are indices into the circuit's node arena, so a
/// handle stays valid for as long as the circuit lives.
#[derive(Clone, Copy)]
pub struct PortRef {
    pub id: usize,
}

/// A handle to a disassembly-string port.
#[derive(Clone, Copy)]
pub struct AsmPortRef {
    pub id: usize,
}

/// A built control: the set of stateful nodes one component contributed,
/// clocked together on the rising and falling edges.
pub struct ControlRef {
    pub members: Vec<usize>,
    pub asm_members: Vec<usize>,
}

/// One node of the circuit graph.
pub enum Node {
    Cst(u32),
    Add(Add),
    Mux(Mux),
    Reg(Reg),
    Mem(Mem),
    Alu(Alu),
    Branch(Branch),
    Forward(Forward),
    Bits(BitSel),
    Imm(ImmGen),
    Ctl(CtlSig),
    Rf(RegFile),
    RfRead(RfRead),
    NotG(NotGate),
    OrG(OrGate),
    Hz(Hazard),
}

/// One disassembly node.
pub enum AsmNode {
    AMem(Asm),
    AReg(AsmReg),
}

/// The mathematical view of a node: the same shape with sequences for the
/// backing vectors.
pub enum NodeV {
    Cst(u32),
    Add(Seq<usize>),
    Mux { inputs: Seq<Option<usize>>, select: Option<usize> },
    Reg { input: Option<usize>, enable: Option<usize>, clear: Option<usize>, visible: u32, shadow: u32 },
    Mem {
        data: Seq<u8>,
        stack: Seq<u8>,
        address: Option<usize>,
        input: Option<usize>,
        write: Option<usize>,
        read_en: Option<usize>,
        address_cache: u32,
        input_cache: u32,
        write_cache: u32,
    },
    Alu { op1: Option<usize>, op2: Option<usize>, ctrl: Option<usize> },
    Branch {
        op1: Option<usize>,
        op2: Option<usize>,
        branch_sel: Option<usize>,
        branch_type: Option<usize>,
        jal: Option<usize>,
    },
    Forward {
        rs: Option<usize>,
        rd_mem: Option<usize>,
        rd_mem_write: Option<usize>,
        rd_wb: Option<usize>,
        rd_wb_write: Option<usize>,
    },
    Bits { input: Option<usize>, lo: u32, mask: u32 },
    Imm { input: Option<usize> },
    Ctl { sig: Sig, opcode: Option<usize>, funct3: Option<usize>, funct7: Option<usize> },
    Rf {
        regs: Seq<u32>,
        rd: Option<usize>,
        rd_data: Option<usize>,
        reg_write: Option<usize>,
        rd_cache: u32,
        rd_data_cache: u32,
        reg_write_cache: u32,
    },
    RfRead { rf: usize, addr: Option<usize> },
    NotG { input: Option<usize> },
    OrG(Seq<usize>),
    Hz { mem_read: Option<usize>, rd: Option<usize>, rs1: Option<usize>, rs2: Option<usize> },
}

/// The mathematical view of a disassembly node.
pub enum AsmV {
    AMem { address: Option<usize>, mem: Seq<Seq<char>> },
    AReg { input: Option<usize>, visible: Seq<char>, shadow: Seq<char> },
}

pub open spec fn view_node(n: Node) -> NodeV {
    match n {
        Node::Cst(c) => NodeV::Cst(c),
        Node::Add(a) => NodeV::Add(a.inputs@),
        Node::Mux(m) => NodeV::Mux { inputs: m.inputs@, select: m.select },
        Node::Reg(r) => NodeV::Reg {
            input: r.input,
            enable: r.enable,
            clear: r.clear,
            visible: r.visible,
            shadow: r.shadow,
        },
        Node::Mem(m) => NodeV::Mem {
            data: m.data@,
            stack: m.stack@,
            address: m.address,
            input: m.input,
            write: m.write,
            read_en: m.read_en,
            address_cache: m.address_cache,
            input_cache: m.input_cache,
            write_cache: m.write_cache,
        },
        Node::Alu(a) => NodeV::Alu { op1: a.op1, op2: a.op2, ctrl: a.ctrl },
        Node::Branch(b) => NodeV::Branch {
            op1: b.op1,
            op2: b.op2,
            branch_sel: b.branch_sel,
            branch_type: b.branch_type,
            jal: b.jal,
        },
        Node::Forward(f) => NodeV::Forward {
            rs: f.rs,
            rd_mem: f.rd_mem,
            rd_mem_write: f.rd_mem_write,
            rd_wb: f.rd_wb,
            rd_wb_write: f.rd_wb_write,
        },
        Node::Bits(b) => NodeV::Bits { input: b.input, lo: b.lo, mask: b.mask },
        Node::Imm(i) => NodeV::Imm { input: i.input },
        Node::Ctl(c) => NodeV::Ctl { sig: c.sig, opcode: c.opcode, funct3: c.funct3, funct7: c.funct7 },
        Node::Rf(f) => NodeV::Rf {
            regs: f.regs@,
            rd: f.rd,
            rd_data: f.rd_data,
            reg_write: f.reg_write,
            rd_cache: f.rd_cache,
            rd_data_cache: f.rd_data_cache,
            reg_write_cache: f.reg_write_cache,
        },
        Node::RfRead(r) => NodeV::RfRead { rf: r.rf, addr: r.addr },
        Node::NotG(g) => NodeV::NotG { input: g.input },
        Node::OrG(g) => NodeV::OrG(g.inputs@),
        Node::Hz(h) => NodeV::Hz { mem_read: h.mem_read, rd: h.rd, rs1: h.rs1, rs2: h.rs2 },
    }
}

pub open spec fn view_asm(n: AsmNode) -> AsmV {
    match n {
        AsmNode::AMem(a) => AsmV::AMem {
            address: a.address,
            mem: a.mem@.map_values(|s: String| s@),
        },
        AsmNode::AReg(r) => AsmV::AReg { input: r.input, visible: r.visible@, shadow: r.shadow@ },
    }
}

/// The mathematical view of a whole circuit.
pub struct RtlV {
    pub nodes: Seq<NodeV>,
    pub ranks: Seq<Option<usize>>,
    pub asms: Seq<AsmV>,
}

/// The circuit: an arena of nodes wired by index, plus a topological rank
/// for every node whose combinational inputs are acyclic. Ranks are
/// recomputed whenever the structure changes; a node keeps no rank while a
/// combinational cycle or an unconnected region prevents ordering it, and
/// reading such a node yields `None` instead of recursing forever.
pub struct Rtl {
    pub nodes: Vec<Node>,
    pub ranks: Vec<Option<usize>>,
    pub asm_nodes: Vec<AsmNode>,
}

impl View for Rtl {
    type V = RtlV;

    open spec fn view(&self) -> RtlV {
        RtlV {
            nodes: self.nodes@.map_values(|n: Node| view_node(n)),
            ranks: self.ranks@,
            asms: self.asm_nodes@.map_values(|n: AsmNode| view_asm(n)),
        }
    }
}

/// A single wired input is sound when it points below the node's own rank.
pub open spec fn inp_ok(n: int, ranks: Seq<Option<usize>>, j: usize, ri: usize) -> bool {
    (j as int) < n && match ranks[j as int] {
        Option::Some(rj) => rj < ri,
        Option::None => false,
    }
}

pub open spec fn opt_ok(n: int, ranks: Seq<Option<usize>>, o: Option<usize>, ri: usize) -> bool {
    match o {
        Option::Some(j) => inp_ok(n, ranks, j, ri),
        Option::None => true,
    }
}

pub open spec fn vec_ok(n: int, ranks: Seq<Option<usize>>, s: Seq<usize>, ri: usize) -> bool {
    forall|k: int| 0 <= k < s.len() ==> inp_ok(n, ranks, #[trigger] s[k], ri)
}

pub open spec fn slots_ok(n: int, ranks: Seq<Option<usize>>, s: Seq<Option<usize>>, ri: usize) -> bool {
    forall|k: int| 0 <= k < s.len() ==> opt_ok(n, ranks, #[trigger] s[k], ri)
}

/// A ranked node only reaches lower-ranked nodes through its combinational
/// inputs; registers, the register file and constants have none, which is
/// what lets feedback paths through them be ranked.
pub open spec fn node_ok(nodes: Seq<NodeV>, ranks: Seq<Option<usize>>, i: int) -> bool {
    match ranks[i] {
        Option::None => true,
        Option::Some(ri) => {
            let n = nodes.len() as int;
            match nodes[i] {
                NodeV::Cst(_) => true,
                NodeV::Add(inputs) => vec_ok(n, ranks, inputs, ri),
                NodeV::Mux { inputs, select } => opt_ok(n, ranks, select, ri) && slots_ok(
                    n,
                    ranks,
                    inputs,
                    ri,
                ),
                NodeV::Reg { .. } => true,
                NodeV::Mem { address, read_en, .. } => opt_ok(n, ranks, address, ri) && opt_ok(
                    n,
                    ranks,
                    read_en,
                    ri,
                ),
                NodeV::Alu { op1, op2, ctrl } => opt_ok(n, ranks, op1, ri) && opt_ok(
                    n,
                    ranks,
                    op2,
                    ri,
                ) && opt_ok(n, ranks, ctrl, ri),
                NodeV::Branch { op1, op2, branch_sel, branch_type, jal } => opt_ok(n, ranks, op1, ri)
                    && opt_ok(n, ranks, op2, ri) && opt_ok(n, ranks, branch_sel, ri) && opt_ok(
                    n,
                    ranks,
                    branch_type,
                    ri,
                ) && opt_ok(n, ranks, jal, ri),
                NodeV::Forward { rs, rd_mem, rd_mem_write, rd_wb, rd_wb_write } => opt_ok(
                    n,
                    ranks,
                    rs,
                    ri,
                ) && opt_ok(n, ranks, rd_mem, ri) && opt_ok(n, ranks, rd_mem_write, ri) && opt_ok(
                    n,
                    ranks,
                    rd_wb,
                    ri,
                ) && opt_ok(n, ranks, rd_wb_write, ri),
                NodeV::Bits { input, .. } => opt_ok(n, ranks, input, ri),
                NodeV::Imm { input } => opt_ok(n, ranks, input, ri),
                NodeV::Ctl { opcode, funct3, funct7, .. } => opt_ok(n, ranks, opcode, ri) && opt_ok(
                    n,
                    ranks,
                    funct3,
                    ri,
                ) && opt_ok(n, ranks, funct7, ri),
                NodeV::Rf { .. } => true,
                NodeV::RfRead { addr, .. } => opt_ok(n, ranks, addr, ri),
                NodeV::NotG { input } => opt_ok(n, ranks, input, ri),
                NodeV::OrG(inputs) => vec_ok(n, ranks, inputs, ri),
                NodeV::Hz { mem_read, rd, rs1, rs2 } => opt_ok(n, ranks, mem_read, ri) && opt_ok(
                    n,
                    ranks,
                    rd,
                    ri,
                ) && opt_ok(n, ranks, rs1, ri) && opt_ok(n, ranks, rs2, ri),
            }
        },
    }
}

/// The circuit's structural invariant: every node is rank-sound.
pub open spec fn wf(nodes: Seq<NodeV>, ranks: Seq<Option<usize>>) -> bool {
    &&& ranks.len() == nodes.len()
    &&& forall|i: int| 0 <= i < nodes.len() ==> #[trigger] node_ok(nodes, ranks, i)
}

/// The termination measure of a node: one more than its rank, or zero when
/// it has no rank (in which case its value is `None` with no recursion).
pub open spec fn rank_m(ranks: Seq<Option<usize>>, i: int) -> nat {
    if 0 <= i < ranks.len() {
        match ranks[i] {
            Option::Some(r) => r as nat + 1,
            Option::None => 0,
        }
    } else {
        0
    }
}

pub open spec fn port_m(ranks: Seq<Option<usize>>, o: Option<usize>) -> nat {
    match o {
        Option::Some(j) => rank_m(ranks, j as int),
        Option::None => 0,
    }
}

/// Wrapping 32-bit sum.
pub open spec fn wadd_s(a: u32, b: u32) -> u32 {
    (((a + b) % 0x1_0000_0000) as u32)
}

/// Four bytes read little-endian.
pub open spec fn le_word(s: Seq<u8>, a: int) -> u32 {
    (s[a] as u32) | ((s[a + 1] as u32) << 8) | ((s[a + 2] as u32) << 16) | ((s[a + 3] as u32)
        << 24)
}

/// What a memory output shows for address `a`: the word in the stack arena
/// for addresses above `STACK_ADDR`, the word in the low arena when the
/// whole word is mapped, and 0 otherwise.
pub open spec fn mem_word(data: Seq<u8>, stack: Seq<u8>, a: u32) -> u32 {
    if a > STACK_ADDR {
        if a - STACK_ADDR + 4 <= stack.len() {
            le_word(stack, a - STACK_ADDR)
        } else {
            0
        }
    } else {
        if a + 4 <= data.len() {
            le_word(data, a as int)
        } else {
            0
        }
    }
}

/// The value seen through a port handle: `None` for a missing wire or a
/// node that could not be ranked.
pub open spec fn port_value(nodes: Seq<NodeV>, ranks: Seq<Option<usize>>, o: Option<usize>) -> Option<u32>
    decreases port_m(ranks, o), 2int, 0int,
        when wf(nodes, ranks)
{
    match o {
        Option::Some(j) => if (j as int) < nodes.len() {
            node_value(nodes, ranks, j as int)
        } else {
            Option::None
        },
        Option::None => Option::None,
    }
}

/// The instantaneous value of a node's output, implied by the committed
/// state of all upstream nodes. Registers and the register file return
/// their visible state without recursing, which breaks every cycle that
/// crosses them.
pub open spec fn node_value(nodes: Seq<NodeV>, ranks: Seq<Option<usize>>, i: int) -> Option<u32>
    decreases rank_m(ranks, i), 1int, 0int,
        when wf(nodes, ranks) && 0 <= i < nodes.len() && node_ok(nodes, ranks, i)
{
    match ranks[i] {
        Option::None => Option::None,
        Option::Some(ri) => match nodes[i] {
            NodeV::Cst(c) => Option::Some(c),
            NodeV::Add(inputs) => sum_value(nodes, ranks, inputs, ri, inputs.len() as int),
            NodeV::Mux { inputs, select } => match port_value(nodes, ranks, select) {
                Option::Some(sel) => if (sel as int) < inputs.len() {
                    port_value(nodes, ranks, inputs[sel as int])
                } else {
                    Option::None
                },
                Option::None => Option::None,
            },
            NodeV::Reg { visible, .. } => Option::Some(visible),
            NodeV::Mem { data, stack, address, read_en, .. } => match port_value(
                nodes,
                ranks,
                read_en,
            ) {
                Option::Some(re) => if re != 1 {
                    Option::Some(0)
                } else {
                    match port_value(nodes, ranks, address) {
                        Option::Some(a) => Option::Some(mem_word(data, stack, a)),
                        Option::None => Option::None,
                    }
                },
                Option::None => Option::None,
            },
            NodeV::Alu { op1, op2, ctrl } => match (
                port_value(nodes, ranks, op1),
                port_value(nodes, ranks, op2),
                port_value(nodes, ranks, ctrl),
            ) {
                (Option::Some(a), Option::Some(b), Option::Some(c)) => Option::Some(alu_f(c, a, b)),
                _ => Option::None,
            },
            NodeV::Branch { op1, op2, branch_sel, branch_type, jal } => match (
                port_value(nodes, ranks, op1),
                port_value(nodes, ranks, op2),
                port_value(nodes, ranks, branch_sel),
                port_value(nodes, ranks, branch_type),
                port_value(nodes, ranks, jal),
            ) {
                (
                    Option::Some(a),
                    Option::Some(b),
                    Option::Some(bs),
                    Option::Some(bt),
                    Option::Some(j),
                ) => Option::Some(branch_f(j, bs, bt, a, b)),
                _ => Option::None,
            },
            NodeV::Forward { rs, rd_mem, rd_mem_write, rd_wb, rd_wb_write } => match (
                port_value(nodes, ranks, rs),
                port_value(nodes, ranks, rd_mem),
                port_value(nodes, ranks, rd_mem_write),
                port_value(nodes, ranks, rd_wb),
                port_value(nodes, ranks, rd_wb_write),
            ) {
                (
                    Option::Some(r),
                    Option::Some(rdm),
                    Option::Some(rdmw),
                    Option::Some(rdw),
                    Option::Some(rdww),
                ) => Option::Some(forward_f(r, rdm, rdmw, rdw, rdww)),
                _ => Option::None,
            },
            NodeV::Bits { input, lo, mask } => match port_value(nodes, ranks, input) {
                Option::Some(v) => Option::Some(bitsel_f(v, lo, mask)),
                Option::None => Option::None,
            },
            NodeV::Imm { input } => match port_value(nodes, ranks, input) {
                Option::Some(v) => Option::Some(imm_f(v)),
                Option::None => Option::None,
            },
            NodeV::Ctl { sig, opcode, funct3, funct7 } => match (
                port_value(nodes, ranks, opcode),
                port_value(nodes, ranks, funct3),
                port_value(nodes, ranks, funct7),
            ) {
                (Option::Some(op), Option::Some(f3), Option::Some(f7)) => Option::Some(
                    ctl_f(sig, op, f3, f7),
                ),
                _ => Option::None,
            },
            NodeV::Rf { .. } => Option::Some(0),
            NodeV::RfRead { rf, addr } => match port_value(nodes, ranks, addr) {
                Option::Some(a) => if (rf as int) < nodes.len() {
                    match nodes[rf as int] {
                        NodeV::Rf { regs, .. } => Option::Some(rf_read_f(regs, a)),
                        _ => Option::None,
                    }
                } else {
                    Option::None
                },
                Option::None => Option::None,
            },
            NodeV::NotG { input } => match port_value(nodes, ranks, input) {
                Option::Some(v) => Option::Some(if v == 0 { 1u32 } else { 0u32 }),
                Option::None => Option::None,
            },
            NodeV::OrG(inputs) => or_value(nodes, ranks, inputs, ri, inputs.len() as int),
            NodeV::Hz { mem_read, rd, rs1, rs2 } => match (
                port_value(nodes, ranks, mem_read),
                port_value(nodes, ranks, rd),
                port_value(nodes, ranks, rs1),
                port_value(nodes, ranks, rs2),
            ) {
                (Option::Some(mr), Option::Some(d), Option::Some(s1), Option::Some(s2)) =>
                    Option::Some(hazard_f(mr, d, s1, s2)),
                _ => Option::None,
            },
        },
    }
}

/// The wrapping sum of the first `m` inputs of an adder.
pub open spec fn sum_value(
    nodes: Seq<NodeV>,
    ranks: Seq<Option<usize>>,
    s: Seq<usize>,
    ri: usize,
    m: int,
) -> Option<u32>
    decreases ri + 1, 0int, m,
        when wf(nodes, ranks) && 0 <= m <= s.len() && (forall|k: int|
            0 <= k < m ==> inp_ok(nodes.len() as int, ranks, #[trigger] s[k], ri))
{
    if m <= 0 {
        Option::Some(0)
    } else {
        match (sum_value(nodes, ranks, s, ri, m - 1), node_value(nodes, ranks, s[m - 1] as int)) {
            (Option::Some(acc), Option::Some(v)) => Option::Some(wadd_s(acc, v)),
            _ => Option::None,
        }
    }
}

/// The bitwise OR of the first `m` inputs of an OR gate.
pub open spec fn or_value(
    nodes: Seq<NodeV>,
    ranks: Seq<Option<usize>>,
    s: Seq<usize>,
    ri: usize,
    m: int,
) -> Option<u32>
    decreases ri + 1, 0int, m,
        when wf(nodes, ranks) && 0 <= m <= s.len() && (forall|k: int|
            0 <= k < m ==> inp_ok(nodes.len() as int, ranks, #[trigger] s[k], ri))
{
    if m <= 0 {
        Option::Some(0)
    } else {
        match (or_value(nodes, ranks, s, ri, m - 1), node_value(nodes, ranks, s[m - 1] as int)) {
            (Option::Some(acc), Option::Some(v)) => Option::Some(acc | v),
            _ => Option::None,
        }
    }
}

impl Rtl {
    /// An empty circuit.
    pub fn new() -> (r: Rtl)
        ensures
            r@.nodes.len() == 0,
            r@.ranks.len() == 0,
            r@.asms.len() == 0,
            wf(r@.nodes, r@.ranks),
            crate::ranks::ranks_complete(r@.nodes, r@.ranks),
    {
        Rtl { nodes: Vec::new(), ranks: Vec::new(), asm_nodes: Vec::new() }
    }

    /// Reads the value behind an optional wire.
    pub fn read_opt(&self, o: &Option<usize>) -> (r: Option<u32>)
        requires
            wf(self@.nodes, self@.ranks),
        ensures
            r == port_value(self@.nodes, self@.ranks, *o),
        decreases port_m(self@.ranks, *o), 2int, 0int,
    {
        match o {
            Option::Some(j) => if *j < self.nodes.len() {
                self.read_node(*j)
            } else {
                Option::None
            },
            Option::None => Option::None,
        }
    }

    /// Evaluates one node on demand, recursing through its combinational
    /// inputs; the stored ranks bound the recursion.
    pub fn read_node(&self, i: usize) -> (r: Option<u32>)
        requires
            wf(self@.nodes, self@.ranks),
            i < self@.nodes.len(),
        ensures
            r == node_value(self@.nodes, self@.ranks, i as int),
        decreases rank_m(self@.ranks, i as int), 1int, 0int,
    {
        proof {
            assert(node_ok(self@.nodes, self@.ranks, i as int));
            assert(self@.nodes[i as int] == view_node(self.nodes@[i as int]));
        }
        let ri = match self.ranks[i] {
            Option::Some(r) => r,
            Option::None => {
                return Option::None;
            },
        };
        match &self.nodes[i] {
            Node::Cst(c) => Option::Some(*c),
            Node::Add(a) => {
                let mut acc: Option<u32> = Option::Some(0);
                let mut k: usize = 0;
                while k < a.inputs.len()
                    invariant
                        wf(self@.nodes, self@.ranks),
                        i < self@.nodes.len(),
                        self@.ranks[i as int] == Option::Some(ri),
                        self@.nodes[i as int] == NodeV::Add(a.inputs@),
                        node_ok(self@.nodes, self@.ranks, i as int),
                        0 <= k <= a.inputs@.len(),
                        acc == sum_value(self@.nodes, self@.ranks, a.inputs@, ri, k as int),
                    decreases a.inputs@.len() - k,
                {
                    proof {
                        assert(inp_ok(self@.nodes.len() as int, self@.ranks, a.inputs@[k as int], ri));
                    }
                    let j = a.inputs[k];
                    let v = self.read_node(j);
                    acc = match (acc, v) {
                        (Option::Some(x), Option::Some(y)) => {
                            let s: u64 = (x as u64) + (y as u64);
                            Option::Some((s % 0x1_0000_0000) as u32)
                        },
                        _ => Option::None,
                    };
                    k = k + 1;
                }
                acc
            },
            Node::OrG(g) => {
                let mut acc: Option<u32> = Option::Some(0);
                let mut k: usize = 0;
                while k < g.inputs.len()
                    invariant
                        wf(self@.nodes, self@.ranks),
                        i < self@.nodes.len(),
                        self@.ranks[i as int] == Option::Some(ri),
                        self@.nodes[i as int] == NodeV::OrG(g.inputs@),
                        node_ok(self@.nodes, self@.ranks, i as int),
                        0 <= k <= g.inputs@.len(),
                        acc == or_value(self@.nodes, self@.ranks, g.inputs@, ri, k as int),
                    decreases g.inputs@.len() - k,
                {
                    proof {
                        assert(inp_ok(self@.nodes.len() as int, self@.ranks, g.inputs@[k as int], ri));
                    }
                    let j = g.inputs[k];
                    let v = self.read_node(j);
                    acc = match (acc, v) {
                        (Option::Some(x), Option::Some(y)) => Option::Some(x | y),
                        _ => Option::None,
                    };
                    k = k + 1;
                }
                acc
            },
            Node::Mux(m) => {
                match self.read_opt(&m.select) {
                    Option::Some(sel) => if (sel as usize) < m.inputs.len() {
                        proof {
                            assert(opt_ok(
                                self@.nodes.len() as int,
                                self@.ranks,
                                m.inputs@[sel as int],
                                ri,
                            ));
                        }
                        self.read_opt(&m.inputs[sel as usize])
                    } else {
                        Option::None
                    },
                    Option::None => Option::None,
                }
            },
            Node::Reg(r) => Option::Some(r.visible),
            Node::Mem(m) => {
                match self.read_opt(&m.read_en) {
                    Option::Some(re) => if re != 1 {
                        Option::Some(0)
                    } else {
                        match self.read_opt(&m.address) {
                            Option::Some(a) => Option::Some(mem_word_exec(&m.data, &m.stack, a)),
                            Option::None => Option::None,
                        }
                    },
                    Option::None => Option::None,
                }
            },
            Node::Alu(a) => {
                match (self.read_opt(&a.op1), self.read_opt(&a.op2), self.read_opt(&a.ctrl)) {
                    (Option::Some(x), Option::Some(y), Option::Some(c)) => Option::Some(
                        crate::ex_stage::alu::alu_exec(c, x, y),
                    ),
                    _ => Option::None,
                }
            },
            Node::Branch(b) => {
                match (
                    self.read_opt(&b.op1),
                    self.read_opt(&b.op2),
                    self.read_opt(&b.branch_sel),
                    self.read_opt(&b.branch_type),
                    self.read_opt(&b.jal),
                ) {
                    (
                        Option::Some(a),
                        Option::Some(bb),
                        Option::Some(bs),
                        Option::Some(bt),
                        Option::Some(j),
                    ) => Option::Some(crate::ex_stage::branch::branch_exec(j, bs, bt, a, bb)),
                    _ => Option::None,
                }
            },
            Node::Forward(f) => {
                match (
                    self.read_opt(&f.rs),
                    self.read_opt(&f.rd_mem),
                    self.read_opt(&f.rd_mem_write),
                    self.read_opt(&f.rd_wb),
                    self.read_opt(&f.rd_wb_write),
                ) {
                    (
                        Option::Some(r),
                        Option::Some(rdm),
                        Option::Some(rdmw),
                        Option::Some(rdw),
                        Option::Some(rdww),
                    ) => Option::Some(crate::ex_stage::forward::forward_exec(r, rdm, rdmw, rdw, rdww)),
                    _ => Option::None,
                }
            },
            Node::Bits(b) => {
                match self.read_opt(&b.input) {
                    Option::Some(v) => Option::Some(crate::decode::bitsel_exec(v, b.lo, b.mask)),
                    Option::None => Option::None,
                }
            },
            Node::Imm(im) => {
                match self.read_opt(&im.input) {
                    Option::Some(v) => Option::Some(crate::decode::imm_exec(v)),
                    Option::None => Option::None,
                }
            },
            Node::Ctl(c) => {
                match (self.read_opt(&c.opcode), self.read_opt(&c.funct3), self.read_opt(&c.funct7)) {
                    (Option::Some(op), Option::Some(f3), Option::Some(f7)) => Option::Some(
                        crate::decode::ctl_exec(&c.sig, op, f3, f7),
                    ),
                    _ => Option::None,
                }
            },
            Node::Rf(_) => Option::Some(0),
            Node::RfRead(r) => {
                match self.read_opt(&r.addr) {
                    Option::Some(a) => if r.rf < self.nodes.len() {
                        proof {
                            assert(self@.nodes[r.rf as int] == view_node(self.nodes@[r.rf as int]));
                        }
                        match &self.nodes[r.rf] {
                            Node::Rf(f) => {
                                if a == 0 {
                                    Option::Some(0)
                                } else if (a as usize) < f.regs.len() {
                                    Option::Some(f.regs[a as usize])
                                } else {
                                    Option::Some(0)
                                }
                            },
                            _ => Option::None,
                        }
                    } else {
                        Option::None
                    },
                    Option::None => Option::None,
                }
            },
            Node::NotG(g) => {
                match self.read_opt(&g.input) {
                    Option::Some(v) => Option::Some(if v == 0 { 1 } else { 0 }),
                    Option::None => Option::None,
                }
            },
            Node::Hz(h) => {
                match (
                    self.read_opt(&h.mem_read),
                    self.read_opt(&h.rd),
                    self.read_opt(&h.rs1),
                    self.read_opt(&h.rs2),
                ) {
                    (Option::Some(mr), Option::Some(d), Option::Some(s1), Option::Some(s2)) =>
                        Option::Some(crate::hazard::hazard_exec(mr, d, s1, s2)),
                    _ => Option::None,
                }
            },
        }
    }

    /// Reads the current value of a port. The result is pinned by the
    /// circuit's mathematical view: `None` exactly when the wire is missing
    /// or its node is unranked along the way.
    pub fn read(&self, p: PortRef) -> (r: Option<u32>)
        requires
            wf(self@.nodes, self@.ranks),
        ensures
            r == port_value(self@.nodes, self@.ranks, Option::Some(p.id)),
    {
        self.read_opt(&Option::Some(p.id))
    }
}

/// Reads four bytes little-endian out of the two arenas.
pub fn mem_word_exec(data: &Vec<u8>, stack: &Vec<u8>, a: u32) -> (r: u32)
    ensures
        r == mem_word(data@, stack@, a),
{
    if a > STACK_ADDR {
        let off: u64 = (a - STACK_ADDR) as u64;
        if off + 4 <= stack.len() as u64 {
            let o = off as usize;
            (stack[o] as u32) | ((stack[o + 1] as u32) << 8u32) | ((stack[o + 2] as u32) << 16u32)
                | ((stack[o + 3] as u32) << 24u32)
        } else {
            0
        }
    } else {
        if (a as u64) + 4 <= data.len() as u64 {
            let o = a as usize;
            (data[o] as u32) | ((data[o + 1] as u32) << 8u32) | ((data[o + 2] as u32) << 16u32)
                | ((data[o + 3] as u32) << 24u32)
        } else {
            0
        }
    }
}


/// Replacing one node replaces exactly one entry of the view.
pub proof fn lemma_view_update(v: Seq<Node>, i: int, x: Node)
    requires
        0 <= i < v.len(),
    ensures
        v.update(i, x).map_values(|n: Node| view_node(n)) == v.map_values(
            |n: Node| view_node(n),
        ).update(i, view_node(x)),
{
    assert(v.update(i, x).map_values(|n: Node| view_node(n)) =~= v.map_values(
        |n: Node| view_node(n),
    ).update(i, view_node(x)));
}

/// Replacing one disassembly node replaces exactly one entry of the view.
pub proof fn lemma_view_asm_update(v: Seq<AsmNode>, i: int, x: AsmNode)
    requires
        0 <= i < v.len(),
    ensures
        v.update(i, x).map_values(|n: AsmNode| view_asm(n)) == v.map_values(
            |n: AsmNode| view_asm(n),
        ).update(i, view_asm(x)),
{
    assert(v.update(i, x).map_values(|n: AsmNode| view_asm(n)) =~= v.map_values(
        |n: AsmNode| view_asm(n),
    ).update(i, view_asm(x)));
}

} // verus!
