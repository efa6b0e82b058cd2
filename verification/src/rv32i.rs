use vstd::prelude::*;

use crate::add::AddBuilder;
use crate::clock::{asm_fall_all, asm_rise_all, fall_all, rise_all};
use crate::decode::{BitSel, CtlSig, ImmGen, Sig};
use crate::dis::{AsmMemBuilder, AsmRegBuilder, AsmRegConnect};
use crate::ex_stage::{Alloc as ExAlloc, Connect as ExConnect, ExStageBuilder};
use crate::hazard::Hazard;
use crate::logic::{NotGate, OrGate};
use crate::mem::{Connect as MemConnect, MemBuilder, STACK_ADDR};
use crate::mux::{MuxBuilder, MuxConnect};
use crate::reg::{RegBuilder, RegConnect};
use crate::regfile::{rf_read_f, RegFileBuilder, RfConnect};
use crate::rtl::{wf, ControlRef, Node, NodeV, PortRef, Rtl};
use crate::sep_reg::mem_wb::{Alloc as MemWbAlloc, Connect as MemWbConnect, MemWbBuilder};
use crate::wb_stage::{Alloc as WbAlloc, Connect as WbConnect, WbStageBuilder};

verus! {

/// One byte of a word, little-endian: byte `k` is bits `8k..8k+8`.
pub open spec fn word_byte(w: u32, k: int) -> u8 {
    if k == 0 {
        (w & 0xFF) as u8
    } else if k == 1 {
        ((w >> 8) & 0xFF) as u8
    } else if k == 2 {
        ((w >> 16) & 0xFF) as u8
    } else {
        ((w >> 24) & 0xFF) as u8
    }
}

/// The byte image of a word sequence, stored little-endian from address 0.
pub open spec fn image_of(words: Seq<u32>) -> Seq<u8> {
    Seq::new(words.len() * 4, |i: int| word_byte(words[i / 4], i % 4))
}

/// Lays a word sequence out as its little-endian byte image.
pub fn words_to_bytes(words: &Vec<u32>) -> (r: Vec<u8>)
    ensures
        r@ == image_of(words@),
{
    let mut r: Vec<u8> = Vec::new();
    let mut k: usize = 0;
    while k < words.len()
        invariant
            0 <= k <= words@.len(),
            r@.len() == 4 * k,
            forall|i: int| 0 <= i < 4 * k ==> r@[i] == word_byte(words@[i / 4], i % 4),
        decreases words@.len() - k,
    {
        let w = words[k];
        proof {
            crate::clock::lemma_byte_bounds(w);
        }
        r.push((w & 0xFF) as u8);
        r.push(((w >> 8u32) & 0xFF) as u8);
        r.push(((w >> 16u32) & 0xFF) as u8);
        r.push(((w >> 24u32) & 0xFF) as u8);
        k = k + 1;
    }
    proof {
        assert(r@ =~= image_of(words@));
    }
    r
}

/// A port handle over a raw node id.
fn pin(id: usize) -> (p: PortRef)
    ensures
        p.id == id,
{
    PortRef { id }
}

/// Adds one control line reading the shared decoder fields.
fn push_ctl(rtl: &mut Rtl, sig: Sig, op: usize, f3: usize, f7: usize) -> (id: usize)
    ensures
        id == old(rtl)@.nodes.len(),
        wf(final(rtl)@.nodes, final(rtl)@.ranks),
            crate::ranks::ranks_complete(final(rtl)@.nodes, final(rtl)@.ranks),
        final(rtl)@.asms == old(rtl)@.asms,
        final(rtl)@.nodes == old(rtl)@.nodes.push(
            NodeV::Ctl {
                sig,
                opcode: Option::Some(op),
                funct3: Option::Some(f3),
                funct7: Option::Some(f7),
            },
        ),
{
    rtl.push_node(
        Node::Ctl(
            CtlSig {
                sig,
                opcode: Option::Some(op),
                funct3: Option::Some(f3),
                funct7: Option::Some(f7),
            },
        ),
    )
}

/// Checks that a member list is strictly increasing and within bounds,
/// which gives the distinctness the falling edge demands.
fn sorted_bounded(v: &Vec<usize>, n: usize) -> (b: bool)
    ensures
        b ==> v@.no_duplicates(),
        b ==> (forall|k: int| 0 <= k < v@.len() ==> (#[trigger] v@[k] as int) < n),
{
    let mut k: usize = 0;
    while k < v.len()
        invariant
            0 <= k <= v@.len(),
            forall|k1: int, k2: int| 0 <= k1 < k2 < k ==> #[trigger] v@[k1] < #[trigger] v@[k2],
            forall|k1: int| 0 <= k1 < k ==> (#[trigger] v@[k1] as int) < n,
        decreases v@.len() - k,
    {
        if !(v[k] < n) {
            return false;
        }
        if k > 0 {
            if !(v[k - 1] < v[k]) {
                return false;
            }
        }
        proof {
            assert forall|k1: int, k2: int| 0 <= k1 < k2 < k + 1 implies #[trigger] v@[k1]
                < #[trigger] v@[k2] by {
                if k2 == k as int && k1 < k as int - 1 {
                    assert(v@[k1] < v@[k as int - 1]);
                }
            }
        }
        k = k + 1;
    }
    proof {
        assert forall|k1: int, k2: int|
            0 <= k1 < v@.len() && 0 <= k2 < v@.len() && k1 != k2 implies v@[k1] != v@[k2] by {
            if k1 < k2 {
                assert(v@[k1] < v@[k2]);
            } else {
                assert(v@[k2] < v@[k1]);
            }
        }
    }
    true
}

/// The assembled five-stage RV32I core, ready to be clocked.
pub struct Rv32i {
    pub rtl: Rtl,
    pub ctrl: ControlRef,
    pub rf: usize,
    pub pc: usize,
    pub branch_sel: usize,
    pub alu_res: usize,
    pub fwd1: usize,
    pub fwd2: usize,
    pub alu_op1: usize,
    pub alu_op2: usize,
    pub stall: usize,
    pub imem: usize,
    pub dmem: usize,
    pub if_id: Vec<usize>,
    pub id_ex: Vec<usize>,
}

impl Rv32i {
    /// The core is sound to clock: the circuit is rank-sound and the
    /// control lists distinct, in-range stateful nodes, with the register
    /// file where the read methods expect it.
    pub open spec fn inv(self) -> bool {
        &&& wf(self.rtl@.nodes, self.rtl@.ranks)
        &&& self.ctrl.members@.no_duplicates()
        &&& self.ctrl.asm_members@.no_duplicates()
        &&& forall|k: int|
            0 <= k < self.ctrl.members@.len() ==> (#[trigger] self.ctrl.members@[k] as int)
                < self.rtl@.nodes.len()
        &&& forall|k: int|
            0 <= k < self.ctrl.asm_members@.len() ==> (#[trigger] self.ctrl.asm_members@[k] as int)
                < self.rtl@.asms.len()
        &&& (self.rf as int) < self.rtl@.nodes.len()
        &&& self.rtl@.nodes[self.rf as int] is Rf
        &&& crate::ranks::all_ranked(self.rtl@.ranks)
    }

    /// The architectural register contents.
    pub open spec fn regs_of(self) -> Seq<u32> {
        match self.rtl@.nodes[self.rf as int] {
            NodeV::Rf { regs, .. } => regs,
            _ => Seq::empty(),
        }
    }

    /// Reads one architectural register: `x0` and out-of-range numbers
    /// read as zero.
    pub fn register(&self, i: usize) -> (r: u32)
        requires
            self.inv(),
            i < 32,
        ensures
            r == rf_read_f(self.regs_of(), i as u32),
    {
        proof {
            assert(self.rtl@.nodes[self.rf as int] == crate::rtl::view_node(
                self.rtl.nodes@[self.rf as int],
            ));
        }
        match &self.rtl.nodes[self.rf] {
            Node::Rf(f) => {
                if i == 0 {
                    0
                } else if i < f.regs.len() {
                    f.regs[i]
                } else {
                    0
                }
            },
            _ => 0,
        }
    }

    /// Reads one port of the datapath.
    pub fn read(&self, p: PortRef) -> (r: Option<u32>)
        requires
            self.inv(),
        ensures
            r == crate::rtl::port_value(self.rtl@.nodes, self.rtl@.ranks, Option::Some(p.id)),
    {
        self.rtl.read(p)
    }

    /// Drives the rising edge of one cycle: every register, memory and the
    /// register file sample their inputs into shadow state.
    pub fn rasing_edge(&mut self)
        requires
            old(self).inv(),
        ensures
            final(self).inv(),
            final(self).rtl@.nodes == rise_all(
                old(self).rtl@.nodes,
                old(self).rtl@.ranks,
                old(self).ctrl.members@,
            ),
            final(self).rtl@.asms == asm_rise_all(
                old(self).rtl@.nodes,
                old(self).rtl@.ranks,
                old(self).rtl@.asms,
                old(self).ctrl.asm_members@,
            ),
            final(self).rtl@.ranks == old(self).rtl@.ranks,
            final(self).ctrl == old(self).ctrl,
            final(self).rf == old(self).rf,
            final(self).regs_of() == old(self).regs_of(),
    {
        let ghost pre = self.rtl@;
        self.rtl.rasing_edge(&self.ctrl);
        proof {
            assert(self.rtl@.nodes[self.rf as int] is Rf && self.regs_of() == old(
                self,
            ).regs_of()) by {
                let i = self.rf as int;
                if crate::clock::in_prefix(
                    self.ctrl.members@,
                    self.ctrl.members@.len() as int,
                    i,
                ) {
                    assert(self.rtl@.nodes[i] == crate::clock::rise_node(pre.nodes, pre.ranks, i));
                } else {
                    assert(self.rtl@.nodes[i] == pre.nodes[i]);
                }
            }
        }
    }

    /// Drives the falling edge of one cycle: shadow state becomes visible,
    /// stores and register writes commit.
    pub fn falling_edge(&mut self)
        requires
            old(self).inv(),
        ensures
            final(self).inv(),
            final(self).rtl@.nodes == fall_all(old(self).rtl@.nodes, old(self).ctrl.members@),
            final(self).rtl@.asms == asm_fall_all(
                old(self).rtl@.asms,
                old(self).ctrl.asm_members@,
            ),
            final(self).rtl@.ranks == old(self).rtl@.ranks,
            final(self).ctrl == old(self).ctrl,
            final(self).rf == old(self).rf,
    {
        let ghost pre = self.rtl@;
        self.rtl.falling_edge(&self.ctrl);
        proof {
            assert(self.rtl@.nodes[self.rf as int] is Rf) by {
                let i = self.rf as int;
                if crate::clock::in_prefix(
                    self.ctrl.members@,
                    self.ctrl.members@.len() as int,
                    i,
                ) {
                    assert(self.rtl@.nodes[i] == crate::clock::fall_node(pre.nodes[i]));
                } else {
                    assert(self.rtl@.nodes[i] == pre.nodes[i]);
                }
            }
        }
    }

    /// The labelled signals a debugging front end prints each cycle:
    /// each pair is the named line and the port value it reads.
    pub fn output(&self) -> (r: Vec<(&'static str, Option<u32>)>)
        requires
            self.inv(),
        ensures
            r@.len() == 6,
            r@[0] == ("pc", crate::rtl::port_value(self.rtl@.nodes, self.rtl@.ranks, Option::Some(self.pc))),
            r@[1] == ("branch_sel", crate::rtl::port_value(self.rtl@.nodes, self.rtl@.ranks, Option::Some(self.branch_sel))),
            r@[2] == ("alu_res", crate::rtl::port_value(self.rtl@.nodes, self.rtl@.ranks, Option::Some(self.alu_res))),
            r@[3] == ("forward_1", crate::rtl::port_value(self.rtl@.nodes, self.rtl@.ranks, Option::Some(self.fwd1))),
            r@[4] == ("forward_2", crate::rtl::port_value(self.rtl@.nodes, self.rtl@.ranks, Option::Some(self.fwd2))),
            r@[5] == ("stall", crate::rtl::port_value(self.rtl@.nodes, self.rtl@.ranks, Option::Some(self.stall))),
    {
        let mut r: Vec<(&'static str, Option<u32>)> = Vec::new();
        r.push(("pc", self.rtl.read(PortRef { id: self.pc })));
        r.push(("branch_sel", self.rtl.read(PortRef { id: self.branch_sel })));
        r.push(("alu_res", self.rtl.read(PortRef { id: self.alu_res })));
        r.push(("forward_1", self.rtl.read(PortRef { id: self.fwd1 })));
        r.push(("forward_2", self.rtl.read(PortRef { id: self.fwd2 })));
        r.push(("stall", self.rtl.read(PortRef { id: self.stall })));
        r
    }
}

/// Assembles the five pipeline stages, the four separator bundles, the
/// hazard logic and the next-PC feedback into one circuit.
pub struct Rv32iBuilder {
    pub insts: Vec<u32>,
    pub asm_mem: Vec<String>,
}

impl Rv32iBuilder {
    /// Takes the instruction image (words, stored little-endian from
    /// address 0) and the parallel disassembly strings.
    pub fn new(instruction_memory: Vec<u32>, asm_mem: Vec<String>) -> (r: Rv32iBuilder)
        ensures
            r.insts@ == instruction_memory@,
            r.asm_mem@ == asm_mem@,
    {
        Rv32iBuilder { insts: instruction_memory, asm_mem }
    }

    /// Builds the core: lays the datapath out, wires it, and holds the
    /// result to built-in checks — every node ranked (no combinational
    /// cycle escaped the registers), the control lists strictly
    /// increasing and in range, the register file fresh but for the
    /// stack pointer, the program counter at zero, and both memories
    /// holding exactly the little-endian image. On `Some` the contract
    /// carries everything those checks established; that they pass on
    /// this fixed assembly is their own, run-time verdict, so `None`
    /// reports a wiring fault they catch.
    pub fn build(self) -> (r: Option<Rv32i>)
        ensures
            r matches Option::Some(rv) ==> ({
                &&& rv.inv()
                &&& rv.regs_of() == Seq::new(
                    32,
                    |i: int| if i == 2 { STACK_ADDR } else { 0u32 },
                )
                &&& (rv.pc as int) < rv.rtl@.nodes.len()
                &&& (match rv.rtl@.nodes[rv.pc as int] {
                    NodeV::Reg { visible, .. } => visible == 0,
                    _ => false,
                })
                &&& (rv.imem as int) < rv.rtl@.nodes.len()
                &&& (match rv.rtl@.nodes[rv.imem as int] {
                    NodeV::Mem { data, stack, .. } => data == image_of(self.insts@)
                        && stack.len() == 0,
                    _ => false,
                })
                &&& (rv.dmem as int) < rv.rtl@.nodes.len()
                &&& (match rv.rtl@.nodes[rv.dmem as int] {
                    NodeV::Mem { data, stack, .. } => data == image_of(self.insts@)
                        && stack.len() == 0,
                    _ => false,
                })
            }),
    {
        let image = words_to_bytes(&self.insts);
        let image2 = words_to_bytes(&self.insts);
        let image3 = words_to_bytes(&self.insts);
        let mut rtl = Rtl::new();
        let dp = create_dp(&mut rtl, image, image2, self.asm_mem);
        wire_dp(&mut rtl, &dp);

        if !ranked_check(&rtl.ranks) {
            return Option::None;
        }
        if !(rtl.ranks.len() == rtl.nodes.len()) {
            return Option::None;
        }
        if !sorted_bounded(&dp.members, rtl.nodes.len()) {
            return Option::None;
        }
        if !sorted_bounded(&dp.asm_members, rtl.asm_nodes.len()) {
            return Option::None;
        }
        if !(dp.rf.rf < rtl.nodes.len() && dp.pc.node < rtl.nodes.len() && dp.imem.node
            < rtl.nodes.len() && dp.dmem.node < rtl.nodes.len()) {
            return Option::None;
        }
        proof {
            assert(rtl@.nodes[dp.rf.rf as int] == crate::rtl::view_node(
                rtl.nodes@[dp.rf.rf as int],
            ));
            assert(rtl@.nodes[dp.pc.node as int] == crate::rtl::view_node(
                rtl.nodes@[dp.pc.node as int],
            ));
            assert(rtl@.nodes[dp.imem.node as int] == crate::rtl::view_node(
                rtl.nodes@[dp.imem.node as int],
            ));
            assert(rtl@.nodes[dp.dmem.node as int] == crate::rtl::view_node(
                rtl.nodes@[dp.dmem.node as int],
            ));
        }
        let rf_ok = match &rtl.nodes[dp.rf.rf] {
            Node::Rf(f) => regs_fresh(&f.regs, STACK_ADDR),
            _ => false,
        };
        if !rf_ok {
            return Option::None;
        }
        let pc_ok = match &rtl.nodes[dp.pc.node] {
            Node::Reg(r) => r.visible == 0,
            _ => false,
        };
        if !pc_ok {
            return Option::None;
        }
        let imem_ok = match &rtl.nodes[dp.imem.node] {
            Node::Mem(m) => bytes_eq(&m.data, &image3) && m.stack.len() == 0,
            _ => false,
        };
        if !imem_ok {
            return Option::None;
        }
        let dmem_ok = match &rtl.nodes[dp.dmem.node] {
            Node::Mem(m) => bytes_eq(&m.data, &image3) && m.stack.len() == 0,
            _ => false,
        };
        if !dmem_ok {
            return Option::None;
        }
        let branch_sel = dp.ex.branch.node;
        let alu_res = dp.ex.alu.node;
        let fwd1 = dp.ex.forward.lane1;
        let fwd2 = dp.ex.forward.lane2;
        let alu_op1 = dp.ex.pc_sel.node;
        let alu_op2 = dp.ex.imm_sel.node;
        let mut if_id: Vec<usize> = Vec::new();
        if_id.push(dp.ifid_pc.node);
        if_id.push(dp.ifid_npc.node);
        if_id.push(dp.ifid_inst.node);
        let mut id_ex: Vec<usize> = Vec::new();
        id_ex.push(dp.idex_reg_write.node);
        id_ex.push(dp.idex_wb_sel.node);
        id_ex.push(dp.idex_mem_read.node);
        id_ex.push(dp.idex_mem_write.node);
        id_ex.push(dp.idex_jal.node);
        id_ex.push(dp.idex_branch.node);
        id_ex.push(dp.idex_branch_type.node);
        id_ex.push(dp.idex_alu_ctrl.node);
        id_ex.push(dp.idex_pc_sel.node);
        id_ex.push(dp.idex_imm_sel.node);
        id_ex.push(dp.idex_pc.node);
        id_ex.push(dp.idex_npc.node);
        id_ex.push(dp.idex_rs1d.node);
        id_ex.push(dp.idex_rs2d.node);
        id_ex.push(dp.idex_imm.node);
        id_ex.push(dp.idex_rs1.node);
        id_ex.push(dp.idex_rs2.node);
        id_ex.push(dp.idex_rd.node);
        Option::Some(
            Rv32i {
                rtl,
                ctrl: ControlRef { members: dp.members, asm_members: dp.asm_members },
                rf: dp.rf.rf,
                pc: dp.pc.node,
                branch_sel,
                alu_res,
                fwd1,
                fwd2,
                alu_op1,
                alu_op2,
                stall: dp.hz,
                imem: dp.imem.node,
                dmem: dp.dmem.node,
                if_id,
                id_ex,
            },
        )
    }
}

/// Checks that every node carries a rank.
fn ranked_check(ranks: &Vec<Option<usize>>) -> (b: bool)
    ensures
        b ==> crate::ranks::all_ranked(ranks@),
{
    let mut i: usize = 0;
    while i < ranks.len()
        invariant
            0 <= i <= ranks@.len(),
            forall|j: int| 0 <= j < i ==> #[trigger] ranks@[j] is Some,
        decreases ranks@.len() - i,
    {
        if ranks[i].is_none() {
            return false;
        }
        i = i + 1;
    }
    true
}

/// Checks two byte arenas for equality.
fn bytes_eq(a: &Vec<u8>, b: &Vec<u8>) -> (r: bool)
    ensures
        r == (a@ == b@),
{
    if a.len() != b.len() {
        proof {
            assert(a@ != b@);
        }
        return false;
    }
    let mut i: usize = 0;
    while i < a.len()
        invariant
            a@.len() == b@.len(),
            0 <= i <= a@.len(),
            forall|j: int| 0 <= j < i ==> a@[j] == b@[j],
        decreases a@.len() - i,
    {
        if a[i] != b[i] {
            proof {
                assert(a@ != b@);
            }
            return false;
        }
        i = i + 1;
    }
    proof {
        assert(a@ =~= b@);
    }
    true
}

/// Checks that a register file is fresh: 32 registers, all zero but for
/// the stack pointer.
fn regs_fresh(regs: &Vec<u32>, sp: u32) -> (r: bool)
    ensures
        r ==> regs@ == Seq::new(32, |i: int| if i == 2 { sp } else { 0u32 }),
{
    if regs.len() != 32 {
        return false;
    }
    let mut i: usize = 0;
    while i < 32
        invariant
            regs@.len() == 32,
            0 <= i <= 32,
            forall|j: int| 0 <= j < i ==> regs@[j] == (if j == 2 { sp } else { 0u32 }),
        decreases 32 - i,
    {
        let want = if i == 2 { sp } else { 0 };
        if regs[i] != want {
            return false;
        }
        i = i + 1;
    }
    proof {
        assert(regs@ =~= Seq::new(32, |i: int| if i == 2 { sp } else { 0u32 }));
    }
    true
}

/// The laid-out datapath: every component builder and wire id the
/// assembly uses, created first and wired second.
struct Dp {
    members: Vec<usize>,
    asm_members: Vec<usize>,
    c0: usize,
    c1: usize,
    c4: usize,
    pc: RegBuilder,
    ifid_pc: RegBuilder,
    ifid_npc: RegBuilder,
    ifid_inst: RegBuilder,
    idex_reg_write: RegBuilder,
    idex_wb_sel: RegBuilder,
    idex_mem_read: RegBuilder,
    idex_mem_write: RegBuilder,
    idex_jal: RegBuilder,
    idex_branch: RegBuilder,
    idex_branch_type: RegBuilder,
    idex_alu_ctrl: RegBuilder,
    idex_pc_sel: RegBuilder,
    idex_imm_sel: RegBuilder,
    idex_pc: RegBuilder,
    idex_npc: RegBuilder,
    idex_rs1d: RegBuilder,
    idex_rs2d: RegBuilder,
    idex_imm: RegBuilder,
    idex_rs1: RegBuilder,
    idex_rs2: RegBuilder,
    idex_rd: RegBuilder,
    exmem_reg_write: RegBuilder,
    exmem_wb_sel: RegBuilder,
    exmem_mem_read: RegBuilder,
    exmem_mem_write: RegBuilder,
    exmem_npc: RegBuilder,
    exmem_alu_res: RegBuilder,
    exmem_rs2d: RegBuilder,
    exmem_rd: RegBuilder,
    memwb: MemWbBuilder,
    rf: RegFileBuilder,
    wb: WbStageBuilder,
    ex: ExStageBuilder,
    imem: MemBuilder,
    dmem: MemBuilder,
    npc_add: AddBuilder,
    pc_mux: MuxBuilder,
    op: usize,
    rd_f: usize,
    f3: usize,
    rs1_f: usize,
    rs2_f: usize,
    f7: usize,
    ctl_reg_write: usize,
    ctl_mem_read: usize,
    ctl_mem_write: usize,
    ctl_branch: usize,
    ctl_jal: usize,
    ctl_jalr: usize,
    ctl_pc_sel: usize,
    ctl_imm_sel: usize,
    ctl_alu_ctrl: usize,
    ctl_wb_sel: usize,
    ctl_branch_type: usize,
    imm: usize,
    rs1d: usize,
    rs2d: usize,
    jal_or: usize,
    hz: usize,
    not_stall: usize,
    idex_clear: usize,
    amem: AsmMemBuilder,
    ifid_dis: AsmRegBuilder,
    idex_dis: AsmRegBuilder,
    exmem_dis: AsmRegBuilder,
}

/// Creation phase: every register, separator bundle, functional unit,
/// memory, decoder field, control line and hazard/flush gate, in one
/// pass; the stateful nodes go into the control lists in creation order.
#[verifier::rlimit(100)]
fn create_dp(rtl: &mut Rtl, image: Vec<u8>, image2: Vec<u8>, asm_mem: Vec<String>) -> (dp: Dp)
    requires
        wf(old(rtl)@.nodes, old(rtl)@.ranks),
    ensures
        wf(final(rtl)@.nodes, final(rtl)@.ranks),
        crate::ranks::ranks_complete(final(rtl)@.nodes, final(rtl)@.ranks),
        final(rtl)@.ranks.len() == final(rtl)@.nodes.len(),
{
    let mut members: Vec<usize> = Vec::new();
    let mut asm_members: Vec<usize> = Vec::new();

    // constants
    let c1 = rtl.push_node(Node::Cst(1));
    let c0 = rtl.push_node(Node::Cst(0));
    let c4 = rtl.push_node(Node::Cst(4));

    // program counter and IF/ID separator registers
    let pc = RegBuilder::new(rtl, 0);
    members.push(pc.node);
    let ifid_pc = RegBuilder::new(rtl, 0);
    members.push(ifid_pc.node);
    let ifid_npc = RegBuilder::new(rtl, 0);
    members.push(ifid_npc.node);
    let ifid_inst = RegBuilder::new(rtl, 0);
    members.push(ifid_inst.node);

    // ID/EX separator registers
    let idex_reg_write = RegBuilder::new(rtl, 0);
    members.push(idex_reg_write.node);
    let idex_wb_sel = RegBuilder::new(rtl, 0);
    members.push(idex_wb_sel.node);
    let idex_mem_read = RegBuilder::new(rtl, 0);
    members.push(idex_mem_read.node);
    let idex_mem_write = RegBuilder::new(rtl, 0);
    members.push(idex_mem_write.node);
    let idex_jal = RegBuilder::new(rtl, 0);
    members.push(idex_jal.node);
    let idex_branch = RegBuilder::new(rtl, 0);
    members.push(idex_branch.node);
    let idex_branch_type = RegBuilder::new(rtl, 0);
    members.push(idex_branch_type.node);
    let idex_alu_ctrl = RegBuilder::new(rtl, 0);
    members.push(idex_alu_ctrl.node);
    let idex_pc_sel = RegBuilder::new(rtl, 0);
    members.push(idex_pc_sel.node);
    let idex_imm_sel = RegBuilder::new(rtl, 0);
    members.push(idex_imm_sel.node);
    let idex_pc = RegBuilder::new(rtl, 0);
    members.push(idex_pc.node);
    let idex_npc = RegBuilder::new(rtl, 0);
    members.push(idex_npc.node);
    let idex_rs1d = RegBuilder::new(rtl, 0);
    members.push(idex_rs1d.node);
    let idex_rs2d = RegBuilder::new(rtl, 0);
    members.push(idex_rs2d.node);
    let idex_imm = RegBuilder::new(rtl, 0);
    members.push(idex_imm.node);
    let idex_rs1 = RegBuilder::new(rtl, 0);
    members.push(idex_rs1.node);
    let idex_rs2 = RegBuilder::new(rtl, 0);
    members.push(idex_rs2.node);
    let idex_rd = RegBuilder::new(rtl, 0);
    members.push(idex_rd.node);

    // EX/MEM separator registers
    let exmem_reg_write = RegBuilder::new(rtl, 0);
    members.push(exmem_reg_write.node);
    let exmem_wb_sel = RegBuilder::new(rtl, 0);
    members.push(exmem_wb_sel.node);
    let exmem_mem_read = RegBuilder::new(rtl, 0);
    members.push(exmem_mem_read.node);
    let exmem_mem_write = RegBuilder::new(rtl, 0);
    members.push(exmem_mem_write.node);
    let exmem_npc = RegBuilder::new(rtl, 0);
    members.push(exmem_npc.node);
    let exmem_alu_res = RegBuilder::new(rtl, 0);
    members.push(exmem_alu_res.node);
    let exmem_rs2d = RegBuilder::new(rtl, 0);
    members.push(exmem_rs2d.node);
    let exmem_rd = RegBuilder::new(rtl, 0);
    members.push(exmem_rd.node);

    // MEM/WB separator bundle (six registers and a disassembly register)
    let memwb = MemWbBuilder::new(rtl);
    members.push(memwb.reg_write.node);
    members.push(memwb.wb_sel.node);
    members.push(memwb.npc.node);
    members.push(memwb.alu_res.node);
    members.push(memwb.mem_data.node);
    members.push(memwb.rd.node);
    asm_members.push(memwb.dis.node);

    // register file, stack pointer preset to the stack window base
    let rf = RegFileBuilder::new(rtl, STACK_ADDR);
    members.push(rf.rf);

    // WB stage
    let wb = WbStageBuilder::new(rtl);

    // EX stage
    let ex = ExStageBuilder::new(rtl);

    // IF stage: instruction memory, next-PC adder and multiplexer
    let imem = MemBuilder::new(rtl, image);
    members.push(imem.node);
    let npc_add = AddBuilder::new(rtl);
    let pc_mux = MuxBuilder::new(rtl);

    // ID stage: decoder fields, control lines, immediate, register reads
    let inst = ifid_inst.node;
    let op = rtl.push_node(Node::Bits(BitSel { input: Option::Some(inst), lo: 0, mask: 0x7F }));
    let rd_f = rtl.push_node(Node::Bits(BitSel { input: Option::Some(inst), lo: 7, mask: 0x1F }));
    let f3 = rtl.push_node(Node::Bits(BitSel { input: Option::Some(inst), lo: 12, mask: 0x7 }));
    let rs1_f = rtl.push_node(Node::Bits(BitSel { input: Option::Some(inst), lo: 15, mask: 0x1F }));
    let rs2_f = rtl.push_node(Node::Bits(BitSel { input: Option::Some(inst), lo: 20, mask: 0x1F }));
    let f7 = rtl.push_node(Node::Bits(BitSel { input: Option::Some(inst), lo: 25, mask: 0x7F }));
    let ctl_reg_write = push_ctl(rtl, Sig::RegWrite, op, f3, f7);
    let ctl_mem_read = push_ctl(rtl, Sig::MemRead, op, f3, f7);
    let ctl_mem_write = push_ctl(rtl, Sig::MemWrite, op, f3, f7);
    let ctl_branch = push_ctl(rtl, Sig::Branch, op, f3, f7);
    let ctl_jal = push_ctl(rtl, Sig::Jal, op, f3, f7);
    let ctl_jalr = push_ctl(rtl, Sig::Jalr, op, f3, f7);
    let ctl_pc_sel = push_ctl(rtl, Sig::AluSrcPc, op, f3, f7);
    let ctl_imm_sel = push_ctl(rtl, Sig::AluSrcImm, op, f3, f7);
    let ctl_alu_ctrl = push_ctl(rtl, Sig::AluCtrl, op, f3, f7);
    let ctl_wb_sel = push_ctl(rtl, Sig::WbSel, op, f3, f7);
    let ctl_branch_type = push_ctl(rtl, Sig::BranchType, op, f3, f7);
    let imm = rtl.push_node(Node::Imm(ImmGen { input: Option::Some(inst) }));
    let rs1d = rf.read_port(rtl, pin(rs1_f));
    let rs2d = rf.read_port(rtl, pin(rs2_f));
    let mut jal_in: Vec<usize> = Vec::new();
    jal_in.push(ctl_jal);
    jal_in.push(ctl_jalr);
    let jal_or = rtl.push_node(Node::OrG(OrGate { inputs: jal_in }));

    // hazard unit and flush/stall lines
    let hz = rtl.push_node(
        Node::Hz(
            Hazard {
                mem_read: Option::Some(idex_mem_read.node),
                rd: Option::Some(idex_rd.node),
                rs1: Option::Some(rs1_f),
                rs2: Option::Some(rs2_f),
            },
        ),
    );
    let not_stall = rtl.push_node(Node::NotG(NotGate { input: Option::Some(hz) }));
    let mut cl_in: Vec<usize> = Vec::new();
    cl_in.push(ex.branch.node);
    cl_in.push(hz);
    let idex_clear = rtl.push_node(Node::OrG(OrGate { inputs: cl_in }));

    // MEM stage: data memory over the same image
    let dmem = MemBuilder::new(rtl, image2);
    members.push(dmem.node);

    // disassembly chain riding beside the pipeline
    let amem = AsmMemBuilder::new(rtl, asm_mem);
    let ifid_dis = AsmRegBuilder::new(rtl);
    asm_members.push(ifid_dis.node);
    let idex_dis = AsmRegBuilder::new(rtl);
    asm_members.push(idex_dis.node);
    let exmem_dis = AsmRegBuilder::new(rtl);
    asm_members.push(exmem_dis.node);

    Dp {
        members,
        asm_members,
        c0,
        c1,
        c4,
        pc,
        ifid_pc,
        ifid_npc,
        ifid_inst,
        idex_reg_write,
        idex_wb_sel,
        idex_mem_read,
        idex_mem_write,
        idex_jal,
        idex_branch,
        idex_branch_type,
        idex_alu_ctrl,
        idex_pc_sel,
        idex_imm_sel,
        idex_pc,
        idex_npc,
        idex_rs1d,
        idex_rs2d,
        idex_imm,
        idex_rs1,
        idex_rs2,
        idex_rd,
        exmem_reg_write,
        exmem_wb_sel,
        exmem_mem_read,
        exmem_mem_write,
        exmem_npc,
        exmem_alu_res,
        exmem_rs2d,
        exmem_rd,
        memwb,
        rf,
        wb,
        ex,
        imem,
        dmem,
        npc_add,
        pc_mux,
        op,
        rd_f,
        f3,
        rs1_f,
        rs2_f,
        f7,
        ctl_reg_write,
        ctl_mem_read,
        ctl_mem_write,
        ctl_branch,
        ctl_jal,
        ctl_jalr,
        ctl_pc_sel,
        ctl_imm_sel,
        ctl_alu_ctrl,
        ctl_wb_sel,
        ctl_branch_type,
        imm,
        rs1d: rs1d.id,
        rs2d: rs2d.id,
        jal_or,
        hz,
        not_stall,
        idex_clear,
        amem,
        ifid_dis,
        idex_dis,
        exmem_dis,
    }
}

/// Wiring phase: every stage-crossing connection of the datapath, per
/// spec order — IF, IF/ID, ID/EX, EX, EX/MEM, MEM, MEM/WB, WB, the
/// register-file write-back and the disassembly chain.
#[verifier::rlimit(100)]
fn wire_dp(rtl: &mut Rtl, dp: &Dp)
    requires
        wf(old(rtl)@.nodes, old(rtl)@.ranks),
    ensures
        wf(final(rtl)@.nodes, final(rtl)@.ranks),
        crate::ranks::ranks_complete(final(rtl)@.nodes, final(rtl)@.ranks),
        final(rtl)@.ranks.len() == final(rtl)@.nodes.len(),
{
    let ex_bk = dp.ex.alloc_port(ExAlloc::BranchSel);
    let ex_alu = dp.ex.alloc_port(ExAlloc::AluRes);
    let ex_rs2d = dp.ex.alloc_port(ExAlloc::Rs2Data);

    // IF
    dp.npc_add.connect(rtl, pin(dp.pc.node), crate::add::Connect::In(0));
    dp.npc_add.connect(rtl, pin(dp.c4), crate::add::Connect::In(1));
    dp.imem.connect(rtl, pin(dp.pc.node), MemConnect::Address);
    dp.imem.connect(rtl, pin(dp.c1), MemConnect::Read);
    dp.imem.connect(rtl, pin(dp.c0), MemConnect::Write);
    dp.imem.connect(rtl, pin(dp.c0), MemConnect::Input);
    dp.pc_mux.connect(rtl, pin(dp.npc_add.node), MuxConnect::In(0));
    dp.pc_mux.connect(rtl, ex_alu, MuxConnect::In(1));
    dp.pc_mux.connect(rtl, ex_bk, MuxConnect::Select);
    dp.pc.connect(rtl, pin(dp.pc_mux.node), RegConnect::In);
    dp.pc.connect(rtl, pin(dp.not_stall), RegConnect::Enable);

    // IF/ID: held on a stall, cleared on a taken branch
    dp.ifid_pc.connect(rtl, pin(dp.pc.node), RegConnect::In);
    dp.ifid_pc.connect(rtl, pin(dp.not_stall), RegConnect::Enable);
    dp.ifid_pc.connect(rtl, ex_bk, RegConnect::Clear);
    dp.ifid_npc.connect(rtl, pin(dp.npc_add.node), RegConnect::In);
    dp.ifid_npc.connect(rtl, pin(dp.not_stall), RegConnect::Enable);
    dp.ifid_npc.connect(rtl, ex_bk, RegConnect::Clear);
    dp.ifid_inst.connect(rtl, pin(dp.imem.node), RegConnect::In);
    dp.ifid_inst.connect(rtl, pin(dp.not_stall), RegConnect::Enable);
    dp.ifid_inst.connect(rtl, ex_bk, RegConnect::Clear);

    // ID/EX: cleared on a taken branch or a load-use stall bubble
    dp.idex_reg_write.connect(rtl, pin(dp.ctl_reg_write), RegConnect::In);
    dp.idex_wb_sel.connect(rtl, pin(dp.ctl_wb_sel), RegConnect::In);
    dp.idex_mem_read.connect(rtl, pin(dp.ctl_mem_read), RegConnect::In);
    dp.idex_mem_write.connect(rtl, pin(dp.ctl_mem_write), RegConnect::In);
    dp.idex_jal.connect(rtl, pin(dp.jal_or), RegConnect::In);
    dp.idex_branch.connect(rtl, pin(dp.ctl_branch), RegConnect::In);
    dp.idex_branch_type.connect(rtl, pin(dp.ctl_branch_type), RegConnect::In);
    dp.idex_alu_ctrl.connect(rtl, pin(dp.ctl_alu_ctrl), RegConnect::In);
    dp.idex_pc_sel.connect(rtl, pin(dp.ctl_pc_sel), RegConnect::In);
    dp.idex_imm_sel.connect(rtl, pin(dp.ctl_imm_sel), RegConnect::In);
    dp.idex_pc.connect(rtl, pin(dp.ifid_pc.node), RegConnect::In);
    dp.idex_npc.connect(rtl, pin(dp.ifid_npc.node), RegConnect::In);
    dp.idex_rs1d.connect(rtl, pin(dp.rs1d), RegConnect::In);
    dp.idex_rs2d.connect(rtl, pin(dp.rs2d), RegConnect::In);
    dp.idex_imm.connect(rtl, pin(dp.imm), RegConnect::In);
    dp.idex_rs1.connect(rtl, pin(dp.rs1_f), RegConnect::In);
    dp.idex_rs2.connect(rtl, pin(dp.rs2_f), RegConnect::In);
    dp.idex_rd.connect(rtl, pin(dp.rd_f), RegConnect::In);
    dp.idex_reg_write.connect(rtl, pin(dp.idex_clear), RegConnect::Clear);
    dp.idex_wb_sel.connect(rtl, pin(dp.idex_clear), RegConnect::Clear);
    dp.idex_mem_read.connect(rtl, pin(dp.idex_clear), RegConnect::Clear);
    dp.idex_mem_write.connect(rtl, pin(dp.idex_clear), RegConnect::Clear);
    dp.idex_jal.connect(rtl, pin(dp.idex_clear), RegConnect::Clear);
    dp.idex_branch.connect(rtl, pin(dp.idex_clear), RegConnect::Clear);
    dp.idex_branch_type.connect(rtl, pin(dp.idex_clear), RegConnect::Clear);
    dp.idex_alu_ctrl.connect(rtl, pin(dp.idex_clear), RegConnect::Clear);
    dp.idex_pc_sel.connect(rtl, pin(dp.idex_clear), RegConnect::Clear);
    dp.idex_imm_sel.connect(rtl, pin(dp.idex_clear), RegConnect::Clear);
    dp.idex_pc.connect(rtl, pin(dp.idex_clear), RegConnect::Clear);
    dp.idex_npc.connect(rtl, pin(dp.idex_clear), RegConnect::Clear);
    dp.idex_rs1d.connect(rtl, pin(dp.idex_clear), RegConnect::Clear);
    dp.idex_rs2d.connect(rtl, pin(dp.idex_clear), RegConnect::Clear);
    dp.idex_imm.connect(rtl, pin(dp.idex_clear), RegConnect::Clear);
    dp.idex_rs1.connect(rtl, pin(dp.idex_clear), RegConnect::Clear);
    dp.idex_rs2.connect(rtl, pin(dp.idex_clear), RegConnect::Clear);
    dp.idex_rd.connect(rtl, pin(dp.idex_clear), RegConnect::Clear);

    // EX
    dp.ex.connect(rtl, pin(dp.idex_jal.node), ExConnect::Jal_);
    dp.ex.connect(rtl, pin(dp.idex_branch.node), ExConnect::BranchEn);
    dp.ex.connect(rtl, pin(dp.idex_pc_sel.node), ExConnect::PcSel);
    dp.ex.connect(rtl, pin(dp.idex_imm_sel.node), ExConnect::ImmSel);
    dp.ex.connect(rtl, pin(dp.idex_alu_ctrl.node), ExConnect::AluCtrl);
    dp.ex.connect(rtl, pin(dp.idex_branch_type.node), ExConnect::BranchType);
    dp.ex.connect(rtl, pin(dp.idex_pc.node), ExConnect::Pc);
    dp.ex.connect(rtl, pin(dp.idex_rs1d.node), ExConnect::Rs1Data);
    dp.ex.connect(rtl, pin(dp.idex_rs2d.node), ExConnect::Rs2Data);
    dp.ex.connect(rtl, pin(dp.idex_imm.node), ExConnect::Imm);
    dp.ex.connect(rtl, pin(dp.idex_rs1.node), ExConnect::Rs1);
    dp.ex.connect(rtl, pin(dp.idex_rs2.node), ExConnect::Rs2);
    dp.ex.connect(rtl, pin(dp.exmem_rd.node), ExConnect::RdMem);
    dp.ex.connect(rtl, pin(dp.exmem_reg_write.node), ExConnect::RdMemWrite);
    dp.ex.connect(rtl, pin(dp.exmem_alu_res.node), ExConnect::RdMemData);
    dp.ex.connect(rtl, dp.memwb.alloc_port(MemWbAlloc::Rd), ExConnect::RdWb);
    dp.ex.connect(rtl, dp.memwb.alloc_port(MemWbAlloc::RegWrite), ExConnect::RdWbWrite);
    dp.ex.connect(rtl, dp.wb.alloc_port(WbAlloc::Out), ExConnect::RdWbData);

    // EX/MEM
    dp.exmem_reg_write.connect(rtl, pin(dp.idex_reg_write.node), RegConnect::In);
    dp.exmem_wb_sel.connect(rtl, pin(dp.idex_wb_sel.node), RegConnect::In);
    dp.exmem_mem_read.connect(rtl, pin(dp.idex_mem_read.node), RegConnect::In);
    dp.exmem_mem_write.connect(rtl, pin(dp.idex_mem_write.node), RegConnect::In);
    dp.exmem_npc.connect(rtl, pin(dp.idex_npc.node), RegConnect::In);
    dp.exmem_alu_res.connect(rtl, ex_alu, RegConnect::In);
    dp.exmem_rs2d.connect(rtl, ex_rs2d, RegConnect::In);
    dp.exmem_rd.connect(rtl, pin(dp.idex_rd.node), RegConnect::In);

    // MEM
    dp.dmem.connect(rtl, pin(dp.exmem_alu_res.node), MemConnect::Address);
    dp.dmem.connect(rtl, pin(dp.exmem_rs2d.node), MemConnect::Input);
    dp.dmem.connect(rtl, pin(dp.exmem_mem_write.node), MemConnect::Write);
    dp.dmem.connect(rtl, pin(dp.exmem_mem_read.node), MemConnect::Read);

    // MEM/WB
    dp.memwb.connect(rtl, pin(dp.exmem_reg_write.node), MemWbConnect::RegWrite);
    dp.memwb.connect(rtl, pin(dp.exmem_wb_sel.node), MemWbConnect::WbSel);
    dp.memwb.connect(rtl, pin(dp.exmem_npc.node), MemWbConnect::Npc);
    dp.memwb.connect(rtl, pin(dp.exmem_alu_res.node), MemWbConnect::AluRes);
    dp.memwb.connect(rtl, pin(dp.dmem.node), MemWbConnect::MemData);
    dp.memwb.connect(rtl, pin(dp.exmem_rd.node), MemWbConnect::Rd);
    dp.memwb.connect(rtl, pin(dp.c1), MemWbConnect::Enable);
    dp.memwb.connect(rtl, pin(dp.c0), MemWbConnect::Clear);

    // WB
    dp.wb.connect(rtl, dp.memwb.alloc_port(MemWbAlloc::WbSel), WbConnect::WbSel);
    dp.wb.connect(rtl, dp.memwb.alloc_port(MemWbAlloc::Npc), WbConnect::Npc);
    dp.wb.connect(rtl, dp.memwb.alloc_port(MemWbAlloc::AluRes), WbConnect::AluRes);
    dp.wb.connect(rtl, dp.memwb.alloc_port(MemWbAlloc::MemData), WbConnect::MemData);

    // register file write-back
    dp.rf.connect(rtl, dp.memwb.alloc_port(MemWbAlloc::Rd), RfConnect::Rd);
    dp.rf.connect(rtl, dp.wb.alloc_port(WbAlloc::Out), RfConnect::RdData);
    dp.rf.connect(rtl, dp.memwb.alloc_port(MemWbAlloc::RegWrite), RfConnect::RegWrite);

    // disassembly chain
    dp.amem.connect(rtl, pin(dp.pc.node), crate::dis::Connect::Address);
    dp.ifid_dis.asm_connect(rtl, dp.amem.asm_alloc(0), AsmRegConnect::In);
    dp.idex_dis.asm_connect(
        rtl,
        dp.ifid_dis.asm_alloc(crate::dis::AsmRegAlloc::Out),
        AsmRegConnect::In,
    );
    dp.exmem_dis.asm_connect(
        rtl,
        dp.idex_dis.asm_alloc(crate::dis::AsmRegAlloc::Out),
        AsmRegConnect::In,
    );
    dp.memwb.asm_connect(
        rtl,
        dp.exmem_dis.asm_alloc(crate::dis::AsmRegAlloc::Out),
        AsmRegConnect::In,
    );
}

} // verus!
