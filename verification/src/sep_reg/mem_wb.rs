use vstd::prelude::*;

use crate::dis::{AsmRegBuilder, AsmRegConnect};
use crate::reg::{reg_conn, RegAlloc, RegBuilder, RegConnect};
use crate::rtl::{wf, AsmPortRef, AsmV, ControlRef, PortRef, Rtl, RtlV};

verus! {

/// Output pins of the MEM/WB separator.
pub enum Alloc {
    RegWrite,
    WbSel,
    Npc,
    AluRes,
    MemData,
    Rd,
}

/// Input pins of the MEM/WB separator.
pub enum Connect {
    RegWrite,
    WbSel,
    Npc,
    AluRes,
    MemData,
    Rd,
    Enable,
    Clear,
}

/// The MEM/WB separator: one register per crossing signal, a common
/// enable and clear fanned out to all of them, and a disassembly register
/// riding along for debug output.
pub struct MemWbBuilder {
    pub reg_write: RegBuilder,
    pub wb_sel: RegBuilder,
    pub npc: RegBuilder,
    pub alu_res: RegBuilder,
    pub mem_data: RegBuilder,
    pub rd: RegBuilder,
    pub dis: AsmRegBuilder,
}

/// The built MEM/WB separator: the ids of its registers.
pub struct MemWb {
    pub reg_write: usize,
    pub wb_sel: usize,
    pub npc: usize,
    pub alu_res: usize,
    pub mem_data: usize,
    pub rd: usize,
    pub dis: usize,
}

impl MemWbBuilder {
    pub open spec fn wf_b(&self, v: RtlV) -> bool {
        &&& self.reg_write.wf_b(v)
        &&& self.wb_sel.wf_b(v)
        &&& self.npc.wf_b(v)
        &&& self.alu_res.wf_b(v)
        &&& self.mem_data.wf_b(v)
        &&& self.rd.wf_b(v)
        &&& self.dis.wf_b(v)
        &&& self.distinct()
    }

    /// The six registers are six different nodes, so a fanned-out line
    /// lands on each exactly once.
    pub open spec fn distinct(&self) -> bool {
        &&& self.reg_write.node != self.wb_sel.node
        &&& self.reg_write.node != self.npc.node
        &&& self.reg_write.node != self.alu_res.node
        &&& self.reg_write.node != self.mem_data.node
        &&& self.reg_write.node != self.rd.node
        &&& self.wb_sel.node != self.npc.node
        &&& self.wb_sel.node != self.alu_res.node
        &&& self.wb_sel.node != self.mem_data.node
        &&& self.wb_sel.node != self.rd.node
        &&& self.npc.node != self.alu_res.node
        &&& self.npc.node != self.mem_data.node
        &&& self.npc.node != self.rd.node
        &&& self.alu_res.node != self.mem_data.node
        &&& self.alu_res.node != self.rd.node
        &&& self.mem_data.node != self.rd.node
    }

    /// Adds the six signal registers and the disassembly register.
    pub fn new(rtl: &mut Rtl) -> (r: MemWbBuilder)
        requires
            wf(old(rtl)@.nodes, old(rtl)@.ranks),
        ensures
            wf(final(rtl)@.nodes, final(rtl)@.ranks),
            crate::ranks::ranks_complete(final(rtl)@.nodes, final(rtl)@.ranks),
            r.wf_b(final(rtl)@),
            final(rtl)@.nodes.len() == old(rtl)@.nodes.len() + 6,
            final(rtl)@.asms.len() == old(rtl)@.asms.len() + 1,
            r.reg_write.node == old(rtl)@.nodes.len(),
            r.wb_sel.node == old(rtl)@.nodes.len() + 1,
            r.npc.node == old(rtl)@.nodes.len() + 2,
            r.alu_res.node == old(rtl)@.nodes.len() + 3,
            r.mem_data.node == old(rtl)@.nodes.len() + 4,
            r.rd.node == old(rtl)@.nodes.len() + 5,
            r.dis.node == old(rtl)@.asms.len(),
    {
        let reg_write = RegBuilder::new(rtl, 0);
        let wb_sel = RegBuilder::new(rtl, 0);
        let npc = RegBuilder::new(rtl, 0);
        let alu_res = RegBuilder::new(rtl, 0);
        let mem_data = RegBuilder::new(rtl, 0);
        let rd = RegBuilder::new(rtl, 0);
        let dis = AsmRegBuilder::new(rtl);
        MemWbBuilder { reg_write, wb_sel, npc, alu_res, mem_data, rd, dis }
    }

    /// Wires one crossing signal into its register's data input, or fans
    /// the enable or clear line out to every register of the bundle.
    pub fn connect(&self, rtl: &mut Rtl, pin: PortRef, id: Connect)
        requires
            wf(old(rtl)@.nodes, old(rtl)@.ranks),
        ensures
            wf(final(rtl)@.nodes, final(rtl)@.ranks),
            crate::ranks::ranks_complete(final(rtl)@.nodes, final(rtl)@.ranks),
            final(rtl)@.asms == old(rtl)@.asms,
            final(rtl)@.nodes.len() == old(rtl)@.nodes.len(),
            self.wf_b(old(rtl)@) ==> ({
                let pre = old(rtl)@.nodes;
                final(rtl)@.nodes == (match id {
                    Connect::RegWrite => pre.update(
                        self.reg_write.node as int,
                        reg_conn(pre[self.reg_write.node as int], pin.id, RegConnect::In),
                    ),
                    Connect::WbSel => pre.update(
                        self.wb_sel.node as int,
                        reg_conn(pre[self.wb_sel.node as int], pin.id, RegConnect::In),
                    ),
                    Connect::Npc => pre.update(
                        self.npc.node as int,
                        reg_conn(pre[self.npc.node as int], pin.id, RegConnect::In),
                    ),
                    Connect::AluRes => pre.update(
                        self.alu_res.node as int,
                        reg_conn(pre[self.alu_res.node as int], pin.id, RegConnect::In),
                    ),
                    Connect::MemData => pre.update(
                        self.mem_data.node as int,
                        reg_conn(pre[self.mem_data.node as int], pin.id, RegConnect::In),
                    ),
                    Connect::Rd => pre.update(
                        self.rd.node as int,
                        reg_conn(pre[self.rd.node as int], pin.id, RegConnect::In),
                    ),
                    Connect::Enable => pre.update(
                        self.reg_write.node as int,
                        reg_conn(pre[self.reg_write.node as int], pin.id, RegConnect::Enable),
                    ).update(
                        self.wb_sel.node as int,
                        reg_conn(pre[self.wb_sel.node as int], pin.id, RegConnect::Enable),
                    ).update(
                        self.npc.node as int,
                        reg_conn(pre[self.npc.node as int], pin.id, RegConnect::Enable),
                    ).update(
                        self.alu_res.node as int,
                        reg_conn(pre[self.alu_res.node as int], pin.id, RegConnect::Enable),
                    ).update(
                        self.mem_data.node as int,
                        reg_conn(pre[self.mem_data.node as int], pin.id, RegConnect::Enable),
                    ).update(
                        self.rd.node as int,
                        reg_conn(pre[self.rd.node as int], pin.id, RegConnect::Enable),
                    ),
                    Connect::Clear => pre.update(
                        self.reg_write.node as int,
                        reg_conn(pre[self.reg_write.node as int], pin.id, RegConnect::Clear),
                    ).update(
                        self.wb_sel.node as int,
                        reg_conn(pre[self.wb_sel.node as int], pin.id, RegConnect::Clear),
                    ).update(
                        self.npc.node as int,
                        reg_conn(pre[self.npc.node as int], pin.id, RegConnect::Clear),
                    ).update(
                        self.alu_res.node as int,
                        reg_conn(pre[self.alu_res.node as int], pin.id, RegConnect::Clear),
                    ).update(
                        self.mem_data.node as int,
                        reg_conn(pre[self.mem_data.node as int], pin.id, RegConnect::Clear),
                    ).update(
                        self.rd.node as int,
                        reg_conn(pre[self.rd.node as int], pin.id, RegConnect::Clear),
                    ),
                })
            }),
    {
        match id {
            Connect::RegWrite => self.reg_write.connect(rtl, pin, RegConnect::In),
            Connect::WbSel => self.wb_sel.connect(rtl, pin, RegConnect::In),
            Connect::Npc => self.npc.connect(rtl, pin, RegConnect::In),
            Connect::AluRes => self.alu_res.connect(rtl, pin, RegConnect::In),
            Connect::MemData => self.mem_data.connect(rtl, pin, RegConnect::In),
            Connect::Rd => self.rd.connect(rtl, pin, RegConnect::In),
            Connect::Enable => {
                self.reg_write.connect(rtl, pin, RegConnect::Enable);
                self.wb_sel.connect(rtl, pin, RegConnect::Enable);
                self.npc.connect(rtl, pin, RegConnect::Enable);
                self.alu_res.connect(rtl, pin, RegConnect::Enable);
                self.mem_data.connect(rtl, pin, RegConnect::Enable);
                self.rd.connect(rtl, pin, RegConnect::Enable);
            },
            Connect::Clear => {
                self.reg_write.connect(rtl, pin, RegConnect::Clear);
                self.wb_sel.connect(rtl, pin, RegConnect::Clear);
                self.npc.connect(rtl, pin, RegConnect::Clear);
                self.alu_res.connect(rtl, pin, RegConnect::Clear);
                self.mem_data.connect(rtl, pin, RegConnect::Clear);
                self.rd.connect(rtl, pin, RegConnect::Clear);
            },
        }
    }

    /// Wires the upstream disassembly port into the bundle's register.
    pub fn asm_connect(&self, rtl: &mut Rtl, pin: AsmPortRef, id: AsmRegConnect)
        ensures
            self.dis.wf_b(old(rtl)@) ==> final(rtl)@.asms == old(rtl)@.asms.update(
                self.dis.node as int,
                match old(rtl)@.asms[self.dis.node as int] {
                    AsmV::AReg { input, visible, shadow } => AsmV::AReg {
                        input: Option::Some(pin.id),
                        visible,
                        shadow,
                    },
                    other => other,
                },
            ),
            final(rtl)@.nodes == old(rtl)@.nodes,
            final(rtl)@.ranks == old(rtl)@.ranks,
            final(rtl)@.asms.len() == old(rtl)@.asms.len(),
    {
        self.dis.asm_connect(rtl, pin, id);
    }

    /// Hands out the bundle's disassembly port.
    pub fn asm_alloc(&self, _id: usize) -> (p: AsmPortRef)
        ensures
            p.id == self.dis.node,
    {
        AsmPortRef { id: self.dis.node }
    }

    /// Hands out one latched signal.
    pub fn alloc_port(&self, id: Alloc) -> (p: PortRef)
        ensures
            p.id == (match id {
                Alloc::RegWrite => self.reg_write.node,
                Alloc::WbSel => self.wb_sel.node,
                Alloc::Npc => self.npc.node,
                Alloc::AluRes => self.alu_res.node,
                Alloc::MemData => self.mem_data.node,
                Alloc::Rd => self.rd.node,
            }),
    {
        match id {
            Alloc::RegWrite => self.reg_write.alloc_port(RegAlloc::Out),
            Alloc::WbSel => self.wb_sel.alloc_port(RegAlloc::Out),
            Alloc::Npc => self.npc.alloc_port(RegAlloc::Out),
            Alloc::AluRes => self.alu_res.alloc_port(RegAlloc::Out),
            Alloc::MemData => self.mem_data.alloc_port(RegAlloc::Out),
            Alloc::Rd => self.rd.alloc_port(RegAlloc::Out),
        }
    }

    /// Freezes the bundle into its register ids.
    pub fn build(self) -> (r: MemWb)
        ensures
            r.reg_write == self.reg_write.node,
            r.wb_sel == self.wb_sel.node,
            r.npc == self.npc.node,
            r.alu_res == self.alu_res.node,
            r.mem_data == self.mem_data.node,
            r.rd == self.rd.node,
            r.dis == self.dis.node,
    {
        MemWb {
            reg_write: self.reg_write.node,
            wb_sel: self.wb_sel.node,
            npc: self.npc.node,
            alu_res: self.alu_res.node,
            mem_data: self.mem_data.node,
            rd: self.rd.node,
            dis: self.dis.node,
        }
    }
}

} // verus!
