use vstd::prelude::*;

use crate::mem::{Mem, STACK_ADDR};
use crate::rtl::{
    node_ok, port_value, view_asm, view_node, wf, AsmNode, AsmV, ControlRef, Node, NodeV, Rtl,
};

verus! {

/// Whether `j` occurs among the first `k` entries of `members`.
pub open spec fn in_prefix(members: Seq<usize>, k: int, j: int) -> bool {
    exists|k2: int| 0 <= k2 < k && (members[k2] as int) == j
}

/// The value a port presents to a sequential input, with a default for a
/// deliberately unconnected pin.
pub open spec fn pv_or(
    nodes: Seq<NodeV>,
    ranks: Seq<Option<usize>>,
    o: Option<usize>,
    d: u32,
) -> Option<u32> {
    match o {
        Option::None => Option::Some(d),
        Option::Some(j) => port_value(nodes, ranks, Option::Some(j)),
    }
}

/// What a register's shadow samples on the rising edge: clear (default 0)
/// wins over enable (default 1); an enabled register with an unreadable
/// input holds its visible value, as does one with unreadable controls.
pub open spec fn reg_shadow_next(
    nodes: Seq<NodeV>,
    ranks: Seq<Option<usize>>,
    input: Option<usize>,
    enable: Option<usize>,
    clear: Option<usize>,
    visible: u32,
) -> u32 {
    match (pv_or(nodes, ranks, clear, 0), pv_or(nodes, ranks, enable, 1)) {
        (Option::Some(cv), Option::Some(ev)) => if cv == 1 {
            0
        } else if ev == 1 {
            match port_value(nodes, ranks, input) {
                Option::Some(v) => v,
                Option::None => visible,
            }
        } else {
            visible
        },
        _ => visible,
    }
}

/// One node after the rising edge: stateful nodes sample their inputs into
/// shadow state; everything else is untouched. No visible state changes,
/// so every rising edge observes the pre-edge values regardless of order.
pub open spec fn rise_node(nodes: Seq<NodeV>, ranks: Seq<Option<usize>>, i: int) -> NodeV {
    match nodes[i] {
        NodeV::Reg { input, enable, clear, visible, shadow } => NodeV::Reg {
            input,
            enable,
            clear,
            visible,
            shadow: reg_shadow_next(nodes, ranks, input, enable, clear, visible),
        },
        NodeV::Mem {
            data,
            stack,
            address,
            input,
            write,
            read_en,
            address_cache,
            input_cache,
            write_cache,
        } => {
            match port_value(nodes, ranks, write) {
                Option::Some(w) => if w == 1 {
                    match (port_value(nodes, ranks, address), port_value(nodes, ranks, input)) {
                        (Option::Some(a), Option::Some(d)) => NodeV::Mem {
                            data,
                            stack,
                            address,
                            input,
                            write,
                            read_en,
                            address_cache: a,
                            input_cache: d,
                            write_cache: 1,
                        },
                        _ => NodeV::Mem {
                            data,
                            stack,
                            address,
                            input,
                            write,
                            read_en,
                            address_cache,
                            input_cache,
                            write_cache: 0,
                        },
                    }
                } else {
                    NodeV::Mem {
                        data,
                        stack,
                        address,
                        input,
                        write,
                        read_en,
                        address_cache,
                        input_cache,
                        write_cache: 0,
                    }
                },
                Option::None => NodeV::Mem {
                    data,
                    stack,
                    address,
                    input,
                    write,
                    read_en,
                    address_cache,
                    input_cache,
                    write_cache: 0,
                },
            }
        },
        NodeV::Rf { regs, rd, rd_data, reg_write, rd_cache, rd_data_cache, reg_write_cache } => {
            match (
                port_value(nodes, ranks, reg_write),
                port_value(nodes, ranks, rd),
                port_value(nodes, ranks, rd_data),
            ) {
                (Option::Some(w), Option::Some(r), Option::Some(d)) => NodeV::Rf {
                    regs,
                    rd,
                    rd_data,
                    reg_write,
                    rd_cache: r,
                    rd_data_cache: d,
                    reg_write_cache: w,
                },
                _ => NodeV::Rf {
                    regs,
                    rd,
                    rd_data,
                    reg_write,
                    rd_cache,
                    rd_data_cache,
                    reg_write_cache: 0,
                },
            }
        },
        other => other,
    }
}

/// The whole arena after a rising edge clocking `members`.
pub open spec fn rise_all(
    nodes: Seq<NodeV>,
    ranks: Seq<Option<usize>>,
    members: Seq<usize>,
) -> Seq<NodeV> {
    Seq::new(
        nodes.len(),
        |i: int|
            if in_prefix(members, members.len() as int, i) {
                rise_node(nodes, ranks, i)
            } else {
                nodes[i]
            },
    )
}

/// A byte sequence grown with zeros to at least `m` bytes.
pub open spec fn grow_z(s: Seq<u8>, m: int) -> Seq<u8> {
    if m <= s.len() {
        s
    } else {
        s + Seq::new((m - s.len()) as nat, |x: int| 0u8)
    }
}

/// Four bytes of a word stored little-endian at `a`.
pub open spec fn put4(s: Seq<u8>, a: int, w: u32) -> Seq<u8> {
    s.update(a, (w & 0xFF) as u8).update(a + 1, ((w >> 8) & 0xFF) as u8).update(
        a + 2,
        ((w >> 16) & 0xFF) as u8,
    ).update(a + 3, ((w >> 24) & 0xFF) as u8)
}

/// Where a committed store lands: addresses above `STACK_ADDR` go to the
/// stack arena, everything else to the low arena, and whichever arena is
/// hit grows zero-filled to cover the word.
pub open spec fn mem_fall(data: Seq<u8>, stack: Seq<u8>, a: u32, w: u32) -> (Seq<u8>, Seq<u8>) {
    if a > STACK_ADDR {
        (data, put4(grow_z(stack, a - STACK_ADDR + 4), a - STACK_ADDR, w))
    } else {
        (put4(grow_z(data, a + 4), a as int, w), stack)
    }
}

/// One node after the falling edge: shadow state becomes visible. Each
/// commit touches only its own node, so falling edges are order-free.
pub open spec fn fall_node(n: NodeV) -> NodeV {
    match n {
        NodeV::Reg { input, enable, clear, visible, shadow } => NodeV::Reg {
            input,
            enable,
            clear,
            visible: shadow,
            shadow,
        },
        NodeV::Mem {
            data,
            stack,
            address,
            input,
            write,
            read_en,
            address_cache,
            input_cache,
            write_cache,
        } => {
            if write_cache == 1 {
                let ds = mem_fall(data, stack, address_cache, input_cache);
                NodeV::Mem {
                    data: ds.0,
                    stack: ds.1,
                    address,
                    input,
                    write,
                    read_en,
                    address_cache,
                    input_cache,
                    write_cache,
                }
            } else {
                n
            }
        },
        NodeV::Rf { regs, rd, rd_data, reg_write, rd_cache, rd_data_cache, reg_write_cache } => {
            if reg_write_cache == 1 && rd_cache != 0 && (rd_cache as int) < regs.len() {
                NodeV::Rf {
                    regs: regs.update(rd_cache as int, rd_data_cache),
                    rd,
                    rd_data,
                    reg_write,
                    rd_cache,
                    rd_data_cache,
                    reg_write_cache,
                }
            } else {
                n
            }
        },
        other => other,
    }
}

/// The whole arena after a falling edge clocking `members`.
pub open spec fn fall_all(nodes: Seq<NodeV>, members: Seq<usize>) -> Seq<NodeV> {
    Seq::new(
        nodes.len(),
        |i: int|
            if in_prefix(members, members.len() as int, i) {
                fall_node(nodes[i])
            } else {
                nodes[i]
            },
    )
}

/// The string a disassembly port shows.
pub open spec fn asm_value(
    nodes: Seq<NodeV>,
    ranks: Seq<Option<usize>>,
    asms: Seq<AsmV>,
    j: int,
) -> Option<Seq<char>> {
    match asms[j] {
        AsmV::AMem { address, mem } => match port_value(nodes, ranks, address) {
            Option::Some(a) => if (a as int) / 4 < mem.len() {
                Option::Some(mem[(a as int) / 4])
            } else {
                Option::Some("Invalid instruction"@)
            },
            Option::None => Option::None,
        },
        AsmV::AReg { visible, .. } => Option::Some(visible),
    }
}

/// One disassembly node after the rising edge.
pub open spec fn asm_rise(
    nodes: Seq<NodeV>,
    ranks: Seq<Option<usize>>,
    asms: Seq<AsmV>,
    j: int,
) -> AsmV {
    match asms[j] {
        AsmV::AReg { input, visible, shadow } => AsmV::AReg {
            input,
            visible,
            shadow: match input {
                Option::Some(k) => if (k as int) < asms.len() {
                    match asm_value(nodes, ranks, asms, k as int) {
                        Option::Some(s) => s,
                        Option::None => visible,
                    }
                } else {
                    visible
                },
                Option::None => visible,
            },
        },
        other => other,
    }
}

pub open spec fn asm_rise_all(
    nodes: Seq<NodeV>,
    ranks: Seq<Option<usize>>,
    asms: Seq<AsmV>,
    members: Seq<usize>,
) -> Seq<AsmV> {
    Seq::new(
        asms.len(),
        |j: int|
            if in_prefix(members, members.len() as int, j) {
                asm_rise(nodes, ranks, asms, j)
            } else {
                asms[j]
            },
    )
}

/// One disassembly node after the falling edge.
pub open spec fn asm_fall(n: AsmV) -> AsmV {
    match n {
        AsmV::AReg { input, visible, shadow } => AsmV::AReg { input, visible: shadow, shadow },
        other => other,
    }
}

pub open spec fn asm_fall_all(asms: Seq<AsmV>, members: Seq<usize>) -> Seq<AsmV> {
    Seq::new(
        asms.len(),
        |j: int|
            if in_prefix(members, members.len() as int, j) {
                asm_fall(asms[j])
            } else {
                asms[j]
            },
    )
}

/// A pending shadow update, computed against pre-edge state in a first
/// pass and applied in a second.
#[derive(Clone, Copy)]
pub enum Upd {
    RS(u32),
    MW(u32, u32),
    M0,
    FW(u32, u32, u32),
    F0,
    Keep,
}

/// The effect of applying one pending update to a node.
pub open spec fn apply_upd(n: NodeV, u: Upd) -> NodeV {
    match u {
        Upd::RS(s) => match n {
            NodeV::Reg { input, enable, clear, visible, shadow } => NodeV::Reg {
                input,
                enable,
                clear,
                visible,
                shadow: s,
            },
            other => other,
        },
        Upd::MW(a, d) => match n {
            NodeV::Mem {
                data,
                stack,
                address,
                input,
                write,
                read_en,
                address_cache,
                input_cache,
                write_cache,
            } => NodeV::Mem {
                data,
                stack,
                address,
                input,
                write,
                read_en,
                address_cache: a,
                input_cache: d,
                write_cache: 1,
            },
            other => other,
        },
        Upd::M0 => match n {
            NodeV::Mem {
                data,
                stack,
                address,
                input,
                write,
                read_en,
                address_cache,
                input_cache,
                write_cache,
            } => NodeV::Mem {
                data,
                stack,
                address,
                input,
                write,
                read_en,
                address_cache,
                input_cache,
                write_cache: 0,
            },
            other => other,
        },
        Upd::FW(w, r, d) => match n {
            NodeV::Rf { regs, rd, rd_data, reg_write, rd_cache, rd_data_cache, reg_write_cache } =>
                NodeV::Rf {
                regs,
                rd,
                rd_data,
                reg_write,
                rd_cache: r,
                rd_data_cache: d,
                reg_write_cache: w,
            },
            other => other,
        },
        Upd::F0 => match n {
            NodeV::Rf { regs, rd, rd_data, reg_write, rd_cache, rd_data_cache, reg_write_cache } =>
                NodeV::Rf {
                regs,
                rd,
                rd_data,
                reg_write,
                rd_cache,
                rd_data_cache,
                reg_write_cache: 0,
            },
            other => other,
        },
        Upd::Keep => n,
    }
}

impl Rtl {
    /// Computes the pending update of one node against the current state.
    fn rise_upd(&self, i: usize) -> (u: Upd)
        requires
            wf(self@.nodes, self@.ranks),
            i < self@.nodes.len(),
        ensures
            apply_upd(self@.nodes[i as int], u) == rise_node(self@.nodes, self@.ranks, i as int),
    {
        proof {
            assert(self@.nodes[i as int] == view_node(self.nodes@[i as int]));
        }
        match &self.nodes[i] {
            Node::Reg(r) => {
                let cv = match r.clear {
                    Option::Some(_) => self.read_opt(&r.clear),
                    Option::None => Option::Some(0),
                };
                let ev = match r.enable {
                    Option::Some(_) => self.read_opt(&r.enable),
                    Option::None => Option::Some(1),
                };
                let s: u32 = match (cv, ev) {
                    (Option::Some(c), Option::Some(e)) => if c == 1 {
                        0
                    } else if e == 1 {
                        match self.read_opt(&r.input) {
                            Option::Some(v) => v,
                            Option::None => r.visible,
                        }
                    } else {
                        r.visible
                    },
                    _ => r.visible,
                };
                Upd::RS(s)
            },
            Node::Mem(m) => {
                match self.read_opt(&m.write) {
                    Option::Some(w) => if w == 1 {
                        match (self.read_opt(&m.address), self.read_opt(&m.input)) {
                            (Option::Some(a), Option::Some(d)) => Upd::MW(a, d),
                            _ => Upd::M0,
                        }
                    } else {
                        Upd::M0
                    },
                    Option::None => Upd::M0,
                }
            },
            Node::Rf(f) => {
                match (
                    self.read_opt(&f.reg_write),
                    self.read_opt(&f.rd),
                    self.read_opt(&f.rd_data),
                ) {
                    (Option::Some(w), Option::Some(r), Option::Some(d)) => Upd::FW(w, r, d),
                    _ => Upd::F0,
                }
            },
            _ => Upd::Keep,
        }
    }

    /// The rising edge: every clocked node samples its inputs into shadow
    /// state. All samples are taken against the pre-edge state first and
    /// applied afterwards, realizing the order-independence the two-phase
    /// discipline promises.
    pub fn rasing_edge(&mut self, c: &ControlRef)
        requires
            wf(old(self)@.nodes, old(self)@.ranks),
            forall|k: int|
                0 <= k < c.members@.len() ==> (#[trigger] c.members@[k] as int) < old(
                    self,
                )@.nodes.len(),
            forall|k: int|
                0 <= k < c.asm_members@.len() ==> (#[trigger] c.asm_members@[k] as int) < old(
                    self,
                )@.asms.len(),
        ensures
            final(self)@.nodes == rise_all(old(self)@.nodes, old(self)@.ranks, c.members@),
            final(self)@.ranks == old(self)@.ranks,
            final(self)@.asms == asm_rise_all(
                old(self)@.nodes,
                old(self)@.ranks,
                old(self)@.asms,
                c.asm_members@,
            ),
            wf(final(self)@.nodes, final(self)@.ranks),
    {
        let ghost nodes0 = self@.nodes;
        let ghost ranks0 = self@.ranks;
        let ghost asms0 = self@.asms;
        let mut upds: Vec<Upd> = Vec::new();
        let mut k: usize = 0;
        while k < c.members.len()
            invariant
                wf(self@.nodes, self@.ranks),
                self@.nodes == nodes0,
                self@.ranks == ranks0,
                self@.asms == asms0,
                forall|k2: int|
                    0 <= k2 < c.members@.len() ==> (#[trigger] c.members@[k2] as int)
                        < nodes0.len(),
                upds@.len() == k,
                0 <= k <= c.members@.len(),
                forall|k2: int|
                    0 <= k2 < k ==> apply_upd(nodes0[c.members@[k2] as int], #[trigger] upds@[k2])
                        == rise_node(nodes0, ranks0, c.members@[k2] as int),
            decreases c.members@.len() - k,
        {
            let i = c.members[k];
            let u = self.rise_upd(i);
            upds.push(u);
            k = k + 1;
        }
        let mut asm_upds: Vec<Option<String>> = Vec::new();
        let mut k2: usize = 0;
        while k2 < c.asm_members.len()
            invariant
                wf(self@.nodes, self@.ranks),
                self@.nodes == nodes0,
                self@.ranks == ranks0,
                self@.asms == asms0,
                forall|k3: int|
                    0 <= k3 < c.asm_members@.len() ==> (#[trigger] c.asm_members@[k3] as int)
                        < asms0.len(),
                asm_upds@.len() == k2,
                0 <= k2 <= c.asm_members@.len(),
                forall|k3: int|
                    0 <= k3 < k2 ==> apply_asm_upd(
                        asms0[c.asm_members@[k3] as int],
                        #[trigger] asm_upds@[k3],
                    ) == asm_rise(nodes0, ranks0, asms0, c.asm_members@[k3] as int),
            decreases c.asm_members@.len() - k2,
        {
            let j = c.asm_members[k2];
            let u = self.asm_rise_upd(j);
            asm_upds.push(u);
            k2 = k2 + 1;
        }
        // apply the node updates
        let mut k: usize = 0;
        while k < c.members.len()
            invariant
                self@.ranks == ranks0,
                self@.asms == asms0,
                self@.nodes.len() == nodes0.len(),
                upds@.len() == c.members@.len(),
                forall|k2: int|
                    0 <= k2 < c.members@.len() ==> (#[trigger] c.members@[k2] as int)
                        < nodes0.len(),
                forall|k2: int|
                    0 <= k2 < c.members@.len() ==> apply_upd(
                        nodes0[c.members@[k2] as int],
                        #[trigger] upds@[k2],
                    ) == rise_node(nodes0, ranks0, c.members@[k2] as int),
                0 <= k <= c.members@.len(),
                self@.nodes =~= Seq::new(
                    nodes0.len(),
                    |i: int|
                        if in_prefix(c.members@, k as int, i) {
                            rise_node(nodes0, ranks0, i)
                        } else {
                            nodes0[i]
                        },
                ),
            decreases c.members@.len() - k,
        {
            let i = c.members[k];
            let ghost pre = self@.nodes;
            let u = upds[k];
            match (&mut self.nodes[i], u) {
                (Node::Reg(r), Upd::RS(s)) => {
                    r.shadow = s;
                },
                (Node::Mem(m), Upd::MW(a, d)) => {
                    m.address_cache = a;
                    m.input_cache = d;
                    m.write_cache = 1;
                },
                (Node::Mem(m), Upd::M0) => {
                    m.write_cache = 0;
                },
                (Node::Rf(f), Upd::FW(w, r, d)) => {
                    f.rd_cache = r;
                    f.rd_data_cache = d;
                    f.reg_write_cache = w;
                },
                (Node::Rf(f), Upd::F0) => {
                    f.reg_write_cache = 0;
                },
                (_, _) => {},
            }
            proof {
                assert(self@.nodes =~= pre.update(
                    i as int,
                    apply_upd(pre[i as int], upds@[k as int]),
                ));
                let target = Seq::new(
                    nodes0.len(),
                    |j: int|
                        if in_prefix(c.members@, k as int + 1, j) {
                            rise_node(nodes0, ranks0, j)
                        } else {
                            nodes0[j]
                        },
                );
                assert(apply_upd(apply_upd(nodes0[i as int], upds@[k as int]), upds@[k as int])
                    == apply_upd(nodes0[i as int], upds@[k as int]));
                assert forall|j: int| 0 <= j < nodes0.len() implies self@.nodes[j] == target[j] by {
                    if j == i as int {
                        assert(in_prefix(c.members@, k as int + 1, j)) by {
                            assert(0 <= k < k as int + 1 && (c.members@[k as int] as int) == j);
                        }
                    } else {
                        assert(in_prefix(c.members@, k as int + 1, j) == in_prefix(
                            c.members@,
                            k as int,
                            j,
                        )) by {
                            if in_prefix(c.members@, k as int + 1, j) {
                                let w = choose|k2: int|
                                    0 <= k2 < k as int + 1 && (c.members@[k2] as int) == j;
                                assert(w < k as int);
                                assert(in_prefix(c.members@, k as int, j));
                            }
                            if in_prefix(c.members@, k as int, j) {
                                let w = choose|k2: int|
                                    0 <= k2 < k as int && (c.members@[k2] as int) == j;
                                assert(0 <= w < k as int + 1 && (c.members@[w] as int) == j);
                            }
                        }
                    }
                }
                assert(self@.nodes =~= target);
            }
            k = k + 1;
        }
        // apply the disassembly updates
        let ghost nodes1 = self@.nodes;
        let mut k2: usize = 0;
        while k2 < c.asm_members.len()
            invariant
                self@.ranks == ranks0,
                self@.nodes == nodes1,
                self@.asms.len() == asms0.len(),
                asm_upds@.len() == c.asm_members@.len(),
                forall|k3: int|
                    0 <= k3 < c.asm_members@.len() ==> (#[trigger] c.asm_members@[k3] as int)
                        < asms0.len(),
                forall|k3: int|
                    0 <= k3 < c.asm_members@.len() ==> apply_asm_upd(
                        asms0[c.asm_members@[k3] as int],
                        #[trigger] asm_upds@[k3],
                    ) == asm_rise(nodes0, ranks0, asms0, c.asm_members@[k3] as int),
                0 <= k2 <= c.asm_members@.len(),
                self@.asms =~= Seq::new(
                    asms0.len(),
                    |j: int|
                        if in_prefix(c.asm_members@, k2 as int, j) {
                            asm_rise(nodes0, ranks0, asms0, j)
                        } else {
                            asms0[j]
                        },
                ),
            decreases c.asm_members@.len() - k2,
        {
            let j = c.asm_members[k2];
            let ghost pre = self@.asms;
            match (&mut self.asm_nodes[j], &asm_upds[k2]) {
                (AsmNode::AReg(r), Option::Some(s)) => {
                    r.shadow = s.clone();
                },
                (AsmNode::AReg(r), Option::None) => {
                    let v = r.visible.clone();
                    r.shadow = v;
                },
                (_, _) => {},
            }
            proof {
                assert(self@.asms =~= pre.update(
                    j as int,
                    apply_asm_upd(pre[j as int], asm_upds@[k2 as int]),
                ));
                let target = Seq::new(
                    asms0.len(),
                    |j2: int|
                        if in_prefix(c.asm_members@, k2 as int + 1, j2) {
                            asm_rise(nodes0, ranks0, asms0, j2)
                        } else {
                            asms0[j2]
                        },
                );
                assert(apply_asm_upd(
                    apply_asm_upd(asms0[j as int], asm_upds@[k2 as int]),
                    asm_upds@[k2 as int],
                ) == apply_asm_upd(asms0[j as int], asm_upds@[k2 as int]));
                assert forall|j2: int| 0 <= j2 < asms0.len() implies self@.asms[j2]
                    == target[j2] by {
                    if j2 == j as int {
                        assert(in_prefix(c.asm_members@, k2 as int + 1, j2)) by {
                            assert(0 <= k2 < k2 as int + 1 && (c.asm_members@[k2 as int] as int)
                                == j2);
                        }
                    } else {
                        assert(in_prefix(c.asm_members@, k2 as int + 1, j2) == in_prefix(
                            c.asm_members@,
                            k2 as int,
                            j2,
                        )) by {
                            if in_prefix(c.asm_members@, k2 as int + 1, j2) {
                                let w = choose|k3: int|
                                    0 <= k3 < k2 as int + 1 && (c.asm_members@[k3] as int) == j2;
                                assert(w < k2 as int);
                                assert(in_prefix(c.asm_members@, k2 as int, j2));
                            }
                            if in_prefix(c.asm_members@, k2 as int, j2) {
                                let w = choose|k3: int|
                                    0 <= k3 < k2 as int && (c.asm_members@[k3] as int) == j2;
                                assert(0 <= w < k2 as int + 1 && (c.asm_members@[w] as int) == j2);
                            }
                        }
                    }
                }
                assert(self@.asms =~= target);
            }
            k2 = k2 + 1;
        }
        proof {
            lemma_rise_preserves_wf(nodes0, ranks0, c.members@);
        }
    }
}

/// The effect of applying one pending disassembly update.
pub open spec fn apply_asm_upd(n: AsmV, u: Option<String>) -> AsmV {
    match n {
        AsmV::AReg { input, visible, shadow } => AsmV::AReg {
            input,
            visible,
            shadow: match u {
                Option::Some(s) => s@,
                Option::None => visible,
            },
        },
        other => other,
    }
}

/// Rank-soundness only reads the wiring, which no edge changes.
pub proof fn lemma_rise_preserves_wf(
    nodes: Seq<NodeV>,
    ranks: Seq<Option<usize>>,
    members: Seq<usize>,
)
    requires
        wf(nodes, ranks),
    ensures
        wf(rise_all(nodes, ranks, members), ranks),
{
    let newn = rise_all(nodes, ranks, members);
    assert forall|i: int| 0 <= i < newn.len() implies #[trigger] node_ok(newn, ranks, i) by {
        assert(node_ok(nodes, ranks, i));
    }
}

pub proof fn lemma_fall_preserves_wf(nodes: Seq<NodeV>, ranks: Seq<Option<usize>>, members: Seq<usize>)
    requires
        wf(nodes, ranks),
    ensures
        wf(fall_all(nodes, members), ranks),
{
    let newn = fall_all(nodes, members);
    assert forall|i: int| 0 <= i < newn.len() implies #[trigger] node_ok(newn, ranks, i) by {
        assert(node_ok(nodes, ranks, i));
    }
}


/// The low byte of each shifted field of a word is below 256.
pub proof fn lemma_byte_bounds(w: u32)
    ensures
        (w & 0xFF) < 256,
        ((w >> 8) & 0xFF) < 256,
        ((w >> 16) & 0xFF) < 256,
        ((w >> 24) & 0xFF) < 256,
{
    assert((w & 0xFF) < 256 && ((w >> 8) & 0xFF) < 256 && ((w >> 16) & 0xFF) < 256 && ((w >> 24)
        & 0xFF) < 256) by (bit_vector);
}

/// Commits one latched store into the arenas.
fn mem_commit_exec(m: &mut Mem)
    requires
        old(m).write_cache == 1,
    ensures
        final(m).data@ == mem_fall(
            old(m).data@,
            old(m).stack@,
            old(m).address_cache,
            old(m).input_cache,
        ).0,
        final(m).stack@ == mem_fall(
            old(m).data@,
            old(m).stack@,
            old(m).address_cache,
            old(m).input_cache,
        ).1,
        final(m).address == old(m).address,
        final(m).input == old(m).input,
        final(m).write == old(m).write,
        final(m).read_en == old(m).read_en,
        final(m).address_cache == old(m).address_cache,
        final(m).input_cache == old(m).input_cache,
        final(m).write_cache == old(m).write_cache,
{
    let a = m.address_cache;
    let w = m.input_cache;
    proof {
        lemma_byte_bounds(w);
    }
    if a > STACK_ADDR {
        let off = (a - STACK_ADDR) as usize;
        let ghost olds = m.stack@;
        let need = off + 4;
        if m.stack.len() < need {
            grow_zeroed(&mut m.stack, need);
        }
        proof {
            assert(m.stack@ =~= grow_z(olds, need as int));
        }
        m.stack[off] = (w & 0xFF) as u8;
        m.stack[off + 1] = ((w >> 8) & 0xFF) as u8;
        m.stack[off + 2] = ((w >> 16) & 0xFF) as u8;
        m.stack[off + 3] = ((w >> 24) & 0xFF) as u8;
        proof {
            assert(m.stack@ =~= put4(grow_z(olds, a - STACK_ADDR + 4), a - STACK_ADDR, w));
        }
    } else {
        let o = a as usize;
        let ghost oldd = m.data@;
        let need = o + 4;
        if m.data.len() < need {
            grow_zeroed(&mut m.data, need);
        }
        proof {
            assert(m.data@ =~= grow_z(oldd, need as int));
        }
        m.data[o] = (w & 0xFF) as u8;
        m.data[o + 1] = ((w >> 8) & 0xFF) as u8;
        m.data[o + 2] = ((w >> 16) & 0xFF) as u8;
        m.data[o + 3] = ((w >> 24) & 0xFF) as u8;
        proof {
            assert(m.data@ =~= put4(grow_z(oldd, a + 4), a as int, w));
        }
    }
}

/// Grows an arena zero-filled to `need` bytes. A fresh zeroed
/// allocation plus a prefix copy keeps a large growth cheap: the zero
/// pages come from the allocator and only the bytes actually used are
/// ever touched.
fn grow_zeroed(v: &mut Vec<u8>, need: usize)
    requires
        old(v)@.len() < need,
    ensures
        final(v)@ == grow_z(old(v)@, need as int),
{
    let ghost olds = v@;
    let mut fresh: Vec<u8> = vec![0u8; need];
    proof {
        assert forall|j: int| 0 <= j < need implies fresh@[j] == 0u8 by {
            assert(vstd::pervasive::cloned::<u8>(0u8, fresh@[j]));
        }
    }
    let mut i: usize = 0;
    while i < v.len()
        invariant
            v@ == olds,
            olds.len() < need,
            fresh@.len() == need,
            0 <= i <= olds.len(),
            forall|j: int| 0 <= j < i ==> fresh@[j] == olds[j],
            forall|j: int| i <= j < need ==> fresh@[j] == 0u8,
        decreases olds.len() - i,
    {
        let b = v[i];
        fresh[i] = b;
        i = i + 1;
    }
    *v = fresh;
    proof {
        assert(v@ =~= grow_z(olds, need as int));
    }
}

impl Rtl {
    /// Reads the string a disassembly port currently shows.
    pub fn read_asm(&self, j: usize) -> (r: Option<String>)
        requires
            wf(self@.nodes, self@.ranks),
            j < self@.asms.len(),
        ensures
            match r {
                Option::Some(s) => asm_value(self@.nodes, self@.ranks, self@.asms, j as int)
                    == Option::Some(s@),
                Option::None => asm_value(self@.nodes, self@.ranks, self@.asms, j as int) is None,
            },
    {
        proof {
            assert(self@.asms[j as int] == view_asm(self.asm_nodes@[j as int]));
        }
        match &self.asm_nodes[j] {
            AsmNode::AMem(a) => match self.read_opt(&a.address) {
                Option::Some(ad) => {
                    let idx = (ad / 4) as usize;
                    if idx < a.mem.len() {
                        Option::Some(a.mem[idx].clone())
                    } else {
                        Option::Some("Invalid instruction".to_owned())
                    }
                },
                Option::None => Option::None,
            },
            AsmNode::AReg(r) => Option::Some(r.visible.clone()),
        }
    }

    /// Computes the pending update of one disassembly node.
    fn asm_rise_upd(&self, j: usize) -> (u: Option<String>)
        requires
            wf(self@.nodes, self@.ranks),
            j < self@.asms.len(),
        ensures
            apply_asm_upd(self@.asms[j as int], u) == asm_rise(
                self@.nodes,
                self@.ranks,
                self@.asms,
                j as int,
            ),
    {
        proof {
            assert(self@.asms[j as int] == view_asm(self.asm_nodes@[j as int]));
        }
        match &self.asm_nodes[j] {
            AsmNode::AReg(r) => match r.input {
                Option::Some(kk) => if kk < self.asm_nodes.len() {
                    self.read_asm(kk)
                } else {
                    Option::None
                },
                Option::None => Option::None,
            },
            AsmNode::AMem(_) => Option::None,
        }
    }

    /// The falling edge: every clocked node commits its shadow state.
    /// Duplicate members are refused because a second commit of a store
    /// would not be observationally idempotent.
    pub fn falling_edge(&mut self, c: &ControlRef)
        requires
            wf(old(self)@.nodes, old(self)@.ranks),
            c.members@.no_duplicates(),
            c.asm_members@.no_duplicates(),
            forall|k: int|
                0 <= k < c.members@.len() ==> (#[trigger] c.members@[k] as int) < old(
                    self,
                )@.nodes.len(),
            forall|k: int|
                0 <= k < c.asm_members@.len() ==> (#[trigger] c.asm_members@[k] as int) < old(
                    self,
                )@.asms.len(),
        ensures
            final(self)@.nodes == fall_all(old(self)@.nodes, c.members@),
            final(self)@.ranks == old(self)@.ranks,
            final(self)@.asms == asm_fall_all(old(self)@.asms, c.asm_members@),
            wf(final(self)@.nodes, final(self)@.ranks),
    {
        let ghost nodes0 = self@.nodes;
        let ghost ranks0 = self@.ranks;
        let ghost asms0 = self@.asms;
        let mut k: usize = 0;
        while k < c.members.len()
            invariant
                self@.ranks == ranks0,
                self@.asms == asms0,
                self@.nodes.len() == nodes0.len(),
                c.members@.no_duplicates(),
                forall|k2: int|
                    0 <= k2 < c.members@.len() ==> (#[trigger] c.members@[k2] as int)
                        < nodes0.len(),
                0 <= k <= c.members@.len(),
                self@.nodes =~= Seq::new(
                    nodes0.len(),
                    |i: int|
                        if in_prefix(c.members@, k as int, i) {
                            fall_node(nodes0[i])
                        } else {
                            nodes0[i]
                        },
                ),
            decreases c.members@.len() - k,
        {
            let i = c.members[k];
            let ghost pre = self@.nodes;
            proof {
                assert(!in_prefix(c.members@, k as int, i as int)) by {
                    if in_prefix(c.members@, k as int, i as int) {
                        let w = choose|k2: int|
                            0 <= k2 < k as int && (c.members@[k2] as int) == i as int;
                        assert(c.members@[w] == c.members@[k as int]);
                    }
                }
                assert(pre[i as int] == nodes0[i as int]);
            }
            match &mut self.nodes[i] {
                Node::Reg(r) => {
                    r.visible = r.shadow;
                },
                Node::Mem(m) => {
                    if m.write_cache == 1 {
                        mem_commit_exec(m);
                    }
                },
                Node::Rf(f) => {
                    if f.reg_write_cache == 1 && f.rd_cache != 0 && (f.rd_cache as usize)
                        < f.regs.len() {
                        let idx = f.rd_cache as usize;
                        let v = f.rd_data_cache;
                        f.regs[idx] = v;
                    }
                },
                _ => {},
            }
            proof {
                assert(self@.nodes =~= pre.update(i as int, fall_node(nodes0[i as int])));
                let target = Seq::new(
                    nodes0.len(),
                    |j: int|
                        if in_prefix(c.members@, k as int + 1, j) {
                            fall_node(nodes0[j])
                        } else {
                            nodes0[j]
                        },
                );
                assert forall|j: int| 0 <= j < nodes0.len() implies self@.nodes[j] == target[j] by {
                    if j == i as int {
                        assert(in_prefix(c.members@, k as int + 1, j)) by {
                            assert(0 <= k < k as int + 1 && (c.members@[k as int] as int) == j);
                        }
                    } else {
                        assert(in_prefix(c.members@, k as int + 1, j) == in_prefix(
                            c.members@,
                            k as int,
                            j,
                        )) by {
                            if in_prefix(c.members@, k as int + 1, j) {
                                let w = choose|k2: int|
                                    0 <= k2 < k as int + 1 && (c.members@[k2] as int) == j;
                                assert(w < k as int);
                                assert(in_prefix(c.members@, k as int, j));
                            }
                            if in_prefix(c.members@, k as int, j) {
                                let w = choose|k2: int|
                                    0 <= k2 < k as int && (c.members@[k2] as int) == j;
                                assert(0 <= w < k as int + 1 && (c.members@[w] as int) == j);
                            }
                        }
                    }
                }
                assert(self@.nodes =~= target);
            }
            k = k + 1;
        }
        let ghost nodes1 = self@.nodes;
        let mut k2: usize = 0;
        while k2 < c.asm_members.len()
            invariant
                self@.ranks == ranks0,
                self@.nodes == nodes1,
                self@.asms.len() == asms0.len(),
                c.asm_members@.no_duplicates(),
                forall|k3: int|
                    0 <= k3 < c.asm_members@.len() ==> (#[trigger] c.asm_members@[k3] as int)
                        < asms0.len(),
                0 <= k2 <= c.asm_members@.len(),
                self@.asms =~= Seq::new(
                    asms0.len(),
                    |j: int|
                        if in_prefix(c.asm_members@, k2 as int, j) {
                            asm_fall(asms0[j])
                        } else {
                            asms0[j]
                        },
                ),
            decreases c.asm_members@.len() - k2,
        {
            let j = c.asm_members[k2];
            let ghost pre = self@.asms;
            proof {
                assert(!in_prefix(c.asm_members@, k2 as int, j as int)) by {
                    if in_prefix(c.asm_members@, k2 as int, j as int) {
                        let w = choose|k3: int|
                            0 <= k3 < k2 as int && (c.asm_members@[k3] as int) == j as int;
                        assert(c.asm_members@[w] == c.asm_members@[k2 as int]);
                    }
                }
                assert(pre[j as int] == asms0[j as int]);
            }
            match &mut self.asm_nodes[j] {
                AsmNode::AReg(r) => {
                    let s = r.shadow.clone();
                    r.visible = s;
                },
                _ => {},
            }
            proof {
                assert(self@.asms =~= pre.update(j as int, asm_fall(asms0[j as int])));
                let target = Seq::new(
                    asms0.len(),
                    |j2: int|
                        if in_prefix(c.asm_members@, k2 as int + 1, j2) {
                            asm_fall(asms0[j2])
                        } else {
                            asms0[j2]
                        },
                );
                assert forall|j2: int| 0 <= j2 < asms0.len() implies self@.asms[j2]
                    == target[j2] by {
                    if j2 == j as int {
                        assert(in_prefix(c.asm_members@, k2 as int + 1, j2)) by {
                            assert(0 <= k2 < k2 as int + 1 && (c.asm_members@[k2 as int] as int)
                                == j2);
                        }
                    } else {
                        assert(in_prefix(c.asm_members@, k2 as int + 1, j2) == in_prefix(
                            c.asm_members@,
                            k2 as int,
                            j2,
                        )) by {
                            if in_prefix(c.asm_members@, k2 as int + 1, j2) {
                                let w = choose|k3: int|
                                    0 <= k3 < k2 as int + 1 && (c.asm_members@[k3] as int) == j2;
                                assert(w < k2 as int);
                                assert(in_prefix(c.asm_members@, k2 as int, j2));
                            }
                            if in_prefix(c.asm_members@, k2 as int, j2) {
                                let w = choose|k3: int|
                                    0 <= k3 < k2 as int && (c.asm_members@[k3] as int) == j2;
                                assert(0 <= w < k2 as int + 1 && (c.asm_members@[w] as int) == j2);
                            }
                        }
                    }
                }
                assert(self@.asms =~= target);
            }
            k2 = k2 + 1;
        }
        proof {
            lemma_fall_preserves_wf(nodes0, ranks0, c.members@);
        }
    }
}

} // verus!
