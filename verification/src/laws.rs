use vstd::prelude::*;

use crate::clock::{fall_all, in_prefix, pv_or, rise_all, rise_node, fall_node, put4, reg_shadow_next};
use crate::ex_stage::forward::forward_f;
use crate::mem::STACK_ADDR;
use crate::rtl::{le_word, mem_word, node_value, port_value, wf, NodeV};

verus! {

/// What one full cycle leaves visible in a register: with the clear line
/// at 1 the register reads 0 afterwards; with clear at 0 and enable at 1
/// it reads the value its input held before the rising edge; with enable
/// at 0 it holds. This is the register law, stated for any circuit, any
/// wiring and any clocked set containing the register; cycle `n` follows
/// by applying it to the state before cycle `n`.
pub proof fn lemma_register_cycle(
    nodes: Seq<NodeV>,
    ranks: Seq<Option<usize>>,
    members: Seq<usize>,
    i: int,
    input: Option<usize>,
    enable: Option<usize>,
    clear: Option<usize>,
    visible: u32,
    shadow: u32,
    cv: u32,
    ev: u32,
)
    requires
        wf(nodes, ranks),
        0 <= i < nodes.len(),
        nodes[i] == (NodeV::Reg { input, enable, clear, visible, shadow }),
        ranks[i] is Some,
        in_prefix(members, members.len() as int, i),
        pv_or(nodes, ranks, clear, 0) == Option::Some(cv),
        pv_or(nodes, ranks, enable, 1) == Option::Some(ev),
    ensures
        node_value(fall_all(rise_all(nodes, ranks, members), members), ranks, i)
            == Option::Some(
            if cv == 1 {
                0u32
            } else if ev == 1 {
                match port_value(nodes, ranks, input) {
                    Option::Some(v) => v,
                    Option::None => visible,
                }
            } else {
                visible
            },
        ),
{
    let c1 = rise_all(nodes, ranks, members);
    let c2 = fall_all(c1, members);
    assert(c1[i] == rise_node(nodes, ranks, i));
    assert(c2[i] == fall_node(c1[i]));
    crate::clock::lemma_rise_preserves_wf(nodes, ranks, members);
    crate::clock::lemma_fall_preserves_wf(c1, ranks, members);
}

/// The multiplexer law: whenever the select line reads `k` and `k` names
/// a wired input, the output reads exactly that input.
pub proof fn lemma_mux_select(
    nodes: Seq<NodeV>,
    ranks: Seq<Option<usize>>,
    i: int,
    inputs: Seq<Option<usize>>,
    select: Option<usize>,
    k: u32,
)
    requires
        wf(nodes, ranks),
        0 <= i < nodes.len(),
        nodes[i] == (NodeV::Mux { inputs, select }),
        ranks[i] is Some,
        port_value(nodes, ranks, select) == Option::Some(k),
        (k as int) < inputs.len(),
    ensures
        node_value(nodes, ranks, i) == port_value(nodes, ranks, inputs[k as int]),
{
}

/// Register 0 is a hard-wired zero: a register-file read port whose
/// address reads 0 yields 0, whatever the file holds.
pub proof fn lemma_rf_x0_reads_zero(
    nodes: Seq<NodeV>,
    ranks: Seq<Option<usize>>,
    i: int,
    rf: usize,
    addr: Option<usize>,
)
    requires
        wf(nodes, ranks),
        0 <= i < nodes.len(),
        nodes[i] == (NodeV::RfRead { rf, addr }),
        ranks[i] is Some,
        port_value(nodes, ranks, addr) == Option::Some(0u32),
        (rf as int) < nodes.len(),
        nodes[rf as int] is Rf,
    ensures
        node_value(nodes, ranks, i) == Option::Some(0u32),
{
}

/// A write-back aimed at register 0 is a no-op: after a full cycle in
/// which the destination port reads 0, the register file holds exactly
/// what it held before, whatever the data and enable lines carried.
pub proof fn lemma_rf_x0_write_noop(
    nodes: Seq<NodeV>,
    ranks: Seq<Option<usize>>,
    members: Seq<usize>,
    i: int,
    regs: Seq<u32>,
    rd: Option<usize>,
    rd_data: Option<usize>,
    reg_write: Option<usize>,
    rd_cache: u32,
    rd_data_cache: u32,
    reg_write_cache: u32,
)
    requires
        wf(nodes, ranks),
        0 <= i < nodes.len(),
        nodes[i] == (NodeV::Rf {
            regs,
            rd,
            rd_data,
            reg_write,
            rd_cache,
            rd_data_cache,
            reg_write_cache,
        }),
        in_prefix(members, members.len() as int, i),
        port_value(nodes, ranks, rd) == Option::Some(0u32),
        port_value(nodes, ranks, rd_data) is Some,
        port_value(nodes, ranks, reg_write) is Some,
    ensures
        ({
            let after = fall_all(rise_all(nodes, ranks, members), members)[i];
            match after {
                NodeV::Rf { regs: regs2, .. } => regs2 == regs,
                _ => false,
            }
        }),
{
    let c1 = rise_all(nodes, ranks, members);
    assert(c1[i] == rise_node(nodes, ranks, i));
    assert(fall_all(c1, members)[i] == fall_node(c1[i]));
}

/// The memory law: a word written at an in-range low-arena address is the
/// word a read at that address sees afterwards, little-endian both ways.
pub proof fn lemma_mem_write_read(
    nodes: Seq<NodeV>,
    ranks: Seq<Option<usize>>,
    members: Seq<usize>,
    i: int,
    data: Seq<u8>,
    stack: Seq<u8>,
    address: Option<usize>,
    input: Option<usize>,
    write: Option<usize>,
    read_en: Option<usize>,
    address_cache: u32,
    input_cache: u32,
    write_cache: u32,
    a: u32,
    w: u32,
)
    requires
        wf(nodes, ranks),
        0 <= i < nodes.len(),
        nodes[i] == (NodeV::Mem {
            data,
            stack,
            address,
            input,
            write,
            read_en,
            address_cache,
            input_cache,
            write_cache,
        }),
        in_prefix(members, members.len() as int, i),
        port_value(nodes, ranks, write) == Option::Some(1u32),
        port_value(nodes, ranks, address) == Option::Some(a),
        port_value(nodes, ranks, input) == Option::Some(w),
        a + 4 <= data.len(),
        a <= STACK_ADDR,
    ensures
        ({
            let after = fall_all(rise_all(nodes, ranks, members), members)[i];
            match after {
                NodeV::Mem { data: data2, stack: stack2, .. } => data2 == put4(data, a as int, w)
                    && mem_word(data2, stack2, a) == w,
                _ => false,
            }
        }),
{
    let c1 = rise_all(nodes, ranks, members);
    assert(c1[i] == rise_node(nodes, ranks, i));
    assert(fall_all(c1, members)[i] == fall_node(c1[i]));
    let d2 = put4(data, a as int, w);
    assert(d2.len() == data.len());
    lemma_le_word_put4(data, a as int, w);
    assert(mem_word(d2, stack, a) == w);
}

/// Storing a word little-endian and reading four bytes back yields the
/// same word.
pub proof fn lemma_le_word_put4(s: Seq<u8>, a: int, w: u32)
    requires
        0 <= a,
        a + 4 <= s.len(),
    ensures
        le_word(put4(s, a, w), a) == w,
{
    let s2 = put4(s, a, w);
    assert(s2[a] == (w & 0xFF) as u8);
    assert(s2[a + 1] == ((w >> 8) & 0xFF) as u8);
    assert(s2[a + 2] == ((w >> 16) & 0xFF) as u8);
    assert(s2[a + 3] == ((w >> 24) & 0xFF) as u8);
    assert(((w & 0xFF) as u8 as u32) | (((w >> 8) & 0xFF) as u8 as u32) << 8 | (((w >> 16)
        & 0xFF) as u8 as u32) << 16 | (((w >> 24) & 0xFF) as u8 as u32) << 24 == w)
        by (bit_vector);
}

/// The forwarding law: when the instruction one stage ahead writes the
/// very register the EX stage reads (and it is not register 0), the
/// forwarding multiplexer hands EX that instruction's result, whatever
/// the register file still holds and whatever the MEM/WB stage says.
pub proof fn lemma_forward_ex_mem(
    nodes: Seq<NodeV>,
    ranks: Seq<Option<usize>>,
    f: usize,
    m: usize,
    rs: Option<usize>,
    rd_mem: Option<usize>,
    rd_mem_write: Option<usize>,
    rd_wb: Option<usize>,
    rd_wb_write: Option<usize>,
    inputs: Seq<Option<usize>>,
    r: u32,
)
    requires
        wf(nodes, ranks),
        (f as int) < nodes.len(),
        (m as int) < nodes.len(),
        nodes[f as int] == (NodeV::Forward { rs, rd_mem, rd_mem_write, rd_wb, rd_wb_write }),
        nodes[m as int] == (NodeV::Mux { inputs, select: Option::Some(f) }),
        ranks[f as int] is Some,
        ranks[m as int] is Some,
        inputs.len() >= 2,
        port_value(nodes, ranks, rs) == Option::Some(r),
        port_value(nodes, ranks, rd_mem) == Option::Some(r),
        port_value(nodes, ranks, rd_mem_write) == Option::Some(1u32),
        port_value(nodes, ranks, rd_wb) is Some,
        port_value(nodes, ranks, rd_wb_write) is Some,
        r != 0,
    ensures
        node_value(nodes, ranks, f as int) == Option::Some(1u32),
        node_value(nodes, ranks, m as int) == port_value(nodes, ranks, inputs[1]),
{
    match (port_value(nodes, ranks, rd_wb), port_value(nodes, ranks, rd_wb_write)) {
        (Option::Some(rdw), Option::Some(rdww)) => {
            assert(forward_f(r, r, 1, rdw, rdww) == 1);
        },
        _ => {},
    }
    assert(node_value(nodes, ranks, f as int) == Option::Some(1u32));
    assert(port_value(nodes, ranks, Option::Some(f)) == Option::Some(1u32));
}

/// The flush law: every register of a separator bundle whose clear line
/// reads 1 during a cycle reads 0 after that cycle — asserting clear on
/// IF/ID and ID/EX the cycle a branch resolves leaves both bundles zero.
pub proof fn lemma_flush_bundle(
    nodes: Seq<NodeV>,
    ranks: Seq<Option<usize>>,
    members: Seq<usize>,
    bundle: Seq<usize>,
)
    requires
        wf(nodes, ranks),
        forall|b: int|
            0 <= b < bundle.len() ==> ((#[trigger] bundle[b] as int) < nodes.len()
                && nodes[bundle[b] as int] is Reg && ranks[bundle[b] as int] is Some && in_prefix(
                members,
                members.len() as int,
                bundle[b] as int,
            ) && (match nodes[bundle[b] as int] {
                NodeV::Reg { enable, clear, .. } => pv_or(nodes, ranks, clear, 0) == Option::Some(
                    1u32,
                ) && pv_or(nodes, ranks, enable, 1) is Some,
                _ => false,
            })),
    ensures
        forall|b: int|
            0 <= b < bundle.len() ==> node_value(
                fall_all(rise_all(nodes, ranks, members), members),
                ranks,
                #[trigger] bundle[b] as int,
            ) == Option::Some(0u32),
{
    let c1 = rise_all(nodes, ranks, members);
    let c2 = fall_all(c1, members);
    crate::clock::lemma_rise_preserves_wf(nodes, ranks, members);
    crate::clock::lemma_fall_preserves_wf(c1, ranks, members);
    assert forall|b: int| 0 <= b < bundle.len() implies node_value(
        c2,
        ranks,
        #[trigger] bundle[b] as int,
    ) == Option::Some(0u32) by {
        let i = bundle[b] as int;
        assert(c1[i] == rise_node(nodes, ranks, i));
        assert(c2[i] == fall_node(c1[i]));
        match nodes[i] {
            NodeV::Reg { input, enable, clear, visible, shadow } => {
                assert(reg_shadow_next(nodes, ranks, input, enable, clear, visible) == 0);
            },
            _ => {},
        }
    }
}

} // verus!
