use vstd::prelude::*;

use crate::rtl::{node_ok, opt_ok, view_asm, view_node, wf, AsmNode, Node, NodeV, Rtl};

verus! {

/// A wired input can be ranked over when it already has a rank.
pub open spec fn inp_rk(n: int, ranks: Seq<Option<usize>>, j: usize) -> bool {
    (j as int) < n && ranks[j as int] is Some
}

pub open spec fn opt_rk(n: int, ranks: Seq<Option<usize>>, o: Option<usize>) -> bool {
    match o {
        Option::Some(j) => inp_rk(n, ranks, j),
        Option::None => true,
    }
}

pub open spec fn vec_rk(n: int, ranks: Seq<Option<usize>>, s: Seq<usize>) -> bool {
    forall|k: int| 0 <= k < s.len() ==> inp_rk(n, ranks, #[trigger] s[k])
}

pub open spec fn slots_rk(n: int, ranks: Seq<Option<usize>>, s: Seq<Option<usize>>) -> bool {
    forall|k: int| 0 <= k < s.len() ==> opt_rk(n, ranks, #[trigger] s[k])
}

/// A node is ready to be ranked when all its wired combinational inputs
/// already carry ranks.
pub open spec fn ready_n(nv: NodeV, n: int, ranks: Seq<Option<usize>>) -> bool {
    match nv {
        NodeV::Cst(_) => true,
        NodeV::Add(inputs) => vec_rk(n, ranks, inputs),
        NodeV::Mux { inputs, select } => opt_rk(n, ranks, select) && slots_rk(n, ranks, inputs),
        NodeV::Reg { .. } => true,
        NodeV::Mem { address, read_en, .. } => opt_rk(n, ranks, address) && opt_rk(
            n,
            ranks,
            read_en,
        ),
        NodeV::Alu { op1, op2, ctrl } => opt_rk(n, ranks, op1) && opt_rk(n, ranks, op2) && opt_rk(
            n,
            ranks,
            ctrl,
        ),
        NodeV::Branch { op1, op2, branch_sel, branch_type, jal } => opt_rk(n, ranks, op1) && opt_rk(
            n,
            ranks,
            op2,
        ) && opt_rk(n, ranks, branch_sel) && opt_rk(n, ranks, branch_type) && opt_rk(
            n,
            ranks,
            jal,
        ),
        NodeV::Forward { rs, rd_mem, rd_mem_write, rd_wb, rd_wb_write } => opt_rk(n, ranks, rs)
            && opt_rk(n, ranks, rd_mem) && opt_rk(n, ranks, rd_mem_write) && opt_rk(
            n,
            ranks,
            rd_wb,
        ) && opt_rk(n, ranks, rd_wb_write),
        NodeV::Bits { input, .. } => opt_rk(n, ranks, input),
        NodeV::Imm { input } => opt_rk(n, ranks, input),
        NodeV::Ctl { opcode, funct3, funct7, .. } => opt_rk(n, ranks, opcode) && opt_rk(
            n,
            ranks,
            funct3,
        ) && opt_rk(n, ranks, funct7),
        NodeV::Rf { .. } => true,
        NodeV::RfRead { addr, .. } => opt_rk(n, ranks, addr),
        NodeV::NotG { input } => opt_rk(n, ranks, input),
        NodeV::OrG(inputs) => vec_rk(n, ranks, inputs),
        NodeV::Hz { mem_read, rd, rs1, rs2 } => opt_rk(n, ranks, mem_read) && opt_rk(n, ranks, rd)
            && opt_rk(n, ranks, rs1) && opt_rk(n, ranks, rs2),
    }
}

/// Checks whether one optional input is ranked.
fn opt_ready(o: &Option<usize>, ranks: &Vec<Option<usize>>, n: usize) -> (b: bool)
    requires
        ranks@.len() == n,
    ensures
        b == opt_rk(n as int, ranks@, *o),
{
    match o {
        Option::Some(j) => *j < n && ranks[*j].is_some(),
        Option::None => true,
    }
}

/// Checks whether every input in a list is ranked.
fn vec_ready(s: &Vec<usize>, ranks: &Vec<Option<usize>>, n: usize) -> (b: bool)
    requires
        ranks@.len() == n,
    ensures
        b == vec_rk(n as int, ranks@, s@),
{
    let mut k: usize = 0;
    while k < s.len()
        invariant
            ranks@.len() == n,
            0 <= k <= s@.len(),
            forall|k2: int| 0 <= k2 < k ==> inp_rk(n as int, ranks@, #[trigger] s@[k2]),
        decreases s@.len() - k,
    {
        let j = s[k];
        if !(j < n && ranks[j].is_some()) {
            return false;
        }
        k = k + 1;
    }
    true
}

/// Checks whether every present slot in a list is ranked.
fn slots_ready(s: &Vec<Option<usize>>, ranks: &Vec<Option<usize>>, n: usize) -> (b: bool)
    requires
        ranks@.len() == n,
    ensures
        b == slots_rk(n as int, ranks@, s@),
{
    let mut k: usize = 0;
    while k < s.len()
        invariant
            ranks@.len() == n,
            0 <= k <= s@.len(),
            forall|k2: int| 0 <= k2 < k ==> opt_rk(n as int, ranks@, #[trigger] s@[k2]),
        decreases s@.len() - k,
    {
        if !opt_ready(&s[k], ranks, n) {
            return false;
        }
        k = k + 1;
    }
    true
}

/// Checks whether a node is ready to be ranked.
fn node_ready(node: &Node, ranks: &Vec<Option<usize>>, n: usize) -> (b: bool)
    requires
        ranks@.len() == n,
    ensures
        b == ready_n(view_node(*node), n as int, ranks@),
{
    match node {
        Node::Cst(_) => true,
        Node::Add(a) => vec_ready(&a.inputs, ranks, n),
        Node::Mux(m) => opt_ready(&m.select, ranks, n) && slots_ready(&m.inputs, ranks, n),
        Node::Reg(_) => true,
        Node::Mem(m) => opt_ready(&m.address, ranks, n) && opt_ready(&m.read_en, ranks, n),
        Node::Alu(a) => opt_ready(&a.op1, ranks, n) && opt_ready(&a.op2, ranks, n) && opt_ready(
            &a.ctrl,
            ranks,
            n,
        ),
        Node::Branch(b) => opt_ready(&b.op1, ranks, n) && opt_ready(&b.op2, ranks, n) && opt_ready(
            &b.branch_sel,
            ranks,
            n,
        ) && opt_ready(&b.branch_type, ranks, n) && opt_ready(&b.jal, ranks, n),
        Node::Forward(f) => opt_ready(&f.rs, ranks, n) && opt_ready(&f.rd_mem, ranks, n)
            && opt_ready(&f.rd_mem_write, ranks, n) && opt_ready(&f.rd_wb, ranks, n) && opt_ready(
            &f.rd_wb_write,
            ranks,
            n,
        ),
        Node::Bits(b) => opt_ready(&b.input, ranks, n),
        Node::Imm(i) => opt_ready(&i.input, ranks, n),
        Node::Ctl(c) => opt_ready(&c.opcode, ranks, n) && opt_ready(&c.funct3, ranks, n)
            && opt_ready(&c.funct7, ranks, n),
        Node::Rf(_) => true,
        Node::RfRead(r) => opt_ready(&r.addr, ranks, n),
        Node::NotG(g) => opt_ready(&g.input, ranks, n),
        Node::OrG(g) => vec_ready(&g.inputs, ranks, n),
        Node::Hz(h) => opt_ready(&h.mem_read, ranks, n) && opt_ready(&h.rd, ranks, n) && opt_ready(
            &h.rs1,
            ranks,
            n,
        ) && opt_ready(&h.rs2, ranks, n),
    }
}

/// Rank-soundness survives extending the rank assignment: ranks already
/// given never change, so every old edge bound still holds.
proof fn lemma_node_ok_extend(
    nodes: Seq<NodeV>,
    r1: Seq<Option<usize>>,
    r2: Seq<Option<usize>>,
    i: int,
)
    requires
        r1.len() == nodes.len(),
        r2.len() == nodes.len(),
        0 <= i < nodes.len(),
        node_ok(nodes, r1, i),
        r2[i] == r1[i],
        forall|j: int| 0 <= j < nodes.len() ==> (r1[j] is Some ==> #[trigger] r2[j] == r1[j]),
    ensures
        node_ok(nodes, r2, i),
{
    let n = nodes.len() as int;
    match r2[i] {
        Option::None => {},
        Option::Some(ri) => {
            match nodes[i] {
                NodeV::Add(inputs) => {
                    assert forall|k: int| 0 <= k < inputs.len() implies crate::rtl::inp_ok(
                        n,
                        r2,
                        #[trigger] inputs[k],
                        ri,
                    ) by {
                        assert(crate::rtl::inp_ok(n, r1, inputs[k], ri));
                    }
                },
                NodeV::OrG(inputs) => {
                    assert forall|k: int| 0 <= k < inputs.len() implies crate::rtl::inp_ok(
                        n,
                        r2,
                        #[trigger] inputs[k],
                        ri,
                    ) by {
                        assert(crate::rtl::inp_ok(n, r1, inputs[k], ri));
                    }
                },
                NodeV::Mux { inputs, select } => {
                    assert(opt_ok(n, r1, select, ri));
                    assert forall|k: int| 0 <= k < inputs.len() implies opt_ok(
                        n,
                        r2,
                        #[trigger] inputs[k],
                        ri,
                    ) by {
                        assert(opt_ok(n, r1, inputs[k], ri));
                    }
                },
                _ => {},
            }
        },
    }
}

/// A freshly ranked node is rank-sound: its inputs were all ranked in the
/// previous round, whose ranks are strictly below the new rank.
proof fn lemma_node_ok_fresh(
    nodes: Seq<NodeV>,
    r1: Seq<Option<usize>>,
    r2: Seq<Option<usize>>,
    i: int,
    p: usize,
)
    requires
        r1.len() == nodes.len(),
        r2.len() == nodes.len(),
        0 <= i < nodes.len(),
        ready_n(nodes[i], nodes.len() as int, r1),
        r2[i] == Option::Some(p),
        forall|j: int| 0 <= j < nodes.len() ==> (r1[j] is Some ==> #[trigger] r2[j] == r1[j]),
        forall|j: int|
            0 <= j < nodes.len() ==> (match #[trigger] r1[j] {
                Option::Some(r) => r < p,
                Option::None => true,
            }),
    ensures
        node_ok(nodes, r2, i),
{
    let n = nodes.len() as int;
    match nodes[i] {
        NodeV::Add(inputs) => {
            assert forall|k: int| 0 <= k < inputs.len() implies crate::rtl::inp_ok(
                n,
                r2,
                #[trigger] inputs[k],
                p,
            ) by {
                assert(inp_rk(n, r1, inputs[k]));
            }
        },
        NodeV::OrG(inputs) => {
            assert forall|k: int| 0 <= k < inputs.len() implies crate::rtl::inp_ok(
                n,
                r2,
                #[trigger] inputs[k],
                p,
            ) by {
                assert(inp_rk(n, r1, inputs[k]));
            }
        },
        NodeV::Mux { inputs, select } => {
            assert(opt_rk(n, r1, select));
            assert forall|k: int| 0 <= k < inputs.len() implies opt_ok(
                n,
                r2,
                #[trigger] inputs[k],
                p,
            ) by {
                assert(opt_rk(n, r1, inputs[k]));
            }
        },
        _ => {},
    }
}

/// How many entries of a rank assignment are set.
pub open spec fn count_some(s: Seq<Option<usize>>) -> int
    decreases s.len(),
{
    if s.len() == 0 {
        0
    } else {
        count_some(s.drop_last()) + if s.last() is Some {
            1int
        } else {
            0int
        }
    }
}

pub proof fn lemma_count_some_bounds(s: Seq<Option<usize>>)
    ensures
        0 <= count_some(s) <= s.len(),
    decreases s.len(),
{
    if s.len() > 0 {
        lemma_count_some_bounds(s.drop_last());
    }
}

proof fn lemma_count_some_push(s: Seq<Option<usize>>, x: Option<usize>)
    ensures
        count_some(s.push(x)) == count_some(s) + if x is Some {
            1int
        } else {
            0int
        },
{
    assert(s.push(x).drop_last() =~= s);
    assert(s.push(x).last() == x);
}

/// An unset entry keeps the count strictly below the length.
proof fn lemma_count_some_none_lt(s: Seq<Option<usize>>, i: int)
    requires
        0 <= i < s.len(),
        s[i] is None,
    ensures
        count_some(s) < s.len(),
    decreases s.len(),
{
    if i == s.len() - 1 {
        lemma_count_some_bounds(s.drop_last());
    } else {
        assert(s.drop_last()[i] == s[i]);
        lemma_count_some_none_lt(s.drop_last(), i);
    }
}

proof fn lemma_count_some_take(s: Seq<Option<usize>>, i: int)
    requires
        0 <= i < s.len(),
    ensures
        count_some(s.take(i + 1)) == count_some(s.take(i)) + if s[i] is Some {
            1int
        } else {
            0int
        },
{
    assert(s.take(i + 1).drop_last() =~= s.take(i));
    assert(s.take(i + 1).last() == s[i]);
}

/// Every node carries a rank: the circuit has no combinational cycle
/// and no node fed (transitively) by one.
pub open spec fn all_ranked(ranks: Seq<Option<usize>>) -> bool {
    forall|i: int| 0 <= i < ranks.len() ==> #[trigger] ranks[i] is Some
}

/// The rank assignment is a fixpoint of the ranking rounds: any node
/// still unranked has an unranked wired input, so it sits on or behind a
/// combinational cycle or an unwired pin.
pub open spec fn ranks_complete(nodes: Seq<NodeV>, ranks: Seq<Option<usize>>) -> bool {
    forall|i: int|
        0 <= i < nodes.len() && ranks[i] is None ==> !ready_n(
            #[trigger] nodes[i],
            nodes.len() as int,
            ranks,
        )
}

/// Counts the ranked nodes.
fn count_ranked(ranks: &Vec<Option<usize>>) -> (c: usize)
    ensures
        c == count_some(ranks@),
{
    let mut c: usize = 0;
    let mut i: usize = 0;
    proof {
        assert(ranks@.take(0) =~= Seq::<Option<usize>>::empty());
    }
    while i < ranks.len()
        invariant
            0 <= i <= ranks@.len(),
            c <= i,
            c == count_some(ranks@.take(i as int)),
        decreases ranks@.len() - i,
    {
        proof {
            lemma_count_some_take(ranks@, i as int);
        }
        if ranks[i].is_some() {
            c = c + 1;
        }
        i = i + 1;
    }
    proof {
        assert(ranks@.take(ranks@.len() as int) =~= ranks@);
    }
    c
}

impl Rtl {
    /// Recomputes the topological ranks from scratch: round `p` ranks every
    /// node whose wired combinational inputs were all ranked in rounds
    /// before `p`. Nodes on a combinational cycle, and nodes fed by them,
    /// never become ready and stay unranked.
    pub fn recompute_ranks(&mut self)
        ensures
            final(self).nodes@ == old(self).nodes@,
            final(self).asm_nodes@ == old(self).asm_nodes@,
            final(self)@.ranks.len() == final(self)@.nodes.len(),
            wf(final(self)@.nodes, final(self)@.ranks),
            ranks_complete(final(self)@.nodes, final(self)@.ranks),
    {
        let n = self.nodes.len();
        let mut ranks: Vec<Option<usize>> = Vec::new();
        let mut t: usize = 0;
        while t < n
            invariant
                ranks@.len() == t,
                0 <= t <= n,
                forall|j: int| 0 <= j < t ==> #[trigger] ranks@[j] is None,
            decreases n - t,
        {
            ranks.push(Option::None);
            t = t + 1;
        }
        let mut done = false;
        while !done
            invariant
                self.nodes@ == old(self).nodes@,
                self.asm_nodes@ == old(self).asm_nodes@,
                n == self.nodes@.len(),
                ranks@.len() == n,
                wf(self@.nodes, ranks@),
                forall|j: int|
                    0 <= j < n ==> (match #[trigger] ranks@[j] {
                        Option::Some(r) => r <= count_some(ranks@),
                        Option::None => true,
                    }),
                done ==> ranks_complete(self@.nodes, ranks@),
            decreases (if done {
                0int
            } else {
                n + 1 - count_some(ranks@)
            }),
        {
            proof {
                lemma_count_some_bounds(ranks@);
            }
            let cnt0 = count_ranked(&ranks);
            let ghost oldr = ranks@;
            let mut newr: Vec<Option<usize>> = Vec::new();
            let mut changed = false;
            let mut i: usize = 0;
            proof {
                assert(oldr.take(0) =~= Seq::<Option<usize>>::empty());
            }
            while i < n
                invariant
                    self.nodes@ == old(self).nodes@,
                    n == self.nodes@.len(),
                    ranks@ == oldr,
                    ranks@.len() == n,
                    cnt0 == count_some(oldr),
                    forall|j: int|
                        0 <= j < n ==> (match #[trigger] oldr[j] {
                            Option::Some(r) => r <= cnt0,
                            Option::None => true,
                        }),
                    newr@.len() == i,
                    0 <= i <= n,
                    forall|j: int|
                        0 <= j < i ==> #[trigger] newr@[j] == (if oldr[j] is Some {
                            oldr[j]
                        } else if ready_n(self@.nodes[j], n as int, oldr) {
                            Option::Some((cnt0 + 1) as usize)
                        } else {
                            Option::<usize>::None
                        }),
                    count_some(newr@) >= count_some(oldr.take(i as int)) + if changed {
                        1int
                    } else {
                        0int
                    },
                    !changed ==> (forall|j: int|
                        0 <= j < i ==> !(#[trigger] oldr[j] is None && ready_n(
                            self@.nodes[j],
                            n as int,
                            oldr,
                        ))),
                decreases n - i,
            {
                proof {
                    lemma_count_some_take(oldr, i as int);
                    assert(self@.nodes[i as int] == view_node(self.nodes@[i as int]));
                }
                let ghost pre = newr@;
                if ranks[i].is_some() {
                    let r = ranks[i];
                    newr.push(r);
                    proof {
                        lemma_count_some_push(pre, r);
                    }
                } else if node_ready(&self.nodes[i], &ranks, n) {
                    proof {
                        lemma_count_some_none_lt(oldr, i as int);
                    }
                    newr.push(Option::Some(cnt0 + 1));
                    changed = true;
                    proof {
                        lemma_count_some_push(pre, Option::Some((cnt0 + 1) as usize));
                    }
                } else {
                    newr.push(Option::None);
                    proof {
                        lemma_count_some_push(pre, Option::None);
                    }
                }
                i = i + 1;
            }
            proof {
                assert(oldr.take(n as int) =~= oldr);
                lemma_count_some_bounds(newr@);
                assert forall|j: int| 0 <= j < n implies #[trigger] node_ok(
                    self@.nodes,
                    newr@,
                    j,
                ) by {
                    assert(node_ok(self@.nodes, oldr, j));
                    if newr@[j] is Some {
                        if oldr[j] is Some {
                            lemma_node_ok_extend(self@.nodes, oldr, newr@, j);
                        } else {
                            lemma_count_some_none_lt(oldr, j);
                            assert(cnt0 + 1 <= n);
                            lemma_node_ok_fresh(self@.nodes, oldr, newr@, j, (cnt0 + 1) as usize);
                        }
                    }
                }
                assert forall|j: int|
                    0 <= j < n implies (match #[trigger] newr@[j] {
                    Option::Some(r) => r <= count_some(newr@),
                    Option::None => true,
                }) by {
                    if newr@[j] is Some {
                        if oldr[j] is Some {
                            assert(count_some(newr@) >= count_some(oldr));
                        } else {
                            lemma_count_some_none_lt(oldr, j);
                            assert(cnt0 + 1 <= n);
                        }
                    }
                }
            }
            if changed {
                ranks = newr;
            } else {
                proof {
                    assert(newr@ =~= oldr);
                }
                ranks = newr;
                done = true;
            }
        }
        self.ranks = ranks;
    }

    /// Adds a node to the arena and returns its output port id.
    pub fn push_node(&mut self, node: Node) -> (id: usize)
        ensures
            id == old(self)@.nodes.len(),
            final(self)@.nodes == old(self)@.nodes.push(view_node(node)),
            final(self)@.asms == old(self)@.asms,
            final(self)@.ranks.len() == final(self)@.nodes.len(),
            wf(final(self)@.nodes, final(self)@.ranks),
            ranks_complete(final(self)@.nodes, final(self)@.ranks),
    {
        let id = self.nodes.len();
        self.nodes.push(node);
        proof {
            assert(self@.nodes =~= old(self)@.nodes.push(view_node(node)));
        }
        self.recompute_ranks();
        id
    }

    /// Adds a disassembly node and returns its id.
    pub fn push_asm(&mut self, node: AsmNode) -> (id: usize)
        ensures
            id == old(self)@.asms.len(),
            final(self)@.asms == old(self)@.asms.push(view_asm(node)),
            final(self)@.nodes == old(self)@.nodes,
            final(self)@.ranks == old(self)@.ranks,
    {
        let id = self.asm_nodes.len();
        self.asm_nodes.push(node);
        proof {
            assert(self@.asms =~= old(self)@.asms.push(view_asm(node)));
        }
        id
    }
}

} // verus!
