use vstd::prelude::*;

verus! {

/// The first byte address of the stack window. Addresses strictly above it
/// are backed by a separate auto-growing arena so that high stack addresses
/// need no sparse representation.
pub const STACK_ADDR: u32 = 0x7FFF_FFF0;

/// Output selector of a memory: its single 32-bit read port.
pub enum Alloc {
    Out,
}

/// Input selectors of a memory.
pub enum Connect {
    Address,
    Input,
    Write,
    Read,
}

/// Byte-addressable memory with word-granular access. The output reads four
/// bytes little-endian at the address when the read enable is 1, and 0 when
/// the range is unmapped. On the rising edge a pending store is latched; on
/// the falling edge it is committed, and whichever arena receives it grows
/// zero-filled on demand: the stack arena for addresses above `STACK_ADDR`,
/// the low arena for everything else.
pub struct Mem {
    pub data: Vec<u8>,
    pub stack: Vec<u8>,
    pub address: Option<usize>,
    pub input: Option<usize>,
    pub write: Option<usize>,
    pub read_en: Option<usize>,
    pub address_cache: u32,
    pub input_cache: u32,
    pub write_cache: u32,
}

} // verus!
use crate::rtl::{lemma_view_update, view_node, wf, ControlRef, Node, NodeV, PortRef, Rtl, RtlV};

verus! {

pub open spec fn mem_ports(n: NodeV) -> (Option<usize>, Option<usize>, Option<usize>, Option<usize>) {
    match n {
        NodeV::Mem { address, input, write, read_en, .. } => (address, input, write, read_en),
        _ => (Option::None, Option::None, Option::None, Option::None),
    }
}

pub open spec fn mem_with_ports(
    n: NodeV,
    address: Option<usize>,
    input: Option<usize>,
    write: Option<usize>,
    read_en: Option<usize>,
) -> NodeV {
    match n {
        NodeV::Mem { data, stack, address_cache, input_cache, write_cache, .. } => NodeV::Mem {
            data,
            stack,
            address,
            input,
            write,
            read_en,
            address_cache,
            input_cache,
            write_cache,
        },
        other => other,
    }
}

impl Mem {
    /// Replaces the low arena with a fresh image.
    pub fn store(&mut self, data: Vec<u8>)
        ensures
            final(self).data@ == data@,
            final(self).stack@ == old(self).stack@,
            final(self).address == old(self).address,
            final(self).input == old(self).input,
            final(self).write == old(self).write,
            final(self).read_en == old(self).read_en,
            final(self).address_cache == old(self).address_cache,
            final(self).input_cache == old(self).input_cache,
            final(self).write_cache == old(self).write_cache,
    {
        self.data = data;
    }
}

/// Builds one memory node and records its wiring.
pub struct MemBuilder {
    pub node: usize,
}

impl MemBuilder {
    pub open spec fn wf_b(&self, v: RtlV) -> bool {
        (self.node as int) < v.nodes.len() && v.nodes[self.node as int] is Mem
    }

    /// Adds a fresh memory whose low arena holds the given image and whose
    /// stack arena starts empty.
    pub fn new(rtl: &mut Rtl, memory: Vec<u8>) -> (r: MemBuilder)
        ensures
            final(rtl)@.nodes == old(rtl)@.nodes.push(
                NodeV::Mem {
                    data: memory@,
                    stack: Seq::empty(),
                    address: Option::None,
                    input: Option::None,
                    write: Option::None,
                    read_en: Option::None,
                    address_cache: 0,
                    input_cache: 0,
                    write_cache: 0,
                },
            ),
            final(rtl)@.asms == old(rtl)@.asms,
            wf(final(rtl)@.nodes, final(rtl)@.ranks),
            crate::ranks::ranks_complete(final(rtl)@.nodes, final(rtl)@.ranks),
            r.node == old(rtl)@.nodes.len(),
            r.wf_b(final(rtl)@),
    {
        let ghost mv = memory@;
        let n = rtl.push_node(
            Node::Mem(
                Mem {
                    data: memory,
                    stack: Vec::new(),
                    address: Option::None,
                    input: Option::None,
                    write: Option::None,
                    read_en: Option::None,
                    address_cache: 0,
                    input_cache: 0,
                    write_cache: 0,
                },
            ),
        );
        MemBuilder { node: n }
    }

    /// Wires the address, the store data, the write enable or the read
    /// enable.
    pub fn connect(&self, rtl: &mut Rtl, pin: PortRef, id: Connect)
        requires
            wf(old(rtl)@.nodes, old(rtl)@.ranks),
        ensures
            wf(final(rtl)@.nodes, final(rtl)@.ranks),
            crate::ranks::ranks_complete(final(rtl)@.nodes, final(rtl)@.ranks),
            final(rtl)@.asms == old(rtl)@.asms,
            final(rtl)@.nodes.len() == old(rtl)@.nodes.len(),
            self.wf_b(old(rtl)@) ==> self.wf_b(final(rtl)@),
            self.wf_b(old(rtl)@) ==> ({
                let p = mem_ports(old(rtl)@.nodes[self.node as int]);
                final(rtl)@.nodes == old(rtl)@.nodes.update(
                    self.node as int,
                    match id {
                        Connect::Address => mem_with_ports(
                            old(rtl)@.nodes[self.node as int],
                            Option::Some(pin.id),
                            p.1,
                            p.2,
                            p.3,
                        ),
                        Connect::Input => mem_with_ports(
                            old(rtl)@.nodes[self.node as int],
                            p.0,
                            Option::Some(pin.id),
                            p.2,
                            p.3,
                        ),
                        Connect::Write => mem_with_ports(
                            old(rtl)@.nodes[self.node as int],
                            p.0,
                            p.1,
                            Option::Some(pin.id),
                            p.3,
                        ),
                        Connect::Read => mem_with_ports(
                            old(rtl)@.nodes[self.node as int],
                            p.0,
                            p.1,
                            p.2,
                            Option::Some(pin.id),
                        ),
                    },
                )
            }),
    {
        let ghost pre = rtl.nodes@;
        proof {
            if (self.node as int) < rtl.nodes@.len() {
                assert(rtl@.nodes[self.node as int] == view_node(rtl.nodes@[self.node as int]));
            }
        }
        if self.node >= rtl.nodes.len() {
            rtl.recompute_ranks();
            return;
        }
        match &mut rtl.nodes[self.node] {
            Node::Mem(m) => {
                match id {
                    Connect::Address => {
                        m.address = Option::Some(pin.id);
                    },
                    Connect::Input => {
                        m.input = Option::Some(pin.id);
                    },
                    Connect::Write => {
                        m.write = Option::Some(pin.id);
                    },
                    Connect::Read => {
                        m.read_en = Option::Some(pin.id);
                    },
                }
            },
            _ => {},
        }
        proof {
            lemma_view_update(pre, self.node as int, rtl.nodes@[self.node as int]);
        }
        rtl.recompute_ranks();
    }

    /// Hands out the memory's read port.
    pub fn alloc_port(&self, _id: Alloc) -> (p: PortRef)
        ensures
            p.id == self.node,
    {
        PortRef { id: self.node }
    }

    /// Freezes the memory into a control clocking this one node.
    pub fn build(self) -> (c: ControlRef)
        ensures
            c.members@ == seq![self.node],
            c.asm_members@.len() == 0,
    {
        let mut members: Vec<usize> = Vec::new();
        members.push(self.node);
        proof {
            assert(members@ =~= seq![self.node]);
        }
        ControlRef { members, asm_members: Vec::new() }
    }
}

/// A page-granular backing store: pages are allocated on first touch, so a
/// sparse address range costs only the pages actually written.
pub struct DirPage {
    pub pages: Vec<Option<Vec<u8>>>,
}

/// The page size used by `DirPage`.
pub const PAGE_SIZE: usize = 4096;

impl DirPage {
    /// An empty directory with `n` page slots, none allocated.
    pub fn new(n: usize) -> (r: DirPage)
        ensures
            r.pages@.len() == n,
            forall|i: int| 0 <= i < n ==> r.pages@[i] is None,
    {
        let mut pages: Vec<Option<Vec<u8>>> = Vec::new();
        let mut t: usize = 0;
        while t < n
            invariant
                pages@.len() == t,
                0 <= t <= n,
                forall|i: int| 0 <= i < t ==> pages@[i] is None,
            decreases n - t,
        {
            pages.push(Option::None);
            t = t + 1;
        }
        DirPage { pages }
    }

    /// Ensures the page exists, allocating it zero-filled on first touch.
    pub fn get_page(&mut self, page: usize)
        requires
            page < old(self).pages@.len(),
        ensures
            final(self).pages@.len() == old(self).pages@.len(),
            final(self).pages@[page as int] is Some,
            forall|i: int|
                0 <= i < old(self).pages@.len() && i != page ==> final(self).pages@[i] == old(
                    self,
                ).pages@[i],
            old(self).pages@[page as int] is Some ==> final(self).pages@[page as int] == old(
                self,
            ).pages@[page as int],
    {
        if self.pages[page].is_none() {
            let mut data: Vec<u8> = Vec::new();
            let mut t: usize = 0;
            while t < PAGE_SIZE
                invariant
                    data@.len() == t,
                    0 <= t <= PAGE_SIZE,
                decreases PAGE_SIZE - t,
            {
                data.push(0);
                t = t + 1;
            }
            self.pages[page] = Option::Some(data);
        }
    }
}

} // verus!
