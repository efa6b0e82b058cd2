use vstd::prelude::*;

verus! {

/// A program ready for the simulator: the text image, where it is loaded,
/// its disassembly text and the entry address.
pub struct Program {
    pub insts: Vec<u8>,
    pub start: usize,
    pub dis: String,
    pub entry: usize,
}

/// One section header, reduced to the plain values the loader reads.
pub struct SectionRec {
    pub name: Vec<u8>,
    pub sh_type: u32,
    pub addr: u64,
    pub offset: u64,
    pub size: u64,
}

/// Relies on goblin::Object::parse: parses an ELF image and hands back the
/// entry address and one record per section header, with section names
/// resolved through the header string table. `None` for anything that is
/// not parseable ELF; nothing further is assumed of the outcome.
#[verifier::external_body]
fn elf_sections(dat: &Vec<u8>) -> (r: Option<(u64, Vec<SectionRec>)>) {
    match goblin::Object::parse(dat.as_slice()) {
        Ok(goblin::Object::Elf(elf)) => {
            let recs = elf.section_headers.iter().map(|sh| SectionRec {
                name: elf.shdr_strtab.get_at(sh.sh_name).unwrap_or("").as_bytes().to_vec(),
                sh_type: sh.sh_type, addr: sh.sh_addr, offset: sh.sh_offset, size: sh.sh_size,
            }).collect();
            Some((elf.entry, recs))
        },
        _ => None,
    }
}

/// The bytes of the section name the loader looks for: ".text".
pub open spec fn text_name() -> Seq<u8> {
    seq![0x2Eu8, 0x74u8, 0x65u8, 0x78u8, 0x74u8]
}

/// The section-header type of a loadable code/data section.
pub const SHT_PROGBITS: u32 = 1;

/// Whether one section record is the text section.
pub open spec fn sec_is_text(s: SectionRec) -> bool {
    s.sh_type == SHT_PROGBITS && s.name@ == text_name()
}

/// The first text section at or after position `k`.
pub open spec fn first_text_idx(secs: Seq<SectionRec>, k: int) -> Option<int>
    decreases secs.len() - k,
        when 0 <= k
{
    if k >= secs.len() {
        Option::None
    } else if sec_is_text(secs[k]) {
        Option::Some(k)
    } else {
        first_text_idx(secs, k + 1)
    }
}

/// Checks whether a section name is ".text".
fn is_text_name(name: &Vec<u8>) -> (b: bool)
    ensures
        b == (name@ == text_name()),
{
    if name.len() != 5 {
        proof {
            assert(name@ != text_name());
        }
        return false;
    }
    let b = name[0] == 0x2E && name[1] == 0x74 && name[2] == 0x65 && name[3] == 0x78 && name[4]
        == 0x74;
    proof {
        if b {
            assert(name@ =~= text_name());
        } else {
            assert(name@ != text_name());
        }
    }
    b
}

/// Picks the first text section out of a parsed section list and carves
/// its bytes out of the image: exactly the `.text` PROGBITS section, and
/// `None` when there is none, when its range exceeds the image, or when
/// an address does not fit the host.
pub fn find_text(entry: u64, secs: &Vec<SectionRec>, dat: &Vec<u8>) -> (r: Option<Program>)
    ensures
        ({
            match first_text_idx(secs@, 0) {
                Option::None => r is None,
                Option::Some(k) => {
                    let s = secs@[k];
                    if s.offset + s.size <= dat@.len() && s.addr <= usize::MAX && entry
                        <= usize::MAX {
                        match r {
                            Option::Some(p) => p.insts@ == dat@.subrange(
                                s.offset as int,
                                s.offset + s.size,
                            ) && p.start == s.addr && p.entry == entry && p.dis@ == Seq::<
                                char,
                            >::empty(),
                            Option::None => false,
                        }
                    } else {
                        r is None
                    }
                },
            }
        }),
{
    let mut k: usize = 0;
    while k < secs.len()
        invariant
            0 <= k <= secs@.len(),
            first_text_idx(secs@, 0) == first_text_idx(secs@, k as int),
        decreases secs@.len() - k,
    {
        if secs[k].sh_type == SHT_PROGBITS && is_text_name(&secs[k].name) {
            let s = &secs[k];
            if !(s.addr <= usize::MAX as u64 && entry <= usize::MAX as u64) {
                return Option::None;
            }
            if !(s.size <= dat.len() as u64 && s.offset <= dat.len() as u64 - s.size) {
                return Option::None;
            }
            let off = s.offset as usize;
            let size = s.size as usize;
            proof {
                assert(off == s.offset && size == s.size);
                assert(off + size <= dat@.len());
            }
            let mut insts: Vec<u8> = Vec::new();
            let mut t: usize = 0;
            while t < size
                invariant
                    off + size <= dat@.len(),
                    dat@.len() <= usize::MAX,
                    0 <= t <= size,
                    insts@.len() == t,
                    forall|j: int| 0 <= j < t ==> insts@[j] == dat@[off + j],
                decreases size - t,
            {
                insts.push(dat[off + t]);
                t = t + 1;
            }
            proof {
                assert(insts@ =~= dat@.subrange(off as int, off + size));
            }
            return Option::Some(
                Program { insts, start: s.addr as usize, dis: String::new(), entry: entry as usize },
            );
        }
        k = k + 1;
    }
    Option::None
}

/// Parses an ELF image and extracts the text section. Which sections the
/// parser reports is up to the outside parser, so this only promises a
/// well-formed result; `find_text` carries the exact contract against the
/// section list.
pub fn load_text(dat: &Vec<u8>) -> (r: Option<Program>)
    ensures
        r matches Option::Some(p) ==> p.dis@ == Seq::<char>::empty(),
{
    match elf_sections(dat) {
        Option::Some((entry, secs)) => find_text(entry, &secs, dat),
        Option::None => Option::None,
    }
}

/// The first position where `needle` occurs in `hay`, if any: the exact
/// contract of a substring search on bytes.
pub fn find_subslice(hay: &Vec<u8>, needle: &Vec<u8>) -> (r: Option<usize>)
    ensures
        ({
            match r {
                Option::Some(i) => i + needle@.len() <= hay@.len() && hay@.subrange(
                    i as int,
                    i + needle@.len(),
                ) == needle@ && (forall|j: int|
                    0 <= j < i ==> #[trigger] hay@.subrange(j, j + needle@.len()) != needle@),
                Option::None => forall|j: int|
                    0 <= j && j + needle@.len() <= hay@.len() ==> #[trigger] hay@.subrange(
                        j,
                        j + needle@.len(),
                    ) != needle@,
            }
        }),
{
    let n = needle.len();
    if n > hay.len() {
        return Option::None;
    }
    let mut i: usize = 0;
    while i <= hay.len() - n
        invariant
            n == needle@.len(),
            n <= hay@.len(),
            hay@.len() <= usize::MAX,
            0 <= i <= hay@.len() - n + 1,
            forall|j: int| 0 <= j < i ==> #[trigger] hay@.subrange(j, j + needle@.len())
                != needle@,
        decreases hay@.len() - n + 1 - i,
    {
        let mut t: usize = 0;
        let mut eq = true;
        while t < n
            invariant
                n == needle@.len(),
                n <= hay@.len(),
                hay@.len() <= usize::MAX,
                0 <= i <= hay@.len() - n,
                0 <= t <= n,
                eq ==> (forall|u: int| 0 <= u < t ==> hay@[i + u] == needle@[u]),
                !eq ==> !(forall|u: int| 0 <= u < n ==> hay@[i + u] == needle@[u]),
            decreases n - t,
        {
            if hay[i + t] != needle[t] {
                proof {
                    assert(!(forall|u: int| 0 <= u < n ==> hay@[i + u] == needle@[u])) by {
                        assert(hay@[i + t] != needle@[t as int]);
                    }
                }
                eq = false;
                t = n;
            } else {
                t = t + 1;
            }
        }
        if eq {
            proof {
                assert(hay@.subrange(i as int, i + needle@.len()) =~= needle@);
            }
            return Option::Some(i);
        }
        proof {
            assert(hay@.subrange(i as int, i + needle@.len()) != needle@) by {
                if hay@.subrange(i as int, i + needle@.len()) == needle@ {
                    assert(forall|u: int|
                        0 <= u < n ==> hay@[i + u] == #[trigger] needle@[u]) by {
                        assert(forall|u: int|
                            0 <= u < n ==> #[trigger] needle@[u] == hay@.subrange(
                                i as int,
                                i + needle@.len(),
                            )[u]);
                    }
                }
            }
        }
        i = i + 1;
    }
    proof {
        assert forall|j: int| 0 <= j && j + needle@.len() <= hay@.len() implies #[trigger] hay@.subrange(
            j,
            j + needle@.len(),
        ) != needle@ by {}
    }
    Option::None
}

} // verus!
