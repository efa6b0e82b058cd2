use rv_simulator::decode::{ctl_exec, imm_exec, Sig};
use rv_simulator::encode::{encode_add, encode_addi, encode_jal, encode_lw, encode_sw};
use rv_simulator::loader::{find_subslice, find_text, SectionRec};
use rv_simulator::rv32i::words_to_bytes;

#[test]
fn encoders_match_known_words() {
    assert_eq!(encode_addi(2, 2, (-432i32) as u32), 0xe5010113);
    assert_eq!(encode_sw(8, 428, 2), 0x1a812623);
    assert_eq!(encode_addi(8, 2, 432), 0x1b010413);
    assert_eq!(encode_sw(0, (-20i32) as u32, 8), 0xfe042623);
    assert_eq!(encode_jal(0, 40), 0x0280006f);
    assert_eq!(encode_lw(15, (-20i32) as u32, 8), 0xfec42783);
}

#[test]
fn immediates_decode() {
    assert_eq!(imm_exec(0xe5010113), 0xFFFF_FE50); // addi, -432
    assert_eq!(imm_exec(0x1a812623), 428); // sw
    assert_eq!(imm_exec(0x0280006f), 40); // jal
    assert_eq!(imm_exec(0xfec42783), (-20i32) as u32); // lw
    assert_eq!(imm_exec(0x12345037), 0x12345000); // lui keeps the high bits
    assert_eq!(imm_exec(0xFF00_0F93), 0xFFFF_FFF0); // addi with imm -16
    assert_eq!(imm_exec(0xFFFF_FFFF), 0); // unknown opcode has no immediate
}

#[test]
fn control_table_addi() {
    let op = 0x13;
    assert_eq!(ctl_exec(&Sig::RegWrite, op, 0, 0), 1);
    assert_eq!(ctl_exec(&Sig::MemRead, op, 0, 0), 0);
    assert_eq!(ctl_exec(&Sig::MemWrite, op, 0, 0), 0);
    assert_eq!(ctl_exec(&Sig::Branch, op, 0, 0), 0);
    assert_eq!(ctl_exec(&Sig::Jal, op, 0, 0), 0);
    assert_eq!(ctl_exec(&Sig::AluSrcImm, op, 0, 0), 1);
    assert_eq!(ctl_exec(&Sig::AluCtrl, op, 0, 0), 1);
    assert_eq!(ctl_exec(&Sig::WbSel, op, 0, 0), 1);
}

#[test]
fn control_table_loads_stores_jumps() {
    assert_eq!(ctl_exec(&Sig::MemRead, 0x03, 2, 0), 1);
    assert_eq!(ctl_exec(&Sig::WbSel, 0x03, 2, 0), 2);
    assert_eq!(ctl_exec(&Sig::MemWrite, 0x23, 2, 0), 1);
    assert_eq!(ctl_exec(&Sig::RegWrite, 0x23, 2, 0), 0);
    assert_eq!(ctl_exec(&Sig::Jal, 0x6F, 0, 0), 1);
    assert_eq!(ctl_exec(&Sig::WbSel, 0x6F, 0, 0), 0);
    assert_eq!(ctl_exec(&Sig::AluSrcPc, 0x6F, 0, 0), 1);
    assert_eq!(ctl_exec(&Sig::Jalr, 0x67, 0, 0), 1);
    assert_eq!(ctl_exec(&Sig::Branch, 0x63, 0, 0), 1);
    assert_eq!(ctl_exec(&Sig::BranchType, 0x63, 5, 0), 5);
    // an unknown opcode yields the all-zero vector
    assert_eq!(ctl_exec(&Sig::RegWrite, 0x7F, 0, 0), 0);
    assert_eq!(ctl_exec(&Sig::MemWrite, 0x7F, 0, 0), 0);
    assert_eq!(ctl_exec(&Sig::Jal, 0x7F, 0, 0), 0);
}

#[test]
fn control_table_rtype() {
    assert_eq!(ctl_exec(&Sig::AluCtrl, 0x33, 0, 0), 1); // add
    assert_eq!(ctl_exec(&Sig::AluCtrl, 0x33, 0, 0x20), 7); // sub
    assert_eq!(ctl_exec(&Sig::AluCtrl, 0x33, 5, 0x20), 6); // sra
    assert_eq!(ctl_exec(&Sig::AluCtrl, 0x33, 5, 0), 5); // srl
    assert_eq!(ctl_exec(&Sig::AluCtrl, 0x33, 7, 0), 0); // and
    assert_eq!(ctl_exec(&Sig::AluSrcImm, 0x33, 0, 0), 0);
}

#[test]
fn words_lay_out_little_endian() {
    let b = words_to_bytes(&vec![0x04030201, 0x08070605]);
    assert_eq!(b, vec![1, 2, 3, 4, 5, 6, 7, 8]);
}

#[test]
fn subslice_finds_first() {
    let hay = b"disassembly of section .text: here".to_vec();
    let needle = b".text:".to_vec();
    assert_eq!(find_subslice(&hay, &needle), Some(23));
    assert_eq!(find_subslice(&hay, &b"missing".to_vec()), None);
    assert_eq!(find_subslice(&hay, &b"d".to_vec()), Some(0));
}

#[test]
fn find_text_picks_the_text_section() {
    let dat: Vec<u8> = (0u8..64).collect();
    let secs = vec![
        SectionRec { name: b"".to_vec(), sh_type: 0, addr: 0, offset: 0, size: 0 },
        SectionRec { name: b".text".to_vec(), sh_type: 3, addr: 0, offset: 0, size: 4 },
        SectionRec { name: b".text".to_vec(), sh_type: 1, addr: 0x10054, offset: 16, size: 8 },
    ];
    let p = find_text(0x10054, &secs, &dat).expect("a text section is present");
    assert_eq!(p.insts, (16u8..24).collect::<Vec<u8>>());
    assert_eq!(p.start, 0x10054);
    assert_eq!(p.entry, 0x10054);
}

#[test]
fn find_text_rejects_bad_ranges() {
    let dat: Vec<u8> = (0u8..8).collect();
    let secs = vec![SectionRec {
        name: b".text".to_vec(),
        sh_type: 1,
        addr: 0,
        offset: 6,
        size: 8,
    }];
    assert_eq!(find_text(0, &secs, &dat).is_none(), true);
}

#[test]
fn find_text_without_text_section() {
    let dat: Vec<u8> = Vec::new();
    let secs: Vec<SectionRec> = Vec::new();
    assert!(find_text(0, &secs, &dat).is_none());
}
