use rv_simulator::add::{AddBuilder, Alloc, Connect};
use rv_simulator::ex_stage::alu::alu_exec;
use rv_simulator::ex_stage::branch::branch_exec;
use rv_simulator::ex_stage::forward::forward_exec;
use rv_simulator::ex_stage::{Alloc as ExAlloc, Connect as ExConnect, ExStageBuilder};
use rv_simulator::hazard::hazard_exec;
use rv_simulator::mem::DirPage;
use rv_simulator::mux::{MuxBuilder, MuxConnect};
use rv_simulator::regfile::{IndexPort, IndexPortShared, RegFile, RegFileBuilder};
use rv_simulator::consts::{ConstsAlloc, ConstsBuilder};
use rv_simulator::dis::{Asm, AsmMemBuilder, AsmPortShared, Connect as DisConnect};
use rv_simulator::ex_stage;
use rv_simulator::mem::{Connect as MemConnect, MemBuilder};
use rv_simulator::mux::MuxAlloc;
use rv_simulator::reg::{RegAlloc, RegBuilder, RegConnect};
use rv_simulator::rtl::Rtl;

#[test]
fn test_add() {
    let mut rtl = Rtl::new();
    let tb = AddBuilder::new(&mut rtl);
    let constant = ConstsBuilder::new();
    let p1 = constant.alloc_port(&mut rtl, ConstsAlloc::Out(1));
    tb.connect(&mut rtl, p1, Connect::In(0));
    let p2 = constant.alloc_port(&mut rtl, ConstsAlloc::Out(2));
    tb.connect(&mut rtl, p2, Connect::In(1));
    let t = tb.alloc_port(Alloc::Out);
    assert_eq!(rtl.read(t), Some(3));
}

#[test]
fn test_mem() {
    let mut rtl = Rtl::new();
    let tb = MemBuilder::new(&mut rtl, b"12345678".to_vec());
    let constant = ConstsBuilder::new();
    let one_a = constant.alloc_port(&mut rtl, ConstsAlloc::Out(1));
    let one_b = constant.alloc_port(&mut rtl, ConstsAlloc::Out(1));
    let ab = AddBuilder::new(&mut rtl);
    let add = ab.alloc_port(Alloc::Out);
    ab.connect(&mut rtl, one_a, Connect::In(0));
    let rb = RegBuilder::new(&mut rtl, 0);
    let add_out = ab.alloc_port(Alloc::Out);
    rb.connect(&mut rtl, add_out, RegConnect::In);
    rb.connect(&mut rtl, one_b, RegConnect::Enable);
    let reg_out = rb.alloc_port(RegAlloc::Out);
    ab.connect(&mut rtl, reg_out, Connect::In(1));
    tb.connect(&mut rtl, reg_out, MemConnect::Address);
    tb.connect(&mut rtl, one_b, MemConnect::Input);
    tb.connect(&mut rtl, reg_out, MemConnect::Write);
    tb.connect(&mut rtl, one_a, MemConnect::Read);
    let t = tb.alloc_port(rv_simulator::mem::Alloc::Out);
    let tc = tb.build();
    let rc = rb.build();
    rtl.rasing_edge(&tc);
    // the image is visible through the read port: "1234" little-endian
    assert_eq!(rtl.read(t), Some(0x34333231));
    rtl.falling_edge(&tc);
    assert_eq!(rtl.read(t), Some(0x34333231));
    rtl.rasing_edge(&rc);
    assert_eq!(rtl.read(add), Some(1));
    rtl.falling_edge(&rc);
    assert_eq!(rtl.read(add), Some(2));
    rtl.rasing_edge(&tc);
    rtl.falling_edge(&tc);
    assert_eq!(rtl.read(t), Some(u32::from_le_bytes([1, 0, 0, 0])));
}

struct TestConnect {
    jal_: u32,
    branch_sel: u32,
    pc_sel: u32,
    imm_sel: u32,
    alu_ctrl: u32,
    branch_type: u32,
    pc: u32,
    rs1_data: u32,
    rs2_data: u32,
    imm: u32,
    rs1: u32,
    rs2: u32,
    rd_mem: u32,
    rd_mem_write: u32,
    rd_mem_data: u32,
    rd_wb: u32,
    rd_wb_write: u32,
    rd_wb_data: u32,
}

struct TestAlloc {
    branch_sel: u32,
    alu_result: u32,
    fwd_1: u32,
    fwd_2: u32,
    fwd_mux_1: u32,
    fwd_mux_2: u32,
    alu_op1: u32,
    alu_op2: u32,
}

fn run_test(connect: TestConnect, alloc: TestAlloc) {
    let mut rtl = Rtl::new();
    let tb = ExStageBuilder::new(&mut rtl);
    let bk = tb.alloc_port(ExAlloc::BranchSel);
    let alu_result = tb.alloc_port(ExAlloc::AluRes);
    let fwd_1 = tb.forward.alloc_port(ex_stage::forward::Alloc::Forward1);
    let fwd_2 = tb.forward.alloc_port(ex_stage::forward::Alloc::Forward2);
    let fwd_mux_1 = tb.fwd_mux_1.alloc_port(MuxAlloc::Out);
    let fwd_mux_2 = tb.fwd_mux_2.alloc_port(MuxAlloc::Out);
    let alu_op1 = tb.pc_sel.alloc_port(MuxAlloc::Out);
    let alu_op2 = tb.imm_sel.alloc_port(MuxAlloc::Out);
    let constant = ConstsBuilder::new();
    let pairs: [(u32, ExConnect); 18] = [
        (connect.jal_, ExConnect::Jal_),
        (connect.branch_sel, ExConnect::BranchEn),
        (connect.pc_sel, ExConnect::PcSel),
        (connect.imm_sel, ExConnect::ImmSel),
        (connect.alu_ctrl, ExConnect::AluCtrl),
        (connect.branch_type, ExConnect::BranchType),
        (connect.pc, ExConnect::Pc),
        (connect.rs1_data, ExConnect::Rs1Data),
        (connect.rs2_data, ExConnect::Rs2Data),
        (connect.imm, ExConnect::Imm),
        (connect.rs1, ExConnect::Rs1),
        (connect.rs2, ExConnect::Rs2),
        (connect.rd_mem, ExConnect::RdMem),
        (connect.rd_mem_write, ExConnect::RdMemWrite),
        (connect.rd_mem_data, ExConnect::RdMemData),
        (connect.rd_wb, ExConnect::RdWb),
        (connect.rd_wb_write, ExConnect::RdWbWrite),
        (connect.rd_wb_data, ExConnect::RdWbData),
    ];
    for (v, id) in pairs {
        let p = constant.alloc_port(&mut rtl, ConstsAlloc::Out(v));
        tb.connect(&mut rtl, p, id);
    }
    assert_eq!(rtl.read(bk).unwrap(), alloc.branch_sel);
    assert_eq!(rtl.read(fwd_1).unwrap(), alloc.fwd_1);
    assert_eq!(rtl.read(fwd_2).unwrap(), alloc.fwd_2);
    assert_eq!(rtl.read(fwd_mux_1).unwrap(), alloc.fwd_mux_1);
    assert_eq!(rtl.read(fwd_mux_2).unwrap(), alloc.fwd_mux_2);
    assert_eq!(rtl.read(alu_op1).unwrap(), alloc.alu_op1);
    assert_eq!(rtl.read(alu_op2).unwrap(), alloc.alu_op2);
    assert_eq!(rtl.read(alu_result).unwrap(), alloc.alu_result);
}

#[test]
fn test_ex0() {
    //e5010113        addi x2 x2 -432
    run_test(
        TestConnect {
            jal_: 0,
            branch_sel: 0,
            pc_sel: 0,
            imm_sel: 1,
            alu_ctrl: 1,
            branch_type: 0,
            pc: 0x10054,
            rs1_data: 0x7ffffff0,
            rs2_data: 0,
            imm: 0xfffffe50,
            rs1: 2,
            rs2: 0x10,
            rd_mem: 0,
            rd_mem_write: 0,
            rd_mem_data: 0xdeadbeef,
            rd_wb: 0,
            rd_wb_write: 0,
            rd_wb_data: 0,
        },
        TestAlloc {
            branch_sel: 0,
            alu_result: 0x7ffffe40,
            fwd_1: 0,
            fwd_2: 0,
            fwd_mux_1: 0x7ffffff0,
            fwd_mux_2: 0,
            alu_op1: 0x7ffffff0,
            alu_op2: 0xfffffe50,
        },
    );
}

#[test]
fn test_ex1() {
    //1a812623        sw x8 428 x2
    run_test(
        TestConnect {
            jal_: 0,
            branch_sel: 0,
            pc_sel: 0,
            imm_sel: 1,
            alu_ctrl: 1,
            branch_type: 0,
            pc: 0x10058,
            rs1_data: 0x7ffffff0,
            rs2_data: 0,
            imm: 0x1ac,
            rs1: 2,
            rs2: 8,
            rd_mem: 2,
            rd_mem_write: 1,
            rd_mem_data: 0x7ffffe40,
            rd_wb: 0,
            rd_wb_write: 0,
            rd_wb_data: 0xdeadbeef,
        },
        TestAlloc {
            branch_sel: 0,
            alu_result: 0x7fffffec,
            fwd_1: 1,
            fwd_2: 0,
            fwd_mux_1: 0x7ffffe40,
            fwd_mux_2: 0,
            alu_op1: 0x7ffffe40,
            alu_op2: 0x1ac,
        },
    );
}

#[test]
fn test_ex2() {
    //0280006f        jal x0 40
    run_test(
        TestConnect {
            jal_: 1,
            branch_sel: 0,
            pc_sel: 1,
            imm_sel: 1,
            alu_ctrl: 1,
            branch_type: 0,
            pc: 0x10064,
            rs1_data: 0,
            rs2_data: 0,
            imm: 0x28,
            rs1: 0,
            rs2: 8,
            rd_mem: 0xc,
            rd_mem_write: 0,
            rd_mem_data: 0x7fffffdc,
            rd_wb: 8,
            rd_wb_write: 1,
            rd_wb_data: 0x7ffffff0,
        },
        TestAlloc {
            branch_sel: 1,
            alu_result: 0x1008c,
            fwd_1: 0,
            fwd_2: 2,
            fwd_mux_1: 0,
            fwd_mux_2: 0x7ffffff0,
            alu_op1: 0x10064,
            alu_op2: 0x28,
        },
    );
}

#[test]
fn mux_selects_wired_input() {
    let mut rtl = Rtl::new();
    let mb = MuxBuilder::new(&mut rtl);
    let constant = ConstsBuilder::new();
    let a = constant.alloc_port(&mut rtl, ConstsAlloc::Out(11));
    let b = constant.alloc_port(&mut rtl, ConstsAlloc::Out(22));
    let sel = constant.alloc_port(&mut rtl, ConstsAlloc::Out(1));
    mb.connect(&mut rtl, a, MuxConnect::In(0));
    mb.connect(&mut rtl, b, MuxConnect::In(1));
    mb.connect(&mut rtl, sel, MuxConnect::Select);
    let out = mb.alloc_port(MuxAlloc::Out);
    assert_eq!(rtl.read(out), Some(22));
}

#[test]
fn mux_out_of_range_select_is_none() {
    let mut rtl = Rtl::new();
    let mb = MuxBuilder::new(&mut rtl);
    let constant = ConstsBuilder::new();
    let a = constant.alloc_port(&mut rtl, ConstsAlloc::Out(11));
    let sel = constant.alloc_port(&mut rtl, ConstsAlloc::Out(5));
    mb.connect(&mut rtl, a, MuxConnect::In(0));
    mb.connect(&mut rtl, sel, MuxConnect::Select);
    let out = mb.alloc_port(MuxAlloc::Out);
    assert_eq!(rtl.read(out), None);
}

#[test]
fn unconnected_input_reads_none() {
    let mut rtl = Rtl::new();
    let mb = rv_simulator::mux::MuxBuilder::new(&mut rtl);
    let out = mb.alloc_port(MuxAlloc::Out);
    assert_eq!(rtl.read(out), None);
}

#[test]
fn combinational_cycle_reads_none() {
    // two adders feeding each other never get a rank
    let mut rtl = Rtl::new();
    let a = AddBuilder::new(&mut rtl);
    let b = AddBuilder::new(&mut rtl);
    let pa = a.alloc_port(Alloc::Out);
    let pb = b.alloc_port(Alloc::Out);
    a.connect(&mut rtl, pb, Connect::In(0));
    b.connect(&mut rtl, pa, Connect::In(0));
    assert_eq!(rtl.read(pa), None);
    assert_eq!(rtl.read(pb), None);
}

#[test]
fn register_breaks_cycle() {
    // a counter: reg -> +1 -> reg is fine because the register's output
    // does not combinationally depend on its input
    let mut rtl = Rtl::new();
    let constant = ConstsBuilder::new();
    let one = constant.alloc_port(&mut rtl, ConstsAlloc::Out(1));
    let rb = RegBuilder::new(&mut rtl, 0);
    let ab = AddBuilder::new(&mut rtl);
    let reg_out = rb.alloc_port(RegAlloc::Out);
    ab.connect(&mut rtl, one, Connect::In(0));
    ab.connect(&mut rtl, reg_out, Connect::In(1));
    let sum = ab.alloc_port(Alloc::Out);
    rb.connect(&mut rtl, sum, RegConnect::In);
    let rc = rb.build();
    for want in 1..=4u32 {
        rtl.rasing_edge(&rc);
        rtl.falling_edge(&rc);
        assert_eq!(rtl.read(reg_out), Some(want));
    }
}

#[test]
fn register_clear_wins_over_enable() {
    let mut rtl = Rtl::new();
    let constant = ConstsBuilder::new();
    let one = constant.alloc_port(&mut rtl, ConstsAlloc::Out(1));
    let seven = constant.alloc_port(&mut rtl, ConstsAlloc::Out(7));
    let rb = RegBuilder::new(&mut rtl, 3);
    rb.connect(&mut rtl, seven, RegConnect::In);
    rb.connect(&mut rtl, one, RegConnect::Enable);
    rb.connect(&mut rtl, one, RegConnect::Clear);
    let out = rb.alloc_port(RegAlloc::Out);
    let rc = rb.build();
    assert_eq!(rtl.read(out), Some(3));
    rtl.rasing_edge(&rc);
    rtl.falling_edge(&rc);
    assert_eq!(rtl.read(out), Some(0));
}

#[test]
fn register_disabled_holds() {
    let mut rtl = Rtl::new();
    let constant = ConstsBuilder::new();
    let zero = constant.alloc_port(&mut rtl, ConstsAlloc::Out(0));
    let seven = constant.alloc_port(&mut rtl, ConstsAlloc::Out(7));
    let rb = RegBuilder::new(&mut rtl, 3);
    rb.connect(&mut rtl, seven, RegConnect::In);
    rb.connect(&mut rtl, zero, RegConnect::Enable);
    let out = rb.alloc_port(RegAlloc::Out);
    let rc = rb.build();
    rtl.rasing_edge(&rc);
    rtl.falling_edge(&rc);
    assert_eq!(rtl.read(out), Some(3));
}

#[test]
fn mem_write_then_read_round_trips() {
    let mut rtl = Rtl::new();
    let constant = ConstsBuilder::new();
    let one = constant.alloc_port(&mut rtl, ConstsAlloc::Out(1));
    let addr = constant.alloc_port(&mut rtl, ConstsAlloc::Out(4));
    let word = constant.alloc_port(&mut rtl, ConstsAlloc::Out(0xCAFEBABE));
    let mb = MemBuilder::new(&mut rtl, vec![0u8; 16]);
    mb.connect(&mut rtl, addr, MemConnect::Address);
    mb.connect(&mut rtl, word, MemConnect::Input);
    mb.connect(&mut rtl, one, MemConnect::Write);
    mb.connect(&mut rtl, one, MemConnect::Read);
    let out = mb.alloc_port(rv_simulator::mem::Alloc::Out);
    let mc = mb.build();
    rtl.rasing_edge(&mc);
    rtl.falling_edge(&mc);
    assert_eq!(rtl.read(out), Some(0xCAFEBABE));
}

#[test]
fn mem_stack_arena_grows() {
    let mut rtl = Rtl::new();
    let constant = ConstsBuilder::new();
    let one = constant.alloc_port(&mut rtl, ConstsAlloc::Out(1));
    let addr = constant.alloc_port(&mut rtl, ConstsAlloc::Out(0x7FFF_FFF4));
    let word = constant.alloc_port(&mut rtl, ConstsAlloc::Out(99));
    let mb = MemBuilder::new(&mut rtl, Vec::new());
    mb.connect(&mut rtl, addr, MemConnect::Address);
    mb.connect(&mut rtl, word, MemConnect::Input);
    mb.connect(&mut rtl, one, MemConnect::Write);
    mb.connect(&mut rtl, one, MemConnect::Read);
    let out = mb.alloc_port(rv_simulator::mem::Alloc::Out);
    let mc = mb.build();
    assert_eq!(rtl.read(out), Some(0));
    rtl.rasing_edge(&mc);
    rtl.falling_edge(&mc);
    assert_eq!(rtl.read(out), Some(99));
}

#[test]
fn mem_low_arena_grows_on_store() {
    let mut rtl = Rtl::new();
    let constant = ConstsBuilder::new();
    let one = constant.alloc_port(&mut rtl, ConstsAlloc::Out(1));
    let addr = constant.alloc_port(&mut rtl, ConstsAlloc::Out(0x1000));
    let word = constant.alloc_port(&mut rtl, ConstsAlloc::Out(5));
    let mb = MemBuilder::new(&mut rtl, vec![0u8; 8]);
    mb.connect(&mut rtl, addr, MemConnect::Address);
    mb.connect(&mut rtl, word, MemConnect::Input);
    mb.connect(&mut rtl, one, MemConnect::Write);
    mb.connect(&mut rtl, one, MemConnect::Read);
    let out = mb.alloc_port(rv_simulator::mem::Alloc::Out);
    let mc = mb.build();
    // before the store commits, the word past the image reads as zero
    assert_eq!(rtl.read(out), Some(0));
    rtl.rasing_edge(&mc);
    rtl.falling_edge(&mc);
    // the low arena grew zero-filled out to the stored word
    assert_eq!(rtl.read(out), Some(5));
}

#[test]
fn alu_table() {
    assert_eq!(alu_exec(0, 0b1100, 0b1010), 0b1000);
    assert_eq!(alu_exec(1, 0xFFFF_FFFF, 1), 0);
    assert_eq!(alu_exec(2, 0b1100, 0b1010), 0b1110);
    assert_eq!(alu_exec(3, 0b1100, 0b1010), 0b0110);
    assert_eq!(alu_exec(4, 1, 5), 32);
    assert_eq!(alu_exec(5, 0x8000_0000, 31), 1);
    assert_eq!(alu_exec(6, 0x8000_0000, 31), 0xFFFF_FFFF);
    assert_eq!(alu_exec(7, 3, 5), 0xFFFF_FFFE);
    assert_eq!(alu_exec(8, 0xFFFF_FFFF, 0), 1); // -1 < 0 signed
    assert_eq!(alu_exec(9, 0xFFFF_FFFF, 0), 0); // but not unsigned
    assert_eq!(alu_exec(15, 7, 7), 0);
}

#[test]
fn branch_table() {
    assert_eq!(branch_exec(1, 0, 0, 1, 2), 1); // jal always jumps
    assert_eq!(branch_exec(0, 1, 0, 5, 5), 1); // beq taken
    assert_eq!(branch_exec(0, 1, 1, 5, 5), 0); // bne not taken
    assert_eq!(branch_exec(0, 1, 4, 0xFFFF_FFFF, 0), 1); // blt signed
    assert_eq!(branch_exec(0, 1, 6, 0xFFFF_FFFF, 0), 0); // bltu unsigned
    assert_eq!(branch_exec(0, 1, 5, 3, 3), 1); // bge
    assert_eq!(branch_exec(0, 1, 7, 2, 3), 0); // bgeu
    assert_eq!(branch_exec(0, 0, 0, 5, 5), 0);
}

#[test]
fn forward_priority() {
    assert_eq!(forward_exec(5, 5, 1, 5, 1), 1); // EX/MEM wins
    assert_eq!(forward_exec(5, 3, 1, 5, 1), 2); // MEM/WB otherwise
    assert_eq!(forward_exec(0, 0, 1, 0, 1), 0); // x0 never forwarded
    assert_eq!(forward_exec(5, 5, 0, 3, 0), 0); // no write, no forward
}

#[test]
fn hazard_detects_load_use() {
    assert_eq!(hazard_exec(1, 5, 5, 2), 1);
    assert_eq!(hazard_exec(1, 5, 2, 5), 1);
    assert_eq!(hazard_exec(0, 5, 5, 5), 0);
    assert_eq!(hazard_exec(1, 0, 0, 0), 0); // x0 destination never stalls
}

#[test]
fn dir_page_allocates_on_touch() {
    let mut d = DirPage::new(4);
    assert!(d.pages[1].is_none());
    d.get_page(1);
    assert!(d.pages[1].is_some());
    assert_eq!(d.pages[1].as_ref().unwrap().len(), 4096);
    assert!(d.pages[0].is_none());
}

#[test]
fn index_port_shared_round_trip() {
    let mut rtl = Rtl::new();
    let rb = RegFileBuilder::new(&mut rtl, 0x7FFF_FFF0);
    let rf = match &rtl.nodes[rb.rf] {
        rv_simulator::rtl::Node::Rf(f) => RegFile {
            regs: f.regs.clone(),
            rd: None,
            rd_data: None,
            reg_write: None,
            rd_cache: 0,
            rd_data_cache: 0,
            reg_write_cache: 0,
        },
        _ => panic!("expected a register file"),
    };
    let mut shared = IndexPortShared::new(rf);
    assert_eq!(shared.borrow().read(0), 0);
    assert_eq!(shared.borrow().read(2), 0x7FFF_FFF0);
    assert_eq!(shared.borrow().read(77), 0);
    shared.borrow_mut().rd_cache = 9;
    let inner = shared.into_shared();
    assert_eq!(inner.0.rd_cache, 9);
}

#[test]
fn ex_stage_signal_report() {
    let mut rtl = Rtl::new();
    let tb = ExStageBuilder::new(&mut rtl);
    let constant = ConstsBuilder::new();
    let vals: [(u32, ExConnect); 18] = [
        (1, ExConnect::Jal_),
        (0, ExConnect::BranchEn),
        (1, ExConnect::PcSel),
        (1, ExConnect::ImmSel),
        (1, ExConnect::AluCtrl),
        (0, ExConnect::BranchType),
        (0x10064, ExConnect::Pc),
        (0, ExConnect::Rs1Data),
        (0, ExConnect::Rs2Data),
        (0x28, ExConnect::Imm),
        (0, ExConnect::Rs1),
        (8, ExConnect::Rs2),
        (0xc, ExConnect::RdMem),
        (0, ExConnect::RdMemWrite),
        (0x7fffffdc, ExConnect::RdMemData),
        (8, ExConnect::RdWb),
        (1, ExConnect::RdWbWrite),
        (0x7ffffff0, ExConnect::RdWbData),
    ];
    for (v, id) in vals {
        let p = constant.alloc_port(&mut rtl, ConstsAlloc::Out(v));
        tb.connect(&mut rtl, p, id);
    }
    let stage = tb.stage();
    let out = stage.output(&rtl);
    assert_eq!(out[0], ("branch_sel", Some(1)));
    assert_eq!(out[1], ("alu_res", Some(0x1008c)));
    assert_eq!(out[2], ("forward_1", Some(0)));
    assert_eq!(out[3], ("forward_2", Some(2)));
    let inner = stage.inner_signal(&rtl);
    assert_eq!(inner[0], ("fwd1_data", Some(0)));
    assert_eq!(inner[1], ("fwd2_data", Some(0x7ffffff0)));
    assert_eq!(inner[2], ("op1", Some(0x10064)));
    assert_eq!(inner[3], ("op2", Some(0x28)));
}

#[test]
fn dis_memory_reads_by_address() {
    let mut rtl = Rtl::new();
    let constant = ConstsBuilder::new();
    let addr = constant.alloc_port(&mut rtl, ConstsAlloc::Out(4));
    let mb = AsmMemBuilder::new(&mut rtl, vec!["one".to_string(), "two".to_string()]);
    mb.connect(&mut rtl, addr, DisConnect::Address);
    let p = mb.asm_alloc(0);
    assert_eq!(p.read(&rtl), Some("two".to_string()));
}

#[test]
fn dis_memory_out_of_range_text() {
    let mut rtl = Rtl::new();
    let constant = ConstsBuilder::new();
    let addr = constant.alloc_port(&mut rtl, ConstsAlloc::Out(64));
    let mb = AsmMemBuilder::new(&mut rtl, vec!["one".to_string()]);
    mb.connect(&mut rtl, addr, DisConnect::Address);
    let p = mb.asm_alloc(0);
    assert_eq!(p.read(&rtl), Some("Invalid instruction".to_string()));
}

#[test]
fn dis_port_without_address_is_unreadable() {
    let mut rtl = Rtl::new();
    let a = Asm::new(vec!["one".to_string()]);
    let shared = AsmPortShared::new(&mut rtl, a);
    let p = rv_simulator::rtl::AsmPortRef { id: shared.id };
    assert_eq!(p.read(&rtl), None);
}

#[test]
fn mem_low_arena_large_growth() {
    // a store just below the stack window grows the low arena to ~2 GiB
    let mut rtl = Rtl::new();
    let constant = ConstsBuilder::new();
    let one = constant.alloc_port(&mut rtl, ConstsAlloc::Out(1));
    let addr = constant.alloc_port(&mut rtl, ConstsAlloc::Out(0x7FFF_FFEC));
    let word = constant.alloc_port(&mut rtl, ConstsAlloc::Out(77));
    let mb = MemBuilder::new(&mut rtl, vec![0u8; 8]);
    mb.connect(&mut rtl, addr, MemConnect::Address);
    mb.connect(&mut rtl, word, MemConnect::Input);
    mb.connect(&mut rtl, one, MemConnect::Write);
    mb.connect(&mut rtl, one, MemConnect::Read);
    let out = mb.alloc_port(rv_simulator::mem::Alloc::Out);
    let mc = mb.build();
    rtl.rasing_edge(&mc);
    rtl.falling_edge(&mc);
    assert_eq!(rtl.read(out), Some(77));
}
