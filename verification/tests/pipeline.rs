use rv_simulator::rtl::PortRef;
use rv_simulator::rv32i::{Rv32i, Rv32iBuilder};

fn boot(words: Vec<u32>) -> Rv32i {
    Rv32iBuilder::new(words, Vec::new()).build().unwrap()
}

fn cycle(rv: &mut Rv32i) {
    rv.rasing_edge();
    rv.falling_edge();
}

fn port(rv: &Rv32i, id: usize) -> Option<u32> {
    rv.read(PortRef { id })
}

// addi x2, x2, -432 with x2 starting at the stack window base
#[test]
fn addi_basic() {
    let mut rv = boot(vec![0xe5010113]);
    assert_eq!(rv.register(2), 0x7FFF_FFF0);
    cycle(&mut rv); // IF
    cycle(&mut rv); // ID
    // the instruction sits in EX now: check what the ALU sees
    assert_eq!(port(&rv, rv.alu_op1), Some(0x7FFF_FFF0));
    assert_eq!(port(&rv, rv.alu_op2), Some(0xFFFF_FE50));
    assert_eq!(port(&rv, rv.alu_res), Some(0x7FFF_FE40));
    cycle(&mut rv); // EX
    cycle(&mut rv); // MEM
    cycle(&mut rv); // WB commits on the falling edge
    assert_eq!(rv.register(2), 0x7FFF_FE40);
}

// the six-instruction demo program: store, reload through a moved base,
// with a jump over the final load
#[test]
fn store_load_round_trip() {
    let program = vec![
        0xe5010113, // addi x2 x2 -432
        0x1a812623, // sw x8 428 x2
        0x1b010413, // addi x8 x2 432
        0xfe042623, // sw x0 -20 x8
        0x0280006f, // jal x0 40
        0xfec42783, // lw x15 -20 x8
    ];
    let mut rv = boot(program);
    for _ in 0..14 {
        cycle(&mut rv);
    }
    assert_eq!(rv.register(2), 0x7FFF_FE40);
    assert_eq!(rv.register(8), 0x7FFF_FFF0);
    assert_eq!(rv.register(15), 0);
}

// jal x0, 40: the branch-taken line rises in EX and the next cycle
// flushes both upstream bundles
#[test]
fn jal_flush() {
    let mut rv = boot(vec![
        0x0280006f, // jal x0 40
        0x00100093, // addi x1 x0 1 (flushed)
        0x00100113, // addi x2 x0 1 (flushed)
    ]);
    cycle(&mut rv); // IF
    cycle(&mut rv); // ID
    // the jump is in EX during this cycle
    assert_eq!(port(&rv, rv.branch_sel), Some(1));
    assert_eq!(port(&rv, rv.alu_res), Some(40));
    cycle(&mut rv); // EX: the edge samples clear = 1 and the new PC
    assert_eq!(port(&rv, rv.pc), Some(40));
    for &r in rv.if_id.clone().iter() {
        assert_eq!(port(&rv, r), Some(0));
    }
    for &r in rv.id_ex.clone().iter() {
        assert_eq!(port(&rv, r), Some(0));
    }
    // the two flushed instructions never reach the register file
    for _ in 0..8 {
        cycle(&mut rv);
    }
    assert_eq!(rv.register(1), 0);
    assert_eq!(rv.register(2), 0x7FFF_FFF0);
}

// addi x5, x0, 7; add x6, x5, x5: both operands of the add are forwarded
// from EX/MEM before the register file has committed x5
#[test]
fn forwarding_ex_mem() {
    let addi = rv_simulator::encode::encode_addi(5, 0, 7);
    assert_eq!(addi, 0x00700293);
    let add = rv_simulator::encode::encode_add(6, 5, 5);
    let mut rv = boot(vec![addi, add]);
    cycle(&mut rv);
    cycle(&mut rv);
    cycle(&mut rv);
    // the add is in EX now, the addi result still uncommitted in EX/MEM
    assert_eq!(rv.register(5), 0);
    assert_eq!(port(&rv, rv.fwd1), Some(1));
    assert_eq!(port(&rv, rv.fwd2), Some(1));
    assert_eq!(port(&rv, rv.alu_res), Some(14));
    for _ in 0..4 {
        cycle(&mut rv);
    }
    assert_eq!(rv.register(5), 7);
    assert_eq!(rv.register(6), 14);
}

// lw x5, 0(x2); add x6, x5, x5: the add waits one cycle with a bubble in
// ID/EX while the load fetches, then takes the loaded value
#[test]
fn load_use_stall() {
    let lw = rv_simulator::encode::encode_lw(5, 0, 2);
    let add = rv_simulator::encode::encode_add(6, 5, 5);
    let mut rv = boot(vec![lw, add]);
    cycle(&mut rv); // lw IF
    cycle(&mut rv); // lw ID, add IF
    // the add decodes while the load sits in EX: the stall line rises
    assert_eq!(port(&rv, rv.stall), Some(1));
    cycle(&mut rv);
    // a bubble went into ID/EX: its destination register is 0
    assert_eq!(port(&rv, rv.id_ex[17]), Some(0));
    assert_eq!(port(&rv, rv.stall), Some(0));
    for _ in 0..5 {
        cycle(&mut rv);
    }
    // x2 points at the stack window base, which reads as zero
    assert_eq!(rv.register(5), 0);
    assert_eq!(rv.register(6), 0);
}

// addi x0, x0, 42; add x1, x0, x0: writes aimed at x0 vanish
#[test]
fn x0_sink() {
    let addi = rv_simulator::encode::encode_addi(0, 0, 42);
    let add = rv_simulator::encode::encode_add(1, 0, 0);
    let mut rv = boot(vec![addi, add]);
    for _ in 0..8 {
        cycle(&mut rv);
    }
    assert_eq!(rv.register(0), 0);
    assert_eq!(rv.register(1), 0);
}

// sw then lw through the same base register and offset hand the stored
// word back
#[test]
fn sw_lw_round_trip() {
    // x2 = 64; sw x2, 4(x2) stores 64 at byte 68, and the load pulls it
    // back into x7. Three slots separate the instructions, as the
    // classic register-file timing (same-cycle reads see the old value)
    // demands for a hazard-free sequence.
    let addi = rv_simulator::encode::encode_addi(2, 0, 64);
    let nop1 = rv_simulator::encode::encode_addi(0, 0, 0);
    let sw = rv_simulator::encode::encode_sw(2, 4, 2);
    let lw = rv_simulator::encode::encode_lw(7, 4, 2);
    let program = vec![
        addi, nop1, nop1, nop1, sw, nop1, nop1, nop1, lw, nop1, nop1, nop1, nop1, nop1, nop1,
        nop1, nop1, nop1, nop1, nop1,
    ];
    let mut rv = boot(program);
    for _ in 0..18 {
        cycle(&mut rv);
    }
    assert_eq!(rv.register(2), 64);
    assert_eq!(rv.register(7), 64);
}

// an unknown opcode decodes to the all-zero control vector and flows
// through as a no-op
#[test]
fn unknown_opcode_is_noop() {
    let mut rv = boot(vec![0xFFFF_FFFF, 0x0000_0000]);
    for _ in 0..8 {
        cycle(&mut rv);
    }
    for i in 0..32 {
        let want = if i == 2 { 0x7FFF_FFF0 } else { 0 };
        assert_eq!(rv.register(i), want);
    }
}

// the disassembly registers follow the instructions down the pipe
#[test]
fn disassembly_rides_along() {
    let words = vec![0xe5010113, 0x1a812623];
    let strings = vec!["addi x2 x2 -432".to_string(), "sw x8 428 x2".to_string()];
    let rv0 = Rv32iBuilder::new(words, strings).build().unwrap();
    let mut rv = rv0;
    cycle(&mut rv);
    let shown = rv
        .rtl
        .read_asm(rv.ctrl.asm_members[1])
        .expect("the IF/ID disassembly register is readable");
    assert_eq!(shown, "addi x2 x2 -432");
}
