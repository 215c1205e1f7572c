use fabric::machine::{clk_index, Core, Dest, Instr, Src};

#[test]
fn add_literal_adds_to_acc() {
    let mut core = Core::new(vec![Instr::Add(Src::Literal(16))]);
    core.acc = 16;
    core.cycle();
    assert_eq!(core.get_acc(), 32);
    assert_eq!(core.get_bak(), 0);
}

#[test]
fn add_wraps_two_complement() {
    let mut core = Core::new(vec![Instr::Add(Src::Literal(1))]);
    core.acc = 32767;
    core.cycle();
    assert_eq!(core.get_acc(), -32768);
}

#[test]
fn sub_wraps_two_complement() {
    let mut core = Core::new(vec![Instr::Sub(Src::Literal(1))]);
    core.acc = -32768;
    core.cycle();
    assert_eq!(core.get_acc(), 32767);
}

#[test]
fn sav_copies_acc_and_keeps_it() {
    let mut core = Core::new(vec![Instr::Sav]);
    core.acc = 16;
    core.bak = 32;
    core.cycle();
    assert_eq!(core.get_acc(), 16);
    assert_eq!(core.get_bak(), 16);
}

#[test]
fn swp_exchanges_registers() {
    let mut core = Core::new(vec![Instr::Swp]);
    core.acc = 16;
    core.bak = 32;
    core.cycle();
    assert_eq!(core.get_acc(), 32);
    assert_eq!(core.get_bak(), 16);
}

#[test]
fn neg_flips_sign_and_twice_is_identity() {
    let mut core = Core::new(vec![Instr::Neg, Instr::Neg]);
    core.acc = 32;
    core.cycle();
    assert_eq!(core.get_acc(), -32);
    core.cycle();
    assert_eq!(core.get_acc(), 32);
}

#[test]
fn neg_twice_is_identity_on_minimum() {
    let mut core = Core::new(vec![Instr::Neg, Instr::Neg]);
    core.acc = -32768;
    core.cycle();
    assert_eq!(core.get_acc(), -32768);
    core.cycle();
    assert_eq!(core.get_acc(), -32768);
}

#[test]
fn mov_literal_to_nil_changes_no_register() {
    let mut core = Core::new(vec![Instr::Mov(Src::Literal(16), Dest::Nil)]);
    core.acc = 7;
    core.bak = -3;
    core.cycle();
    assert_eq!(core.get_acc(), 7);
    assert_eq!(core.get_bak(), -3);
    assert_eq!(core.p_ctr, 0); // a one-instruction program wraps back
}

#[test]
fn jez_selects_branch_then_next() {
    // Slot 0 is the Jez, slot 1 the fall-through target, slot 2 the
    // branch target. Ground state takes the branch (acc := 32); with
    // acc now non-zero the second round falls through (acc := 64).
    let prog = vec![
        Instr::Jez(2),
        Instr::Mov(Src::Literal(64), Dest::Acc),
        Instr::Mov(Src::Literal(32), Dest::Acc),
    ];
    let mut core = Core::new(prog);
    core.cycle();
    assert_eq!(core.p_ctr, 2);
    core.cycle();
    assert_eq!(core.get_acc(), 32);
    assert_eq!(core.p_ctr, 0);
    core.cycle();
    assert_eq!(core.p_ctr, 1);
    core.cycle();
    assert_eq!(core.get_acc(), 64);
}

#[test]
fn jro_wraps_forward_and_backward() {
    let mut prog = vec![Instr::Jro(Src::Literal(19))];
    for _ in 0..9 {
        prog.push(Instr::Nop);
    }
    let mut core = Core::new(prog);
    core.cycle();
    assert_eq!(core.p_ctr, 9); // ((0 + 19) % 10 + 10) % 10

    let mut prog = vec![Instr::Jro(Src::Literal(-19))];
    for _ in 0..9 {
        prog.push(Instr::Nop);
    }
    let mut core = Core::new(prog);
    core.cycle();
    assert_eq!(core.p_ctr, 1); // ((0 - 19) % 10 + 10) % 10
}

#[test]
fn load_replaces_program_and_keeps_pc() {
    let mut core = Core::new(vec![Instr::Nop, Instr::Nop]);
    core.cycle();
    assert_eq!(core.p_ctr, 1);
    core.load(vec![Instr::Neg, Instr::Neg, Instr::Neg]);
    assert_eq!(core.p_ctr, 1);
    core.cycle();
    assert_eq!(core.get_acc(), 0);
    assert_eq!(core.p_ctr, 2);
}

#[test]
fn runnable_guards_cycle() {
    let empty = Core::new(Vec::new());
    assert!(!empty.runnable());

    let mut ok = Core::new(vec![Instr::Nop, Instr::Jmp(1)]);
    assert!(ok.runnable());
    ok.cycle();
    assert!(ok.runnable());

    let far_jump = Core::new(vec![Instr::Jmp(40000)]);
    assert!(!far_jump.runnable());

    // A reload that leaves the program counter beyond the new, shorter
    // program makes the core unrunnable until it is loaded afresh.
    let mut shrunk = Core::new(vec![Instr::Nop, Instr::Nop]);
    shrunk.cycle();
    shrunk.load(vec![Instr::Nop]);
    assert!(!shrunk.runnable());
}

#[test]
fn clk_index_wraps_euclidean() {
    assert_eq!(clk_index(19, 10), 9);
    assert_eq!(clk_index(-19, 10), 1);
    assert_eq!(clk_index(-1, 10), 9);
    assert_eq!(clk_index(0, 10), 0);
    assert_eq!(clk_index(10, 10), 0);
    assert_eq!(clk_index(32767, 1), 0);
}
