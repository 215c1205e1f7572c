use fabric::ctrl_flow_instructions::{Ctrl, CtrlInstr, JCmp, Jro, MutWrap};
use fabric::machine::Core;
use fabric::mut_instructions::Mut;
use fabric::resource::{DestType, SrcType};

#[test]
fn jez_should_work() {
    let next = Mut::new_mov(SrcType::Literal(64), DestType::Acc);
    let next = Ctrl::new_mut_wrap(next, &Ctrl::Halt);
    let branch = Mut::new_mov(SrcType::Literal(32), DestType::Acc);
    let branch = Ctrl::new_mut_wrap(branch, &Ctrl::Halt);
    let jez = JCmp::new_ez(&next, &branch);
    let mut core = Core::new(Vec::new());

    // Because the "branch instruction", ie, the one that is followed when
    // the cond is true, is to set the value to 32, we would expect a
    // ground-state core to yield this result.
    jez.execute(&mut core).execute(&mut core);
    assert_eq!(core.acc, 32);
    // Because the core is no longer ground-state, ie acc != 0, now it
    // should take the "next" instruction, which will set acc to 64.
    jez.execute(&mut core).execute(&mut core);
    assert_eq!(core.acc, 64);
}

#[test]
fn jnz_should_work() {
    let next = Mut::new_mov(SrcType::Literal(64), DestType::Acc);
    let next = Ctrl::new_mut_wrap(next, &Ctrl::Halt);
    let branch = Mut::new_mov(SrcType::Literal(32), DestType::Acc);
    let branch = Ctrl::new_mut_wrap(branch, &Ctrl::Halt);
    let jnz = JCmp::new_nz(&next, &branch);
    let mut core = Core::new(Vec::new());

    jnz.execute(&mut core).execute(&mut core);
    assert_eq!(core.acc, 64);
    jnz.execute(&mut core).execute(&mut core);
    assert_eq!(core.acc, 32);
}

#[test]
fn jgz_should_work() {
    let next = Mut::new_mov(SrcType::Literal(64), DestType::Acc);
    let next = Ctrl::new_mut_wrap(next, &Ctrl::Halt);
    let branch = Mut::new_mov(SrcType::Literal(32), DestType::Acc);
    let branch = Ctrl::new_mut_wrap(branch, &Ctrl::Halt);
    let jgz = JCmp::new_gz(&next, &branch);
    let mut core = Core::new(Vec::new());

    core.acc = 1;
    jgz.execute(&mut core).execute(&mut core);
    assert_eq!(core.acc, 32);
    core.acc = -1;
    jgz.execute(&mut core).execute(&mut core);
    assert_eq!(core.acc, 64);
}

#[test]
fn jlz_should_work() {
    let next = Mut::new_mov(SrcType::Literal(64), DestType::Acc);
    let next = Ctrl::new_mut_wrap(next, &Ctrl::Halt);
    let branch = Mut::new_mov(SrcType::Literal(32), DestType::Acc);
    let branch = Ctrl::new_mut_wrap(branch, &Ctrl::Halt);
    let jlz = JCmp::new_lz(&next, &branch);
    let mut core = Core::new(Vec::new());

    core.acc = 1;
    jlz.execute(&mut core).execute(&mut core);
    assert_eq!(core.acc, 64);
    core.acc = -1;
    jlz.execute(&mut core).execute(&mut core);
    assert_eq!(core.acc, 32);
}

#[test]
fn jmp_it_should_provide_the_next_instruction() {
    let mov = Mut::new_mov(SrcType::Literal(16), DestType::Acc);
    let next = Ctrl::new_mut_wrap(mov, &Ctrl::Halt);
    let jmp = Ctrl::new_jmp(&next);
    let mut core = Core::new(Vec::new());

    jmp.execute(&mut core).execute(&mut core);

    assert_eq!(core.acc, 16);
}

#[test]
fn jro_it_should_provide_the_next_instruction() {
    let mut instrs: Vec<Ctrl> = vec![];
    for i in 0..10 {
        let mov = Mut::new_mov(SrcType::Literal(i), DestType::Acc);
        let mut_wrap = Ctrl::new_mut_wrap(mov, &Ctrl::Halt);
        instrs.push(mut_wrap);
    }
    let instrs: Vec<&Ctrl> = instrs.iter().collect();

    let mut core = Core::new(Vec::new());

    let jro = Jro::new(SrcType::Literal(4), 0, &instrs[..]);
    jro.execute(&mut core).execute(&mut core);
    assert_eq!(core.acc, 4);

    let jro = Jro::new(SrcType::Literal(4), 4, &instrs[..]);
    jro.execute(&mut core).execute(&mut core);
    assert_eq!(core.acc, 8);
}

#[test]
fn it_should_clock_forward() {
    let mut instrs: Vec<Ctrl> = vec![];
    for i in 0..10 {
        let mov = Mut::new_mov(SrcType::Literal(i), DestType::Acc);
        let mut_wrap = Ctrl::new_mut_wrap(mov, &Ctrl::Halt);
        instrs.push(mut_wrap);
    }
    let instrs: Vec<&Ctrl> = instrs.iter().collect();
    let mut core = Core::new(Vec::new());

    // The machine should be instructed to jump forward 19 instructions,
    // which will need to wrap around a base of 10.
    let jro = Jro::new(SrcType::Literal(19), 0, &instrs[..]);
    jro.execute(&mut core).execute(&mut core);
    assert_eq!(core.acc, 9);

    let jro = Jro::new(SrcType::Literal(19), 3, &instrs[..]);
    jro.execute(&mut core).execute(&mut core);
    assert_eq!(core.acc, 2);
}

#[test]
fn it_should_clock_backward() {
    let mut instrs: Vec<Ctrl> = vec![];
    for i in 0..10 {
        let mov = Mut::new_mov(SrcType::Literal(i), DestType::Acc);
        let mut_wrap = Ctrl::new_mut_wrap(mov, &Ctrl::Halt);
        instrs.push(mut_wrap);
    }
    let instrs: Vec<&Ctrl> = instrs.iter().collect();
    let mut core = Core::new(Vec::new());

    // The machine should be instructed to jump backward 19 instructions,
    // which will need to wrap around a base of 10.
    let jro = Jro::new(SrcType::Literal(-19), 0, &instrs[..]);
    jro.execute(&mut core).execute(&mut core);
    assert_eq!(core.acc, 1);

    let jro = Jro::new(SrcType::Literal(-19), 3, &instrs[..]);
    jro.execute(&mut core).execute(&mut core);
    assert_eq!(core.acc, 4);
}

#[test]
#[should_panic]
fn it_should_not_suck() {
    let i = Mut::new_add(SrcType::Literal(32));
    let sut = MutWrap::new(i, &Ctrl::Halt);
    let mut core = Core::new(Vec::new());

    let next = sut.execute(&mut core);
    assert_eq!(core.acc, 32);
    next.execute(&mut core);
}
