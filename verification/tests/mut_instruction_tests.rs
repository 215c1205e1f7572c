use fabric::machine::Core;
use fabric::mut_instructions::{Arith, Mov, MutInstr, Neg, Sav, Swp};
use fabric::resource::{DestType, SrcType};

#[test]
fn it_should_add_literal() {
    let mut core = Core::new(Vec::new());
    core.acc = 16;
    let i = Arith::new_add(SrcType::Literal(16));

    i.execute(&mut core);

    assert_eq!(core.acc, 32);
}

#[test]
fn it_should_del_literal() {
    let mut core = Core::new(Vec::new());
    core.acc = 16;
    let i = Arith::new_sub(SrcType::Literal(10));

    i.execute(&mut core);

    assert_eq!(core.acc, 6);
}

#[test]
fn add_should_double_given_acc() {
    let mut core = Core::new(Vec::new());
    core.acc = 8;
    let i = Arith::new_add(SrcType::Resource(DestType::Acc));

    i.execute(&mut core);

    assert_eq!(core.acc, 16);
}

#[test]
fn sub_should_zero_out_given_acc() {
    let mut core = Core::new(Vec::new());
    core.acc = 8;
    let i = Arith::new_sub(SrcType::Resource(DestType::Acc));

    i.execute(&mut core);

    assert_eq!(core.acc, 0);
}

#[test]
fn add_should_nop_on_nil() {
    let mut core = Core::new(Vec::new());
    core.acc = 16;
    let i = Arith::new_add(SrcType::Resource(DestType::Nil));

    i.execute(&mut core);

    assert_eq!(core.acc, 16);
}

#[test]
fn it_should_move_btw_acc_bak() {
    let mut core = Core::new(Vec::new());
    core.acc = 10;

    let i = Mov::new(SrcType::Literal(60), DestType::Acc);
    i.execute(&mut core);

    assert_eq!(core.acc, 60);
}

#[test]
fn it_should_negate() {
    let mut core = Core::new(Vec::new());
    core.acc = 32;
    let i = Neg::new();

    i.execute(&mut core);

    assert_eq!(core.acc, -32);
}

#[test]
fn it_should_overwrite() {
    let mut core = Core::new(Vec::new());
    core.acc = 16;
    core.bak = 32;
    let i = Sav::new();

    i.execute(&mut core);

    assert_eq!(core.acc, 16);
    assert_eq!(core.bak, 16);
}

#[test]
fn it_should_swap() {
    let mut core = Core::new(Vec::new());
    core.acc = 16;
    core.bak = 32;
    let i = Swp::new();

    i.execute(&mut core);

    assert_eq!(core.acc, 32);
    assert_eq!(core.bak, 16);
}
