use fabric::machine::{Core, Dest, Instr, Src};

#[test]
fn rendezvous_carries_a_value_down() {
    // Bind A's down port to B's up port; A sends 16 down, B adds what
    // arrives from above.
    let mut a = Core::new(vec![Instr::Mov(Src::Literal(16), Dest::Down)]);
    let mut b = Core::new(vec![Instr::Add(Src::Up)]);
    a.bind_down(&mut b).unwrap();

    // The channel holds one value, so the producer's cycle completes
    // without the consumer having run yet.
    a.cycle();
    b.cycle();
    assert_eq!(b.get_acc(), 16);
}

#[test]
fn rendezvous_carries_a_value_up() {
    let mut below = Core::new(vec![Instr::Mov(Src::Literal(-7), Dest::Up)]);
    let mut above = Core::new(vec![Instr::Mov(Src::Down, Dest::Acc)]);
    below.bind_up(&mut above).unwrap();

    below.cycle();
    above.cycle();
    assert_eq!(above.get_acc(), -7);
}

#[test]
fn rendezvous_left_right_preserves_order() {
    let mut sender = Core::new(vec![
        Instr::Mov(Src::Literal(1), Dest::Right),
        Instr::Mov(Src::Literal(2), Dest::Right),
    ]);
    let mut receiver = Core::new(vec![
        Instr::Mov(Src::Left, Dest::Acc),
        Instr::Add(Src::Left),
    ]);
    sender.bind_right(&mut receiver).unwrap();

    sender.cycle();
    receiver.cycle();
    assert_eq!(receiver.get_acc(), 1);
    sender.cycle();
    receiver.cycle();
    assert_eq!(receiver.get_acc(), 3);
}

#[test]
fn double_bind_is_rejected_and_replaces_nothing() {
    let mut a = Core::new(vec![Instr::Mov(Src::Literal(16), Dest::Down)]);
    let mut b = Core::new(vec![Instr::Add(Src::Up)]);
    let mut c = Core::new(Vec::new());

    a.bind_down(&mut b).unwrap();
    // A's down port is taken; binding it again must fail...
    assert!(a.bind_down(&mut c).is_err());
    // ... and binding the other side of the pair must fail too.
    assert!(c.bind_down(&mut b).is_err());

    // The first channel is still the one in place: the value still
    // flows from A to B.
    a.cycle();
    b.cycle();
    assert_eq!(b.get_acc(), 16);
}

#[test]
fn each_axis_rejects_a_taken_port() {
    let mut a = Core::new(Vec::new());
    let mut b = Core::new(Vec::new());
    let mut c = Core::new(Vec::new());
    a.bind_up(&mut b).unwrap();
    assert!(a.bind_up(&mut c).is_err());
    a.bind_left(&mut b).unwrap();
    assert!(a.bind_left(&mut c).is_err());
    a.bind_right(&mut b).unwrap();
    assert!(a.bind_right(&mut c).is_err());
    a.bind_down(&mut b).unwrap();
    assert!(a.bind_down(&mut c).is_err());
}

#[test]
fn write_to_nil_discards() {
    let mut a = Core::new(Vec::new());
    a.write(5, &Dest::Nil);
    a.write(6, &Dest::Acc);
    assert_eq!(a.get_acc(), 6);
    assert_eq!(a.get_bak(), 0);
}
