use fabric::machine::{Core, Dest, Instr, Src};
use fabric::parse::parse_subroutine;
use fabric::sandbox::sandbox;

#[test]
fn three_core_pipeline_doubles_and_keeps_order() {
    // src -> c1 (MOV UP DOWN) -> c2 (MOV UP ACC; ADD ACC; MOV ACC DOWN)
    //     -> sink (MOV UP ACC): every value fed in comes out doubled,
    // in order.
    let mut src = Core::new(Vec::new());
    let mut c1 = Core::new(parse_subroutine("MOV UP DOWN").unwrap());
    let mut c2 = Core::new(
        parse_subroutine(
            "MOV UP ACC
ADD ACC
MOV ACC DOWN",
        )
        .unwrap(),
    );
    let mut sink = Core::new(parse_subroutine("MOV UP ACC").unwrap());

    src.bind_down(&mut c1).unwrap();
    c1.bind_down(&mut c2).unwrap();
    c2.bind_down(&mut sink).unwrap();

    for i in 0..8 {
        src.write(i, &Dest::Down);
        c1.cycle();
        c2.cycle();
        c2.cycle();
        c2.cycle();
        sink.cycle();
        assert_eq!(sink.get_acc(), 2 * i);
    }
}

#[test]
fn sandbox_grid_is_wired_and_loaded() {
    let mut programs: Vec<Vec<Instr>> = Vec::new();
    programs.push(vec![Instr::Mov(Src::Literal(7), Dest::Right)]);
    programs.push(vec![Instr::Mov(Src::Left, Dest::Down)]);
    for _ in 2..12 {
        programs.push(Vec::new());
    }
    // Slot 5 sits under slot 1 in the 3-by-4 grid.
    programs[5] = vec![Instr::Mov(Src::Up, Dest::Acc)];

    let mut grid = sandbox(programs);

    assert_eq!(grid[0].instrs, vec![Instr::Mov(Src::Literal(7), Dest::Right)]);
    for core in grid.iter() {
        assert_eq!(core.get_acc(), 0);
        assert_eq!(core.get_bak(), 0);
        assert_eq!(core.p_ctr, 0);
    }

    // 7 flows from slot 0 rightward to slot 1, then down to slot 5.
    grid[0].cycle();
    grid[1].cycle();
    grid[5].cycle();
    assert_eq!(grid[5].get_acc(), 7);
}
