//! A ready-made 3-by-4 grid of cores, wired row by row and column by
//! column, each loaded with its own program. One instance of a topology;
//! the binding operations it uses are the general ones of
//! [`crate::machine::Core`].

use crate::machine::{Core, CoreModel, Instr};
use vstd::prelude::*;

verus! {

/// What every core of the fresh grid looks like: registers and program
/// counter zero, its program the one given for its slot, and exactly the
/// ports that have a neighbour in a 3-row, 4-column grid connected. The
/// slot of row `r` and column `c` is `4 * r + c`.
pub open spec fn grid_core_ok(m: CoreModel, prog: Seq<Instr>, i: int) -> bool {
    &&& m.acc == 0
    &&& m.bak == 0
    &&& m.pc == 0
    &&& m.prog == prog
    &&& m.up == (i / 4 >= 1)
    &&& m.down == (i / 4 <= 1)
    &&& m.left == (i % 4 >= 1)
    &&& m.right == (i % 4 <= 2)
}

/// Build the grid: twelve fresh cores, the rows bound left to right,
/// the columns bound top to bottom, and the program of slot `i` loaded
/// into core `i`.
pub fn sandbox(instrs: Vec<Vec<Instr>>) -> (r: [Core; 12])
    requires
        instrs@.len() == 12,
    ensures
        forall|i: int| 0 <= i < 12 ==> grid_core_ok((#[trigger] r@[i])@, instrs@[i]@, i),
{
    let mut progs = instrs;
    let mut c23 = Core::new(pop_prog(&mut progs));
    let mut c22 = Core::new(pop_prog(&mut progs));
    let mut c21 = Core::new(pop_prog(&mut progs));
    let mut c20 = Core::new(pop_prog(&mut progs));
    let mut c13 = Core::new(pop_prog(&mut progs));
    let mut c12 = Core::new(pop_prog(&mut progs));
    let mut c11 = Core::new(pop_prog(&mut progs));
    let mut c10 = Core::new(pop_prog(&mut progs));
    let mut c03 = Core::new(pop_prog(&mut progs));
    let mut c02 = Core::new(pop_prog(&mut progs));
    let mut c01 = Core::new(pop_prog(&mut progs));
    let mut c00 = Core::new(pop_prog(&mut progs));

    let _ = c00.bind_right(&mut c01);
    let _ = c01.bind_right(&mut c02);
    let _ = c02.bind_right(&mut c03);

    let _ = c10.bind_right(&mut c11);
    let _ = c11.bind_right(&mut c12);
    let _ = c12.bind_right(&mut c13);

    let _ = c20.bind_right(&mut c21);
    let _ = c21.bind_right(&mut c22);
    let _ = c22.bind_right(&mut c23);

    let _ = c00.bind_down(&mut c10);
    let _ = c01.bind_down(&mut c11);
    let _ = c02.bind_down(&mut c12);
    let _ = c03.bind_down(&mut c13);

    let _ = c10.bind_down(&mut c20);
    let _ = c11.bind_down(&mut c21);
    let _ = c12.bind_down(&mut c22);
    let _ = c13.bind_down(&mut c23);

    let grid = [c00, c01, c02, c03, c10, c11, c12, c13, c20, c21, c22, c23];
    grid
}

/// Take the last program off the stack of programs.
fn pop_prog(progs: &mut Vec<Vec<Instr>>) -> (r: Vec<Instr>)
    requires
        old(progs)@.len() > 0,
    ensures
        r == old(progs)@.last(),
        final(progs)@ == old(progs)@.drop_last(),
{
    match progs.pop() {
        Option::Some(p) => p,
        Option::None => vstd::pervasive::unreached(),
    }
}

} // verus!
