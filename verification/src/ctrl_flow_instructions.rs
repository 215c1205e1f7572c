//! The control-flow instruction objects: each one executes against a
//! core and hands back a reference to the instruction that runs next, so
//! a program can be laid out as a graph of instruction nodes.

use crate::machine::{Core, CoreModel};
use crate::mut_instructions::{Mut, MutInstr};
use crate::num::{euclid_rem_i32, wrap_index};
use crate::resource::{src_gives, DestType, SrcType};
use vstd::pervasive::unreached;
use vstd::prelude::*;

verus! {

/// An executable control-flow instruction: it may mutate the core, and
/// it selects the instruction to execute next.
pub trait CtrlInstr<'i> {
    /// When executing cannot fail: a terminator node is never executed,
    /// and a relative jump needs a non-empty instruction table.
    spec fn exec_ok(&self) -> bool;

    /// How the core's model changes and which node comes back.
    spec fn rel(&self, pre: CoreModel, post: CoreModel, r: &'i Ctrl<'i>) -> bool;

    /// Execute against `core` and hand back the next instruction.
    fn execute(&self, core: &mut Core) -> (r: &'i Ctrl<'i>)
        requires
            self.exec_ok(),
        ensures
            self.rel(old(core)@, final(core)@, r),
    ;
}

/// Which register test a conditional jump applies to `acc`.
enum CmpStrategy {
    Ez,
    Nz,
    Gz,
    Lz,
}

/// A conditional jump node: executes its `branch` successor when the
/// test on `acc` holds, its `next` successor otherwise.
pub struct JCmp<'i> {
    cmp: CmpStrategy,
    next: &'i Ctrl<'i>,
    branch: &'i Ctrl<'i>,
}

impl<'i> JCmp<'i> {
    /// The successor when the test fails.
    pub closed spec fn spec_next(&self) -> &'i Ctrl<'i> {
        self.next
    }

    /// The successor when the test holds.
    pub closed spec fn spec_branch(&self) -> &'i Ctrl<'i> {
        self.branch
    }

    /// Whether this node's test holds of the given `acc` value.
    pub closed spec fn spec_branches_on(&self, acc: int) -> bool {
        match self.cmp {
            CmpStrategy::Ez => acc == 0,
            CmpStrategy::Nz => acc != 0,
            CmpStrategy::Gz => acc > 0,
            CmpStrategy::Lz => acc < 0,
        }
    }

    /// A jump-if-zero node.
    pub fn new_ez(next: &'i Ctrl<'i>, branch: &'i Ctrl<'i>) -> (r: Self)
        ensures
            r.spec_next() == next,
            r.spec_branch() == branch,
            forall|a: int| r.spec_branches_on(a) <==> a == 0,
    {
        Self { cmp: CmpStrategy::Ez, next, branch }
    }

    /// A jump-if-nonzero node.
    pub fn new_nz(next: &'i Ctrl<'i>, branch: &'i Ctrl<'i>) -> (r: Self)
        ensures
            r.spec_next() == next,
            r.spec_branch() == branch,
            forall|a: int| r.spec_branches_on(a) <==> a != 0,
    {
        Self { cmp: CmpStrategy::Nz, next, branch }
    }

    /// A jump-if-positive node.
    pub fn new_gz(next: &'i Ctrl<'i>, branch: &'i Ctrl<'i>) -> (r: Self)
        ensures
            r.spec_next() == next,
            r.spec_branch() == branch,
            forall|a: int| r.spec_branches_on(a) <==> a > 0,
    {
        Self { cmp: CmpStrategy::Gz, next, branch }
    }

    /// A jump-if-negative node.
    pub fn new_lz(next: &'i Ctrl<'i>, branch: &'i Ctrl<'i>) -> (r: Self)
        ensures
            r.spec_next() == next,
            r.spec_branch() == branch,
            forall|a: int| r.spec_branches_on(a) <==> a < 0,
    {
        Self { cmp: CmpStrategy::Lz, next, branch }
    }

    /// Whether executing now would take the branch successor.
    fn will_branch(&self, core: &mut Core) -> (r: bool)
        ensures
            r == self.spec_branches_on(old(core)@.acc),
            *final(core) == *old(core),
    {
        match self.cmp {
            CmpStrategy::Ez => core.acc == 0,
            CmpStrategy::Nz => core.acc != 0,
            CmpStrategy::Gz => core.acc > 0,
            CmpStrategy::Lz => core.acc < 0,
        }
    }
}

impl<'i> CtrlInstr<'i> for JCmp<'i> {
    open spec fn exec_ok(&self) -> bool {
        true
    }

    open spec fn rel(&self, pre: CoreModel, post: CoreModel, r: &'i Ctrl<'i>) -> bool {
        post == pre && r == if self.spec_branches_on(pre.acc) {
            self.spec_branch()
        } else {
            self.spec_next()
        }
    }

    fn execute(&self, core: &mut Core) -> (r: &'i Ctrl<'i>) {
        if self.will_branch(core) {
            self.branch
        } else {
            self.next
        }
    }
}

/// An unconditional jump node.
pub struct Jmp<'i> {
    next: &'i Ctrl<'i>,
}

impl<'i> Jmp<'i> {
    /// The successor this node always selects.
    pub closed spec fn spec_next(&self) -> &'i Ctrl<'i> {
        self.next
    }

    pub fn new(next: &'i Ctrl<'i>) -> (r: Self)
        ensures
            r.spec_next() == next,
    {
        Self { next }
    }
}

impl<'i> CtrlInstr<'i> for Jmp<'i> {
    open spec fn exec_ok(&self) -> bool {
        true
    }

    open spec fn rel(&self, pre: CoreModel, post: CoreModel, r: &'i Ctrl<'i>) -> bool {
        post == pre && r == self.spec_next()
    }

    fn execute(&self, core: &mut Core) -> (r: &'i Ctrl<'i>) {
        self.next
    }
}

/// A relative jump node: selects the node `read(src)` places onward from
/// its own position in the instruction table, with cyclic wraparound.
pub struct Jro<'i> {
    src: SrcType,
    index: usize,
    instrs: &'i [&'i Ctrl<'i>],
}

impl<'i> Jro<'i> {
    /// The offset operand.
    pub closed spec fn spec_src(&self) -> &SrcType {
        &self.src
    }

    /// This node's own position in the table.
    pub closed spec fn spec_index(&self) -> int {
        self.index as int
    }

    /// The instruction table the jump lands in.
    pub closed spec fn spec_instrs(&self) -> Seq<&'i Ctrl<'i>> {
        self.instrs@
    }

    pub fn new(src: SrcType, index: usize, instrs: &'i [&'i Ctrl<'i>]) -> (r: Self)
        ensures
            r.spec_src() == src,
            r.spec_index() == index as int,
            r.spec_instrs() == instrs@,
    {
        Self { src, index, instrs }
    }
}

impl<'i> CtrlInstr<'i> for Jro<'i> {
    open spec fn exec_ok(&self) -> bool {
        0 < self.spec_instrs().len() <= 0x7fff && 0 <= self.spec_index()
            < self.spec_instrs().len()
    }

    open spec fn rel(&self, pre: CoreModel, post: CoreModel, r: &'i Ctrl<'i>) -> bool {
        match self.spec_src() {
            SrcType::Resource(DestType::Nil) => post == pre && r == self.spec_instrs()[
                self.spec_index()
            ],
            _ => exists|v: i16|
                src_gives(self.spec_src(), pre, v) && post == pre && r == self.spec_instrs()[
                    wrap_index(self.spec_index() + v, self.spec_instrs().len() as int)
                ],
        }
    }

    fn execute(&self, core: &mut Core) -> (r: &'i Ctrl<'i>) {
        match &self.src {
            SrcType::Resource(DestType::Nil) => {
                return self.instrs[self.index];
            }
            _ => {}
        }
        let ghost pre = core@;
        let offset = self.src.read(core);
        let n = self.instrs.len();
        let t: i32 = self.index as i32 + offset as i32;
        let w = euclid_rem_i32(t, n as i32);
        let out = self.instrs[w as usize];
        proof {
            assert(src_gives(self.spec_src(), pre, offset) && core@ == pre && out
                == self.spec_instrs()[wrap_index(self.spec_index() + offset, n as int)]);
        }
        out
    }
}

/// A node that runs one register-mutating instruction, then selects its
/// single successor.
pub struct MutWrap<'a> {
    mut_instr: Mut,
    next: &'a Ctrl<'a>,
}

impl<'i> MutWrap<'i> {
    /// The wrapped register-mutating instruction.
    pub closed spec fn spec_instr(&self) -> &Mut {
        &self.mut_instr
    }

    /// The successor this node always selects.
    pub closed spec fn spec_next(&self) -> &'i Ctrl<'i> {
        self.next
    }

    pub fn new(instr: Mut, next: &'i Ctrl<'i>) -> (r: Self)
        ensures
            r.spec_instr() == instr,
            r.spec_next() == next,
    {
        Self { mut_instr: instr, next }
    }
}

impl<'i> CtrlInstr<'i> for MutWrap<'i> {
    open spec fn exec_ok(&self) -> bool {
        true
    }

    open spec fn rel(&self, pre: CoreModel, post: CoreModel, r: &'i Ctrl<'i>) -> bool {
        self.spec_instr().rel(pre, post) && r == self.spec_next()
    }

    fn execute(&self, core: &mut Core) -> (r: &'i Ctrl<'i>) {
        self.mut_instr.execute(core);
        self.next
    }
}

/// A control-flow instruction node: a terminator (which must never be
/// executed), or one of the four executable node kinds.
pub enum Ctrl<'i> {
    Halt,
    MutWrap(MutWrap<'i>),
    JCmp(JCmp<'i>),
    Jmp(Jmp<'i>),
    Jro(Jro<'i>),
}

impl<'i> Ctrl<'i> {
    /// A node that runs `instr`, then selects `next`.
    pub fn new_mut_wrap(instr: Mut, next: &'i Ctrl<'i>) -> (r: Self)
        ensures
            r matches Ctrl::MutWrap(i) && i.spec_instr() == instr && i.spec_next() == next,
    {
        Ctrl::MutWrap(MutWrap::new(instr, next))
    }

    /// A jump-if-zero node.
    pub fn new_jez(next: &'i Ctrl<'i>, branch: &'i Ctrl<'i>) -> (r: Self)
        ensures
            r matches Ctrl::JCmp(i) && i.spec_next() == next && i.spec_branch() == branch
                && forall|a: int| i.spec_branches_on(a) <==> a == 0,
    {
        Ctrl::JCmp(JCmp::new_ez(next, branch))
    }

    /// A jump-if-nonzero node.
    pub fn new_nz(next: &'i Ctrl<'i>, branch: &'i Ctrl<'i>) -> (r: Self)
        ensures
            r matches Ctrl::JCmp(i) && i.spec_next() == next && i.spec_branch() == branch
                && forall|a: int| i.spec_branches_on(a) <==> a != 0,
    {
        Ctrl::JCmp(JCmp::new_nz(next, branch))
    }

    /// A jump-if-positive node.
    pub fn new_gz(next: &'i Ctrl<'i>, branch: &'i Ctrl<'i>) -> (r: Self)
        ensures
            r matches Ctrl::JCmp(i) && i.spec_next() == next && i.spec_branch() == branch
                && forall|a: int| i.spec_branches_on(a) <==> a > 0,
    {
        Ctrl::JCmp(JCmp::new_gz(next, branch))
    }

    /// A jump-if-negative node.
    pub fn new_lz(next: &'i Ctrl<'i>, branch: &'i Ctrl<'i>) -> (r: Self)
        ensures
            r matches Ctrl::JCmp(i) && i.spec_next() == next && i.spec_branch() == branch
                && forall|a: int| i.spec_branches_on(a) <==> a < 0,
    {
        Ctrl::JCmp(JCmp::new_lz(next, branch))
    }

    /// An unconditional jump node.
    pub fn new_jmp(next: &'i Ctrl<'i>) -> (r: Self)
        ensures
            r matches Ctrl::Jmp(i) && i.spec_next() == next,
    {
        Ctrl::Jmp(Jmp::new(next))
    }

    /// A relative jump node.
    pub fn new_jro(src: SrcType, index: usize, instrs: &'i [&'i Ctrl<'i>]) -> (r: Self)
        ensures
            r matches Ctrl::Jro(i) && i.spec_src() == src && i.spec_index() == index as int
                && i.spec_instrs() == instrs@,
    {
        Ctrl::Jro(Jro::new(src, index, instrs))
    }
}

impl<'i> CtrlInstr<'i> for Ctrl<'i> {
    open spec fn exec_ok(&self) -> bool {
        match self {
            Ctrl::Halt => false,
            Ctrl::MutWrap(instr) => instr.exec_ok(),
            Ctrl::JCmp(instr) => instr.exec_ok(),
            Ctrl::Jmp(instr) => instr.exec_ok(),
            Ctrl::Jro(instr) => instr.exec_ok(),
        }
    }

    open spec fn rel(&self, pre: CoreModel, post: CoreModel, r: &'i Ctrl<'i>) -> bool {
        match self {
            Ctrl::Halt => false,
            Ctrl::MutWrap(instr) => instr.rel(pre, post, r),
            Ctrl::JCmp(instr) => instr.rel(pre, post, r),
            Ctrl::Jmp(instr) => instr.rel(pre, post, r),
            Ctrl::Jro(instr) => instr.rel(pre, post, r),
        }
    }

    fn execute(&self, core: &mut Core) -> (r: &'i Ctrl<'i>) {
        match self {
            Ctrl::MutWrap(instr) => instr.execute(core),
            Ctrl::JCmp(instr) => instr.execute(core),
            Ctrl::Jmp(instr) => instr.execute(core),
            Ctrl::Jro(instr) => instr.execute(core),
            Ctrl::Halt => unreached(),
        }
    }
}

} // verus!
