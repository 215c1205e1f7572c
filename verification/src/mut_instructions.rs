//! The register-mutating instruction objects: each one executes against
//! a core and promises, through [`MutInstr::rel`], exactly how the core's
//! model changes.

use crate::machine::{Core, CoreModel};
use crate::num::{wrap16, wrap_add16, wrap_neg16, wrap_sub16};
use crate::resource::{dest_effect, src_gives, DestType, SrcType};
use vstd::prelude::*;

verus! {

/// An executable instruction associated with a core. While it returns no
/// value, it will mutate the underlying core as its `rel` says.
pub trait MutInstr {
    /// How the core's model after execution relates to the one before.
    spec fn rel(&self, pre: CoreModel, post: CoreModel) -> bool;

    /// Executes the given instruction.
    fn execute(&self, core: &mut Core)
        ensures
            self.rel(old(core)@, final(core)@),
    ;
}

/// An arithmetic instruction: add a source to `acc`, or subtract one
/// from it.
pub struct Arith {
    src: SrcType,
    is_addition: bool,
}

impl Arith {
    /// The source operand.
    pub closed spec fn spec_src(&self) -> &SrcType {
        &self.src
    }

    /// Whether this is the adding, rather than subtracting, instruction.
    pub closed spec fn spec_is_add(&self) -> bool {
        self.is_addition
    }

    /// Creates an add instruction.
    pub fn new_add(src: SrcType) -> (r: Self)
        ensures
            r.spec_src() == src,
            r.spec_is_add(),
    {
        Self { src, is_addition: true }
    }

    /// Creates a subtraction instruction.
    pub fn new_sub(src: SrcType) -> (r: Self)
        ensures
            r.spec_src() == src,
            !r.spec_is_add(),
    {
        Self { src, is_addition: false }
    }
}

impl MutInstr for Arith {
    open spec fn rel(&self, pre: CoreModel, post: CoreModel) -> bool {
        exists|v: i16|
            src_gives(self.spec_src(), pre, v) && post == (CoreModel {
                acc: wrap16(
                    if self.spec_is_add() {
                        pre.acc + v
                    } else {
                        pre.acc - v
                    },
                ),
                ..pre
            })
    }

    fn execute(&self, core: &mut Core) {
        let ghost pre = core@;
        let val = self.src.read(core);
        let a = if self.is_addition {
            wrap_add16(core.acc, val)
        } else {
            wrap_sub16(core.acc, val)
        };
        core.acc = a;
        proof {
            assert(src_gives(self.spec_src(), pre, val) && core@ =~= (CoreModel {
                acc: wrap16(
                    if self.spec_is_add() {
                        pre.acc + val
                    } else {
                        pre.acc - val
                    },
                ),
                ..pre
            }));
        }
    }
}

/// An instruction which moves a given source type value to a given dest
/// type value.
pub struct Mov {
    src: SrcType,
    dest: DestType,
}

impl Mov {
    /// The source operand.
    pub closed spec fn spec_src(&self) -> &SrcType {
        &self.src
    }

    /// The destination operand.
    pub closed spec fn spec_dest(&self) -> &DestType {
        &self.dest
    }

    /// Create a new move instruction.
    pub fn new(src: SrcType, dest: DestType) -> (r: Self)
        ensures
            r.spec_src() == src,
            r.spec_dest() == dest,
    {
        Self { src, dest }
    }
}

impl MutInstr for Mov {
    open spec fn rel(&self, pre: CoreModel, post: CoreModel) -> bool {
        match self.spec_src() {
            SrcType::Resource(DestType::Nil) => post == pre,
            _ => exists|v: i16|
                src_gives(self.spec_src(), pre, v) && dest_effect(self.spec_dest(), pre, v, post),
        }
    }

    /// Copy the information available at the source to the storage
    /// location at the destination; a `Nil` source moves nothing at all.
    fn execute(&self, core: &mut Core) {
        let ghost pre = core@;
        match &self.src {
            SrcType::Resource(DestType::Nil) => {
                return ;
            }
            _ => {}
        }
        let val = self.src.read(core);
        self.dest.write(val, core);
        proof {
            assert(src_gives(self.spec_src(), pre, val) && dest_effect(
                self.spec_dest(),
                pre,
                val,
                core@,
            ));
        }
    }
}

/// A negation instruction: flips the sign of the `acc` register.
pub struct Neg {}

impl Neg {
    /// Create a new negation instruction.
    pub fn new() -> Self {
        Self {  }
    }
}

impl MutInstr for Neg {
    open spec fn rel(&self, pre: CoreModel, post: CoreModel) -> bool {
        post == (CoreModel { acc: wrap16(-pre.acc), ..pre })
    }

    /// Flip the sign of `acc`, wrapping on the minimum value.
    fn execute(&self, core: &mut Core) {
        let ghost pre = core@;
        core.acc = wrap_neg16(core.acc);
        proof {
            assert(core@ =~= (CoreModel { acc: wrap16(-pre.acc), ..pre }));
        }
    }
}

/// A no-op instruction. Good for synchronizing companion cores.
pub struct Nop;

impl MutInstr for Nop {
    open spec fn rel(&self, pre: CoreModel, post: CoreModel) -> bool {
        post == pre
    }

    fn execute(&self, core: &mut Core) {
    }
}

/// A save instruction: copies `acc` into `bak`.
pub struct Sav;

impl Sav {
    /// Create a new save instruction.
    pub fn new() -> Self {
        Self
    }
}

impl MutInstr for Sav {
    open spec fn rel(&self, pre: CoreModel, post: CoreModel) -> bool {
        post == (CoreModel { bak: pre.acc, ..pre })
    }

    /// Write `acc` into `bak`.
    fn execute(&self, core: &mut Core) {
        let ghost pre = core@;
        core.bak = core.acc;
        proof {
            assert(core@ =~= (CoreModel { bak: pre.acc, ..pre }));
        }
    }
}

/// A swap instruction: exchanges `acc` and `bak`.
pub struct Swp;

impl Swp {
    /// Create a new swap instruction.
    pub fn new() -> Self {
        Self {  }
    }
}

impl MutInstr for Swp {
    open spec fn rel(&self, pre: CoreModel, post: CoreModel) -> bool {
        post == (CoreModel { acc: pre.bak, bak: pre.acc, ..pre })
    }

    /// Exchange `acc` and `bak` in core memory.
    fn execute(&self, core: &mut Core) {
        let ghost pre = core@;
        let a = core.acc;
        core.acc = core.bak;
        core.bak = a;
        proof {
            assert(core@ =~= (CoreModel { acc: pre.bak, bak: pre.acc, ..pre }));
        }
    }
}

/// An enum struct of all available register-mutating instructions.
pub enum Mut {
    /// Arithmetic instructions.
    Arith(Arith),
    /// Data-move instructions.
    Mov(Mov),
    /// Negation instructions.
    Neg(Neg),
    /// No-op instructions.
    Nop(Nop),
    /// Save instructions.
    Sav(Sav),
    /// Swap instructions.
    Swp(Swp),
}

impl Mut {
    /// Creates a new add-to-acc instruction.
    pub fn new_add(src: SrcType) -> (r: Self)
        ensures
            r matches Mut::Arith(i) && i.spec_src() == src && i.spec_is_add(),
    {
        Mut::Arith(Arith::new_add(src))
    }

    /// Creates a new subtract-from-acc instruction.
    pub fn new_sub(src: SrcType) -> (r: Self)
        ensures
            r matches Mut::Arith(i) && i.spec_src() == src && !i.spec_is_add(),
    {
        Mut::Arith(Arith::new_sub(src))
    }

    /// Creates a new data move instruction.
    pub fn new_mov(src: SrcType, dest: DestType) -> (r: Self)
        ensures
            r matches Mut::Mov(i) && i.spec_src() == src && i.spec_dest() == dest,
    {
        Mut::Mov(Mov::new(src, dest))
    }

    /// Creates a new sign-flip-acc instruction.
    pub fn new_neg() -> (r: Self)
        ensures
            r is Neg,
    {
        Mut::Neg(Neg::new())
    }

    /// Creates a new overwrite-bak-with-acc instruction.
    pub fn new_sav() -> (r: Self)
        ensures
            r is Sav,
    {
        Mut::Sav(Sav::new())
    }

    /// Creates a new swap-acc-with-bak instruction.
    pub fn new_swp() -> (r: Self)
        ensures
            r is Swp,
    {
        Mut::Swp(Swp::new())
    }
}

impl MutInstr for Mut {
    open spec fn rel(&self, pre: CoreModel, post: CoreModel) -> bool {
        match self {
            Mut::Arith(instr) => instr.rel(pre, post),
            Mut::Mov(instr) => instr.rel(pre, post),
            Mut::Neg(instr) => instr.rel(pre, post),
            Mut::Nop(instr) => instr.rel(pre, post),
            Mut::Sav(instr) => instr.rel(pre, post),
            Mut::Swp(instr) => instr.rel(pre, post),
        }
    }

    /// Executes the given instruction.
    fn execute(&self, core: &mut Core) {
        match self {
            Mut::Arith(instr) => instr.execute(core),
            Mut::Mov(instr) => instr.execute(core),
            Mut::Neg(instr) => instr.execute(core),
            Mut::Nop(instr) => instr.execute(core),
            Mut::Sav(instr) => instr.execute(core),
            Mut::Swp(instr) => instr.execute(core),
        }
    }
}

} // verus!
