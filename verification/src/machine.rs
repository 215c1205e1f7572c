//! The register machine: a `Core` owns two registers, four directional
//! ports, a program counter and an immutable (until reloaded) program,
//! and `cycle` executes exactly one instruction.
//!
//! The mathematical model of a core is [`CoreModel`]; the one-instruction
//! transition is the spec function [`step`]. A port read is the one
//! non-deterministic ingredient — whatever value the rendezvous yields is
//! the `port` argument of `step` — so `cycle` promises that the new state
//! is `step` of the old one for *some* port value, and for exactly the
//! deterministic `step` whenever the instruction reads no port.

use crate::num::{euclid_rem_i32, wrap16, wrap_add16, wrap_index, wrap_neg16, wrap_sub16};
use crate::port::{new_channel, Port};
use vstd::prelude::*;

verus! {

/// A source operand: a 16-bit literal, the `acc` register, or one of the
/// four directional ports.
#[derive(Clone, Copy, Debug, PartialEq, Eq, Structural)]
pub enum Src {
    Literal(i16),
    Acc,
    Up,
    Down,
    Left,
    Right,
}

/// A destination operand: the `acc` register, one of the four directional
/// ports, or `Nil`, which discards the value.
#[derive(Clone, Copy, Debug, PartialEq, Eq, Structural)]
pub enum Dest {
    Acc,
    Up,
    Down,
    Left,
    Right,
    Nil,
}

/// One machine instruction. Jump targets are absolute instruction
/// indices, as the assembler resolves them.
#[derive(Clone, Copy, Debug, PartialEq, Eq, Structural)]
pub enum Instr {
    Jez(usize),
    Jnz(usize),
    Jgz(usize),
    Jlz(usize),
    Jro(Src),
    Jmp(usize),
    Mov(Src, Dest),
    Add(Src),
    Sub(Src),
    Neg,
    Swp,
    Sav,
    Nop,
}

/// The mathematical state of a core: register contents, program counter,
/// program, and the connection state of each port.
#[verifier::ext_equal]
pub ghost struct CoreModel {
    pub acc: int,
    pub bak: int,
    pub pc: int,
    pub prog: Seq<Instr>,
    pub up: bool,
    pub down: bool,
    pub left: bool,
    pub right: bool,
}

/// Whether a source operand names a port, the one kind of operand whose
/// value the model cannot predict.
pub open spec fn src_is_port(s: Src) -> bool {
    match s {
        Src::Literal(_) => false,
        Src::Acc => false,
        _ => true,
    }
}

/// Whether the instruction performs a port read when executed.
pub open spec fn instr_reads_port(i: Instr) -> bool {
    match i {
        Instr::Mov(s, _) => src_is_port(s),
        Instr::Add(s) => src_is_port(s),
        Instr::Sub(s) => src_is_port(s),
        Instr::Jro(s) => src_is_port(s),
        _ => false,
    }
}

/// The value a source operand denotes, given the value `port` that a port
/// read would yield.
pub open spec fn spec_src(m: CoreModel, s: Src, port: int) -> int {
    match s {
        Src::Literal(v) => v as int,
        Src::Acc => m.acc,
        _ => port,
    }
}

/// The model after the program counter moves to `target`, normalized into
/// `[0, len)` by Euclidean wraparound.
pub open spec fn jump_to(m: CoreModel, target: int) -> CoreModel {
    CoreModel { pc: wrap_index(target, m.prog.len() as int), ..m }
}

/// Execute one instruction of `m`, reading `port` wherever a source
/// operand names a port. A `Mov` whose destination is a port sends the
/// source value to the neighbour; the registers it leaves unchanged are
/// all the model records of it.
pub open spec fn step(m: CoreModel, port: int) -> CoreModel {
    match m.prog[m.pc] {
        Instr::Nop => jump_to(m, m.pc + 1),
        Instr::Mov(s, d) => {
            let v = spec_src(m, s, port);
            match d {
                Dest::Acc => jump_to(CoreModel { acc: v, ..m }, m.pc + 1),
                _ => jump_to(m, m.pc + 1),
            }
        }
        Instr::Swp => jump_to(CoreModel { acc: m.bak, bak: m.acc, ..m }, m.pc + 1),
        Instr::Sav => jump_to(CoreModel { bak: m.acc, ..m }, m.pc + 1),
        Instr::Add(s) => jump_to(
            CoreModel { acc: wrap16(m.acc + spec_src(m, s, port)), ..m },
            m.pc + 1,
        ),
        Instr::Sub(s) => jump_to(
            CoreModel { acc: wrap16(m.acc - spec_src(m, s, port)), ..m },
            m.pc + 1,
        ),
        Instr::Neg => jump_to(CoreModel { acc: wrap16(-m.acc), ..m }, m.pc + 1),
        Instr::Jez(t) => if m.acc == 0 {
            jump_to(m, t as int)
        } else {
            jump_to(m, m.pc + 1)
        },
        Instr::Jnz(t) => if m.acc != 0 {
            jump_to(m, t as int)
        } else {
            jump_to(m, m.pc + 1)
        },
        Instr::Jgz(t) => if m.acc > 0 {
            jump_to(m, t as int)
        } else {
            jump_to(m, m.pc + 1)
        },
        Instr::Jlz(t) => if m.acc < 0 {
            jump_to(m, t as int)
        } else {
            jump_to(m, m.pc + 1)
        },
        Instr::Jmp(t) => jump_to(m, t as int),
        Instr::Jro(s) => jump_to(m, m.pc + spec_src(m, s, port)),
    }
}

/// A jump target small enough for the machine's 16-bit clock arithmetic.
pub open spec fn instr_target_ok(i: Instr) -> bool {
    match i {
        Instr::Jez(t) => t <= 0x7fff,
        Instr::Jnz(t) => t <= 0x7fff,
        Instr::Jgz(t) => t <= 0x7fff,
        Instr::Jlz(t) => t <= 0x7fff,
        Instr::Jmp(t) => t <= 0x7fff,
        _ => true,
    }
}

/// A program the machine can run: short enough for the 16-bit clock
/// arithmetic, with every absolute jump target equally small. (The
/// assembler only ever produces targets below the program length.)
pub open spec fn prog_ok(p: Seq<Instr>) -> bool {
    &&& p.len() <= 0x7fff
    &&& forall|k: int| 0 <= k < p.len() ==> instr_target_ok(#[trigger] p[k])
}

/// An independent register-machine instance: two registers, four ports,
/// a program counter and a program.
pub struct Core {
    pub acc: i16,
    pub bak: i16,
    pub left: Port,
    pub right: Port,
    pub up: Port,
    pub down: Port,
    pub p_ctr: usize,
    pub instrs: Vec<Instr>,
}

impl View for Core {
    type V = CoreModel;

    open spec fn view(&self) -> CoreModel {
        CoreModel {
            acc: self.acc as int,
            bak: self.bak as int,
            pc: self.p_ctr as int,
            prog: self.instrs@,
            up: self.up.is_conn(),
            down: self.down.is_conn(),
            left: self.left.is_conn(),
            right: self.right.is_conn(),
        }
    }
}

/// Why a pair of ports could not be bound: one of the two is already
/// connected to a neighbour, and a binding is permanent.
#[derive(Clone, Copy, Debug, PartialEq, Eq, Structural)]
pub enum BindError {
    AlreadyConnected,
}

impl Core {
    /// A fresh core: registers zero, program counter zero, every port
    /// disconnected.
    pub fn new(instrs: Vec<Instr>) -> (r: Self)
        ensures
            r@ == (CoreModel {
                acc: 0,
                bak: 0,
                pc: 0,
                prog: instrs@,
                up: false,
                down: false,
                left: false,
                right: false,
            }),
    {
        Self {
            acc: 0,
            bak: 0,
            left: Port::Dsc,
            right: Port::Dsc,
            up: Port::Dsc,
            down: Port::Dsc,
            p_ctr: 0,
            instrs,
        }
    }

    pub fn get_acc(&self) -> (r: i16)
        ensures
            r == self.acc,
    {
        self.acc
    }

    pub fn get_bak(&self) -> (r: i16)
        ensures
            r == self.bak,
    {
        self.bak
    }

    /// Whether `cycle` may be called right now: the program is within
    /// the machine's limits and the program counter is in range. A
    /// caller that cannot prove `cycle`'s precondition — a driver loop
    /// around a freshly loaded core, say — tests it with this instead.
    pub fn runnable(&self) -> (r: bool)
        ensures
            r == (prog_ok(self.instrs@) && self.p_ctr < self.instrs@.len()),
    {
        let n = self.instrs.len();
        if n == 0 || n > 0x7fff || self.p_ctr >= n {
            return false;
        }
        let mut k: usize = 0;
        while k < n
            invariant
                k <= n,
                n == self.instrs@.len(),
                forall|j: int| 0 <= j < k ==> instr_target_ok(#[trigger] self.instrs@[j]),
            decreases n - k,
        {
            let target_small = match self.instrs[k] {
                Instr::Jez(t) => t <= 0x7fff,
                Instr::Jnz(t) => t <= 0x7fff,
                Instr::Jgz(t) => t <= 0x7fff,
                Instr::Jlz(t) => t <= 0x7fff,
                Instr::Jmp(t) => t <= 0x7fff,
                _ => true,
            };
            if !target_small {
                assert(!instr_target_ok(self.instrs@[k as int]));
                return false;
            }
            k += 1;
        }
        true
    }

    /// Replace the program. The program counter is deliberately left
    /// alone; a caller that reloads a running-from-scratch core does so
    /// before its execution loop starts, while the counter is still zero.
    pub fn load(&mut self, instrs: Vec<Instr>)
        ensures
            final(self)@ == (CoreModel { prog: instrs@, ..old(self)@ }),
    {
        self.instrs = instrs;
    }

    /// Move the program counter to `target`, normalized into `[0, len)`.
    fn set_pc(&mut self, target: usize)
        requires
            0 < old(self).instrs@.len() <= 0x7fff,
            target <= 0xffff,
        ensures
            final(self)@ == jump_to(old(self)@, target as int),
    {
        let n = self.instrs.len();
        let w = euclid_rem_i32(target as i32, n as i32);
        self.p_ctr = w as usize;
    }

    /// Move the program counter by the signed offset `off`, with cyclic
    /// wraparound.
    fn set_pc_rel(&mut self, off: i16)
        requires
            0 < old(self).instrs@.len() <= 0x7fff,
            old(self).p_ctr < old(self).instrs@.len(),
        ensures
            final(self)@ == jump_to(old(self)@, old(self).p_ctr + off),
    {
        let n = self.instrs.len();
        let t: i32 = self.p_ctr as i32 + off as i32;
        let w = euclid_rem_i32(t, n as i32);
        self.p_ctr = w as usize;
    }

    /// Evaluate a source operand, reading from the named port if one is
    /// named: the result is exactly what the operand denotes in the model
    /// once the port's answer is plugged in.
    fn read(&self, src: &Src) -> (r: i16)
        ensures
            spec_src(self@, *src, r as int) == r as int,
    {
        match *src {
            Src::Acc => self.acc,
            Src::Up => self.up.read(),
            Src::Down => self.down.read(),
            Src::Left => self.left.read(),
            Src::Right => self.right.read(),
            Src::Literal(val) => val,
        }
    }

    /// Deliver a value to a destination operand: `Acc` stores it, a port
    /// sends it to the neighbour, `Nil` discards it.
    pub fn write(&mut self, val: i16, dest: &Dest)
        ensures
            *dest is Acc ==> final(self)@ == (CoreModel { acc: val as int, ..old(self)@ }),
            !(*dest is Acc) ==> *final(self) == *old(self),
    {
        match *dest {
            Dest::Acc => self.acc = val,
            Dest::Up => self.up.write(val),
            Dest::Down => self.down.write(val),
            Dest::Left => self.left.write(val),
            Dest::Right => self.right.write(val),
            Dest::Nil => {}
        };
    }

    /// Execute exactly one instruction and advance the program counter.
    ///
    /// The new state is `step` of the old one: exactly, when the
    /// instruction reads no port; for the port value the rendezvous
    /// yielded, when it does.
    pub fn cycle(&mut self)
        requires
            prog_ok(old(self).instrs@),
            old(self).p_ctr < old(self).instrs@.len(),
        ensures
            final(self).instrs@ == old(self).instrs@,
            final(self).p_ctr < final(self).instrs@.len(),
            exists|v: i16| final(self)@ == #[trigger] step(old(self)@, v as int),
            !instr_reads_port(old(self).instrs@[old(self).p_ctr as int]) ==> final(self)@
                == step(old(self)@, 0),
    {
        let ghost pre = self@;
        let instr = self.instrs[self.p_ctr];
        let mut witness: i16 = 0;
        match instr {
            Instr::Nop => {
                let t = self.p_ctr + 1;
                self.set_pc(t);
            }
            Instr::Mov(src, dest) => {
                let val = self.read(&src);
                witness = val;
                self.write(val, &dest);
                let t = self.p_ctr + 1;
                self.set_pc(t);
            }
            Instr::Swp => {
                let a = self.acc;
                self.acc = self.bak;
                self.bak = a;
                let t = self.p_ctr + 1;
                self.set_pc(t);
            }
            Instr::Sav => {
                self.bak = self.acc;
                let t = self.p_ctr + 1;
                self.set_pc(t);
            }
            Instr::Add(src) => {
                let val = self.read(&src);
                witness = val;
                self.acc = wrap_add16(self.acc, val);
                let t = self.p_ctr + 1;
                self.set_pc(t);
            }
            Instr::Sub(src) => {
                let val = self.read(&src);
                witness = val;
                self.acc = wrap_sub16(self.acc, val);
                let t = self.p_ctr + 1;
                self.set_pc(t);
            }
            Instr::Neg => {
                self.acc = wrap_neg16(self.acc);
                let t = self.p_ctr + 1;
                self.set_pc(t);
            }
            Instr::Jez(addr) => {
                if self.acc == 0 {
                    self.set_pc(addr);
                } else {
                    let t = self.p_ctr + 1;
                    self.set_pc(t);
                }
            }
            Instr::Jnz(addr) => {
                if self.acc != 0 {
                    self.set_pc(addr);
                } else {
                    let t = self.p_ctr + 1;
                    self.set_pc(t);
                }
            }
            Instr::Jgz(addr) => {
                if self.acc > 0 {
                    self.set_pc(addr);
                } else {
                    let t = self.p_ctr + 1;
                    self.set_pc(t);
                }
            }
            Instr::Jlz(addr) => {
                if self.acc < 0 {
                    self.set_pc(addr);
                } else {
                    let t = self.p_ctr + 1;
                    self.set_pc(t);
                }
            }
            Instr::Jmp(addr) => {
                self.set_pc(addr);
            }
            Instr::Jro(src) => {
                let off = self.read(&src);
                witness = off;
                self.set_pc_rel(off);
            }
        }
        proof {
            assert(self@ =~= step(pre, witness as int));
            if !instr_reads_port(pre.prog[pre.pc]) {
                assert(self@ =~= step(pre, 0));
            }
        }
    }

    /// Pair this core's `up` port with `above`'s `down` port over a fresh
    /// capacity-one channel pair. Fails, changing nothing, when either
    /// port is already connected: a binding is permanent and is never
    /// silently replaced.
    pub fn bind_up(&mut self, above: &mut Core) -> (r: Result<(), BindError>)
        ensures
            r is Ok <==> !old(self).up.is_conn() && !old(above).down.is_conn(),
            r is Ok ==> final(self)@ == (CoreModel { up: true, ..old(self)@ }) && final(above)@
                == (CoreModel { down: true, ..old(above)@ }),
            r is Err ==> *final(self) == *old(self) && *final(above) == *old(above),
    {
        match (&above.down, &self.up) {
            (Port::Dsc, Port::Dsc) => {}
            _ => {
                return Result::Err(BindError::AlreadyConnected);
            }
        };
        let (tx_a, rx_a) = new_channel(1);
        let (tx_b, rx_b) = new_channel(1);
        above.down = Port::new(rx_a, tx_b);
        self.up = Port::new(rx_b, tx_a);
        Result::Ok(())
    }

    /// Pair this core's `down` port with `under`'s `up` port; see
    /// [`Core::bind_up`].
    pub fn bind_down(&mut self, under: &mut Core) -> (r: Result<(), BindError>)
        ensures
            r is Ok <==> !old(self).down.is_conn() && !old(under).up.is_conn(),
            r is Ok ==> final(self)@ == (CoreModel { down: true, ..old(self)@ }) && final(under)@
                == (CoreModel { up: true, ..old(under)@ }),
            r is Err ==> *final(self) == *old(self) && *final(under) == *old(under),
    {
        match (&self.down, &under.up) {
            (Port::Dsc, Port::Dsc) => {}
            _ => {
                return Result::Err(BindError::AlreadyConnected);
            }
        };
        let (tx_a, rx_a) = new_channel(1);
        let (tx_b, rx_b) = new_channel(1);
        self.down = Port::new(rx_a, tx_b);
        under.up = Port::new(rx_b, tx_a);
        Result::Ok(())
    }

    /// Pair this core's `left` port with `to_left`'s `right` port; see
    /// [`Core::bind_up`].
    pub fn bind_left(&mut self, to_left: &mut Core) -> (r: Result<(), BindError>)
        ensures
            r is Ok <==> !old(self).left.is_conn() && !old(to_left).right.is_conn(),
            r is Ok ==> final(self)@ == (CoreModel { left: true, ..old(self)@ }) && final(to_left)@
                == (CoreModel { right: true, ..old(to_left)@ }),
            r is Err ==> *final(self) == *old(self) && *final(to_left) == *old(to_left),
    {
        match (&to_left.right, &self.left) {
            (Port::Dsc, Port::Dsc) => {}
            _ => {
                return Result::Err(BindError::AlreadyConnected);
            }
        };
        let (tx_a, rx_a) = new_channel(1);
        let (tx_b, rx_b) = new_channel(1);
        to_left.right = Port::new(rx_a, tx_b);
        self.left = Port::new(rx_b, tx_a);
        Result::Ok(())
    }

    /// Pair this core's `right` port with `to_right`'s `left` port; see
    /// [`Core::bind_up`].
    pub fn bind_right(&mut self, to_right: &mut Core) -> (r: Result<(), BindError>)
        ensures
            r is Ok <==> !old(self).right.is_conn() && !old(to_right).left.is_conn(),
            r is Ok ==> final(self)@ == (CoreModel { right: true, ..old(self)@ })
                && final(to_right)@ == (CoreModel { left: true, ..old(to_right)@ }),
            r is Err ==> *final(self) == *old(self) && *final(to_right) == *old(to_right),
    {
        match (&to_right.left, &self.right) {
            (Port::Dsc, Port::Dsc) => {}
            _ => {
                return Result::Err(BindError::AlreadyConnected);
            }
        };
        let (tx_a, rx_a) = new_channel(1);
        let (tx_b, rx_b) = new_channel(1);
        self.right = Port::new(rx_a, tx_b);
        to_right.left = Port::new(rx_b, tx_a);
        Result::Ok(())
    }
}

/// The machine's clock arithmetic on 16-bit values: wrap `offset` into
/// `[0, clk)` by Euclidean wraparound.
pub fn clk_index(offset: i16, clk: i16) -> (r: i16)
    requires
        clk > 0,
    ensures
        r as int == wrap_index(offset as int, clk as int),
        0 <= r < clk,
{
    let w = euclid_rem_i32(offset as i32, clk as i32);
    w as i16
}

} // verus!
