//! The laws of the register machine, stated over [`CoreModel`] and
//! [`step`] — the same spec functions `Core::cycle`'s contract speaks of
//! — and proved once and for all.

use crate::machine::{step, CoreModel, Dest, Instr, Src};
use crate::num::{lemma_wrap16_id, lemma_wrap16_range, lemma_wrap_index_is_mod, wrap16, wrap_index};
use vstd::arithmetic::div_mod::lemma_fundamental_div_mod_converse_mod;
use vstd::prelude::*;

verus! {

/// Adding a literal `n` adds `n` to `acc`, wrapping modulo 2^16 in two's
/// complement, whatever any port would have answered; `bak`, the program
/// and the port states are untouched.
pub proof fn lemma_add_literal(m: CoreModel, n: i16, port: int)
    requires
        0 <= m.pc < m.prog.len(),
        m.prog[m.pc] == Instr::Add(Src::Literal(n)),
    ensures
        step(m, port).acc == wrap16(m.acc + n),
        step(m, port).bak == m.bak,
        step(m, port).prog == m.prog,
        step(m, port).up == m.up && step(m, port).down == m.down && step(m, port).left == m.left
            && step(m, port).right == m.right,
{
}

/// `Sav` copies `acc` into `bak` and leaves `acc` unchanged.
pub proof fn lemma_sav(m: CoreModel, port: int)
    requires
        0 <= m.pc < m.prog.len(),
        m.prog[m.pc] == Instr::Sav,
    ensures
        step(m, port).acc == m.acc,
        step(m, port).bak == m.acc,
{
}

/// `Swp` exchanges `acc` and `bak`.
pub proof fn lemma_swp(m: CoreModel, port: int)
    requires
        0 <= m.pc < m.prog.len(),
        m.prog[m.pc] == Instr::Swp,
    ensures
        step(m, port).acc == m.bak,
        step(m, port).bak == m.acc,
{
}

/// `Neg` flips the sign of `acc`, wrapping modulo 2^16; `bak` is
/// untouched.
pub proof fn lemma_neg(m: CoreModel, port: int)
    requires
        0 <= m.pc < m.prog.len(),
        m.prog[m.pc] == Instr::Neg,
    ensures
        step(m, port).acc == wrap16(-m.acc),
        step(m, port).bak == m.bak,
{
}

/// Negating twice is the identity on the whole 16-bit range, the minimum
/// value included.
pub proof fn lemma_wrap16_neg_involution(a: int)
    requires
        -32768 <= a <= 32767,
    ensures
        wrap16(-wrap16(-a)) == a,
{
    if a == -32768 {
        lemma_fundamental_div_mod_converse_mod(32768int + 32768, 65536, 1, 0);
        lemma_wrap16_id(32768 - 65536);
    } else {
        lemma_wrap16_id(-a);
        lemma_wrap16_id(a);
    }
}

/// Executing `Neg` at two successive clock positions restores both
/// registers: applying `Neg` twice is the identity.
pub proof fn lemma_neg_twice(m: CoreModel, port1: int, port2: int)
    requires
        -32768 <= m.acc <= 32767,
        0 <= m.pc < m.prog.len() <= 0x7fff,
        m.prog[m.pc] == Instr::Neg,
        m.prog[wrap_index(m.pc + 1, m.prog.len() as int)] == Instr::Neg,
    ensures
        step(step(m, port1), port2).acc == m.acc,
        step(step(m, port1), port2).bak == m.bak,
{
    lemma_wrap_index_is_mod(m.pc + 1, m.prog.len() as int);
    lemma_wrap16_range(-m.acc);
    lemma_wrap16_neg_involution(m.acc);
}

/// Moving a literal into `Nil` discards the value: every register, the
/// program and every port state are left unchanged, and only the program
/// counter advances.
pub proof fn lemma_mov_literal_nil(m: CoreModel, v: i16, port: int)
    requires
        0 <= m.pc < m.prog.len(),
        m.prog[m.pc] == Instr::Mov(Src::Literal(v), Dest::Nil),
    ensures
        step(m, port).acc == m.acc,
        step(m, port).bak == m.bak,
        step(m, port).prog == m.prog,
        step(m, port).up == m.up && step(m, port).down == m.down && step(m, port).left == m.left
            && step(m, port).right == m.right,
        step(m, port).pc == wrap_index(m.pc + 1, m.prog.len() as int),
{
}

/// `Jez` selects the branch target exactly when `acc` is zero, and the
/// next instruction otherwise; the registers are untouched either way.
pub proof fn lemma_jez(m: CoreModel, t: usize, port: int)
    requires
        0 <= m.pc < m.prog.len() <= 0x7fff,
        m.prog[m.pc] == Instr::Jez(t),
        t < m.prog.len(),
    ensures
        m.acc == 0 ==> step(m, port).pc == t,
        m.acc != 0 ==> step(m, port).pc == wrap_index(m.pc + 1, m.prog.len() as int),
        step(m, port).acc == m.acc,
        step(m, port).bak == m.bak,
{
    lemma_wrap_index_is_mod(t as int, m.prog.len() as int);
    lemma_small_mod_int(t as int, m.prog.len() as int);
}

/// `Jro` with a literal offset moves the program counter to
/// `((pc + off) % len + len) % len`: cyclic wraparound in either
/// direction. The registers are untouched.
pub proof fn lemma_jro_literal(m: CoreModel, off: i16, port: int)
    requires
        0 <= m.pc < m.prog.len(),
        m.prog[m.pc] == Instr::Jro(Src::Literal(off)),
    ensures
        step(m, port).pc == wrap_index(m.pc + off, m.prog.len() as int),
        step(m, port).acc == m.acc,
        step(m, port).bak == m.bak,
{
}

proof fn lemma_small_mod_int(x: int, n: int)
    requires
        0 <= x < n,
    ensures
        x % n == x,
{
    lemma_fundamental_div_mod_converse_mod(x, n, 0, x);
}

} // verus!
