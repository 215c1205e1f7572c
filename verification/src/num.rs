//! Two's-complement 16-bit wraparound arithmetic and Euclidean index
//! wraparound, the two numeric ingredients of the register machine.

use vstd::arithmetic::div_mod::{
    lemma_fundamental_div_mod_converse_mod, lemma_mod_add_multiples_vanish, lemma_mod_twice,
};
use vstd::prelude::*;

verus! {

/// Reduce an integer into the `i16` range by wrapping modulo 2^16.
pub open spec fn wrap16(x: int) -> int {
    ((x + 32768) % 65536) - 32768
}

/// Euclidean wraparound of an arbitrary integer into `[0, n)`:
/// `((x % n) + n) % n`, well defined for every `x` once `n > 0`.
pub open spec fn wrap_index(x: int, n: int) -> int {
    ((x % n) + n) % n
}

pub proof fn lemma_wrap16_range(x: int)
    ensures
        -32768 <= wrap16(x) <= 32767,
{
    lemma_mod_bounds(x + 32768, 65536);
}

pub proof fn lemma_wrap16_id(x: int)
    requires
        -32768 <= x <= 32767,
    ensures
        wrap16(x) == x,
{
    lemma_fundamental_div_mod_converse_mod(x + 32768, 65536, 0, x + 32768);
}

/// For a positive modulus, the defensive double-mod formula collapses to
/// the plain Euclidean remainder.
pub proof fn lemma_wrap_index_is_mod(x: int, n: int)
    requires
        n > 0,
    ensures
        wrap_index(x, n) == x % n,
        0 <= wrap_index(x, n) < n,
{
    lemma_mod_bounds(x, n);
    lemma_mod_add_multiples_vanish(x % n, n);
    lemma_mod_twice(x, n);
}

proof fn lemma_mod_bounds(x: int, n: int)
    requires
        n > 0,
    ensures
        0 <= x % n < n,
{
}

/// 16-bit addition that wraps on overflow, as the machine's `ADD` demands.
pub fn wrap_add16(a: i16, b: i16) -> (r: i16)
    ensures
        r as int == wrap16(a + b),
{
    let s: i32 = a as i32 + b as i32;
    let w: i32 = if s > 32767 {
        s - 65536
    } else if s < -32768 {
        s + 65536
    } else {
        s
    };
    proof {
        if s > 32767 {
            lemma_fundamental_div_mod_converse_mod(s + 32768, 65536, 1, s - 65536 + 32768);
        } else if s < -32768 {
            lemma_fundamental_div_mod_converse_mod(s + 32768, 65536, -1, s + 65536 + 32768);
        } else {
            lemma_wrap16_id(s as int);
        }
    }
    w as i16
}

/// 16-bit subtraction that wraps on overflow, as `SUB` demands.
pub fn wrap_sub16(a: i16, b: i16) -> (r: i16)
    ensures
        r as int == wrap16(a - b),
{
    let s: i32 = a as i32 - b as i32;
    let w: i32 = if s > 32767 {
        s - 65536
    } else if s < -32768 {
        s + 65536
    } else {
        s
    };
    proof {
        if s > 32767 {
            lemma_fundamental_div_mod_converse_mod(s + 32768, 65536, 1, s - 65536 + 32768);
        } else if s < -32768 {
            lemma_fundamental_div_mod_converse_mod(s + 32768, 65536, -1, s + 65536 + 32768);
        } else {
            lemma_wrap16_id(s as int);
        }
    }
    w as i16
}

/// 16-bit negation that wraps on overflow (`NEG` on the minimum value
/// yields the minimum value again).
pub fn wrap_neg16(a: i16) -> (r: i16)
    ensures
        r as int == wrap16(-a),
{
    let s: i32 = -(a as i32);
    let w: i32 = if s > 32767 {
        s - 65536
    } else {
        s
    };
    proof {
        if s > 32767 {
            lemma_fundamental_div_mod_converse_mod(s + 32768, 65536, 1, s - 65536 + 32768);
        } else {
            lemma_wrap16_id(s as int);
        }
    }
    w as i16
}

/// Euclidean remainder of a possibly negative 32-bit value by a positive
/// bound, the exec counterpart of `wrap_index`.
pub fn euclid_rem_i32(x: i32, n: i32) -> (r: i32)
    requires
        0 < n,
    ensures
        r as int == wrap_index(x as int, n as int),
        0 <= r < n,
{
    proof {
        lemma_wrap_index_is_mod(x as int, n as int);
    }
    if x >= 0 {
        let r = x % n;
        proof {
            lemma_mod_bounds(x as int, n as int);
        }
        r
    } else {
        let s: i32 = -1 - x;
        let m: i32 = s % n;
        proof {
            lemma_mod_bounds(s as int, n as int);
            let q = s as int / n as int;
            vstd::arithmetic::div_mod::lemma_fundamental_div_mod(s as int, n as int);
            assert((-q - 1) * (n as int) + (n - 1 - m) == x as int) by (nonlinear_arith)
                requires
                    s as int == (n as int) * q + (m as int),
                    s as int == -1 - x as int,
            ;
            lemma_fundamental_div_mod_converse_mod(x as int, n as int, -q - 1, n - 1 - m);
        }
        n - 1 - m
    }
}

} // verus!
