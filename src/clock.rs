//! Conversion of the analyzer's 60 MHz cycle counter to nanoseconds.

use vstd::arithmetic::div_mod::{
    lemma_add_mod_noop, lemma_mod_bound, lemma_mod_sub_multiples_vanish, lemma_mod_twice,
    lemma_small_mod,
};
use vstd::prelude::*;

verus! {

/// Largest cycle count whose time in nanoseconds fits in a `u64`.
pub const CLK_NS_EXACT_LIMIT: u64 = 1106804644422573096;

/// Nanoseconds, rounded down, for each residue of a cycle count modulo three.
pub open spec fn residue_ns(r: int) -> int {
    if r == 0 {
        0
    } else if r == 1 {
        16
    } else {
        33
    }
}

/// Exact time in nanoseconds, rounded down, of `c` cycles of a 60 MHz clock.
pub open spec fn clk_ns(c: int) -> int {
    (c / 3) * 50 + residue_ns(c % 3)
}

/// Below the limit, the time of a cycle count fits in a `u64`.
pub proof fn lemma_clk_ns_fits(c: int)
    requires
        0 <= c <= CLK_NS_EXACT_LIMIT,
    ensures
        0 <= clk_ns(c) < 0x1_0000_0000_0000_0000,
{
    let q = c / 3;
    let l = residue_ns(c % 3);
    assert(q <= 368934881474191032 && (q == 368934881474191032 ==> c % 3 == 0));
    assert(q * 50 + l < 0x1_0000_0000_0000_0000) by (nonlinear_arith)
        requires
            0 <= q <= 368934881474191032,
            0 <= l <= 33,
            q == 368934881474191032 ==> l == 0,
    {}
    assert(q * 50 >= 0) by (nonlinear_arith)
        requires
            q >= 0,
    {}
}

/// The time of a cycle count never decreases as the count grows.
pub proof fn lemma_clk_ns_monotonic(a: int, b: int)
    requires
        0 <= a <= b,
    ensures
        clk_ns(a) <= clk_ns(b),
{
    let qa = a / 3;
    let qb = b / 3;
    assert(qa <= qb) by (nonlinear_arith)
        requires
            0 <= a <= b,
            qa == a / 3,
            qb == b / 3,
    {}
    if qa == qb {
        assert(a % 3 <= b % 3);
    } else {
        assert(qa * 50 + 33 < qb * 50) by (nonlinear_arith)
            requires
                qa < qb,
        {}
    }
}

/// Converts 60 MHz clock cycles to nanoseconds, rounding down.
///
/// The result is exact up to `CLK_NS_EXACT_LIMIT`; beyond that it wraps
/// modulo 2^64, as the 64-bit arithmetic of the device's counter does.
pub fn clk_to_ns(clk_cycles: u64) -> (ns: u64)
    ensures
        ns as int == clk_ns(clk_cycles as int) % 0x1_0000_0000_0000_0000,
        clk_cycles <= CLK_NS_EXACT_LIMIT ==> ns as int == clk_ns(clk_cycles as int),
{
    let table: [u64; 3] = [0, 16, 33];
    let quotient: u64 = clk_cycles / 3;
    let remainder: u64 = clk_cycles % 3;
    let lookup: u64 = table[remainder as usize];
    let ns = quotient.wrapping_mul(50).wrapping_add(lookup);
    proof {
        let q = quotient as int;
        let l = lookup as int;
        let m = 0x1_0000_0000_0000_0000int;
        assert(l == residue_ns(remainder as int));
        let p = (q * 50) % m;
        lemma_mod_bound(q * 50, m);
        lemma_small_mod(l as nat, m as nat);
        lemma_add_mod_noop(q * 50, l, m);
        lemma_mod_twice(q * 50, m);
        if p + l >= m {
            lemma_mod_sub_multiples_vanish(p + l, m);
            lemma_small_mod((p + l - m) as nat, m as nat);
        } else {
            lemma_small_mod((p + l) as nat, m as nat);
        }
        if clk_cycles <= CLK_NS_EXACT_LIMIT {
            assert(q * 50 + l < m) by (nonlinear_arith)
                requires
                    q <= 368934881474191032,
                    l <= 33,
                    q == 368934881474191032 ==> l == 0,
                    m == 0x1_0000_0000_0000_0000int,
            {}
            lemma_small_mod((q * 50 + l) as nat, m as nat);
        }
    }
    ns
}

/// Up to `CLK_NS_EXACT_LIMIT`, what `clk_to_ns` returns never decreases as
/// the cycle count grows.
pub proof fn lemma_clk_to_ns_monotonic(a: u64, b: u64)
    requires
        a <= b <= CLK_NS_EXACT_LIMIT,
    ensures
        clk_ns(a as int) % 0x1_0000_0000_0000_0000 <= clk_ns(b as int) % 0x1_0000_0000_0000_0000,
{
    lemma_clk_ns_fits(a as int);
    lemma_clk_ns_fits(b as int);
    lemma_clk_ns_monotonic(a as int, b as int);
    lemma_small_mod(clk_ns(a as int) as nat, 0x1_0000_0000_0000_0000nat);
    lemma_small_mod(clk_ns(b as int) as nat, 0x1_0000_0000_0000_0000nat);
}

} // verus!
