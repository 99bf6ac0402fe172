//! Fixed-point arithmetic helpers shared by the signal chain: the chip's
//! arithmetic right shifts on signed values are floor divisions by powers of
//! two, computed here exactly.

use vstd::prelude::*;
use vstd::arithmetic::div_mod::lemma_fundamental_div_mod;
use vstd::arithmetic::div_mod::lemma_fundamental_div_mod_converse;

verus! {

/// Floor division of `x` by a positive divisor `d`, as an arithmetic right
/// shift performs it when `d` is a power of two. Rust's `/` rounds toward
/// zero, so the negative side is computed as a negated ceiling.
pub fn fdiv64(x: i64, d: i64) -> (r: i64)
    requires
        1 <= d <= 0x1_0000_0000,
        -0x4000_0000_0000_0000 <= x <= 0x4000_0000_0000_0000,
    ensures
        r == x as int / d as int,
        x >= 0 ==> 0 <= r <= x,
        x < 0 ==> x <= r <= 0,
{
    if x >= 0 {
        let r: i64 = x / d;
        proof {
            lemma_fundamental_div_mod(x as int, d as int);
        }
        r
    } else {
        let q: i64 = (-x + d - 1) / d;
        proof {
            let xi = x as int;
            let di = d as int;
            lemma_fundamental_div_mod(xi, di);
            let fq = xi / di;
            let fr = xi % di;
            assert((-fq) * di == -(di * fq)) by (nonlinear_arith);
            assert(-xi + di - 1 == (-fq) * di + (di - 1 - fr));
            lemma_fundamental_div_mod_converse(-xi + di - 1, di, -fq, di - 1 - fr);
            assert((-xi + di - 1) / di == -fq);
            assert(xi <= fq <= 0) by (nonlinear_arith)
                requires
                    di >= 1,
                    xi < 0,
                    xi == di * fq + fr,
                    0 <= fr < di,
            ;
        }
        -q
    }
}

} // verus!

verus! {

/// The product of two values in 32-bit range stays well inside the range
/// `fdiv64` accepts.
pub proof fn lemma_i32_mul_fits(a: int, b: int)
    requires
        -0x8000_0000 <= a <= 0x8000_0000,
        -0x8000_0000 <= b <= 0x8000_0000,
    ensures
        -0x4000_0000_0000_0000 <= a * b <= 0x4000_0000_0000_0000,
{
    assert(-0x4000_0000_0000_0000 <= a * b <= 0x4000_0000_0000_0000) by (nonlinear_arith)
        requires
            -0x8000_0000 <= a <= 0x8000_0000,
            -0x8000_0000 <= b <= 0x8000_0000,
    ;
}

} // verus!
