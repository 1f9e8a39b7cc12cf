//! Exact double-width products of 128-bit values.
//!
//! The rebalance decision compares two products of 128-bit quantities.  Such
//! a product does not fit in any machine integer this crate uses, so it is
//! computed here as an exact pair of 128-bit halves, and products are
//! compared through that pair.

use vstd::prelude::*;

verus! {

/// 2^64, the base in which 128-bit values are split into halves.
pub const TWO_POW_64: u128 = 0x1_0000_0000_0000_0000;

/// 2^128 as a mathematical integer.
pub open spec fn two_pow_128() -> int {
    (TWO_POW_64 as int) * (TWO_POW_64 as int)
}

proof fn lemma_distribute3(x: int, y: int, z: int, s: int, m: int)
    by (nonlinear_arith)
    requires
        s == x + y + z,
    ensures
        s * m == x * m + y * m + z * m,
{
}

proof fn lemma_mul_gap(h1: int, h2: int, m: int)
    by (nonlinear_arith)
    requires
        h1 > h2,
        m > 0,
    ensures
        h1 * m >= h2 * m + m,
{
}

/// Computes `a * b` exactly as a pair `(hi, lo)` with
/// `a * b == hi * 2^128 + lo`.
pub fn mul_wide(a: u128, b: u128) -> (r: (u128, u128))
    ensures
        (r.0 as int) * two_pow_128() + r.1 as int == (a as int) * (b as int),
{
    let ah = a / TWO_POW_64;
    let al = a % TWO_POW_64;
    let bh = b / TWO_POW_64;
    let bl = b % TWO_POW_64;
    proof {
        assert((al as int) * (bl as int) <= (TWO_POW_64 - 1) * (TWO_POW_64 - 1)
            && (al as int) * (bh as int) <= (TWO_POW_64 - 1) * (TWO_POW_64 - 1)
            && (ah as int) * (bl as int) <= (TWO_POW_64 - 1) * (TWO_POW_64 - 1)
            && (ah as int) * (bh as int) <= (TWO_POW_64 - 1) * (TWO_POW_64 - 1)) by (nonlinear_arith)
            requires
                al < TWO_POW_64,
                bl < TWO_POW_64,
                ah < TWO_POW_64,
                bh < TWO_POW_64,
        ;
    }
    let ll = al * bl;
    let lh = al * bh;
    let hl = ah * bl;
    let hh = ah * bh;
    let m1 = lh + ll / TWO_POW_64;
    let m2 = hl + m1 % TWO_POW_64;
    let lo = (m2 % TWO_POW_64) * TWO_POW_64 + ll % TWO_POW_64;
    let hi = hh + m1 / TWO_POW_64 + m2 / TWO_POW_64;
    proof {
        let t = TWO_POW_64 as int;
        assert((ah * t + al) * (bh * t + bl)
            == (ah * bh) * (t * t) + (al * (bh as int) + (ah as int) * bl) * t + al * (bl as int))
            by (nonlinear_arith);
        assert(a == ah * t + al);
        assert(b == bh * t + bl);
        assert(a as int * b as int
            == (hh as int) * two_pow_128() + (lh as int + hl as int) * t + ll as int);
        assert(m1 == lh as int + (ll as int) / t);
        assert(m2 == hl as int + (m1 as int) % t);
        assert((m1 as int / t) * two_pow_128() + ((m1 as int) % t) * t == m1 as int * t);
        assert((m2 as int / t) * two_pow_128() + ((m2 as int) % t) * t == m2 as int * t);
        assert((ll as int / t) * t + (ll as int) % t == ll as int);
        assert(m2 as int * t == hl as int * t + ((m1 as int) % t) * t);
        assert(m1 as int * t == lh as int * t + ((ll as int) / t) * t);
        lemma_distribute3(
            hh as int,
            (m1 as int) / t,
            (m2 as int) / t,
            hi as int,
            two_pow_128(),
        );
        assert(hi as int * two_pow_128()
            == hh as int * two_pow_128() + ((m1 as int) / t) * two_pow_128()
                + ((m2 as int) / t) * two_pow_128());
        assert(hi as int * two_pow_128() + lo as int
            == (hh as int) * two_pow_128() + (lh as int + hl as int) * t + ll as int);
    }
    (hi, lo)
}

/// Decides `a * b > c * d` exactly, over the full 128-bit input range.
pub fn prod_gt(a: u128, b: u128, c: u128, d: u128) -> (r: bool)
    ensures
        r <==> (a as int) * (b as int) > (c as int) * (d as int),
{
    let (h1, l1) = mul_wide(a, b);
    let (h2, l2) = mul_wide(c, d);
    proof {
        let m = two_pow_128();
        assert(l1 < m && l2 < m);
        if h1 > h2 {
            lemma_mul_gap(h1 as int, h2 as int, m);
        }
        if h1 < h2 {
            lemma_mul_gap(h2 as int, h1 as int, m);
        }
    }
    h1 > h2 || (h1 == h2 && l1 > l2)
}

} // verus!
