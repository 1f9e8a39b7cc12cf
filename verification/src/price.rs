//! Conversion of raw AMM state into a usable price.
//!
//! The pool reports the square root of its price in Q-format fixed point
//! with 96 fractional bits.  The adjusted price is
//! `(sqrt_price / 2^96)^2 * 10^(decimals_a - decimals_b)`, which this module
//! represents as a fixed-point integer scaled by `10^18`:
//!
//! `price_e18 = floor(sqrt_price^2 * 10^(18 + decimals_a) / (2^192 * 10^decimals_b))`
//!
//! The conversion below computes that value exactly, carrying the numerator
//! as six 64-bit limbs, and reports when it does not fit in 128 bits.  The
//! price is always non-negative and never decreases when `sqrt_price`
//! grows; see [`lemma_price_nonnegative_and_monotone`].

use vstd::prelude::*;

verus! {

use vstd::arithmetic::power::{pow, lemma_pow_adds, lemma_pow0, lemma_pow1, lemma_pow_positive};
use vstd::arithmetic::mul::{
    lemma_mul_inequality,
    lemma_mul_is_associative,
    lemma_mul_is_commutative,
    lemma_mul_nonnegative,
    lemma_mul_strictly_positive,
};
use vstd::arithmetic::div_mod::{
    lemma_div_by_multiple,
    lemma_div_denominator,
    lemma_div_is_ordered,
    lemma_div_multiples_vanish,
    lemma_div_pos_is_pos,
    lemma_fundamental_div_mod_converse_div,
};
use crate::wide::{TWO_POW_64, two_pow_128, mul_wide};

/// 2^192 as a mathematical integer.
pub open spec fn two_pow_192() -> int {
    two_pow_128() * (TWO_POW_64 as int)
}

/// 2^256 as a mathematical integer.
pub open spec fn two_pow_256() -> int {
    two_pow_128() * two_pow_128()
}

/// 2^320 as a mathematical integer.
pub open spec fn two_pow_320() -> int {
    two_pow_256() * (TWO_POW_64 as int)
}

/// The adjusted pool price, scaled by `10^18` and floored:
/// `sqrt_price^2 * 10^(18 + decimals_a) / (2^192 * 10^decimals_b)`.
pub open spec fn price_e18(sqrt_price: int, decimals_a: nat, decimals_b: nat) -> int {
    (sqrt_price * sqrt_price * pow(10, 18 + decimals_a)) / (two_pow_192() * pow(10, decimals_b))
}

/// The value carried by six 64-bit limbs, least significant first.
spec fn limbs_value(l0: u64, l1: u64, l2: u64, l3: u64, l4: u64, l5: u64) -> int {
    l0 + l1 * (TWO_POW_64 as int) + l2 * two_pow_128() + l3 * two_pow_192() + l4 * two_pow_256()
        + l5 * two_pow_320()
}

/// Cancelling a positive common factor of numerator and denominator does
/// not change a flooring division.
proof fn lemma_cancel_common_factor(a: int, b: int, c: int)
    requires
        a >= 0,
        b > 0,
        c > 0,
    ensures
        (a * c) / (b * c) == a / b,
{
    lemma_mul_nonnegative(a, c);
    lemma_div_denominator(a * c, c, b);
    lemma_mul_is_commutative(a, c);
    lemma_div_multiples_vanish(a, c);
    lemma_mul_is_commutative(b, c);
}

/// The adjusted price is never negative, and it scales monotonically with
/// the reported square-root price: a pool state with a larger `sqrt_price`
/// never converts to a smaller adjusted price.
pub proof fn lemma_price_nonnegative_and_monotone(s1: int, s2: int, da: nat, db: nat)
    requires
        0 <= s1 <= s2,
    ensures
        0 <= price_e18(s1, da, db),
        price_e18(s1, da, db) <= price_e18(s2, da, db),
{
    let p = pow(10, 18 + da);
    let d = two_pow_192() * pow(10, db);
    lemma_pow_positive(10, 18 + da);
    lemma_pow_positive(10, db);
    lemma_mul_strictly_positive(two_pow_192(), pow(10, db));
    lemma_mul_inequality(s1, s2, s1);
    lemma_mul_is_commutative(s2, s1);
    lemma_mul_inequality(s1, s2, s2);
    assert(s1 * s1 <= s2 * s2);
    lemma_mul_inequality(s1 * s1, s2 * s2, p);
    lemma_mul_nonnegative(s1, s1);
    lemma_mul_nonnegative(s1 * s1, p);
    lemma_div_pos_is_pos(s1 * s1 * p, d);
    lemma_div_is_ordered(s1 * s1 * p, s2 * s2 * p, d);
}

/// Converts a Q96 square-root price and the two token decimal counts into
/// the exact adjusted price scaled by `10^18`, or `None` when that price
/// does not fit in 128 bits.
pub fn adjusted_price_e18(sqrt_price: u128, decimals_a: u8, decimals_b: u8) -> (r: Option<u128>)
    ensures
        r matches Some(v) ==> v == price_e18(
            sqrt_price as int,
            decimals_a as nat,
            decimals_b as nat,
        ),
        r is None ==> price_e18(sqrt_price as int, decimals_a as nat, decimals_b as nat)
            > u128::MAX,
{
    let ghost s2: int = (sqrt_price as int) * (sqrt_price as int);
    let ghost da: nat = decimals_a as nat;
    let ghost db: nat = decimals_b as nat;
    let (hi, lo) = mul_wide(sqrt_price, sqrt_price);
    proof {
        lemma_mul_nonnegative(sqrt_price as int, sqrt_price as int);
        assert(s2 == hi * two_pow_128() + lo);
        lemma_fundamental_div_mod_converse_div(s2, two_pow_128(), hi as int, lo as int);
        assert(s2 / two_pow_128() == hi as int);
    }
    if (decimals_b as u32) > 18 + (decimals_a as u32) {
        // The net decimal exponent is negative: divide the base price by
        // the remaining powers of ten.
        let q: u32 = (decimals_b as u32) - (18 + (decimals_a as u32));
        let mut base: u128 = hi / TWO_POW_64;
        proof {
            lemma_div_denominator(s2, two_pow_128(), TWO_POW_64 as int);
            assert(base == s2 / two_pow_192());
            lemma_pow0(10);
        }
        let mut i: u32 = 0;
        while i < q
            invariant
                i <= q,
                s2 >= 0,
                base == (s2 / two_pow_192()) / pow(10, i as nat),
            decreases q - i,
        {
            proof {
                lemma_pow_positive(10, i as nat);
                lemma_div_pos_is_pos(s2, two_pow_192());
                lemma_div_denominator(s2 / two_pow_192(), pow(10, i as nat), 10);
                lemma_pow_adds(10, i as nat, 1);
                lemma_pow1(10);
            }
            base = base / 10;
            i = i + 1;
        }
        proof {
            let e: nat = 18 + da;
            let c = pow(10, e);
            let b = two_pow_192() * pow(10, q as nat);
            lemma_pow_positive(10, e);
            lemma_pow_positive(10, q as nat);
            lemma_pow_adds(10, e, q as nat);
            assert(db == e + q as nat);
            lemma_mul_strictly_positive(two_pow_192(), pow(10, q as nat));
            // denominator: 2^192 * (10^e * 10^q) == (2^192 * 10^q) * 10^e
            lemma_mul_is_associative(two_pow_192(), pow(10, e), pow(10, q as nat));
            lemma_mul_is_commutative(pow(10, e), pow(10, q as nat));
            lemma_mul_is_associative(two_pow_192(), pow(10, q as nat), pow(10, e));
            assert(two_pow_192() * pow(10, db) == b * c);
            lemma_cancel_common_factor(s2, b, c);
            assert(price_e18(sqrt_price as int, da, db) == s2 / b);
            lemma_div_denominator(s2, two_pow_192(), pow(10, q as nat));
            assert(s2 / b == (s2 / two_pow_192()) / pow(10, q as nat));
        }
        Some(base)
    } else {
        // The net decimal exponent `k` is non-negative: multiply the
        // squared price by 10^k across six 64-bit limbs, then divide by
        // 2^192 by dropping the three low limbs.
        let k: u32 = 18 + (decimals_a as u32) - (decimals_b as u32);
        let mut l0: u64 = (lo % TWO_POW_64) as u64;
        let mut l1: u64 = (lo / TWO_POW_64) as u64;
        let mut l2: u64 = (hi % TWO_POW_64) as u64;
        let mut l3: u64 = (hi / TWO_POW_64) as u64;
        let mut l4: u64 = 0;
        let mut l5: u64 = 0;
        proof {
            lemma_pow0(10);
            assert(limbs_value(l0, l1, l2, l3, l4, l5) == hi * two_pow_128() + lo)
                by (nonlinear_arith)
                requires
                    l0 + l1 * (TWO_POW_64 as int) == lo as int,
                    l2 + l3 * (TWO_POW_64 as int) == hi as int,
                    l4 == 0,
                    l5 == 0,
            ;
            assert(limbs_value(l0, l1, l2, l3, l4, l5) == s2);
            assert(limbs_value(l0, l1, l2, l3, l4, l5) == s2 * pow(10, 0));
        }
        let mut i: u32 = 0;
        while i < k
            invariant
                i <= k,
                s2 == (sqrt_price as int) * (sqrt_price as int),
                s2 >= 0,
                da == decimals_a as nat,
                db == decimals_b as nat,
                k == 18 + da - db,
                db <= 18 + da,
                limbs_value(l0, l1, l2, l3, l4, l5) == s2 * pow(10, i as nat),
            decreases k - i,
        {
            let p0: u128 = (l0 as u128) * 10;
            let n0: u64 = (p0 % TWO_POW_64) as u64;
            let c1: u64 = (p0 / TWO_POW_64) as u64;
            let p1: u128 = (l1 as u128) * 10 + (c1 as u128);
            let n1: u64 = (p1 % TWO_POW_64) as u64;
            let c2: u64 = (p1 / TWO_POW_64) as u64;
            let p2: u128 = (l2 as u128) * 10 + (c2 as u128);
            let n2: u64 = (p2 % TWO_POW_64) as u64;
            let c3: u64 = (p2 / TWO_POW_64) as u64;
            let p3: u128 = (l3 as u128) * 10 + (c3 as u128);
            let n3: u64 = (p3 % TWO_POW_64) as u64;
            let c4: u64 = (p3 / TWO_POW_64) as u64;
            let p4: u128 = (l4 as u128) * 10 + (c4 as u128);
            let n4: u64 = (p4 % TWO_POW_64) as u64;
            let c5: u64 = (p4 / TWO_POW_64) as u64;
            let p5: u128 = (l5 as u128) * 10 + (c5 as u128);
            let n5: u64 = (p5 % TWO_POW_64) as u64;
            let c6: u64 = (p5 / TWO_POW_64) as u64;
            proof {
                lemma_pow_adds(10, i as nat, 1);
                lemma_pow1(10);
                lemma_pow_positive(10, i as nat);
                lemma_mul_nonnegative(s2, pow(10, i as nat));
                lemma_mul_is_associative(s2, pow(10, i as nat), 10);
                assert(limbs_value(n0, n1, n2, n3, n4, n5) + c6 * (two_pow_320() * (
                TWO_POW_64 as int)) == 10 * limbs_value(l0, l1, l2, l3, l4, l5))
                    by (nonlinear_arith)
                    requires
                        n0 + c1 * (TWO_POW_64 as int) == 10 * l0,
                        n1 + c2 * (TWO_POW_64 as int) == 10 * l1 + c1,
                        n2 + c3 * (TWO_POW_64 as int) == 10 * l2 + c2,
                        n3 + c4 * (TWO_POW_64 as int) == 10 * l3 + c3,
                        n4 + c5 * (TWO_POW_64 as int) == 10 * l4 + c4,
                        n5 + c6 * (TWO_POW_64 as int) == 10 * l5 + c5,
                ;
            }
            if c6 != 0 {
                proof {
                    let v = limbs_value(l0, l1, l2, l3, l4, l5);
                    assert(v >= two_pow_320()) by (nonlinear_arith)
                        requires
                            limbs_value(n0, n1, n2, n3, n4, n5) + c6 * (two_pow_320() * (
                            TWO_POW_64 as int)) == 10 * v,
                            c6 >= 1,
                    ;
                    // the final numerator only grows from here on
                    let rest: nat = (k - i) as nat;
                    lemma_pow_adds(10, i as nat, rest);
                    lemma_mul_is_associative(s2, pow(10, i as nat), pow(10, rest));
                    lemma_pow_positive(10, rest);
                    lemma_pow_positive(10, i as nat);
                    lemma_mul_nonnegative(s2, pow(10, i as nat));
                    lemma_mul_inequality(1, pow(10, rest), v);
                    lemma_mul_is_commutative(pow(10, rest), v);
                    assert(s2 * pow(10, k as nat) >= v);
                    // dividing keeps the bound: the price exceeds 2^128 - 1
                    let c = pow(10, db);
                    lemma_pow_positive(10, db);
                    lemma_pow_adds(10, k as nat, db);
                    lemma_mul_is_associative(s2, pow(10, k as nat), pow(10, db));
                    lemma_mul_strictly_positive(two_pow_192(), pow(10, db));
                    lemma_cancel_common_factor(s2 * pow(10, k as nat), two_pow_192(), c);
                    assert(price_e18(sqrt_price as int, da, db) == (s2 * pow(10, k as nat))
                        / two_pow_192());
                    lemma_div_is_ordered(two_pow_320(), s2 * pow(10, k as nat), two_pow_192());
                    assert(two_pow_320() == two_pow_128() * two_pow_192()) by (nonlinear_arith);
                    lemma_div_by_multiple(two_pow_128(), two_pow_192());
                    assert(two_pow_320() / two_pow_192() == two_pow_128());
                    assert(two_pow_128() > u128::MAX);
                }
                return None;
            }
            l0 = n0;
            l1 = n1;
            l2 = n2;
            l3 = n3;
            l4 = n4;
            l5 = n5;
            proof {
                assert((c6 as int) * (two_pow_320() * (TWO_POW_64 as int)) == 0)
                    by (nonlinear_arith)
                    requires
                        c6 == 0,
                ;
                assert(limbs_value(l0, l1, l2, l3, l4, l5) == 10 * (s2 * pow(10, i as nat)));
                assert(limbs_value(l0, l1, l2, l3, l4, l5) == s2 * (pow(10, i as nat) * 10));
                assert(pow(10, i as nat + 1) == pow(10, i as nat) * 10);
            }
            i = i + 1;
        }
        let ghost v: int = limbs_value(l0, l1, l2, l3, l4, l5);
        let ghost low: int = l0 + l1 * (TWO_POW_64 as int) + l2 * two_pow_128();
        let ghost quot: int = l3 + l4 * (TWO_POW_64 as int) + l5 * two_pow_128();
        proof {
            assert(v == quot * two_pow_192() + low && 0 <= low < two_pow_192())
                by (nonlinear_arith)
                requires
                    v == limbs_value(l0, l1, l2, l3, l4, l5),
                    low == l0 + l1 * (TWO_POW_64 as int) + l2 * two_pow_128(),
                    quot == l3 + l4 * (TWO_POW_64 as int) + l5 * two_pow_128(),
            ;
            lemma_fundamental_div_mod_converse_div(v, two_pow_192(), quot, low);
            assert(v / two_pow_192() == quot);
            let c = pow(10, db);
            lemma_pow_positive(10, db);
            lemma_pow_positive(10, k as nat);
            lemma_pow_adds(10, k as nat, db);
            lemma_mul_is_associative(s2, pow(10, k as nat), pow(10, db));
            lemma_mul_nonnegative(s2, pow(10, k as nat));
            lemma_cancel_common_factor(s2 * pow(10, k as nat), two_pow_192(), c);
            assert(price_e18(sqrt_price as int, da, db) == quot);
        }
        if l5 != 0 {
            proof {
                assert(l5 * two_pow_128() >= two_pow_128()) by (nonlinear_arith)
                    requires
                        l5 >= 1,
                ;
                assert(quot > u128::MAX);
            }
            return None;
        }
        proof {
            assert(quot == l3 + l4 * (TWO_POW_64 as int));
        }
        Some((l4 as u128) * TWO_POW_64 + (l3 as u128))
    }
}

} // verus!
