//! Exact non-negative rationals scaled by powers of ten.
//!
//! A raw on-chain amount together with a currency's decimal precision denotes
//! the value `raw / 10^decimals`. Ratios of such values, and products of such
//! ratios, are represented exactly as `(num * 10^num_exp) / (den * 10^den_exp)`
//! with unsigned integer parts, so no rounding ever happens in a computed price.

use vstd::prelude::*;
use vstd::arithmetic::power::{pow, lemma_pow_adds, lemma_pow_positive};

verus! {

/// `10^e` as a mathematical integer.
pub open spec fn pow10(e: nat) -> int {
    pow(10, e)
}

/// An exact non-negative rational: `(num * 10^num_exp) / (den * 10^den_exp)`.
#[derive(Clone, Copy, PartialEq, Eq, Structural, Debug)]
pub struct Rational {
    pub num: u128,
    pub den: u128,
    pub num_exp: u64,
    pub den_exp: u64,
}

impl Rational {
    /// The mathematical numerator, with its power of ten folded in.
    pub open spec fn numerator(self) -> int {
        self.num * pow10(self.num_exp as nat)
    }

    /// The mathematical denominator, with its power of ten folded in.
    pub open spec fn denominator(self) -> int {
        self.den * pow10(self.den_exp as nat)
    }

    /// A rational denotes a value only when its denominator is not zero.
    pub open spec fn wf(self) -> bool {
        self.den != 0
    }

    /// The integer parts fit in 64 bits and the exponents in 32 bits, so a
    /// product of two compact rationals is again representable exactly.
    pub open spec fn compact(self) -> bool {
        &&& self.num <= u64::MAX as u128
        &&& self.den <= u64::MAX as u128
        &&& self.num_exp <= u32::MAX as u64
        &&& self.den_exp <= u32::MAX as u64
    }

    /// Builds a compact rational from 64-bit parts.
    pub fn new(num: u64, den: u64, num_exp: u32, den_exp: u32) -> (r: Rational)
        ensures
            r == (Rational {
                num: num as u128,
                den: den as u128,
                num_exp: num_exp as u64,
                den_exp: den_exp as u64,
            }),
            r.compact(),
            den != 0 ==> r.wf(),
    {
        Rational {
            num: num as u128,
            den: den as u128,
            num_exp: num_exp as u64,
            den_exp: den_exp as u64,
        }
    }
}

/// Two rationals denote the same value exactly when their cross products agree.
pub open spec fn same_value(a: Rational, b: Rational) -> bool {
    a.numerator() * b.denominator() == b.numerator() * a.denominator()
}

/// Decides whether `x * 10^k == y`. The scaled side grows by a factor of ten
/// per round, so either it reaches `y`'s range within a few rounds or it
/// provably exceeds every 128-bit value.
fn scaled_eq(x: u128, k: u64, y: u128) -> (r: bool)
    ensures
        r == (x * pow10(k as nat) == y),
{
    proof {
        lemma_pow10_positive(k as nat);
    }
    if x == 0 {
        return y == 0;
    }
    let mut xs: u128 = x;
    let mut i: u64 = 0;
    proof {
        vstd::arithmetic::power::lemma_pow0(10);
    }
    while i < k
        invariant
            i <= k,
            x != 0,
            xs != 0,
            xs == x * pow10(i as nat),
        decreases k - i,
    {
        proof {
            lemma_pow10_positive(i as nat);
            lemma_pow10_positive((k - i) as nat);
            lemma_pow10_adds(i as nat, (k - i) as nat);
            vstd::arithmetic::power::lemma_pow1(10);
            lemma_pow10_adds(i as nat, 1);
            assert(pow10((k - i) as nat) >= 10) by {
                vstd::arithmetic::power::lemma_pow_increases(10, 1, (k - i) as nat);
            }
        }
        if xs > 0x19999999999999999999999999999999u128 {
            // One more factor of ten leaves 128 bits, and further factors only
            // grow the product, so it cannot equal y.
            proof {
                assert(x * pow10(k as nat) == xs * pow10((k - i) as nat)) by (nonlinear_arith)
                    requires
                        xs == x * pow10(i as nat),
                        pow10(k as nat) == pow10(i as nat) * pow10((k - i) as nat),
                ;
                assert(xs * pow10((k - i) as nat) >= xs * 10) by (nonlinear_arith)
                    requires
                        xs > 0,
                        pow10((k - i) as nat) >= 10,
                ;
                assert(xs * 10 > u128::MAX);
            }
            return false;
        }
        proof {
            assert(xs * 10 == x * pow10((i + 1) as nat)) by (nonlinear_arith)
                requires
                    xs == x * pow10(i as nat),
                    pow10((i + 1) as nat) == pow10(i as nat) * pow10(1),
                    pow10(1) == 10,
            ;
            assert(xs * 10 != 0) by (nonlinear_arith)
                requires
                    xs != 0,
            ;
        }
        xs = xs * 10;
        i += 1;
    }
    xs == y
}

impl Rational {
    /// Decides whether two compact rationals denote the same value.
    pub fn same_value_as(&self, other: &Rational) -> (r: bool)
        requires
            self.compact(),
            other.compact(),
        ensures
            r == same_value(*self, *other),
    {
        proof {
            assert(self.num * other.den <= u128::MAX && other.num * self.den <= u128::MAX)
                by (nonlinear_arith)
                requires
                    self.num <= u64::MAX as u128,
                    other.den <= u64::MAX as u128,
                    other.num <= u64::MAX as u128,
                    self.den <= u64::MAX as u128,
            ;
        }
        let a: u128 = self.num * other.den;
        let b: u128 = other.num * self.den;
        let s: u64 = self.num_exp + other.den_exp;
        let t: u64 = other.num_exp + self.den_exp;
        proof {
            lemma_pow10_adds(self.num_exp as nat, other.den_exp as nat);
            lemma_pow10_adds(other.num_exp as nat, self.den_exp as nat);
            assert((self.num * pow10(self.num_exp as nat)) * (other.den * pow10(
                other.den_exp as nat,
            )) == (self.num * other.den) * (pow10(self.num_exp as nat) * pow10(
                other.den_exp as nat,
            ))) by (nonlinear_arith);
            assert((other.num * pow10(other.num_exp as nat)) * (self.den * pow10(
                self.den_exp as nat,
            )) == (other.num * self.den) * (pow10(other.num_exp as nat) * pow10(
                self.den_exp as nat,
            ))) by (nonlinear_arith);
            assert(same_value(*self, *other) == (a * pow10(s as nat) == b * pow10(t as nat)));
        }
        if s >= t {
            let r = scaled_eq(a, s - t, b);
            proof {
                lemma_pow10_adds((s - t) as nat, t as nat);
                lemma_pow10_positive(t as nat);
                assert((a * pow10(s as nat) == b * pow10(t as nat)) == (a * pow10((s - t) as nat)
                    == b)) by (nonlinear_arith)
                    requires
                        pow10(s as nat) == pow10((s - t) as nat) * pow10(t as nat),
                        pow10(t as nat) > 0,
                ;
            }
            r
        } else {
            let r = scaled_eq(b, t - s, a);
            proof {
                lemma_pow10_adds((t - s) as nat, s as nat);
                lemma_pow10_positive(s as nat);
                assert((a * pow10(s as nat) == b * pow10(t as nat)) == (b * pow10((t - s) as nat)
                    == a)) by (nonlinear_arith)
                    requires
                        pow10(t as nat) == pow10((t - s) as nat) * pow10(s as nat),
                        pow10(s as nat) > 0,
                ;
            }
            r
        }
    }
}

/// `10^e > 0`.
pub proof fn lemma_pow10_positive(e: nat)
    ensures
        pow10(e) > 0,
{
    lemma_pow_positive(10, e);
}

/// `10^(a + b) == 10^a * 10^b`.
pub proof fn lemma_pow10_adds(a: nat, b: nat)
    ensures
        pow10(a + b) == pow10(a) * pow10(b),
{
    lemma_pow_adds(10, a, b);
}

} // verus!
