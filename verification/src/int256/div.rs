//! Division, remainder and modular addition and multiplication.

use vstd::prelude::*;
use vstd::arithmetic::div_mod::{lemma_add_mod_noop, lemma_mod_bound, lemma_mul_mod_noop_right};
use vstd::arithmetic::power2::pow2;
use crate::int256::{Int256, lemma_value_bound, lemma_value_order, two_255, two_256};
use crate::int256::lemmas::{lemma_div_mod_unique, lemma_top_bit_ends, lemma_top_bit_step};

verus! {

impl Int256 {
    /// Whether the top bit is set, and the value doubled modulo 2^256.
    pub fn shift_out_top(&self) -> (r: (bool, Int256))
        ensures
            r.0 == (self@ >= two_255()),
            r.1@ == 2 * self@ - (if r.0 { two_256() } else { 0nat }),
    {
        let top = self.l3 >= 0x8000_0000_0000_0000;
        proof {
            lemma_value_order(*self, Int256 { l0: 0, l1: 0, l2: 0, l3: 0x8000_0000_0000_0000 });
        }
        let (doubled, _carry) = self.overflowing_add(self);
        (top, doubled)
    }

    /// The sum modulo `n` of two numbers below `n`.
    #[verifier::rlimit(50)]
    pub fn add_reduced(&self, other: &Int256, n: &Int256) -> (r: Int256)
        requires
            self@ < n@,
            other@ < n@,
        ensures
            r@ == (self@ + other@) % n@,
            r@ < n@,
    {
        let (s, carry) = self.overflowing_add(other);
        if carry || s.ge(n) {
            let r = s.sub(n);
            proof {
                let v = self@ + other@;
                lemma_value_bound(*n);
                lemma_value_bound(s);
                assert(0 <= v - n@ < n@);
                lemma_div_mod_unique(
                    s@ - n@,
                    two_256() as int,
                    if carry { -1 } else { 0 },
                    v - n@,
                );
                lemma_div_mod_unique(v as int, n@ as int, 1, v - n@);
            }
            r
        } else {
            proof {
                lemma_div_mod_unique((self@ + other@) as int, n@ as int, 0, (self@ + other@) as int);
            }
            s
        }
    }

    /// Quotient and remainder of the division by a divisor other than zero.
    #[verifier::rlimit(50)]
    pub fn div_rem(&self, d: &Int256) -> (r: (Int256, Int256))
        requires
            d@ != 0,
        ensures
            r.0@ == self@ / d@,
            r.1@ == self@ % d@,
    {
        let mut q = Int256::zero();
        let mut rem = Int256::zero();
        let mut cur = *self;
        let mut n: u32 = 256;
        proof {
            lemma_value_bound(*self);
            lemma_top_bit_ends(self@);
        }
        while n > 0
            invariant
                n <= 256,
                d@ != 0,
                self@ < two_256(),
                cur@ == (self@ % pow2(n as nat)) * pow2((256 - n) as nat),
                self@ / pow2(n as nat) == q@ * d@ + rem@,
                rem@ < d@,
            decreases n,
        {
            let ghost hi = self@ / pow2(n as nat);
            let ghost hi_next = self@ / pow2((n - 1) as nat);
            let (top, next) = cur.shift_out_top();
            proof {
                lemma_top_bit_step(self@, n as nat, cur@);
                assert(hi_next == 2 * hi + (if top { 1nat } else { 0nat }));
                vstd::arithmetic::power2::lemma_pow2_pos((n - 1) as nat);
                assert(hi_next * pow2((n - 1) as nat) <= self@) by {
                    vstd::arithmetic::div_mod::lemma_fundamental_div_mod(
                        self@ as int,
                        pow2((n - 1) as nat) as int,
                    );
                    lemma_mod_bound(self@ as int, pow2((n - 1) as nat) as int);
                    assert(pow2((n - 1) as nat) * hi_next == hi_next * pow2((n - 1) as nat))
                        by (nonlinear_arith);
                }
                assert(hi_next <= self@) by (nonlinear_arith)
                    requires
                        hi_next * pow2((n - 1) as nat) <= self@,
                        pow2((n - 1) as nat) > 0,
                ;
            }
            let (r2, c1) = rem.overflowing_add(&rem);
            let (r3, c2) = r2.overflowing_add(&Int256::from_bool(top));
            // 2 * rem + top == r3 + (c1 + c2) * 2^256 < 2 * d
            let take = c1 || c2 || r3.ge(d);
            let ghost v = 2 * rem@ + (if top { 1nat } else { 0nat });
            let ghost q_next = 2 * q@ + (if take { 1nat } else { 0nat });
            let ghost r_next = (v - (if take { d@ } else { 0nat })) as nat;
            proof {
                assert(v < 2 * d@);
                assert(0 <= v - (if take { d@ } else { 0nat }) < d@);
                assert(hi_next == q_next * d@ + r_next) by (nonlinear_arith)
                    requires
                        hi == q@ * d@ + rem@,
                        hi_next == 2 * hi + (if top { 1nat } else { 0nat }),
                        v == 2 * rem@ + (if top { 1nat } else { 0nat }),
                        q_next == 2 * q@ + (if take { 1nat } else { 0nat }),
                        r_next == v - (if take { d@ } else { 0nat }),
                ;
                assert(q_next <= hi_next) by (nonlinear_arith)
                    requires
                        hi_next == q_next * d@ + r_next,
                        d@ >= 1,
                ;
            }
            let (q2, _cq) = q.overflowing_add(&q);
            if take {
                let (q3, _cq3) = q2.overflowing_add(&Int256::one());
                let r4 = r3.sub(d);
                proof {
                    lemma_value_bound(*d);
                    lemma_div_mod_unique(
                        r3@ - d@,
                        two_256() as int,
                        if c1 || c2 { -1 } else { 0 },
                        v - d@,
                    );
                }
                q = q3;
                rem = r4;
            } else {
                q = q2;
                rem = r3;
            }
            cur = next;
            n = n - 1;
        }
        proof {
            lemma_top_bit_ends(self@);
            assert(q@ * d@ == d@ * q@) by (nonlinear_arith);
            lemma_div_mod_unique(self@ as int, d@ as int, q@ as int, rem@ as int);
        }
        (q, rem)
    }

    /// Unsigned division; zero when the divisor is zero.
    pub fn div(&self, d: &Int256) -> (r: Int256)
        ensures
            r@ == if d@ == 0 { 0 } else { self@ / d@ },
    {
        if d.is_zero() {
            Int256::zero()
        } else {
            self.div_rem(d).0
        }
    }

    /// Unsigned remainder; zero when the divisor is zero.
    pub fn modulo(&self, d: &Int256) -> (r: Int256)
        ensures
            r@ == if d@ == 0 { 0 } else { self@ % d@ },
    {
        if d.is_zero() {
            Int256::zero()
        } else {
            self.div_rem(d).1
        }
    }

    /// `(self + other) mod n` on the true sum; zero when `n` is zero.
    pub fn add_mod(&self, other: &Int256, n: &Int256) -> (r: Int256)
        ensures
            r@ == if n@ == 0 { 0 } else { (self@ + other@) % n@ },
    {
        if n.is_zero() {
            Int256::zero()
        } else {
            let a = self.div_rem(n).1;
            let b = other.div_rem(n).1;
            proof {
                lemma_mod_bound(self@ as int, n@ as int);
                lemma_mod_bound(other@ as int, n@ as int);
                lemma_add_mod_noop(self@ as int, other@ as int, n@ as int);
            }
            a.add_reduced(&b, n)
        }
    }

    /// `(self * other) mod n` on the true product; zero when `n` is zero.
    #[verifier::rlimit(50)]
    pub fn mul_mod(&self, other: &Int256, n: &Int256) -> (r: Int256)
        ensures
            r@ == if n@ == 0 { 0 } else { (self@ * other@) % n@ },
    {
        if n.is_zero() {
            return Int256::zero();
        }
        let a = self.div_rem(n).1;
        let mut acc = Int256::zero();
        let mut cur = *other;
        let mut k: u32 = 256;
        proof {
            lemma_value_bound(*other);
            lemma_top_bit_ends(other@);
            lemma_mod_bound(self@ as int, n@ as int);
            assert(self@ * 0 == 0) by (nonlinear_arith);
            lemma_div_mod_unique(0, n@ as int, 0, 0);
        }
        while k > 0
            invariant
                k <= 256,
                n@ != 0,
                other@ < two_256(),
                a@ == self@ % n@,
                a@ < n@,
                cur@ == (other@ % pow2(k as nat)) * pow2((256 - k) as nat),
                acc@ == (self@ * (other@ / pow2(k as nat))) % n@,
                acc@ < n@,
            decreases k,
        {
            let ghost hi = other@ / pow2(k as nat);
            let (top, next) = cur.shift_out_top();
            let doubled = acc.add_reduced(&acc, n);
            let stepped = if top {
                doubled.add_reduced(&a, n)
            } else {
                doubled
            };
            proof {
                lemma_top_bit_step(other@, k as nat, cur@);
                let m = n@ as int;
                let x = (self@ * hi) as int;
                // doubled == (2 * (x % m)) % m == (2 * x) % m
                lemma_mul_mod_noop_right(2, x, m);
                assert(doubled@ == (2 * x) % m);
                if top {
                    lemma_add_mod_noop(2 * x, self@ as int, m);
                    assert(self@ * (2 * hi + 1) == 2 * x + self@) by (nonlinear_arith)
                        requires
                            x == self@ * hi,
                    ;
                } else {
                    assert(self@ * (2 * hi) == 2 * x) by (nonlinear_arith)
                        requires
                            x == self@ * hi,
                    ;
                }
            }
            acc = stepped;
            cur = next;
            k = k - 1;
        }
        proof {
            lemma_top_bit_ends(other@);
        }
        acc
    }
}

} // verus!
