//! Multiplication modulo 2^256.

use vstd::prelude::*;
use vstd::arithmetic::div_mod::{lemma_add_mod_noop, lemma_mul_mod_noop_left};
use crate::int256::{Int256, lemma_value_bound, two_128, two_192, two_256, two_64};
use crate::int256::lemmas::lemma_div_mod_unique;

verus! {

const LIMB_BASE: u128 = 0x1_0000_0000_0000_0000;

/// A product distributes over the four limbs of a factor.
#[verifier::rlimit(50)]
pub proof fn lemma_mul_by_limbs(l0: nat, l1: nat, l2: nat, l3: nat, m: nat)
    by (nonlinear_arith)
    ensures
        (l0 + l1 * two_64() + l2 * two_128() + l3 * two_192()) * m == l0 * m + (l1 * m) * two_64()
            + (l2 * m) * two_128() + (l3 * m) * two_192(),
        m * (l0 + l1 * two_64() + l2 * two_128() + l3 * two_192()) == m * l0 + (m * l1) * two_64()
            + (m * l2) * two_128() + (m * l3) * two_192(),
{
}

/// The full 128-bit product of two 64-bit numbers.
pub fn mul_wide(x: u64, y: u64) -> (p: u128)
    ensures
        p == x * y,
        p <= 0xffff_ffff_ffff_fffe_0000_0000_0000_0001,
{
    assert(x * y <= 0xffff_ffff_ffff_ffff * 0xffff_ffff_ffff_ffff) by (nonlinear_arith)
        requires
            0 <= x <= 0xffff_ffff_ffff_ffff,
            0 <= y <= 0xffff_ffff_ffff_ffff,
    ;
    (x as u128) * (y as u128)
}

impl Int256 {
    /// The 320-bit product with a single limb: its low 256 bits and the limb
    /// above them.
    #[verifier::rlimit(50)]
    pub fn mul_limb(&self, m: u64) -> (r: (Int256, u64))
        ensures
            r.0@ + r.1 * two_256() == self@ * m,
            r.0@ == (self@ * (m as nat)) % two_256(),
    {
        let part0: u128 = mul_wide(self.l0, m);
        let part1: u128 = mul_wide(self.l1, m) + part0 / LIMB_BASE;
        let part2: u128 = mul_wide(self.l2, m) + part1 / LIMB_BASE;
        let part3: u128 = mul_wide(self.l3, m) + part2 / LIMB_BASE;
        let lo = Int256 {
            l0: (part0 % LIMB_BASE) as u64,
            l1: (part1 % LIMB_BASE) as u64,
            l2: (part2 % LIMB_BASE) as u64,
            l3: (part3 % LIMB_BASE) as u64,
        };
        let hi = (part3 / LIMB_BASE) as u64;
        proof {
            lemma_mul_by_limbs(
                self.l0 as nat,
                self.l1 as nat,
                self.l2 as nat,
                self.l3 as nat,
                m as nat,
            );
            assert(lo@ + hi * two_256() == self@ * m);
            lemma_value_bound(lo);
            lemma_div_mod_unique((self@ * m) as int, two_256() as int, hi as int, lo@ as int);
        }
        (lo, hi)
    }

    /// The value moved up by one limb: `x * 2^64` modulo 2^256.
    #[verifier::rlimit(50)]
    pub fn shl_limb(&self) -> (r: Int256)
        ensures
            r@ == (self@ * two_64()) % two_256(),
    {
        let r = Int256 { l0: 0, l1: self.l0, l2: self.l1, l3: self.l2 };
        proof {
            lemma_value_bound(r);
            assert(self@ * two_64() == r@ + self.l3 * two_256());
            lemma_div_mod_unique(
                (self@ * two_64()) as int,
                two_256() as int,
                self.l3 as int,
                r@ as int,
            );
        }
        r
    }

    /// Multiplication modulo 2^256.
    #[verifier::rlimit(50)]
    pub fn mul(&self, other: &Int256) -> (r: Int256)
        ensures
            r@ == (self@ * other@) % two_256(),
    {
        let row0 = self.mul_limb(other.l0).0;
        let row1 = self.mul_limb(other.l1).0.shl_limb();
        let row2 = self.mul_limb(other.l2).0.shl_limb().shl_limb();
        let row3 = self.mul_limb(other.l3).0.shl_limb().shl_limb().shl_limb();
        let r = row0.add(&row1).add(&row2).add(&row3);
        proof {
            let m = two_256() as int;
            let a = self@ as int;
            let x0 = a * other.l0;
            let x1 = (a * other.l1) * two_64();
            let x2 = (a * other.l2) * two_128();
            let x3 = (a * other.l3) * two_192();
            lemma_mul_by_limbs(
                other.l0 as nat,
                other.l1 as nat,
                other.l2 as nat,
                other.l3 as nat,
                self@,
            );
            assert(a * other@ == x0 + x1 + x2 + x3);
            assert(row0@ == x0 % m);
            assert(row1@ == x1 % m) by {
                lemma_mul_mod_noop_left(a * other.l1, two_64() as int, m);
            }
            assert(row2@ == x2 % m) by {
                let y = (a * other.l2) * two_64();
                lemma_mul_mod_noop_left(a * other.l2, two_64() as int, m);
                lemma_mul_mod_noop_left(y, two_64() as int, m);
                assert(y * two_64() == x2) by (nonlinear_arith)
                    requires
                        y == (a * other.l2) * two_64(),
                        x2 == (a * other.l2) * two_128(),
                ;
            }
            assert(row3@ == x3 % m) by {
                let y = (a * other.l3) * two_64();
                let z = y * two_64();
                lemma_mul_mod_noop_left(a * other.l3, two_64() as int, m);
                lemma_mul_mod_noop_left(y, two_64() as int, m);
                lemma_mul_mod_noop_left(z, two_64() as int, m);
                assert(z * two_64() == x3) by (nonlinear_arith)
                    requires
                        z == ((a * other.l3) * two_64()) * two_64(),
                        x3 == (a * other.l3) * two_192(),
                ;
            }
            lemma_add_mod_noop(x0, x1, m);
            lemma_add_mod_noop(x0 + x1, x2, m);
            lemma_add_mod_noop(x0 + x1 + x2, x3, m);
            assert(((x0 + x1) % m) % m == (x0 + x1) % m) by {
                vstd::arithmetic::div_mod::lemma_mod_twice(x0 + x1, m);
            }
            assert(((x0 + x1 + x2) % m) % m == (x0 + x1 + x2) % m) by {
                vstd::arithmetic::div_mod::lemma_mod_twice(x0 + x1 + x2, m);
            }
            assert((x3 % m) % m == x3 % m) by {
                vstd::arithmetic::div_mod::lemma_mod_twice(x3, m);
            }
            assert((x2 % m) % m == x2 % m) by {
                vstd::arithmetic::div_mod::lemma_mod_twice(x2, m);
            }
        }
        r
    }
}

} // verus!
