//! Exponentiation modulo 2^256 by repeated squaring.

use vstd::prelude::*;
use vstd::arithmetic::div_mod::{lemma_mul_mod_noop, lemma_mul_mod_noop_left};
use vstd::arithmetic::power::{lemma_pow0, lemma_pow1, lemma_pow_adds, pow};
use vstd::arithmetic::power2::pow2;
use crate::int256::{Int256, lemma_value_bound, two_256};
use crate::int256::lemmas::{lemma_div_mod_unique, lemma_top_bit_ends, lemma_top_bit_step};

verus! {

impl Int256 {
    /// `self` raised to the power `e`, modulo 2^256.
    pub fn exp(&self, e: &Int256) -> (r: Int256)
        ensures
            r@ == pow(self@ as int, e@) % (two_256() as int),
    {
        let mut acc = Int256::one();
        let mut cur = *e;
        let mut k: u32 = 256;
        proof {
            lemma_value_bound(*e);
            lemma_top_bit_ends(e@);
            lemma_pow0(self@ as int);
            lemma_div_mod_unique(1, two_256() as int, 0, 1);
        }
        while k > 0
            invariant
                k <= 256,
                e@ < two_256(),
                cur@ == (e@ % pow2(k as nat)) * pow2((256 - k) as nat),
                acc@ == pow(self@ as int, e@ / pow2(k as nat)) % (two_256() as int),
            decreases k,
        {
            let ghost hi = e@ / pow2(k as nat);
            let (top, next) = cur.shift_out_top();
            let squared = acc.mul(&acc);
            let stepped = if top {
                squared.mul(self)
            } else {
                squared
            };
            proof {
                lemma_top_bit_step(e@, k as nat, cur@);
                let m = two_256() as int;
                let b = self@ as int;
                let x = pow(b, hi);
                lemma_mul_mod_noop(x, x, m);
                lemma_pow_adds(b, hi, hi);
                assert(squared@ == pow(b, 2 * hi) % m);
                if top {
                    lemma_mul_mod_noop_left(x * x, b, m);
                    lemma_pow_adds(b, 2 * hi, 1);
                    lemma_pow1(b);
                    assert(stepped@ == pow(b, 2 * hi + 1) % m);
                }
            }
            acc = stepped;
            cur = next;
            k = k - 1;
        }
        proof {
            lemma_top_bit_ends(e@);
        }
        acc
    }
}

} // verus!
