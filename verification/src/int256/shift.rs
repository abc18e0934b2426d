//! Shifts and byte extraction.

use vstd::prelude::*;
use vstd::arithmetic::div_mod::{lemma_fundamental_div_mod, lemma_mod_bound, lemma_mod_mod};
use vstd::arithmetic::power2::{lemma_pow2_adds, lemma_pow2_pos, pow2};
use vstd::bits::{lemma_u64_pow2_no_overflow, lemma_u64_shl_is_mul};
use crate::int256::{Int256, lemma_value_bound, two_256, two_64, wrap};
use crate::int256::lemmas::{lemma_div_mod_unique, lemma_pow2_values};

verus! {

/// Powers of two from 2^256 on are multiples of 2^256.
pub proof fn lemma_pow2_large(n: nat)
    requires
        n >= 256,
    ensures
        pow2(n) == two_256() * pow2((n - 256) as nat),
        pow2(n) >= two_256(),
{
    lemma_pow2_values();
    lemma_pow2_adds(256, (n - 256) as nat);
    lemma_pow2_pos((n - 256) as nat);
    assert(two_256() * pow2((n - 256) as nat) >= two_256()) by (nonlinear_arith)
        requires
            pow2((n - 256) as nat) >= 1,
    ;
}

/// Rounding-down division of a negative number, by way of its complement.
pub proof fn lemma_floor_div_negative(y: int, p: int)
    requires
        y >= 0,
        p > 0,
    ensures
        (-y - 1) / p == -(y / p) - 1,
{
    lemma_fundamental_div_mod(y, p);
    lemma_mod_bound(y, p);
    let q = -(y / p) - 1;
    assert(-y - 1 == q * p + (p - 1 - y % p)) by (nonlinear_arith)
        requires
            y == p * (y / p) + y % p,
            q == -(y / p) - 1,
    ;
    lemma_div_mod_unique(-y - 1, p, q, p - 1 - y % p);
}

/// How many bytes a number takes: the least `n` with `v < 256^n`.
pub open spec fn byte_length(v: nat) -> nat
    decreases v,
{
    if v == 0 {
        0
    } else {
        1 + byte_length(v / 256)
    }
}

/// A number below 256^k takes at most `k` bytes.
pub proof fn lemma_byte_length_bound(v: nat, k: nat)
    requires
        v < pow2(8 * k),
    ensures
        byte_length(v) <= k,
    decreases k,
{
    lemma_pow2_values();
    if v > 0 {
        if k == 0 {
            assert(false);
        } else {
            lemma_pow2_adds((8 * (k - 1)) as nat, 8);
            lemma_byte_length_bound(v / 256, (k - 1) as nat);
        }
    }
}

/// An arithmetic shift by 256 bits or more gives zero exactly for the values
/// whose sign bit is clear; for the others it gives the word of all ones.
pub proof fn lemma_sar_saturates(x: Int256, shift: nat)
    requires
        shift >= 256,
    ensures
        wrap(x.signed() / (pow2(shift) as int)) == 0 <==> !x.is_negative(),
        x.is_negative() ==> wrap(x.signed() / (pow2(shift) as int)) == two_256() - 1,
{
    lemma_pow2_large(shift);
    lemma_value_bound(x);
    let s = x.signed();
    if x.is_negative() {
        lemma_div_mod_unique(s, pow2(shift) as int, -1, s + pow2(shift));
        lemma_div_mod_unique(-1, two_256() as int, -1, two_256() - 1);
    } else {
        lemma_div_mod_unique(s, pow2(shift) as int, 0, s);
        lemma_div_mod_unique(0, two_256() as int, 0, 0);
    }
}

impl Int256 {
    /// The power of two with the given exponent below 256.
    pub fn pow2_int(n: u32) -> (r: Int256)
        requires
            n < 256,
        ensures
            r@ == pow2(n as nat),
    {
        let s: u64 = (n % 64) as u64;
        let bit: u64 = 1u64 << s;
        proof {
            lemma_u64_pow2_no_overflow(s as nat);
            lemma_u64_shl_is_mul(1, s);
            lemma_pow2_values();
            lemma_pow2_adds(s as nat, 64);
            lemma_pow2_adds(s as nat, 128);
            lemma_pow2_adds(s as nat, 192);
        }
        if n < 64 {
            Int256 { l0: bit, l1: 0, l2: 0, l3: 0 }
        } else if n < 128 {
            Int256 { l0: 0, l1: bit, l2: 0, l3: 0 }
        } else if n < 192 {
            Int256 { l0: 0, l1: 0, l2: bit, l3: 0 }
        } else {
            Int256 { l0: 0, l1: 0, l2: 0, l3: bit }
        }
    }

    /// Left shift by `n` bits: `x * 2^n` modulo 2^256.
    pub fn lsh(&self, n: u32) -> (r: Int256)
        ensures
            r@ == (self@ * pow2(n as nat)) % two_256(),
    {
        if n >= 256 {
            proof {
                lemma_pow2_large(n as nat);
                let p = pow2((n - 256) as nat);
                assert(self@ * pow2(n as nat) == (self@ * p) * two_256()) by (nonlinear_arith)
                    requires
                        pow2(n as nat) == two_256() * p,
                ;
                lemma_div_mod_unique(
                    (self@ * pow2(n as nat)) as int,
                    two_256() as int,
                    (self@ * p) as int,
                    0,
                );
            }
            Int256::zero()
        } else {
            self.mul(&Int256::pow2_int(n))
        }
    }

    /// Logical right shift by `n` bits: `x / 2^n`.
    pub fn rsh(&self, n: u32) -> (r: Int256)
        ensures
            r@ == self@ / pow2(n as nat),
    {
        if n >= 256 {
            proof {
                lemma_pow2_large(n as nat);
                lemma_value_bound(*self);
                lemma_div_mod_unique(self@ as int, pow2(n as nat) as int, 0, self@ as int);
            }
            Int256::zero()
        } else {
            let p = Int256::pow2_int(n);
            proof {
                lemma_pow2_pos(n as nat);
            }
            self.div_rem(&p).0
        }
    }

    /// Arithmetic right shift by `n` bits: the signed value divided by 2^n,
    /// rounded down.
    #[verifier::rlimit(50)]
    pub fn srsh(&self, n: u32) -> (r: Int256)
        ensures
            r@ == wrap(self.signed() / (pow2(n as nat) as int)),
    {
        proof {
            lemma_pow2_pos(n as nat);
            lemma_value_bound(*self);
        }
        if self.is_neg() {
            let y = self.not();
            let z = y.rsh(n);
            let r = z.not();
            proof {
                let p = pow2(n as nat) as int;
                lemma_floor_div_negative(y@ as int, p);
                assert(self.signed() == -(y@ as int) - 1);
                lemma_value_bound(z);
                lemma_div_mod_unique(-(z@ as int) - 1, two_256() as int, -1, r@ as int);
            }
            r
        } else {
            let r = self.rsh(n);
            proof {
                lemma_value_bound(r);
                lemma_div_mod_unique(r@ as int, two_256() as int, 0, r@ as int);
            }
            r
        }
    }

    /// Whether the sign bit is set.
    pub fn is_neg(&self) -> (r: bool)
        ensures
            r == self.is_negative(),
    {
        self.shift_out_top().0
    }

    /// The shift count as a machine number, 256 standing for every count from
    /// 256 on.
    pub fn shift_count(&self) -> (n: u32)
        ensures
            n == if self@ >= 256 { 256 } else { self@ },
    {
        if !self.is_u64() || self.l0 >= 256 {
            proof {
                self.lemma_low_limb();
                if self@ < two_64() {
                    lemma_div_mod_unique(self@ as int, two_64() as int, 0, self@ as int);
                }
            }
            256
        } else {
            proof {
                self.lemma_low_limb();
                lemma_div_mod_unique(self@ as int, two_64() as int, 0, self@ as int);
            }
            self.l0 as u32
        }
    }

    /// `SHL`: the value shifted left by `shift` bits; zero from 256 bits on.
    #[verifier::rlimit(50)]
    pub fn shl(&self, shift: &Int256) -> (r: Int256)
        ensures
            r@ == (self@ * pow2(shift@)) % two_256(),
            shift@ >= 256 ==> r@ == 0,
    {
        let n = shift.shift_count();
        let r = self.lsh(n);
        proof {
            if shift@ >= 256 {
                lemma_pow2_large(shift@);
                lemma_pow2_large(256);
                let p = pow2((shift@ - 256) as nat);
                assert(self@ * pow2(shift@) == (self@ * p) * two_256()) by (nonlinear_arith)
                    requires
                        pow2(shift@) == two_256() * p,
                ;
                lemma_div_mod_unique(
                    (self@ * pow2(shift@)) as int,
                    two_256() as int,
                    (self@ * p) as int,
                    0,
                );
                lemma_pow2_values();
                lemma_div_mod_unique(
                    (self@ * two_256()) as int,
                    two_256() as int,
                    self@ as int,
                    0,
                );
            }
        }
        r
    }

    /// `SHR`: the value shifted right by `shift` bits; zero from 256 bits on.
    #[verifier::rlimit(50)]
    pub fn shr(&self, shift: &Int256) -> (r: Int256)
        ensures
            r@ == self@ / pow2(shift@),
            shift@ >= 256 ==> r@ == 0,
    {
        let n = shift.shift_count();
        let r = self.rsh(n);
        proof {
            if shift@ >= 256 {
                lemma_pow2_large(shift@);
                lemma_pow2_large(256);
                lemma_value_bound(*self);
                lemma_div_mod_unique(self@ as int, pow2(shift@) as int, 0, self@ as int);
                lemma_div_mod_unique(self@ as int, pow2(256) as int, 0, self@ as int);
            }
        }
        r
    }

    /// `SAR`: the signed value shifted right by `shift` bits. From 256 bits on
    /// the result is zero for a value that is not negative and all ones for a
    /// negative one.
    #[verifier::rlimit(50)]
    pub fn sar(&self, shift: &Int256) -> (r: Int256)
        ensures
            r@ == wrap(self.signed() / (pow2(shift@) as int)),
            shift@ >= 256 ==> r@ == if self.is_negative() { (two_256() - 1) as nat } else { 0nat },
    {
        let n = shift.shift_count();
        let r = self.srsh(n);
        proof {
            if shift@ >= 256 {
                lemma_pow2_large(shift@);
                lemma_pow2_large(256);
                lemma_value_bound(*self);
                let s = self.signed();
                if self.is_negative() {
                    lemma_div_mod_unique(s, pow2(shift@) as int, -1, s + pow2(shift@));
                    lemma_div_mod_unique(s, pow2(256) as int, -1, s + pow2(256));
                    lemma_div_mod_unique(-1, two_256() as int, -1, two_256() - 1);
                } else {
                    lemma_div_mod_unique(s, pow2(shift@) as int, 0, s);
                    lemma_div_mod_unique(s, pow2(256) as int, 0, s);
                    lemma_div_mod_unique(0, two_256() as int, 0, 0);
                }
            }
        }
        r
    }

    /// How many bytes the value takes.
    #[verifier::rlimit(50)]
    pub fn byte_len(&self) -> (n: u32)
        ensures
            n == byte_length(self@),
            n <= 32,
    {
        let mut n: u32 = 0;
        let mut v = *self;
        proof {
            lemma_pow2_values();
            lemma_value_bound(*self);
            lemma_byte_length_bound(self@, 32);
        }
        while !v.is_zero()
            invariant
                n + byte_length(v@) == byte_length(self@),
                byte_length(self@) <= 32,
            decreases v@,
        {
            proof {
                lemma_pow2_values();
            }
            v = v.rsh(8);
            n = n + 1;
        }
        n
    }

    /// `BYTE`: the `i`-th byte counted from the most significant one; zero
    /// when `i` is 32 or more.
    pub fn byte(&self, i: &Int256) -> (r: Int256)
        ensures
            r@ == if i@ < 32 { (self@ / pow2((8 * (31 - i@)) as nat)) % 256 } else { 0 },
    {
        let which = i.shift_count();
        if which >= 32 {
            Int256::zero()
        } else {
            let y = self.rsh(8 * (31 - which));
            let b = y.l0 % 256;
            proof {
                y.lemma_low_limb();
                lemma_mod_mod(y@ as int, 256, 0x100_0000_0000_0000);
            }
            Int256::from_u64(b)
        }
    }
}

} // verus!
