//! Operations on the two's-complement reading of a value.

use vstd::prelude::*;
use vstd::arithmetic::div_mod::{lemma_fundamental_div_mod, lemma_mod_bound};
use vstd::arithmetic::power2::{lemma_pow2_adds, lemma_pow2_pos, pow2};
use crate::int256::{Int256, lemma_value_bound, two_255, two_256, wrap};
use crate::int256::lemmas::{lemma_div_mod_unique, lemma_pow2_values};

verus! {

/// The magnitude of a signed number.
pub open spec fn abs_value(s: int) -> nat {
    if s < 0 {
        (-s) as nat
    } else {
        s as nat
    }
}

/// Division that rounds toward zero, for a divisor other than zero.
pub open spec fn trunc_div(x: int, y: int) -> int {
    if (x < 0) == (y < 0) {
        (abs_value(x) / abs_value(y)) as int
    } else {
        -((abs_value(x) / abs_value(y)) as int)
    }
}

/// The remainder that goes with `trunc_div`: it has the sign of the dividend.
pub open spec fn trunc_rem(x: int, y: int) -> int {
    if x < 0 {
        -((abs_value(x) % abs_value(y)) as int)
    } else {
        (abs_value(x) % abs_value(y)) as int
    }
}

/// What `SIGNEXTEND` yields: the low `k + 1` bytes of `x`, with the top bit of
/// byte `k` copied into every higher bit. From `k = 31` on nothing changes.
pub open spec fn sign_extend_spec(x: nat, k: nat) -> nat {
    if k >= 31 {
        x
    } else {
        let bits = 8 * (k + 1);
        let low = x % pow2(bits);
        if low >= pow2((bits - 1) as nat) {
            (low + two_256() - pow2(bits)) as nat
        } else {
            low
        }
    }
}

/// A value below 2^256 is its own residue.
pub proof fn lemma_wrap_small(v: int)
    requires
        0 <= v < two_256(),
    ensures
        wrap(v) == v,
{
    lemma_div_mod_unique(v, two_256() as int, 0, v);
}

/// The residue of a negative number above -2^256.
pub proof fn lemma_wrap_negative(v: int)
    requires
        -(two_256() as int) <= v < 0,
    ensures
        wrap(v) == v + two_256(),
{
    lemma_div_mod_unique(v, two_256() as int, -1, v + two_256());
}

impl Int256 {
    /// The magnitude of the signed value.
    pub fn abs(&self) -> (r: Int256)
        ensures
            r@ == abs_value(self.signed()),
            r@ <= two_255(),
    {
        proof {
            lemma_value_bound(*self);
        }
        if self.is_neg() {
            proof {
                lemma_wrap_negative(-(self@ as int));
            }
            self.neg()
        } else {
            *self
        }
    }

    /// Signed less-than.
    pub fn slt(&self, other: &Int256) -> (r: bool)
        ensures
            r == (self.signed() < other.signed()),
    {
        proof {
            lemma_value_bound(*self);
            lemma_value_bound(*other);
        }
        let a = self.is_neg();
        let b = other.is_neg();
        if a != b {
            a
        } else {
            self.lt(other)
        }
    }

    /// Signed greater-than.
    pub fn sgt(&self, other: &Int256) -> (r: bool)
        ensures
            r == (self.signed() > other.signed()),
    {
        other.slt(self)
    }

    /// `SDIV`: signed division rounding toward zero, modulo 2^256; zero when
    /// the divisor is zero. The one quotient that does not fit, of the least
    /// value by minus one, wraps to the least value.
    pub fn signed_div(&self, d: &Int256) -> (r: Int256)
        ensures
            r@ == if d@ == 0 { 0 } else { wrap(trunc_div(self.signed(), d.signed())) },
    {
        if d.is_zero() {
            return Int256::zero();
        }
        proof {
            lemma_value_bound(*self);
            lemma_value_bound(*d);
        }
        let q = self.abs().div_rem(&d.abs()).0;
        proof {
            lemma_value_bound(q);
        }
        if self.is_neg() != d.is_neg() {
            q.neg()
        } else {
            proof {
                lemma_wrap_small(q@ as int);
            }
            q
        }
    }

    /// `SMOD`: the remainder of the signed division, with the sign of the
    /// dividend; zero when the divisor is zero.
    pub fn signed_modulo(&self, d: &Int256) -> (r: Int256)
        ensures
            r@ == if d@ == 0 { 0 } else { wrap(trunc_rem(self.signed(), d.signed())) },
    {
        if d.is_zero() {
            return Int256::zero();
        }
        proof {
            lemma_value_bound(*self);
            lemma_value_bound(*d);
        }
        let m = self.abs().div_rem(&d.abs()).1;
        proof {
            lemma_value_bound(m);
        }
        if self.is_neg() {
            m.neg()
        } else {
            proof {
                lemma_wrap_small(m@ as int);
            }
            m
        }
    }

    /// `SIGNEXTEND`: extends the sign of the low `k + 1` bytes over the whole
    /// word.
    #[verifier::rlimit(50)]
    pub fn sign_extend(&self, k: &Int256) -> (r: Int256)
        ensures
            r@ == sign_extend_spec(self@, k@),
    {
        let which = k.shift_count();
        if which >= 31 {
            return *self;
        }
        let bits: u32 = 8 * (which + 1);
        let s: u32 = 256 - bits;
        let y = self.lsh(s);
        let r = y.srsh(s);
        proof {
            lemma_pow2_values();
            lemma_value_bound(*self);
            let pb = pow2(bits as nat) as int;
            let ph = pow2((bits - 1) as nat) as int;
            let ps = pow2(s as nat) as int;
            lemma_pow2_pos(bits as nat);
            lemma_pow2_pos((bits - 1) as nat);
            lemma_pow2_pos(s as nat);
            lemma_pow2_adds(bits as nat, s as nat);
            lemma_pow2_adds((bits - 1) as nat, s as nat);
            lemma_pow2_adds((bits - 1) as nat, 1);
            assert(pb * ps == two_256());
            assert(ph * ps == two_255());
            assert(pb == 2 * ph);
            let x = self@ as int;
            let low = x % pb;
            let hi = x / pb;
            lemma_fundamental_div_mod(x, pb);
            lemma_mod_bound(x, pb);
            assert(x * ps == hi * two_256() + low * ps) by (nonlinear_arith)
                requires
                    x == pb * hi + low,
                    pb * ps == two_256(),
            ;
            assert(0 <= low * ps < two_256()) by (nonlinear_arith)
                requires
                    0 <= low < pb,
                    ps > 0,
                    pb * ps == two_256(),
            ;
            lemma_div_mod_unique(x * ps, two_256() as int, hi, low * ps);
            assert(y@ == low * ps);
            assert((low >= ph) == (low * ps >= ph * ps)) by (nonlinear_arith)
                requires
                    ps > 0,
            ;
            let t: int = if low >= ph { 1 } else { 0 };
            assert(y.signed() == (low - t * pb) * ps) by (nonlinear_arith)
                requires
                    y.signed() == low * ps - t * two_256(),
                    pb * ps == two_256(),
            ;
            lemma_div_mod_unique(y.signed(), ps, low - t * pb, 0);
            if t == 1 {
                lemma_wrap_negative(low - pb);
            } else {
                lemma_wrap_small(low);
            }
        }
        r
    }
}

} // verus!
