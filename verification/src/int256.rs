//! 256-bit unsigned integers with the wrapping, signed and modular operations
//! of the virtual machine.
//!
//! A value is held as four 64-bit limbs, least significant first. Every
//! combination of limbs is a valid value, so two integers are equal exactly when
//! their limbs are.

use vstd::prelude::*;
use crate::int256::lemmas::lemma_div_mod_unique;

pub mod bytes;
pub mod div;
pub mod exp;
pub mod lemmas;
pub mod mul;
pub mod shift;
pub mod signed;

verus! {

/// 2^64, the weight of the second limb.
pub open spec fn two_64() -> nat {
    0x1_0000_0000_0000_0000nat
}

/// 2^128, the weight of the third limb.
pub open spec fn two_128() -> nat {
    0x1_0000_0000_0000_0000_0000_0000_0000_0000nat
}

/// 2^192, the weight of the fourth limb.
pub open spec fn two_192() -> nat {
    0x1_0000_0000_0000_0000_0000_0000_0000_0000_0000_0000_0000_0000nat
}

/// 2^255, the weight of the sign bit.
pub open spec fn two_255() -> nat {
    0x8000_0000_0000_0000_0000_0000_0000_0000_0000_0000_0000_0000_0000_0000_0000_0000nat
}

/// 2^256, the modulus of all wrapping arithmetic.
pub open spec fn two_256() -> nat {
    0x1_0000_0000_0000_0000_0000_0000_0000_0000_0000_0000_0000_0000_0000_0000_0000_0000nat
}

/// The number that four limbs stand for.
pub open spec fn limbs_value(l0: u64, l1: u64, l2: u64, l3: u64) -> nat {
    (l0 as nat) + (l1 as nat) * two_64() + (l2 as nat) * two_128() + (l3 as nat) * two_192()
}

/// The signed reading of an unsigned 256-bit number (two's complement).
pub open spec fn signed_value(v: nat) -> int {
    if v >= two_255() {
        v as int - two_256() as int
    } else {
        v as int
    }
}

/// The unsigned 256-bit number whose signed reading is congruent to `s`.
pub open spec fn wrap(s: int) -> nat {
    (s % (two_256() as int)) as nat
}

const LIMB_BASE: u128 = 0x1_0000_0000_0000_0000;

/// A 256-bit unsigned integer.
#[derive(Clone, Copy, Debug, PartialEq, Eq, Structural)]
pub struct Int256 {
    pub l0: u64,
    pub l1: u64,
    pub l2: u64,
    pub l3: u64,
}

impl View for Int256 {
    type V = nat;

    open spec fn view(&self) -> nat {
        limbs_value(self.l0, self.l1, self.l2, self.l3)
    }
}

/// The order of two values is the lexicographic order of their limbs, most
/// significant first.
#[verifier::rlimit(50)]
pub proof fn lemma_value_order(a: Int256, b: Int256)
    ensures
        a@ < b@ <==> (a.l3 < b.l3 || (a.l3 == b.l3 && (a.l2 < b.l2 || (a.l2 == b.l2 && (a.l1 < b.l1
            || (a.l1 == b.l1 && a.l0 < b.l0)))))),
{
    let low_a = (a.l0 as nat) + (a.l1 as nat) * two_64() + (a.l2 as nat) * two_128();
    let low_b = (b.l0 as nat) + (b.l1 as nat) * two_64() + (b.l2 as nat) * two_128();
    let mid_a = (a.l0 as nat) + (a.l1 as nat) * two_64();
    let mid_b = (b.l0 as nat) + (b.l1 as nat) * two_64();
    assert(low_a < two_192() && low_b < two_192());
    assert(mid_a < two_128() && mid_b < two_128());
    assert(a@ == low_a + (a.l3 as nat) * two_192());
    assert(b@ == low_b + (b.l3 as nat) * two_192());
    assert(low_a == mid_a + (a.l2 as nat) * two_128());
    assert(low_b == mid_b + (b.l2 as nat) * two_128());
    if a.l3 < b.l3 {
        assert((a.l3 as nat + 1) * two_192() <= (b.l3 as nat) * two_192());
    } else if b.l3 < a.l3 {
        assert((b.l3 as nat + 1) * two_192() <= (a.l3 as nat) * two_192());
    } else if a.l2 < b.l2 {
        assert((a.l2 as nat + 1) * two_128() <= (b.l2 as nat) * two_128());
    } else if b.l2 < a.l2 {
        assert((b.l2 as nat + 1) * two_128() <= (a.l2 as nat) * two_128());
    } else if a.l1 < b.l1 {
        assert((a.l1 as nat + 1) * two_64() <= (b.l1 as nat) * two_64());
    } else if b.l1 < a.l1 {
        assert((b.l1 as nat + 1) * two_64() <= (a.l1 as nat) * two_64());
    }
}

/// Equal values have equal limbs.
pub proof fn lemma_value_injective(a: Int256, b: Int256)
    requires
        a@ == b@,
    ensures
        a == b,
{
    lemma_value_order(a, b);
    lemma_value_order(b, a);
}

/// The word that holds the number `v`, for `v` below 2^256.
pub open spec fn word(v: nat) -> Int256 {
    Int256 {
        l0: (v % two_64()) as u64,
        l1: ((v / two_64()) % two_64()) as u64,
        l2: ((v / two_128()) % two_64()) as u64,
        l3: ((v / two_192()) % two_64()) as u64,
    }
}

/// A word is the word that holds its value.
#[verifier::rlimit(50)]
pub proof fn lemma_word(a: Int256)
    ensures
        word(a@) == a,
{
    let b = two_64() as int;
    let v = a@ as int;
    let h1 = (a.l1 as int) + (a.l2 as int) * two_64() + (a.l3 as int) * two_128();
    let h2 = (a.l2 as int) + (a.l3 as int) * two_64();
    let h3 = a.l3 as int;
    let r2 = (a.l0 as int) + (a.l1 as int) * two_64();
    let r3 = r2 + (a.l2 as int) * two_128();
    lemma_div_mod_unique(v, b, h1, a.l0 as int);
    lemma_div_mod_unique(v, two_128() as int, h2, r2);
    lemma_div_mod_unique(v, two_192() as int, h3, r3);
    lemma_div_mod_unique(h1, b, h2, a.l1 as int);
    lemma_div_mod_unique(h2, b, h3, a.l2 as int);
    lemma_div_mod_unique(h3, b, 0, a.l3 as int);
}

/// The word that holds a number below 2^256 has that number as its value.
#[verifier::rlimit(50)]
pub proof fn lemma_word_value(v: nat)
    requires
        v < two_256(),
    ensures
        word(v)@ == v,
{
    let b = two_64() as int;
    let x = v as int;
    vstd::arithmetic::div_mod::lemma_fundamental_div_mod(x, b);
    vstd::arithmetic::div_mod::lemma_fundamental_div_mod(x / b, b);
    vstd::arithmetic::div_mod::lemma_fundamental_div_mod(x / b / b, b);
    vstd::arithmetic::div_mod::lemma_div_denominator(x, b, b);
    vstd::arithmetic::div_mod::lemma_div_denominator(x, two_128() as int, b);
    assert(b * b == two_128() && two_128() * b == two_192()) by (nonlinear_arith)
        requires
            b == two_64(),
    ;
    let q3 = x / (two_192() as int);
    assert(q3 < b) by {
        if q3 >= b {
            vstd::arithmetic::div_mod::lemma_fundamental_div_mod(x, two_192() as int);
            assert(two_192() * q3 >= two_192() * b) by (nonlinear_arith)
                requires
                    q3 >= b,
            ;
        }
    }
    assert(0 <= q3) by {
        vstd::arithmetic::div_mod::lemma_div_pos_is_pos(x, two_192() as int);
    }
    lemma_div_mod_unique(q3, b, 0, q3);
    vstd::arithmetic::div_mod::lemma_fundamental_div_mod(x / (two_128() as int), b);
}

/// Every value lies below 2^256.
pub proof fn lemma_value_bound(a: Int256)
    ensures
        a@ < two_256(),
{
}

/// Adding limb by limb with carries adds the values.
#[verifier::rlimit(50)]
proof fn lemma_add_limbs(a: Int256, b: Int256, r: Int256, c0: int, c1: int, c2: int, c3: int)
    requires
        a.l0 + b.l0 == r.l0 + c0 * two_64(),
        a.l1 + b.l1 + c0 == r.l1 + c1 * two_64(),
        a.l2 + b.l2 + c1 == r.l2 + c2 * two_64(),
        a.l3 + b.l3 + c2 == r.l3 + c3 * two_64(),
    ensures
        a@ + b@ == r@ + c3 * two_256(),
{
    assert(a@ + b@ == (a.l0 + b.l0) + (a.l1 + b.l1) * two_64() + (a.l2 + b.l2) * two_128() + (a.l3
        + b.l3) * two_192());
    assert(c0 * two_64() * 1 + (c1 * two_64() - c0) * two_64() + (c2 * two_64() - c1) * two_128()
        + (c3 * two_64() - c2) * two_192() == c3 * two_256());
}

/// Subtracting limb by limb with borrows subtracts the values.
#[verifier::rlimit(50)]
proof fn lemma_sub_limbs(a: Int256, b: Int256, r: Int256, c0: int, c1: int, c2: int, c3: int)
    requires
        a.l0 - b.l0 == r.l0 - c0 * two_64(),
        a.l1 - b.l1 - c0 == r.l1 - c1 * two_64(),
        a.l2 - b.l2 - c1 == r.l2 - c2 * two_64(),
        a.l3 - b.l3 - c2 == r.l3 - c3 * two_64(),
    ensures
        a@ - b@ == r@ - c3 * two_256(),
{
    assert(a@ - b@ == (a.l0 - b.l0) + (a.l1 - b.l1) * two_64() + (a.l2 - b.l2) * two_128() + (a.l3
        - b.l3) * two_192());
    assert(c0 * two_64() * 1 + (c1 * two_64() - c0) * two_64() + (c2 * two_64() - c1) * two_128()
        + (c3 * two_64() - c2) * two_192() == c3 * two_256());
}

impl Int256 {
    /// The signed reading of the value.
    pub open spec fn signed(self) -> int {
        signed_value(self@)
    }

    /// Whether the sign bit is set.
    pub open spec fn is_negative(self) -> bool {
        self@ >= two_255()
    }

    /// The lowest limb is the value modulo 2^64.
    #[verifier::rlimit(50)]
    pub proof fn lemma_low_limb(self)
        ensures
            self.l0 == self@ % two_64(),
    {
        let q = (self.l1 as int) + (self.l2 as int) * two_64() + (self.l3 as int) * two_128();
        assert(self@ == q * two_64() + self.l0) by (nonlinear_arith)
            requires
                self@ == (self.l0 as nat) + (self.l1 as nat) * two_64() + (self.l2 as nat)
                    * two_128() + (self.l3 as nat) * two_192(),
                q == (self.l1 as int) + (self.l2 as int) * two_64() + (self.l3 as int) * two_128(),
                two_64() == 0x1_0000_0000_0000_0000,
                two_128() == 0x1_0000_0000_0000_0000_0000_0000_0000_0000,
                two_192() == 0x1_0000_0000_0000_0000_0000_0000_0000_0000_0000_0000_0000_0000,
        ;
        lemma_div_mod_unique(self@ as int, two_64() as int, q, self.l0 as int);
    }

    /// Bitwise conjunction, limb by limb.
    pub open spec fn spec_and(self, other: Int256) -> Int256 {
        Int256 {
            l0: self.l0 & other.l0,
            l1: self.l1 & other.l1,
            l2: self.l2 & other.l2,
            l3: self.l3 & other.l3,
        }
    }

    /// Bitwise disjunction, limb by limb.
    pub open spec fn spec_or(self, other: Int256) -> Int256 {
        Int256 {
            l0: self.l0 | other.l0,
            l1: self.l1 | other.l1,
            l2: self.l2 | other.l2,
            l3: self.l3 | other.l3,
        }
    }

    /// Bitwise exclusive or, limb by limb.
    pub open spec fn spec_xor(self, other: Int256) -> Int256 {
        Int256 {
            l0: self.l0 ^ other.l0,
            l1: self.l1 ^ other.l1,
            l2: self.l2 ^ other.l2,
            l3: self.l3 ^ other.l3,
        }
    }

    /// The word of value zero.
    pub open spec fn spec_zero() -> Int256 {
        Int256 { l0: 0, l1: 0, l2: 0, l3: 0 }
    }

    /// The word of value one.
    pub open spec fn spec_one() -> Int256 {
        Int256 { l0: 1, l1: 0, l2: 0, l3: 0 }
    }

    pub fn zero() -> (r: Int256)
        ensures
            r@ == 0,
            r == Int256::spec_zero(),
    {
        Int256 { l0: 0, l1: 0, l2: 0, l3: 0 }
    }

    pub fn one() -> (r: Int256)
        ensures
            r@ == 1,
            r == Int256::spec_one(),
    {
        Int256 { l0: 1, l1: 0, l2: 0, l3: 0 }
    }

    /// The greatest value, 2^256 - 1, with every bit set.
    pub fn max_value() -> (r: Int256)
        ensures
            r@ == two_256() - 1,
    {
        Int256 { l0: u64::MAX, l1: u64::MAX, l2: u64::MAX, l3: u64::MAX }
    }

    pub fn from_u64(v: u64) -> (r: Int256)
        ensures
            r@ == v,
    {
        Int256 { l0: v, l1: 0, l2: 0, l3: 0 }
    }

    pub fn from_bool(b: bool) -> (r: Int256)
        ensures
            r@ == if b { 1nat } else { 0nat },
            r == if b { Int256::spec_one() } else { Int256::spec_zero() },
    {
        if b {
            Int256::one()
        } else {
            Int256::zero()
        }
    }

    pub fn is_zero(&self) -> (r: bool)
        ensures
            r == (self@ == 0),
    {
        proof {
            if self@ == 0 {
                lemma_value_injective(*self, Int256 { l0: 0, l1: 0, l2: 0, l3: 0 });
            }
        }
        self.l0 == 0 && self.l1 == 0 && self.l2 == 0 && self.l3 == 0
    }

    /// Whether the value fits in 64 bits.
    pub fn is_u64(&self) -> (r: bool)
        ensures
            r == (self@ < two_64()),
    {
        proof {
            lemma_value_order(*self, Int256 { l0: 0, l1: 1, l2: 0, l3: 0 });
        }
        self.l1 == 0 && self.l2 == 0 && self.l3 == 0
    }

    /// The low 64 bits of the value.
    pub fn low_u64(&self) -> (r: u64)
        ensures
            r == self@ % two_64(),
    {
        proof {
            self.lemma_low_limb();
        }
        self.l0
    }

    /// The low 64 bits, and whether higher bits were cut off.
    pub fn uint64_with_overflow(&self) -> (r: (u64, bool))
        ensures
            r.0 == self@ % two_64(),
            r.1 == (self@ >= two_64()),
    {
        proof {
            self.lemma_low_limb();
        }
        (self.l0, !self.is_u64())
    }

    pub fn lt(&self, other: &Int256) -> (r: bool)
        ensures
            r == (self@ < other@),
    {
        proof {
            lemma_value_order(*self, *other);
        }
        if self.l3 != other.l3 {
            self.l3 < other.l3
        } else if self.l2 != other.l2 {
            self.l2 < other.l2
        } else if self.l1 != other.l1 {
            self.l1 < other.l1
        } else {
            self.l0 < other.l0
        }
    }

    pub fn gt(&self, other: &Int256) -> (r: bool)
        ensures
            r == (self@ > other@),
    {
        other.lt(self)
    }

    pub fn ge(&self, other: &Int256) -> (r: bool)
        ensures
            r == (self@ >= other@),
    {
        !self.lt(other)
    }

    pub fn equals(&self, other: &Int256) -> (r: bool)
        ensures
            r == (self@ == other@),
            r == (*self == *other),
    {
        proof {
            if self@ == other@ {
                lemma_value_injective(*self, *other);
            }
        }
        self.l0 == other.l0 && self.l1 == other.l1 && self.l2 == other.l2 && self.l3 == other.l3
    }

    /// The sum modulo 2^256, and whether the true sum reached 2^256.
    #[verifier::rlimit(50)]
    pub fn overflowing_add(&self, other: &Int256) -> (r: (Int256, bool))
        ensures
            r.0@ == (self@ + other@) % two_256(),
            r.1 == (self@ + other@ >= two_256()),
            r.0@ + (if r.1 { two_256() } else { 0 }) == self@ + other@,
    {
        let s0: u128 = self.l0 as u128 + other.l0 as u128;
        let s1: u128 = self.l1 as u128 + other.l1 as u128 + s0 / LIMB_BASE;
        let s2: u128 = self.l2 as u128 + other.l2 as u128 + s1 / LIMB_BASE;
        let s3: u128 = self.l3 as u128 + other.l3 as u128 + s2 / LIMB_BASE;
        let r = Int256 {
            l0: (s0 % LIMB_BASE) as u64,
            l1: (s1 % LIMB_BASE) as u64,
            l2: (s2 % LIMB_BASE) as u64,
            l3: (s3 % LIMB_BASE) as u64,
        };
        let carry = s3 / LIMB_BASE != 0;
        proof {
            lemma_add_limbs(
                *self,
                *other,
                r,
                (s0 / LIMB_BASE) as int,
                (s1 / LIMB_BASE) as int,
                (s2 / LIMB_BASE) as int,
                (s3 / LIMB_BASE) as int,
            );
            lemma_value_bound(r);
            lemma_div_mod_unique(
                (self@ + other@) as int,
                two_256() as int,
                if carry { 1 } else { 0 },
                r@ as int,
            );
        }
        (r, carry)
    }

    /// Addition modulo 2^256.
    pub fn add(&self, other: &Int256) -> (r: Int256)
        ensures
            r@ == (self@ + other@) % two_256(),
    {
        self.overflowing_add(other).0
    }

    /// The difference modulo 2^256, and whether `other` was the greater.
    #[verifier::rlimit(50)]
    pub fn overflowing_sub(&self, other: &Int256) -> (r: (Int256, bool))
        ensures
            r.0@ == wrap(self@ - other@),
            r.1 == (self@ < other@),
            r.0@ - (if r.1 { two_256() as int } else { 0 }) == self@ - other@,
    {
        let b0: bool = self.l0 < other.l0;
        let d0: u128 = self.l0 as u128 + (if b0 { LIMB_BASE } else { 0 }) - other.l0 as u128;
        let t1: u128 = other.l1 as u128 + (if b0 { 1 } else { 0 });
        let b1: bool = (self.l1 as u128) < t1;
        let d1: u128 = self.l1 as u128 + (if b1 { LIMB_BASE } else { 0 }) - t1;
        let t2: u128 = other.l2 as u128 + (if b1 { 1 } else { 0 });
        let b2: bool = (self.l2 as u128) < t2;
        let d2: u128 = self.l2 as u128 + (if b2 { LIMB_BASE } else { 0 }) - t2;
        let t3: u128 = other.l3 as u128 + (if b2 { 1 } else { 0 });
        let b3: bool = (self.l3 as u128) < t3;
        let d3: u128 = self.l3 as u128 + (if b3 { LIMB_BASE } else { 0 }) - t3;
        let r = Int256 { l0: d0 as u64, l1: d1 as u64, l2: d2 as u64, l3: d3 as u64 };
        proof {
            lemma_sub_limbs(
                *self,
                *other,
                r,
                if b0 { 1 } else { 0 },
                if b1 { 1 } else { 0 },
                if b2 { 1 } else { 0 },
                if b3 { 1 } else { 0 },
            );
            lemma_value_bound(r);
            lemma_div_mod_unique(
                self@ - other@,
                two_256() as int,
                if b3 { -1 } else { 0 },
                r@ as int,
            );
        }
        (r, b3)
    }

    /// Subtraction modulo 2^256.
    pub fn sub(&self, other: &Int256) -> (r: Int256)
        ensures
            r@ == wrap(self@ - other@),
    {
        self.overflowing_sub(other).0
    }

    /// Bitwise complement: 2^256 - 1 - x.
    pub fn not(&self) -> (r: Int256)
        ensures
            r@ == two_256() - 1 - self@,
            r.l0 == !self.l0,
            r.l1 == !self.l1,
            r.l2 == !self.l2,
            r.l3 == !self.l3,
    {
        let a0 = self.l0;
        let a1 = self.l1;
        let a2 = self.l2;
        let a3 = self.l3;
        assert(!a0 == 0xffff_ffff_ffff_ffffu64 - a0) by (bit_vector);
        assert(!a1 == 0xffff_ffff_ffff_ffffu64 - a1) by (bit_vector);
        assert(!a2 == 0xffff_ffff_ffff_ffffu64 - a2) by (bit_vector);
        assert(!a3 == 0xffff_ffff_ffff_ffffu64 - a3) by (bit_vector);
        Int256 { l0: !a0, l1: !a1, l2: !a2, l3: !a3 }
    }

    /// Two's-complement negation: (2^256 - x) mod 2^256.
    pub fn neg(&self) -> (r: Int256)
        ensures
            r@ == wrap(-(self@ as int)),
    {
        Int256::zero().sub(self)
    }

    /// Bitwise conjunction, limb by limb.
    pub fn and(&self, other: &Int256) -> (r: Int256)
        ensures
            r == self.spec_and(*other),
    {
        Int256 {
            l0: self.l0 & other.l0,
            l1: self.l1 & other.l1,
            l2: self.l2 & other.l2,
            l3: self.l3 & other.l3,
        }
    }

    /// Bitwise disjunction, limb by limb.
    pub fn or(&self, other: &Int256) -> (r: Int256)
        ensures
            r == self.spec_or(*other),
    {
        Int256 {
            l0: self.l0 | other.l0,
            l1: self.l1 | other.l1,
            l2: self.l2 | other.l2,
            l3: self.l3 | other.l3,
        }
    }

    /// Bitwise exclusive or, limb by limb.
    pub fn xor(&self, other: &Int256) -> (r: Int256)
        ensures
            r == self.spec_xor(*other),
    {
        Int256 {
            l0: self.l0 ^ other.l0,
            l1: self.l1 ^ other.l1,
            l2: self.l2 ^ other.l2,
            l3: self.l3 ^ other.l3,
        }
    }
}

} // verus!
