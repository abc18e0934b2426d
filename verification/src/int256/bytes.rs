//! Conversion between values and big-endian bytes.

use vstd::prelude::*;
use vstd::arithmetic::div_mod::{lemma_add_mod_noop, lemma_mul_mod_noop_left};
use crate::int256::{Int256, lemma_value_bound, two_128, two_192, two_256, two_64};
use crate::int256::lemmas::lemma_div_mod_unique;

verus! {

/// The number that a sequence of bytes stands for, most significant byte
/// first.
pub open spec fn be_value(s: Seq<u8>) -> nat
    decreases s.len(),
{
    if s.len() == 0 {
        0
    } else {
        be_value(s.drop_last()) * 256 + s.last() as nat
    }
}

/// Appending a byte multiplies the value by 256 and adds the byte.
pub proof fn lemma_be_value_push(s: Seq<u8>, b: u8)
    ensures
        be_value(s.push(b)) == be_value(s) * 256 + b as nat,
{
    assert(s.push(b).drop_last() =~= s);
}

/// Bytes that are all zero stand for zero.
pub proof fn lemma_be_value_zeros(s: Seq<u8>)
    requires
        forall|i: int| 0 <= i < s.len() ==> s[i] == 0,
    ensures
        be_value(s) == 0,
    decreases s.len(),
{
    if s.len() > 0 {
        lemma_be_value_zeros(s.drop_last());
    }
}

/// A limb is the sum of its bytes, each at its weight.
proof fn lemma_limb_bytes(l: u64)
    by (bit_vector)
    ensures
        l == ((l >> 56) & 0xff) * 0x100_0000_0000_0000 + ((l >> 48) & 0xff) * 0x1_0000_0000_0000 + (
        (l >> 40) & 0xff) * 0x100_0000_0000 + ((l >> 32) & 0xff) * 0x1_0000_0000 + ((l >> 24)
            & 0xff) * 0x100_0000 + ((l >> 16) & 0xff) * 0x1_0000 + ((l >> 8) & 0xff) * 0x100 + (l
            & 0xff),
        (l >> 56) & 0xff < 256,
        (l >> 48) & 0xff < 256,
        (l >> 40) & 0xff < 256,
        (l >> 32) & 0xff < 256,
        (l >> 24) & 0xff < 256,
        (l >> 16) & 0xff < 256,
        (l >> 8) & 0xff < 256,
        l & 0xff < 256,
{
}

/// The eight bytes of a 64-bit number, most significant first.
pub open spec fn be_bytes_u64(l: u64) -> Seq<u8> {
    seq![
        ((l >> 56) & 0xff) as u8,
        ((l >> 48) & 0xff) as u8,
        ((l >> 40) & 0xff) as u8,
        ((l >> 32) & 0xff) as u8,
        ((l >> 24) & 0xff) as u8,
        ((l >> 16) & 0xff) as u8,
        ((l >> 8) & 0xff) as u8,
        (l & 0xff) as u8,
    ]
}

/// Eight more bytes multiply the value by 2^64 and add the limb that they
/// spell.
#[verifier::rlimit(50)]
pub proof fn lemma_be_value_limb(s: Seq<u8>, l: u64)
    ensures
        be_value(s + be_bytes_u64(l)) == be_value(s) * two_64() + l as nat,
{
    lemma_limb_bytes(l);
    let b = be_bytes_u64(l);
    let s1 = s.push(b[0]);
    let s2 = s1.push(b[1]);
    let s3 = s2.push(b[2]);
    let s4 = s3.push(b[3]);
    let s5 = s4.push(b[4]);
    let s6 = s5.push(b[5]);
    let s7 = s6.push(b[6]);
    lemma_be_value_push(s, b[0]);
    lemma_be_value_push(s1, b[1]);
    lemma_be_value_push(s2, b[2]);
    lemma_be_value_push(s3, b[3]);
    lemma_be_value_push(s4, b[4]);
    lemma_be_value_push(s5, b[5]);
    lemma_be_value_push(s6, b[6]);
    lemma_be_value_push(s7, b[7]);
    assert(s + b =~= s7.push(b[7]));
}

/// Appends the eight bytes of a limb, most significant first.
pub fn push_limb_be(out: &mut Vec<u8>, l: u64)
    ensures
        final(out)@ == old(out)@ + be_bytes_u64(l),
        final(out)@.len() == old(out)@.len() + 8,
        final(out)@.subrange(0, old(out)@.len() as int) == old(out)@,
        be_value(final(out)@) == be_value(old(out)@) * two_64() + l as nat,
{
    let b7: u8 = ((l >> 56) & 0xff) as u8;
    let b6: u8 = ((l >> 48) & 0xff) as u8;
    let b5: u8 = ((l >> 40) & 0xff) as u8;
    let b4: u8 = ((l >> 32) & 0xff) as u8;
    let b3: u8 = ((l >> 24) & 0xff) as u8;
    let b2: u8 = ((l >> 16) & 0xff) as u8;
    let b1: u8 = ((l >> 8) & 0xff) as u8;
    let b0: u8 = (l & 0xff) as u8;
    let ghost s0 = out@;
    out.push(b7);
    out.push(b6);
    out.push(b5);
    out.push(b4);
    out.push(b3);
    out.push(b2);
    out.push(b1);
    out.push(b0);
    proof {
        assert(out@ =~= s0 + be_bytes_u64(l));
        assert(out@.subrange(0, s0.len() as int) =~= s0);
        lemma_be_value_limb(s0, l);
    }
}

impl Int256 {
    /// The 32 bytes of the value, most significant first.
    pub open spec fn spec_be_bytes(self) -> Seq<u8> {
        be_bytes_u64(self.l3) + be_bytes_u64(self.l2) + be_bytes_u64(self.l1) + be_bytes_u64(self.l0)
    }

    /// The value as 32 bytes, most significant first.
    pub fn to_be_bytes(&self) -> (r: Vec<u8>)
        ensures
            r@ == self.spec_be_bytes(),
            r@.len() == 32,
            be_value(r@) == self@,
    {
        let mut out: Vec<u8> = Vec::new();
        assert(be_value(out@) == 0);
        push_limb_be(&mut out, self.l3);
        push_limb_be(&mut out, self.l2);
        push_limb_be(&mut out, self.l1);
        push_limb_be(&mut out, self.l0);
        assert(out@ =~= self.spec_be_bytes());
        out
    }

    /// The value of a byte string, most significant byte first, modulo 2^256:
    /// of more than 32 bytes only the last 32 count, and fewer are read as
    /// if zeros stood before them.
    #[verifier::rlimit(50)]
    pub fn from_be_bytes(bytes: &[u8]) -> (r: Int256)
        ensures
            r@ == be_value(bytes@) % two_256(),
    {
        let mut acc = Int256::zero();
        let mut i: usize = 0;
        proof {
            assert(bytes@.take(0) =~= Seq::<u8>::empty());
            lemma_div_mod_unique(0, two_256() as int, 0, 0);
        }
        while i < bytes.len()
            invariant
                i <= bytes@.len(),
                acc@ == be_value(bytes@.take(i as int)) % two_256(),
            decreases bytes@.len() - i,
        {
            let b = bytes[i];
            let shifted = acc.mul_limb(256).0;
            let next = shifted.add(&Int256::from_u64(b as u64));
            proof {
                let m = two_256() as int;
                let v = be_value(bytes@.take(i as int)) as int;
                assert(bytes@.take(i + 1) =~= bytes@.take(i as int).push(b));
                lemma_be_value_push(bytes@.take(i as int), b);
                lemma_mul_mod_noop_left(v, 256, m);
                lemma_add_mod_noop(v * 256, b as int, m);
                lemma_div_mod_unique(b as int, m, 0, b as int);
            }
            acc = next;
            i = i + 1;
        }
        proof {
            assert(bytes@.take(bytes@.len() as int) =~= bytes@);
        }
        acc
    }
}

/// Writing a word out as 32 bytes and reading them back gives the word: the
/// bytes spell the value, and the value is below 2^256, so that reading the
/// bytes modulo 2^256 loses nothing.
#[verifier::rlimit(50)]
pub proof fn lemma_bytes_round_trip(x: Int256)
    ensures
        x.spec_be_bytes().len() == 32,
        be_value(x.spec_be_bytes()) == x@,
        crate::int256::word(be_value(x.spec_be_bytes()) % two_256()) == x,
{
    let e = Seq::<u8>::empty();
    let s3 = be_bytes_u64(x.l3);
    let s2 = s3 + be_bytes_u64(x.l2);
    let s1 = s2 + be_bytes_u64(x.l1);
    assert(e + be_bytes_u64(x.l3) =~= s3);
    lemma_be_value_limb(e, x.l3);
    lemma_be_value_limb(s3, x.l2);
    lemma_be_value_limb(s2, x.l1);
    lemma_be_value_limb(s1, x.l0);
    assert(be_value(e) == 0);
    assert(be_value(x.spec_be_bytes()) == x@) by {
        let v3 = x.l3 as nat;
        let v2 = v3 * two_64() + x.l2 as nat;
        let v1 = v2 * two_64() + x.l1 as nat;
        let v0 = v1 * two_64() + x.l0 as nat;
        assert(v0 == x@) by (nonlinear_arith)
            requires
                v0 == ((x.l3 as nat * two_64() + x.l2 as nat) * two_64() + x.l1 as nat) * two_64()
                    + x.l0 as nat,
                x@ == (x.l0 as nat) + (x.l1 as nat) * two_64() + (x.l2 as nat)
                    * crate::int256::two_128() + (x.l3 as nat) * crate::int256::two_192(),
                two_64() == 0x1_0000_0000_0000_0000,
                crate::int256::two_128() == 0x1_0000_0000_0000_0000_0000_0000_0000_0000,
                crate::int256::two_192()
                    == 0x1_0000_0000_0000_0000_0000_0000_0000_0000_0000_0000_0000_0000,
        ;
    }
    lemma_value_bound(x);
    lemma_div_mod_unique(x@ as int, two_256() as int, 0, x@ as int);
    crate::int256::lemma_word(x);
}

} // verus!
