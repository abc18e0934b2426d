//! Addresses and the error taxonomy.

use vstd::prelude::*;
use crate::int256::{Int256, two_128, two_64};
use crate::int256::bytes::{be_bytes_u64, be_value, push_limb_be};
use crate::int256::lemmas::lemma_div_mod_unique;
use crate::keccak::{keccak256, keccak256_word};

verus! {

/// 2^160, the number of addresses.
pub open spec fn two_160() -> nat {
    0x1_0000_0000_0000_0000_0000_0000_0000_0000_0000_0000nat
}

/// A 20-byte account address, held as the 160-bit number that its bytes
/// spell, most significant byte first.
#[derive(Clone, Copy, Debug, PartialEq, Eq, Structural)]
pub struct Address {
    pub hi: u32,
    pub mid: u64,
    pub lo: u64,
}

impl View for Address {
    type V = nat;

    open spec fn view(&self) -> nat {
        (self.lo as nat) + (self.mid as nat) * two_64() + (self.hi as nat) * two_128()
    }
}

impl Address {
    /// The address of twenty zero bytes.
    pub fn zero() -> (r: Address)
        ensures
            r@ == 0,
    {
        Address { hi: 0, mid: 0, lo: 0 }
    }

    /// The twenty bytes of the address.
    pub open spec fn spec_be_bytes(self) -> Seq<u8> {
        be_bytes_u32(self.hi) + be_bytes_u64(self.mid) + be_bytes_u64(self.lo)
    }

    /// Appends the twenty bytes of the address.
    pub fn push_be_bytes(&self, out: &mut Vec<u8>)
        ensures
            final(out)@ == old(out)@ + self.spec_be_bytes(),
            final(out)@.len() == old(out)@.len() + 20,
    {
        let h = self.hi;
        out.push(((h >> 24) & 0xff) as u8);
        out.push(((h >> 16) & 0xff) as u8);
        out.push(((h >> 8) & 0xff) as u8);
        out.push((h & 0xff) as u8);
        assert(out@ =~= old(out)@ + be_bytes_u32(self.hi));
        push_limb_be(out, self.mid);
        push_limb_be(out, self.lo);
        assert(out@ =~= old(out)@ + self.spec_be_bytes());
    }

    /// The address as twenty bytes.
    pub fn to_be_bytes(&self) -> (r: Vec<u8>)
        ensures
            r@ == self.spec_be_bytes(),
            r@.len() == 20,
    {
        let mut out: Vec<u8> = Vec::new();
        self.push_be_bytes(&mut out);
        assert(out@ =~= self.spec_be_bytes());
        out
    }

    /// The address as a 256-bit word: twelve zero bytes before its twenty.
    pub fn to_word(&self) -> (r: Int256)
        ensures
            r@ == self@,
    {
        Int256 { l0: self.lo, l1: self.mid, l2: self.hi as u64, l3: 0 }
    }

    /// The address in the low-order twenty bytes of a word.
    pub open spec fn spec_from_word(w: Int256) -> Address {
        Address { hi: (w.l2 % 0x1_0000_0000) as u32, mid: w.l1, lo: w.l0 }
    }

    /// The address in the low-order twenty bytes of a word.
    pub fn from_word(w: &Int256) -> (r: Address)
        ensures
            r@ == w@ % two_160(),
            r == Address::spec_from_word(*w),
    {
        let hi: u32 = (w.l2 % 0x1_0000_0000) as u32;
        let r = Address { hi, mid: w.l1, lo: w.l0 };
        proof {
            let q = (w.l2 / 0x1_0000_0000) as int + (w.l3 as int) * 0x1_0000_0000;
            assert(w@ == q * two_160() + r@);
            lemma_div_mod_unique(w@ as int, two_160() as int, q, r@ as int);
        }
        r
    }
}

/// The four bytes of a 32-bit number, most significant first.
pub open spec fn be_bytes_u32(l: u32) -> Seq<u8> {
    seq![((l >> 24) & 0xff) as u8, ((l >> 16) & 0xff) as u8, ((l >> 8) & 0xff) as u8, (l & 0xff) as u8]
}

/// The bytes of a number, most significant first, without zeros in front;
/// none for zero.
pub open spec fn minimal_be(n: nat) -> Seq<u8>
    decreases n,
{
    if n == 0 {
        Seq::empty()
    } else {
        minimal_be(n / 256).push((n % 256) as u8)
    }
}

/// The bytes of a number, most significant first, without zeros in front.
pub fn minimal_be_bytes(n: u64) -> (r: Vec<u8>)
    ensures
        r@ == minimal_be(n as nat),
        r@.len() <= 8,
    decreases n,
{
    if n == 0 {
        Vec::new()
    } else {
        let mut v = minimal_be_bytes(n / 256);
        proof {
            crate::int256::lemmas::lemma_pow2_values();
            vstd::arithmetic::power2::lemma_pow2_adds(56, 8);
            lemma_minimal_be_len(n as nat / 256, 7);
        }
        v.push((n % 256) as u8);
        v
    }
}

/// A number below 256^k takes at most `k` bytes.
proof fn lemma_minimal_be_len(n: nat, k: nat)
    requires
        n < vstd::arithmetic::power2::pow2(8 * k),
    ensures
        minimal_be(n).len() <= k,
    decreases k,
{
    crate::int256::lemmas::lemma_pow2_values();
    if n > 0 {
        if k == 0 {
            assert(false);
        } else {
            vstd::arithmetic::power2::lemma_pow2_adds((8 * (k - 1)) as nat, 8);
            lemma_minimal_be_len(n / 256, (k - 1) as nat);
        }
    }
}

/// A nonce as an item of a recursive-length-prefix list.
pub open spec fn rlp_nonce(nonce: u64) -> Seq<u8> {
    if nonce == 0 {
        seq![0x80u8]
    } else if nonce < 0x80 {
        seq![nonce as u8]
    } else {
        seq![(0x80 + minimal_be(nonce as nat).len()) as u8] + minimal_be(nonce as nat)
    }
}

/// The recursive-length-prefix encoding of the list of an address and a
/// nonce.
pub open spec fn rlp_address_nonce(a: Address, nonce: u64) -> Seq<u8> {
    let payload = seq![0x94u8] + a.spec_be_bytes() + rlp_nonce(nonce);
    seq![(0xc0 + payload.len()) as u8] + payload
}

/// The address of a contract that `creator` makes with the given nonce: the
/// last twenty bytes of the digest of the encoded pair.
pub open spec fn create_address_spec(creator: Address, nonce: u64) -> Address {
    Address::spec_from_word(
        crate::int256::word(be_value(keccak256(rlp_address_nonce(creator, nonce)))),
    )
}

/// The address of a contract that `creator` makes from a salt and the digest
/// of its code: the last twenty bytes of the digest of a marker byte, the
/// creator, the salt and that digest.
pub open spec fn create2_address_spec(creator: Address, salt: Int256, code: Seq<u8>) -> Address {
    Address::spec_from_word(
        crate::int256::word(
            be_value(
                keccak256(
                    seq![0xffu8] + creator.spec_be_bytes() + salt.spec_be_bytes() + crate::int256::word(
                        be_value(keccak256(code)),
                    ).spec_be_bytes(),
                ),
            ),
        ),
    )
}

/// The address of a contract that `creator` makes with the given nonce.
#[verifier::rlimit(50)]
pub fn create_address(creator: Address, nonce: u64) -> (r: Address)
    ensures
        r == create_address_spec(creator, nonce),
{
    let mut payload: Vec<u8> = Vec::new();
    payload.push(0x94);
    creator.push_be_bytes(&mut payload);
    if nonce == 0 {
        payload.push(0x80);
    } else if nonce < 0x80 {
        payload.push(nonce as u8);
    } else {
        let bytes = minimal_be_bytes(nonce);
        payload.push(0x80 + bytes.len() as u8);
        let mut i: usize = 0;
        while i < bytes.len()
            invariant
                i <= bytes@.len(),
                bytes@.len() <= 8,
                payload@ == seq![0x94u8] + creator.spec_be_bytes() + seq![
                    (0x80 + bytes@.len()) as u8,
                ] + bytes@.take(i as int),
            decreases bytes@.len() - i,
        {
            payload.push(bytes[i]);
            assert(bytes@.take(i + 1) =~= bytes@.take(i as int).push(bytes@[i as int]));
            i = i + 1;
        }
        assert(bytes@.take(bytes@.len() as int) =~= bytes@);
    }
    assert(payload@ =~= seq![0x94u8] + creator.spec_be_bytes() + rlp_nonce(nonce));
    let mut encoded: Vec<u8> = Vec::new();
    encoded.push(0xc0 + payload.len() as u8);
    let mut i: usize = 0;
    while i < payload.len()
        invariant
            i <= payload@.len(),
            payload@.len() <= 30,
            encoded@ == seq![(0xc0 + payload@.len()) as u8] + payload@.take(i as int),
        decreases payload@.len() - i,
    {
        encoded.push(payload[i]);
        assert(payload@.take(i + 1) =~= payload@.take(i as int).push(payload@[i as int]));
        i = i + 1;
    }
    assert(payload@.take(payload@.len() as int) =~= payload@);
    let digest = keccak256_word(encoded.as_slice());
    proof {
        crate::int256::lemma_word(digest);
    }
    Address::from_word(&digest)
}

/// The address of a contract that `creator` makes from a salt and its code.
#[verifier::rlimit(50)]
pub fn create2_address(creator: Address, salt: &Int256, code: &[u8]) -> (r: Address)
    ensures
        r == create2_address_spec(creator, *salt, code@),
{
    let code_hash = keccak256_word(code);
    proof {
        crate::int256::lemma_word(code_hash);
    }
    let mut data: Vec<u8> = Vec::new();
    data.push(0xff);
    creator.push_be_bytes(&mut data);
    let salt_bytes = salt.to_be_bytes();
    let hash_bytes = code_hash.to_be_bytes();
    let mut i: usize = 0;
    while i < 32
        invariant
            i <= 32,
            salt_bytes@.len() == 32,
            data@ == seq![0xffu8] + creator.spec_be_bytes() + salt_bytes@.take(i as int),
        decreases 32 - i,
    {
        data.push(salt_bytes[i]);
        assert(salt_bytes@.take(i + 1) =~= salt_bytes@.take(i as int).push(salt_bytes@[i as int]));
        i = i + 1;
    }
    assert(salt_bytes@.take(32) =~= salt_bytes@);
    let mut i: usize = 0;
    while i < 32
        invariant
            i <= 32,
            hash_bytes@.len() == 32,
            data@ == seq![0xffu8] + creator.spec_be_bytes() + salt_bytes@ + hash_bytes@.take(
                i as int,
            ),
        decreases 32 - i,
    {
        data.push(hash_bytes[i]);
        assert(hash_bytes@.take(i + 1) =~= hash_bytes@.take(i as int).push(hash_bytes@[i as int]));
        i = i + 1;
    }
    assert(hash_bytes@.take(32) =~= hash_bytes@);
    let digest = keccak256_word(data.as_slice());
    proof {
        crate::int256::lemma_word(digest);
    }
    Address::from_word(&digest)
}

/// Why a frame stopped.
#[derive(Clone, Copy, Debug, PartialEq, Eq, Structural)]
pub enum Error {
    OutOfGas,
    StackUnderflow,
    StackOverflow,
    InvalidJump,
    InvalidOpCode { opcode: u8 },
    WriteProtection,
    ReturnDataOutOfBounds,
    GasUintOverflow,
    DepthLimit,
    InsufficientBalance,
    ContractAddressCollision,
    CodeStoreOutOfGas,
    MaxCodeSizeExceeded,
    ExecutionReverted,
    /// Marks a regular halt inside the interpreter; never handed to a caller
    /// of `run`.
    StopToken,
}

} // verus!
