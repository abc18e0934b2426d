//! Keccak-256, computed by the `sha3` crate.

use vstd::prelude::*;
use vstd::arithmetic::power2::{lemma_pow2_adds, pow2};
use crate::int256::{Int256, two_256};
use crate::int256::bytes::be_value;
use crate::int256::lemmas::{lemma_div_mod_unique, lemma_pow2_values};

verus! {

/// The Keccak-256 digest of a byte string.
pub uninterp spec fn keccak256(data: Seq<u8>) -> Seq<u8>;

/// Calls `sha3::Keccak256` through `Digest::digest`. The digest depends on
/// the input bytes alone and is 32 bytes long; nothing else is claimed of it.
#[verifier::external_body]
pub(crate) fn keccak256_digest(data: &[u8]) -> (out: Vec<u8>)
    ensures
        out@ == keccak256(data@),
        out@.len() == 32,
{
    <sha3::Keccak256 as sha3::Digest>::digest(data).to_vec()
}

/// A byte string of `n` bytes stands for a number below 256^n.
pub proof fn lemma_be_value_bound(s: Seq<u8>)
    ensures
        be_value(s) < pow2(8 * s.len()),
    decreases s.len(),
{
    lemma_pow2_values();
    if s.len() > 0 {
        lemma_be_value_bound(s.drop_last());
        lemma_pow2_adds(8 * (s.len() - 1) as nat, 8);
        let p = pow2(8 * (s.len() - 1) as nat);
        assert(be_value(s.drop_last()) * 256 + 255 < p * 256) by (nonlinear_arith)
            requires
                be_value(s.drop_last()) < p,
        ;
    }
}

/// The digest of `data`, read as a number with the most significant byte
/// first.
pub fn keccak256_word(data: &[u8]) -> (r: Int256)
    ensures
        r@ == be_value(keccak256(data@)),
{
    let digest = keccak256_digest(data);
    proof {
        lemma_be_value_bound(digest@);
        lemma_pow2_values();
        lemma_div_mod_unique(
            be_value(digest@) as int,
            two_256() as int,
            0,
            be_value(digest@) as int,
        );
    }
    Int256::from_be_bytes(digest.as_slice())
}

} // verus!
