//! Arithmetic facts that the 256-bit operations rest on.

use vstd::prelude::*;
use vstd::arithmetic::div_mod::lemma_fundamental_div_mod_converse;
use vstd::arithmetic::power2::{lemma2_to64, lemma_pow2_adds, lemma_pow2_pos, pow2};
use crate::int256::{two_128, two_192, two_255, two_256, two_64};

verus! {

/// A number written as `q * m + r` with `0 <= r < m` has quotient `q` and
/// remainder `r`.
pub proof fn lemma_div_mod_unique(x: int, m: int, q: int, r: int)
    requires
        m > 0,
        0 <= r < m,
        x == q * m + r,
    ensures
        x / m == q,
        x % m == r,
{
    lemma_fundamental_div_mod_converse(x, m, q, r);
}

/// The named powers of two are what their names say.
#[verifier::rlimit(50)]
pub proof fn lemma_pow2_values()
    ensures
        pow2(0) == 1,
        pow2(1) == 2,
        pow2(8) == 256,
        pow2(63) == 0x8000_0000_0000_0000nat,
        pow2(64) == two_64(),
        pow2(128) == two_128(),
        pow2(192) == two_192(),
        pow2(255) == two_255(),
        pow2(256) == two_256(),
{
    lemma2_to64();
    lemma2_to64_rest_63();
    lemma_pow2_adds(64, 64);
    lemma_pow2_adds(128, 64);
    lemma_pow2_adds(192, 63);
    lemma_pow2_adds(192, 64);
    assert(two_64() * two_64() == two_128()) by (nonlinear_arith);
    assert(two_128() * two_64() == two_192()) by (nonlinear_arith);
    assert(two_192() * 0x8000_0000_0000_0000nat == two_255()) by (nonlinear_arith);
    assert(two_192() * two_64() == two_256()) by (nonlinear_arith);
}

proof fn lemma2_to64_rest_63()
    ensures
        pow2(63) == 0x8000_0000_0000_0000nat,
{
    lemma2_to64();
    lemma_pow2_adds(32, 31);
}

/// Reading a number bit by bit from the top.
///
/// `n` bits of `a` are still unread; `c` holds them moved up to the top of a
/// 256-bit word. The next bit is the top bit of `c`, and doubling `c` modulo
/// 2^256 moves the rest up.
#[verifier::rlimit(50)]
pub proof fn lemma_top_bit_step(a: nat, n: nat, c: nat)
    requires
        0 < n <= 256,
        a < two_256(),
        c == (a % pow2(n)) * pow2((256 - n) as nat),
    ensures
        c < two_256(),
        a / pow2((n - 1) as nat) == 2 * (a / pow2(n)) + (if c >= two_255() { 1nat } else { 0nat }),
        2 * c - (if c >= two_255() { two_256() } else { 0nat }) == (a % pow2((n - 1) as nat)) * pow2(
            (257 - n) as nat,
        ),
{
    lemma_pow2_values();
    let p = pow2((n - 1) as nat) as int;
    let q = pow2((256 - n) as nat) as int;
    lemma_pow2_pos((n - 1) as nat);
    lemma_pow2_pos((256 - n) as nat);
    lemma_pow2_adds((n - 1) as nat, 1);
    lemma_pow2_adds((256 - n) as nat, 1);
    lemma_pow2_adds((n - 1) as nat, (256 - n) as nat);
    assert(pow2(n) == 2 * p);
    assert(pow2((257 - n) as nat) == 2 * q);
    assert(p * q == two_255());
    let lo = (a % pow2(n)) as int;
    let hi = (a / pow2(n)) as int;
    assert(a == hi * (2 * p) + lo && 0 <= lo < 2 * p) by {
        vstd::arithmetic::div_mod::lemma_fundamental_div_mod(a as int, 2 * p);
        vstd::arithmetic::div_mod::lemma_mod_bound(a as int, 2 * p);
        assert((2 * p) * hi == hi * (2 * p)) by (nonlinear_arith);
    }
    assert(c == lo * q);
    let t: int = if lo >= p { 1 } else { 0 };
    assert((lo >= p) == (lo * q >= p * q)) by (nonlinear_arith)
        requires
            q > 0,
    ;
    assert(t == (if c >= two_255() { 1int } else { 0int }));
    assert(a == (2 * hi + t) * p + (lo - t * p)) by (nonlinear_arith)
        requires
            a == hi * (2 * p) + lo,
    ;
    lemma_div_mod_unique(a as int, p, 2 * hi + t, lo - t * p);
    assert((lo - t * p) * (2 * q) == 2 * (lo * q) - t * (2 * (p * q))) by (nonlinear_arith);
    assert(c < two_256()) by (nonlinear_arith)
        requires
            c == lo * q,
            0 <= lo < 2 * p,
            q > 0,
            p * q == two_255(),
            two_256() == 2 * two_255(),
    ;
}

/// Before any bit is read the whole number is unread, and after all 256 bits
/// nothing is.
pub proof fn lemma_top_bit_ends(a: nat)
    requires
        a < two_256(),
    ensures
        a / pow2(256) == 0,
        a == (a % pow2(256)) * pow2(0),
        a / pow2(0) == a,
{
    lemma_pow2_values();
    lemma_div_mod_unique(a as int, two_256() as int, 0, a as int);
}

} // verus!
