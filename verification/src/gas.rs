//! Gas price tiers and the gas handed to a nested call.

use vstd::prelude::*;
use crate::common::Error;
use crate::int256::{Int256, two_64};
use crate::int256::lemmas::lemma_div_mod_unique;

verus! {

pub const GAS_QUICK_STEP: u64 = 2;
pub const GAS_FASTEST_STEP: u64 = 3;
pub const GAS_FAST_STEP: u64 = 5;
pub const GAS_MID_STEP: u64 = 8;
pub const GAS_SLOW_STEP: u64 = 10;
pub const GAS_EXT_STEP: u64 = 20;

/// The most that a caller with `available_gas` may hand on after paying
/// `base`: all but one 64th of what is left.
pub open spec fn all_but_one_64th(available_gas: u64, base: u64) -> u64 {
    let avail: u64 = if available_gas >= base {
        (available_gas - base) as u64
    } else {
        0
    };
    (avail - avail / 64) as u64
}

/// The gas forwarded to a nested call that asks for `call_cost`.
///
/// With the all-but-one-64th rule in force the request is cut down to the
/// cap, and a request too large for 64 bits gets the cap. Without the rule
/// the request is granted as it stands, and one too large for 64 bits is an
/// error.
pub open spec fn call_gas_spec(is_eip150: bool, available_gas: u64, base: u64, call_cost: nat)
    -> Result<u64, Error> {
    let cap = all_but_one_64th(available_gas, base);
    if is_eip150 && (call_cost >= two_64() || cap < call_cost) {
        Ok(cap)
    } else if call_cost >= two_64() {
        Err(Error::GasUintOverflow)
    } else {
        Ok(call_cost as u64)
    }
}

/// The gas forwarded to a nested call that asks for `call_cost`, by a caller
/// that has `available_gas` and pays `base` for the call itself.
pub fn call_gas(is_eip150: bool, available_gas: u64, base: u64, call_cost: &Int256) -> (r: Result<
    u64,
    Error,
>)
    ensures
        r == call_gas_spec(is_eip150, available_gas, base, call_cost@),
{
    proof {
        call_cost.lemma_low_limb();
        if call_cost@ < two_64() {
            lemma_div_mod_unique(call_cost@ as int, two_64() as int, 0, call_cost@ as int);
        }
    }
    if is_eip150 {
        let avail = if available_gas >= base {
            available_gas - base
        } else {
            0
        };
        let gas = avail - avail / 64;
        if !call_cost.is_u64() || gas < call_cost.low_u64() {
            return Ok(gas);
        }
    }
    if !call_cost.is_u64() {
        return Err(Error::GasUintOverflow);
    }
    Ok(call_cost.low_u64())
}

/// Under the all-but-one-64th rule a nested call never gets more than the
/// caller's gas less a 64th of it.
pub proof fn lemma_call_gas_bounded(available_gas: u64, base: u64, call_cost: nat)
    ensures
        call_gas_spec(true, available_gas, base, call_cost) is Ok,
        call_gas_spec(true, available_gas, base, call_cost)->Ok_0 <= all_but_one_64th(
            available_gas,
            base,
        ),
        all_but_one_64th(available_gas, base) <= available_gas - available_gas / 64,
{
}

} // verus!
