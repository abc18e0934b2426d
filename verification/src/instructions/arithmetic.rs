//! Arithmetic on the two or three top items of the stack.

use vstd::prelude::*;
use crate::common::Error;
use crate::instructions::{item, pure_post, replace_top};
use crate::int256::lemma_word;
use crate::interpreter::{EVMInterpreter, ScopeContext};
use crate::jump_table::ExecutionFunc;

verus! {

/// `ADD`: the sum of the two top items, modulo 2^256.
pub fn op_add(pc: &mut u64, interpreter: &mut EVMInterpreter, scope: &mut ScopeContext) -> (r:
    Result<Vec<u8>, Error>)
    ensures
        pure_post(
            ExecutionFunc::Add,
            *old(pc),
            *final(pc),
            old(interpreter),
            final(interpreter),
            old(scope),
            final(scope),
            r,
        ),
{
    if scope.stack.len() < 2 {
        return Err(Error::StackUnderflow);
    }
    let x = item(scope, 0);
    let y = item(scope, 1);
    let word = x.add(&y);
    proof {
        lemma_word(word);
    }
    replace_top(scope, 2, word)
}

/// `MUL`: the product of the two top items, modulo 2^256.
pub fn op_mul(pc: &mut u64, interpreter: &mut EVMInterpreter, scope: &mut ScopeContext) -> (r:
    Result<Vec<u8>, Error>)
    ensures
        pure_post(
            ExecutionFunc::Mul,
            *old(pc),
            *final(pc),
            old(interpreter),
            final(interpreter),
            old(scope),
            final(scope),
            r,
        ),
{
    if scope.stack.len() < 2 {
        return Err(Error::StackUnderflow);
    }
    let x = item(scope, 0);
    let y = item(scope, 1);
    let word = x.mul(&y);
    proof {
        lemma_word(word);
    }
    replace_top(scope, 2, word)
}

/// `SUB`: the top item less the one below it, modulo 2^256.
pub fn op_sub(pc: &mut u64, interpreter: &mut EVMInterpreter, scope: &mut ScopeContext) -> (r:
    Result<Vec<u8>, Error>)
    ensures
        pure_post(
            ExecutionFunc::Sub,
            *old(pc),
            *final(pc),
            old(interpreter),
            final(interpreter),
            old(scope),
            final(scope),
            r,
        ),
{
    if scope.stack.len() < 2 {
        return Err(Error::StackUnderflow);
    }
    let x = item(scope, 0);
    let y = item(scope, 1);
    let word = x.sub(&y);
    proof {
        lemma_word(word);
    }
    replace_top(scope, 2, word)
}

/// `DIV`: the top item divided by the one below it; zero when that is zero.
pub fn op_div(pc: &mut u64, interpreter: &mut EVMInterpreter, scope: &mut ScopeContext) -> (r:
    Result<Vec<u8>, Error>)
    ensures
        pure_post(
            ExecutionFunc::Div,
            *old(pc),
            *final(pc),
            old(interpreter),
            final(interpreter),
            old(scope),
            final(scope),
            r,
        ),
{
    if scope.stack.len() < 2 {
        return Err(Error::StackUnderflow);
    }
    let x = item(scope, 0);
    let y = item(scope, 1);
    let word = x.div(&y);
    proof {
        lemma_word(word);
    }
    replace_top(scope, 2, word)
}

/// `SDIV`: the signed quotient of the top item by the one below it, rounded
/// toward zero; zero when the divisor is zero.
pub fn op_sdiv(pc: &mut u64, interpreter: &mut EVMInterpreter, scope: &mut ScopeContext) -> (r:
    Result<Vec<u8>, Error>)
    ensures
        pure_post(
            ExecutionFunc::Sdiv,
            *old(pc),
            *final(pc),
            old(interpreter),
            final(interpreter),
            old(scope),
            final(scope),
            r,
        ),
{
    if scope.stack.len() < 2 {
        return Err(Error::StackUnderflow);
    }
    let x = item(scope, 0);
    let y = item(scope, 1);
    let word = x.signed_div(&y);
    proof {
        lemma_word(word);
    }
    replace_top(scope, 2, word)
}

/// `MOD`: the remainder of the top item by the one below it; zero when that is
/// zero.
pub fn op_mod(pc: &mut u64, interpreter: &mut EVMInterpreter, scope: &mut ScopeContext) -> (r:
    Result<Vec<u8>, Error>)
    ensures
        pure_post(
            ExecutionFunc::Mod,
            *old(pc),
            *final(pc),
            old(interpreter),
            final(interpreter),
            old(scope),
            final(scope),
            r,
        ),
{
    if scope.stack.len() < 2 {
        return Err(Error::StackUnderflow);
    }
    let x = item(scope, 0);
    let y = item(scope, 1);
    let word = x.modulo(&y);
    proof {
        lemma_word(word);
    }
    replace_top(scope, 2, word)
}

/// `SMOD`: the signed remainder of the top item by the one below it, with the
/// sign of the dividend; zero when the divisor is zero.
pub fn op_smod(pc: &mut u64, interpreter: &mut EVMInterpreter, scope: &mut ScopeContext) -> (r:
    Result<Vec<u8>, Error>)
    ensures
        pure_post(
            ExecutionFunc::Smod,
            *old(pc),
            *final(pc),
            old(interpreter),
            final(interpreter),
            old(scope),
            final(scope),
            r,
        ),
{
    if scope.stack.len() < 2 {
        return Err(Error::StackUnderflow);
    }
    let x = item(scope, 0);
    let y = item(scope, 1);
    let word = x.signed_modulo(&y);
    proof {
        lemma_word(word);
    }
    replace_top(scope, 2, word)
}

/// `ADDMOD`: the sum of the two top items modulo the third, taken on the true
/// sum; zero when the modulus is zero.
pub fn op_addmod(pc: &mut u64, interpreter: &mut EVMInterpreter, scope: &mut ScopeContext) -> (r:
    Result<Vec<u8>, Error>)
    ensures
        pure_post(
            ExecutionFunc::Addmod,
            *old(pc),
            *final(pc),
            old(interpreter),
            final(interpreter),
            old(scope),
            final(scope),
            r,
        ),
{
    if scope.stack.len() < 3 {
        return Err(Error::StackUnderflow);
    }
    let x = item(scope, 0);
    let y = item(scope, 1);
    let z = item(scope, 2);
    let word = x.add_mod(&y, &z);
    proof {
        lemma_word(word);
    }
    replace_top(scope, 3, word)
}

/// `MULMOD`: the product of the two top items modulo the third, taken on the
/// true product; zero when the modulus is zero.
pub fn op_mulmod(pc: &mut u64, interpreter: &mut EVMInterpreter, scope: &mut ScopeContext) -> (r:
    Result<Vec<u8>, Error>)
    ensures
        pure_post(
            ExecutionFunc::Mulmod,
            *old(pc),
            *final(pc),
            old(interpreter),
            final(interpreter),
            old(scope),
            final(scope),
            r,
        ),
{
    if scope.stack.len() < 3 {
        return Err(Error::StackUnderflow);
    }
    let x = item(scope, 0);
    let y = item(scope, 1);
    let z = item(scope, 2);
    let word = x.mul_mod(&y, &z);
    proof {
        lemma_word(word);
    }
    replace_top(scope, 3, word)
}

/// `EXP`: the top item raised to the power of the one below it, modulo 2^256.
pub fn op_exp(pc: &mut u64, interpreter: &mut EVMInterpreter, scope: &mut ScopeContext) -> (r:
    Result<Vec<u8>, Error>)
    ensures
        pure_post(
            ExecutionFunc::Exp,
            *old(pc),
            *final(pc),
            old(interpreter),
            final(interpreter),
            old(scope),
            final(scope),
            r,
        ),
{
    if scope.stack.len() < 2 {
        return Err(Error::StackUnderflow);
    }
    let x = item(scope, 0);
    let y = item(scope, 1);
    let word = x.exp(&y);
    proof {
        lemma_word(word);
    }
    replace_top(scope, 2, word)
}

/// `SIGNEXTEND`: the second item with the sign of its byte at the place that
/// the top item gives, counted from the least significant byte, extended over
/// the whole word.
pub fn op_sign_extend(pc: &mut u64, interpreter: &mut EVMInterpreter, scope: &mut ScopeContext) -> (r:
    Result<Vec<u8>, Error>)
    ensures
        pure_post(
            ExecutionFunc::SignExtend,
            *old(pc),
            *final(pc),
            old(interpreter),
            final(interpreter),
            old(scope),
            final(scope),
            r,
        ),
{
    if scope.stack.len() < 2 {
        return Err(Error::StackUnderflow);
    }
    let x = item(scope, 0);
    let y = item(scope, 1);
    let word = y.sign_extend(&x);
    proof {
        lemma_word(word);
    }
    replace_top(scope, 2, word)
}

} // verus!
