//! Comparison, bitwise logic and shifts.

use vstd::prelude::*;
use crate::common::Error;
use crate::instructions::{item, pure_post, replace_top};
use crate::int256::{Int256, lemma_word};
use crate::interpreter::{EVMInterpreter, ScopeContext};
use crate::jump_table::ExecutionFunc;

verus! {

/// `LT`: one if the top item is less than the one below it, else zero.
pub fn op_lt(pc: &mut u64, interpreter: &mut EVMInterpreter, scope: &mut ScopeContext) -> (r:
    Result<Vec<u8>, Error>)
    ensures
        pure_post(
            ExecutionFunc::Lt,
            *old(pc),
            *final(pc),
            old(interpreter),
            final(interpreter),
            old(scope),
            final(scope),
            r,
        ),
{
    if scope.stack.len() < 2 {
        return Err(Error::StackUnderflow);
    }
    let x = item(scope, 0);
    let y = item(scope, 1);
    let word = Int256::from_bool(x.lt(&y));
    replace_top(scope, 2, word)
}

/// `GT`: one if the top item is greater than the one below it, else zero.
pub fn op_gt(pc: &mut u64, interpreter: &mut EVMInterpreter, scope: &mut ScopeContext) -> (r:
    Result<Vec<u8>, Error>)
    ensures
        pure_post(
            ExecutionFunc::Gt,
            *old(pc),
            *final(pc),
            old(interpreter),
            final(interpreter),
            old(scope),
            final(scope),
            r,
        ),
{
    if scope.stack.len() < 2 {
        return Err(Error::StackUnderflow);
    }
    let x = item(scope, 0);
    let y = item(scope, 1);
    let word = Int256::from_bool(x.gt(&y));
    replace_top(scope, 2, word)
}

/// `SLT`: one if the top item is less than the one below it, both read as
/// signed, else zero.
pub fn op_slt(pc: &mut u64, interpreter: &mut EVMInterpreter, scope: &mut ScopeContext) -> (r:
    Result<Vec<u8>, Error>)
    ensures
        pure_post(
            ExecutionFunc::Slt,
            *old(pc),
            *final(pc),
            old(interpreter),
            final(interpreter),
            old(scope),
            final(scope),
            r,
        ),
{
    if scope.stack.len() < 2 {
        return Err(Error::StackUnderflow);
    }
    let x = item(scope, 0);
    let y = item(scope, 1);
    let word = Int256::from_bool(x.slt(&y));
    replace_top(scope, 2, word)
}

/// `SGT`: one if the top item is greater than the one below it, both read as
/// signed, else zero.
pub fn op_sgt(pc: &mut u64, interpreter: &mut EVMInterpreter, scope: &mut ScopeContext) -> (r:
    Result<Vec<u8>, Error>)
    ensures
        pure_post(
            ExecutionFunc::Sgt,
            *old(pc),
            *final(pc),
            old(interpreter),
            final(interpreter),
            old(scope),
            final(scope),
            r,
        ),
{
    if scope.stack.len() < 2 {
        return Err(Error::StackUnderflow);
    }
    let x = item(scope, 0);
    let y = item(scope, 1);
    let word = Int256::from_bool(x.sgt(&y));
    replace_top(scope, 2, word)
}

/// `EQ`: one if the two top items are equal, else zero.
pub fn op_eq(pc: &mut u64, interpreter: &mut EVMInterpreter, scope: &mut ScopeContext) -> (r:
    Result<Vec<u8>, Error>)
    ensures
        pure_post(
            ExecutionFunc::Eq,
            *old(pc),
            *final(pc),
            old(interpreter),
            final(interpreter),
            old(scope),
            final(scope),
            r,
        ),
{
    if scope.stack.len() < 2 {
        return Err(Error::StackUnderflow);
    }
    let x = item(scope, 0);
    let y = item(scope, 1);
    let word = Int256::from_bool(x.equals(&y));
    replace_top(scope, 2, word)
}

/// `ISZERO`: one if the top item is zero, else zero.
pub fn op_iszero(pc: &mut u64, interpreter: &mut EVMInterpreter, scope: &mut ScopeContext) -> (r:
    Result<Vec<u8>, Error>)
    ensures
        pure_post(
            ExecutionFunc::IsZero,
            *old(pc),
            *final(pc),
            old(interpreter),
            final(interpreter),
            old(scope),
            final(scope),
            r,
        ),
{
    if scope.stack.len() < 1 {
        return Err(Error::StackUnderflow);
    }
    let x = item(scope, 0);
    let word = Int256::from_bool(x.is_zero());
    replace_top(scope, 1, word)
}

/// `AND`: the bitwise conjunction of the two top items.
pub fn op_and(pc: &mut u64, interpreter: &mut EVMInterpreter, scope: &mut ScopeContext) -> (r:
    Result<Vec<u8>, Error>)
    ensures
        pure_post(
            ExecutionFunc::And,
            *old(pc),
            *final(pc),
            old(interpreter),
            final(interpreter),
            old(scope),
            final(scope),
            r,
        ),
{
    if scope.stack.len() < 2 {
        return Err(Error::StackUnderflow);
    }
    let x = item(scope, 0);
    let y = item(scope, 1);
    let word = x.and(&y);
    replace_top(scope, 2, word)
}

/// `OR`: the bitwise disjunction of the two top items.
pub fn op_or(pc: &mut u64, interpreter: &mut EVMInterpreter, scope: &mut ScopeContext) -> (r:
    Result<Vec<u8>, Error>)
    ensures
        pure_post(
            ExecutionFunc::Or,
            *old(pc),
            *final(pc),
            old(interpreter),
            final(interpreter),
            old(scope),
            final(scope),
            r,
        ),
{
    if scope.stack.len() < 2 {
        return Err(Error::StackUnderflow);
    }
    let x = item(scope, 0);
    let y = item(scope, 1);
    let word = x.or(&y);
    replace_top(scope, 2, word)
}

/// `XOR`: the bitwise exclusive or of the two top items.
pub fn op_xor(pc: &mut u64, interpreter: &mut EVMInterpreter, scope: &mut ScopeContext) -> (r:
    Result<Vec<u8>, Error>)
    ensures
        pure_post(
            ExecutionFunc::Xor,
            *old(pc),
            *final(pc),
            old(interpreter),
            final(interpreter),
            old(scope),
            final(scope),
            r,
        ),
{
    if scope.stack.len() < 2 {
        return Err(Error::StackUnderflow);
    }
    let x = item(scope, 0);
    let y = item(scope, 1);
    let word = x.xor(&y);
    replace_top(scope, 2, word)
}

/// `NOT`: the bitwise complement of the top item.
pub fn op_not(pc: &mut u64, interpreter: &mut EVMInterpreter, scope: &mut ScopeContext) -> (r:
    Result<Vec<u8>, Error>)
    ensures
        pure_post(
            ExecutionFunc::Not,
            *old(pc),
            *final(pc),
            old(interpreter),
            final(interpreter),
            old(scope),
            final(scope),
            r,
        ),
{
    if scope.stack.len() < 1 {
        return Err(Error::StackUnderflow);
    }
    let x = item(scope, 0);
    let word = x.not();
    proof {
        lemma_word(word);
    }
    replace_top(scope, 1, word)
}

/// `BYTE`: the byte of the second item at the place that the top item gives,
/// counted from the most significant byte; zero from place 32 on.
pub fn op_byte(pc: &mut u64, interpreter: &mut EVMInterpreter, scope: &mut ScopeContext) -> (r:
    Result<Vec<u8>, Error>)
    ensures
        pure_post(
            ExecutionFunc::Byte,
            *old(pc),
            *final(pc),
            old(interpreter),
            final(interpreter),
            old(scope),
            final(scope),
            r,
        ),
{
    if scope.stack.len() < 2 {
        return Err(Error::StackUnderflow);
    }
    let x = item(scope, 0);
    let y = item(scope, 1);
    let word = y.byte(&x);
    proof {
        lemma_word(word);
    }
    replace_top(scope, 2, word)
}

/// `SHL`: the second item shifted left by as many bits as the top item says.
pub fn op_shl(pc: &mut u64, interpreter: &mut EVMInterpreter, scope: &mut ScopeContext) -> (r:
    Result<Vec<u8>, Error>)
    ensures
        pure_post(
            ExecutionFunc::Shl,
            *old(pc),
            *final(pc),
            old(interpreter),
            final(interpreter),
            old(scope),
            final(scope),
            r,
        ),
{
    if scope.stack.len() < 2 {
        return Err(Error::StackUnderflow);
    }
    let x = item(scope, 0);
    let y = item(scope, 1);
    let word = y.shl(&x);
    proof {
        lemma_word(word);
    }
    replace_top(scope, 2, word)
}

/// `SHR`: the second item shifted right by as many bits as the top item says.
pub fn op_shr(pc: &mut u64, interpreter: &mut EVMInterpreter, scope: &mut ScopeContext) -> (r:
    Result<Vec<u8>, Error>)
    ensures
        pure_post(
            ExecutionFunc::Shr,
            *old(pc),
            *final(pc),
            old(interpreter),
            final(interpreter),
            old(scope),
            final(scope),
            r,
        ),
{
    if scope.stack.len() < 2 {
        return Err(Error::StackUnderflow);
    }
    let x = item(scope, 0);
    let y = item(scope, 1);
    let word = y.shr(&x);
    proof {
        lemma_word(word);
    }
    replace_top(scope, 2, word)
}

/// `SAR`: the second item, read as signed, shifted right by as many bits as the
/// top item says.
pub fn op_sar(pc: &mut u64, interpreter: &mut EVMInterpreter, scope: &mut ScopeContext) -> (r:
    Result<Vec<u8>, Error>)
    ensures
        pure_post(
            ExecutionFunc::Sar,
            *old(pc),
            *final(pc),
            old(interpreter),
            final(interpreter),
            old(scope),
            final(scope),
            r,
        ),
{
    if scope.stack.len() < 2 {
        return Err(Error::StackUnderflow);
    }
    let x = item(scope, 0);
    let y = item(scope, 1);
    let word = y.sar(&x);
    proof {
        lemma_word(word);
    }
    replace_top(scope, 2, word)
}

} // verus!
