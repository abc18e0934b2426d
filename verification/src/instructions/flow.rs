//! Jumps, halts and what an operation can learn of the run itself.

use vstd::prelude::*;
use crate::common::Error;
use crate::contract::valid_dest;
use crate::instructions::{
    item, memory_region, only_return_data_changed, pure_post, region_args, region_spec,
    replace_top,
};
use crate::int256::{Int256, lemma_word, two_64};
use crate::int256::lemmas::lemma_div_mod_unique;
use crate::interpreter::{EVMInterpreter, ScopeContext};
use crate::jump_table::ExecutionFunc;
use crate::memory_table::{back, memory_fits, MemorySizeFunc};
use crate::op_code::STOP;

verus! {

/// The counter that a jump to `dest` leaves: one before `dest`, since the
/// loop adds one after every operation. Before zero comes the greatest
/// counter, from which the loop's addition wraps to zero.
pub open spec fn counter_before(dest: nat) -> u64 {
    if dest == 0 {
        u64::MAX
    } else {
        (dest - 1) as u64
    }
}

/// What a jump answers and leaves. `taken` says whether it jumps at all. A
/// jump that is taken to a place that is no valid destination is an error.
pub open spec fn jump_post(
    pre_pc: u64,
    post_pc: u64,
    pre: &ScopeContext,
    post: &ScopeContext,
    r: Result<Vec<u8>, Error>,
    pops: int,
    taken: bool,
) -> bool {
    let dest = back(pre.stack@, 0)@;
    if pre.stack@.len() < pops {
        r == Err::<Vec<u8>, Error>(Error::StackUnderflow) && *post == *pre && post_pc == pre_pc
    } else if taken && !valid_dest(pre.contract.spec_code(), dest) {
        r == Err::<Vec<u8>, Error>(Error::InvalidJump) && *post == *pre && post_pc == pre_pc
    } else {
        &&& r is Ok
        &&& r->Ok_0@.len() == 0
        &&& post.stack@ == pre.stack@.take(pre.stack@.len() - pops)
        &&& post.memory == pre.memory
        &&& post.contract == pre.contract
        &&& post_pc == if taken {
            counter_before(dest)
        } else {
            pre_pc
        }
    }
}

/// Sets the counter for a jump to a valid destination.
fn jump_to(pc: &mut u64, dest: &Int256, code_len: usize)
    requires
        dest@ < code_len,
    ensures
        *final(pc) == counter_before(dest@),
{
    proof {
        dest.lemma_low_limb();
        lemma_div_mod_unique(dest@ as int, two_64() as int, 0, dest@ as int);
    }
    *pc = dest.low_u64().wrapping_sub(1);
}

/// `JUMP`: goes on at the place that the top item gives.
pub fn op_jump(pc: &mut u64, interpreter: &mut EVMInterpreter, scope: &mut ScopeContext) -> (r:
    Result<Vec<u8>, Error>)
    ensures
        jump_post(*old(pc), *final(pc), old(scope), final(scope), r, 1, true),
        *final(interpreter) == *old(interpreter),
{
    if scope.stack.len() < 1 {
        return Err(Error::StackUnderflow);
    }
    let dest = item(scope, 0);
    if !scope.contract.valid_jumpdest(&dest) {
        return Err(Error::InvalidJump);
    }
    jump_to(pc, &dest, scope.contract.code().len());
    scope.stack.pop_n(1);
    Ok(Vec::new())
}

/// `JUMPI`: goes on at the place that the top item gives if the second item
/// is not zero.
pub fn op_jumpi(pc: &mut u64, interpreter: &mut EVMInterpreter, scope: &mut ScopeContext) -> (r:
    Result<Vec<u8>, Error>)
    ensures
        jump_post(
            *old(pc),
            *final(pc),
            old(scope),
            final(scope),
            r,
            2,
            back(old(scope).stack@, 1)@ != 0,
        ),
        *final(interpreter) == *old(interpreter),
{
    if scope.stack.len() < 2 {
        return Err(Error::StackUnderflow);
    }
    let dest = item(scope, 0);
    let cond = item(scope, 1);
    if !cond.is_zero() {
        if !scope.contract.valid_jumpdest(&dest) {
            return Err(Error::InvalidJump);
        }
        jump_to(pc, &dest, scope.contract.code().len());
    }
    scope.stack.pop_n(2);
    Ok(Vec::new())
}

/// `JUMPDEST`: marks a place that jumps may lead to, and does nothing.
pub fn op_jumpdest(pc: &mut u64, interpreter: &mut EVMInterpreter, scope: &mut ScopeContext) -> (r:
    Result<Vec<u8>, Error>)
    ensures
        r is Ok,
        r->Ok_0@.len() == 0,
        *final(scope) == *old(scope),
        *final(interpreter) == *old(interpreter),
        *final(pc) == *old(pc),
{
    Ok(Vec::new())
}

/// `PC`: the place of this operation in the code.
pub fn op_pc(pc: &mut u64, interpreter: &mut EVMInterpreter, scope: &mut ScopeContext) -> (r: Result<
    Vec<u8>,
    Error,
>)
    ensures
        pure_post(
            ExecutionFunc::Pc,
            *old(pc),
            *final(pc),
            old(interpreter),
            final(interpreter),
            old(scope),
            final(scope),
            r,
        ),
{
    let word = Int256::from_u64(*pc);
    proof {
        lemma_word(word);
    }
    replace_top(scope, 0, word)
}

/// `GAS`: the gas that is left after this operation is paid for.
pub fn op_gas(pc: &mut u64, interpreter: &mut EVMInterpreter, scope: &mut ScopeContext) -> (r:
    Result<Vec<u8>, Error>)
    ensures
        pure_post(
            ExecutionFunc::Gas,
            *old(pc),
            *final(pc),
            old(interpreter),
            final(interpreter),
            old(scope),
            final(scope),
            r,
        ),
{
    let word = Int256::from_u64(scope.contract.gas());
    proof {
        lemma_word(word);
    }
    replace_top(scope, 0, word)
}

/// `STOP`: halts the frame with no output.
pub fn op_stop(pc: &mut u64, interpreter: &mut EVMInterpreter, scope: &mut ScopeContext) -> (r:
    Result<Vec<u8>, Error>)
    ensures
        r == Err::<Vec<u8>, Error>(Error::StopToken),
        only_return_data_changed(old(interpreter), final(interpreter)),
        final(interpreter).return_data@.len() == 0,
        *final(scope) == *old(scope),
        *final(pc) == *old(pc),
{
    interpreter.return_data = Vec::new();
    Err(Error::StopToken)
}

/// What an operation that halts the frame with output answers and leaves:
/// the region of memory that the two top items give, by place and length, as
/// the interpreter's output, and `halt` as the answer.
pub open spec fn halt_post(
    pre_i: &EVMInterpreter,
    post_i: &EVMInterpreter,
    pre: &ScopeContext,
    post: &ScopeContext,
    r: Result<Vec<u8>, Error>,
    halt: Error,
) -> bool {
    if pre.stack@.len() < 2 {
        r == Err::<Vec<u8>, Error>(Error::StackUnderflow) && *post == *pre && *post_i == *pre_i
    } else {
        &&& r == Err::<Vec<u8>, Error>(halt)
        &&& post.stack@ == pre.stack@.take(pre.stack@.len() - 2)
        &&& post.memory == pre.memory
        &&& post.contract == pre.contract
        &&& only_return_data_changed(pre_i, post_i)
        &&& post_i.return_data@ == region_spec(
            pre.memory@,
            back(pre.stack@, 0)@,
            back(pre.stack@, 1)@,
        )
    }
}

/// Takes the two top items and makes the region of memory that they give the
/// interpreter's output.
fn halt_with_output(interpreter: &mut EVMInterpreter, scope: &mut ScopeContext, halt: Error) -> (r:
    Result<Vec<u8>, Error>)
    requires
        old(scope).stack@.len() >= 2 ==> memory_fits(
            MemorySizeFunc::Return,
            old(scope).stack@,
            old(scope).memory@.len(),
        ),
    ensures
        halt_post(old(interpreter), final(interpreter), old(scope), final(scope), r, halt),
{
    if scope.stack.len() < 2 {
        return Err(Error::StackUnderflow);
    }
    let off = item(scope, 0);
    let size = item(scope, 1);
    let (off64, size64) = region_args(&off, &size, &scope.memory);
    interpreter.return_data = memory_region(&scope.memory, off64, size64);
    scope.stack.pop_n(2);
    Err(halt)
}

/// `RETURN`: halts the frame with a region of memory as its output.
pub fn op_return(pc: &mut u64, interpreter: &mut EVMInterpreter, scope: &mut ScopeContext) -> (r:
    Result<Vec<u8>, Error>)
    requires
        old(scope).stack@.len() >= 2 ==> memory_fits(
            MemorySizeFunc::Return,
            old(scope).stack@,
            old(scope).memory@.len(),
        ),
    ensures
        halt_post(
            old(interpreter),
            final(interpreter),
            old(scope),
            final(scope),
            r,
            Error::StopToken,
        ),
        *final(pc) == *old(pc),
{
    halt_with_output(interpreter, scope, Error::StopToken)
}

/// `REVERT`: halts the frame with a region of memory as its output and has
/// the frame's changes of the world state undone. The gas that is left stays.
pub fn op_revert(pc: &mut u64, interpreter: &mut EVMInterpreter, scope: &mut ScopeContext) -> (r:
    Result<Vec<u8>, Error>)
    requires
        old(scope).stack@.len() >= 2 ==> memory_fits(
            MemorySizeFunc::Revert,
            old(scope).stack@,
            old(scope).memory@.len(),
        ),
    ensures
        halt_post(
            old(interpreter),
            final(interpreter),
            old(scope),
            final(scope),
            r,
            Error::ExecutionReverted,
        ),
        *final(pc) == *old(pc),
{
    halt_with_output(interpreter, scope, Error::ExecutionReverted)
}

/// What stands behind every code that names no operation: the frame fails
/// with the code that was found at the counter.
pub fn op_undefined(pc: &mut u64, interpreter: &mut EVMInterpreter, scope: &mut ScopeContext) -> (r:
    Result<Vec<u8>, Error>)
    ensures
        r == Err::<Vec<u8>, Error>(
            Error::InvalidOpCode {
                opcode: if *old(pc) < old(scope).contract.spec_code().len() {
                    old(scope).contract.spec_code()[*old(pc) as int]
                } else {
                    STOP
                },
            },
        ),
        *final(scope) == *old(scope),
        *final(interpreter) == *old(interpreter),
        *final(pc) == *old(pc),
{
    let opcode = scope.contract.get_op(*pc);
    Err(Error::InvalidOpCode { opcode })
}

} // verus!
