//! Pushes, duplications and exchanges.

use vstd::prelude::*;
use crate::common::Error;
use crate::instructions::{get_data, get_data_spec, pure_post, replace_top, stack_op};
use crate::int256::{Int256, lemma_word, two_256, word};
use crate::int256::bytes::be_value;
use crate::int256::lemmas::{lemma_div_mod_unique, lemma_pow2_values};
use crate::interpreter::{EVMInterpreter, ScopeContext};
use crate::jump_table::ExecutionFunc;
use crate::keccak::lemma_be_value_bound;
use crate::memory_table::back;

verus! {

/// `PUSH0`: pushes zero.
pub fn op_push0(pc: &mut u64, interpreter: &mut EVMInterpreter, scope: &mut ScopeContext) -> (r:
    Result<Vec<u8>, Error>)
    ensures
        pure_post(
            ExecutionFunc::Push0,
            *old(pc),
            *final(pc),
            old(interpreter),
            final(interpreter),
            old(scope),
            final(scope),
            r,
        ),
{
    replace_top(scope, 0, Int256::zero())
}

/// Where the counter stands after `PUSHn`: on the last immediate byte.
pub open spec fn counter_after_push(pc: u64, n: u8) -> u64 {
    if pc + n > u64::MAX {
        (pc + n - u64::MAX - 1) as u64
    } else {
        (pc + n) as u64
    }
}

/// What `PUSHn` answers and leaves: the `n` bytes of code behind the counter,
/// read as a number with zeros for what lies behind the end of the code, on
/// the stack, and the counter on the last of them.
pub open spec fn push_post(
    n: u8,
    pre_pc: u64,
    post_pc: u64,
    pre: &ScopeContext,
    post: &ScopeContext,
    r: Result<Vec<u8>, Error>,
) -> bool {
    &&& stack_op(
        pre,
        post,
        r,
        0,
        seq![word(be_value(get_data_spec(pre.contract.spec_code(), (pre_pc + 1) as nat, n as nat)))],
    )
    &&& post_pc == counter_after_push(pre_pc, n)
}

/// `PUSH1` to `PUSH32`: pushes the `n` bytes that follow the operation in the
/// code.
pub fn op_push(n: u8, pc: &mut u64, interpreter: &mut EVMInterpreter, scope: &mut ScopeContext)
    -> (r: Result<Vec<u8>, Error>)
    requires
        1 <= n <= 32,
    ensures
        push_post(n, *old(pc), *final(pc), old(scope), final(scope), r),
        *final(interpreter) == *old(interpreter),
{
    let code_len = scope.contract.code().len();
    let ghost expected = get_data_spec(scope.contract.spec_code(), (*pc + 1) as nat, n as nat);
    let bytes = if *pc == u64::MAX {
        let zeros = get_data(scope.contract.code(), u64::MAX, n as u64);
        assert(zeros@ =~= expected);
        zeros
    } else {
        get_data(scope.contract.code(), *pc + 1, n as u64)
    };
    let word = Int256::from_be_bytes(bytes.as_slice());
    proof {
        lemma_be_value_bound(expected);
        lemma_pow2_values();
        if n < 32 {
            vstd::arithmetic::power2::lemma_pow2_strictly_increases(8 * (n as nat), 256);
        }
        lemma_div_mod_unique(
            be_value(expected) as int,
            two_256() as int,
            0,
            be_value(expected) as int,
        );
        lemma_word(word);
    }
    *pc = pc.wrapping_add(n as u64);
    replace_top(scope, 0, word)
}

/// `PUSH1`: pushes the byte that follows the operation in the code.
pub fn op_push1(pc: &mut u64, interpreter: &mut EVMInterpreter, scope: &mut ScopeContext) -> (r:
    Result<Vec<u8>, Error>)
    ensures
        push_post(1, *old(pc), *final(pc), old(scope), final(scope), r),
        *final(interpreter) == *old(interpreter),
{
    op_push(1, pc, interpreter, scope)
}

/// What `DUPn` answers and leaves: a copy of the `n`-th item from the top on
/// the stack.
pub open spec fn dup_post(n: u8, pre: &ScopeContext, post: &ScopeContext, r: Result<Vec<u8>, Error>)
    -> bool {
    if pre.stack@.len() < n {
        r == Err::<Vec<u8>, Error>(Error::StackUnderflow) && *post == *pre
    } else {
        &&& r is Ok
        &&& r->Ok_0@.len() == 0
        &&& post.stack@ == pre.stack@.push(back(pre.stack@, n - 1))
        &&& post.memory == pre.memory
        &&& post.contract == pre.contract
    }
}

/// `DUP1` to `DUP16`: pushes a copy of the `n`-th item from the top.
pub fn op_dup(n: u8, pc: &mut u64, interpreter: &mut EVMInterpreter, scope: &mut ScopeContext) -> (r:
    Result<Vec<u8>, Error>)
    requires
        1 <= n <= 16,
    ensures
        dup_post(n, old(scope), final(scope), r),
        *final(interpreter) == *old(interpreter),
        *final(pc) == *old(pc),
{
    if scope.stack.len() < n as usize {
        return Err(Error::StackUnderflow);
    }
    scope.stack.dup(n as usize);
    Ok(Vec::new())
}

/// What `SWAPn` answers and leaves: the top item and the item `n` places
/// below it exchanged.
pub open spec fn swap_post(
    n: u8,
    pre: &ScopeContext,
    post: &ScopeContext,
    r: Result<Vec<u8>, Error>,
) -> bool {
    let len = pre.stack@.len();
    if len < n + 1 {
        r == Err::<Vec<u8>, Error>(Error::StackUnderflow) && *post == *pre
    } else {
        &&& r is Ok
        &&& r->Ok_0@.len() == 0
        &&& post.stack@ == pre.stack@.update(len - 1, back(pre.stack@, n as int)).update(
            len - 1 - n,
            back(pre.stack@, 0),
        )
        &&& post.memory == pre.memory
        &&& post.contract == pre.contract
    }
}

/// `SWAP1` to `SWAP16`: exchanges the top item with the item `n` places below
/// it.
pub fn op_swap(n: u8, pc: &mut u64, interpreter: &mut EVMInterpreter, scope: &mut ScopeContext)
    -> (r: Result<Vec<u8>, Error>)
    requires
        1 <= n <= 16,
    ensures
        swap_post(n, old(scope), final(scope), r),
        *final(interpreter) == *old(interpreter),
        *final(pc) == *old(pc),
{
    if scope.stack.len() < n as usize + 1 {
        return Err(Error::StackUnderflow);
    }
    scope.stack.swap(n as usize);
    Ok(Vec::new())
}

/// The execution function of `PUSHn`.
pub fn make_push(size: u64, push_byte_size: usize) -> (r: ExecutionFunc)
    requires
        1 <= push_byte_size <= 32,
        size == push_byte_size,
    ensures
        r == ExecutionFunc::Push(push_byte_size as u8),
{
    ExecutionFunc::Push(push_byte_size as u8)
}

/// The execution function of `DUPn`.
pub fn make_dup(size: i64) -> (r: ExecutionFunc)
    requires
        1 <= size <= 16,
    ensures
        r == ExecutionFunc::Dup(size as u8),
{
    ExecutionFunc::Dup(size as u8)
}

/// The execution function of `SWAPn`.
pub fn make_swap(size: i64) -> (r: ExecutionFunc)
    requires
        1 <= size <= 16,
    ensures
        r == ExecutionFunc::Swap(size as u8),
{
    ExecutionFunc::Swap(size as u8)
}

} // verus!
