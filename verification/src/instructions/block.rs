//! What an operation can learn of the block.

use vstd::prelude::*;
use crate::common::Error;
use crate::instructions::{item, pure_post, replace_top};
use crate::int256::{Int256, lemma_word, two_64};
use crate::int256::lemmas::lemma_div_mod_unique;
use crate::interpreter::{EVMInterpreter, ScopeContext};
use crate::jump_table::ExecutionFunc;

verus! {

/// `COINBASE`: the account that the block rewards.
pub fn op_coinbase(pc: &mut u64, interpreter: &mut EVMInterpreter, scope: &mut ScopeContext) -> (r:
    Result<Vec<u8>, Error>)
    ensures
        pure_post(
            ExecutionFunc::Coinbase,
            *old(pc),
            *final(pc),
            old(interpreter),
            final(interpreter),
            old(scope),
            final(scope),
            r,
        ),
{
    let word = interpreter.evm.context.coinbase.to_word();
    proof {
        lemma_word(word);
    }
    replace_top(scope, 0, word)
}

/// `TIMESTAMP`: the time of the block.
pub fn op_timestamp(pc: &mut u64, interpreter: &mut EVMInterpreter, scope: &mut ScopeContext) -> (r:
    Result<Vec<u8>, Error>)
    ensures
        pure_post(
            ExecutionFunc::Timestamp,
            *old(pc),
            *final(pc),
            old(interpreter),
            final(interpreter),
            old(scope),
            final(scope),
            r,
        ),
{
    let word = Int256::from_u64(interpreter.evm.context.time);
    proof {
        lemma_word(word);
    }
    replace_top(scope, 0, word)
}

/// `NUMBER`: the number of the block.
pub fn op_number(pc: &mut u64, interpreter: &mut EVMInterpreter, scope: &mut ScopeContext) -> (r:
    Result<Vec<u8>, Error>)
    ensures
        pure_post(
            ExecutionFunc::Number,
            *old(pc),
            *final(pc),
            old(interpreter),
            final(interpreter),
            old(scope),
            final(scope),
            r,
        ),
{
    let word = Int256::from_u64(interpreter.evm.context.block_number);
    proof {
        lemma_word(word);
    }
    replace_top(scope, 0, word)
}

/// `DIFFICULTY`: the difficulty of the block.
pub fn op_difficulty(pc: &mut u64, interpreter: &mut EVMInterpreter, scope: &mut ScopeContext) -> (r:
    Result<Vec<u8>, Error>)
    ensures
        pure_post(
            ExecutionFunc::Difficulty,
            *old(pc),
            *final(pc),
            old(interpreter),
            final(interpreter),
            old(scope),
            final(scope),
            r,
        ),
{
    let word = interpreter.evm.context.difficulty;
    replace_top(scope, 0, word)
}

/// The randomness of the block.
pub fn op_random(pc: &mut u64, interpreter: &mut EVMInterpreter, scope: &mut ScopeContext) -> (r:
    Result<Vec<u8>, Error>)
    ensures
        pure_post(
            ExecutionFunc::Random,
            *old(pc),
            *final(pc),
            old(interpreter),
            final(interpreter),
            old(scope),
            final(scope),
            r,
        ),
{
    let word = interpreter.evm.context.random;
    replace_top(scope, 0, word)
}

/// `GASLIMIT`: the gas limit of the block.
pub fn op_gaslimit(pc: &mut u64, interpreter: &mut EVMInterpreter, scope: &mut ScopeContext) -> (r:
    Result<Vec<u8>, Error>)
    ensures
        pure_post(
            ExecutionFunc::GasLimit,
            *old(pc),
            *final(pc),
            old(interpreter),
            final(interpreter),
            old(scope),
            final(scope),
            r,
        ),
{
    let word = Int256::from_u64(interpreter.evm.context.gas_limit);
    proof {
        lemma_word(word);
    }
    replace_top(scope, 0, word)
}

/// `CHAINID`: the number of the chain.
pub fn op_chainid(pc: &mut u64, interpreter: &mut EVMInterpreter, scope: &mut ScopeContext) -> (r:
    Result<Vec<u8>, Error>)
    ensures
        pure_post(
            ExecutionFunc::ChainId,
            *old(pc),
            *final(pc),
            old(interpreter),
            final(interpreter),
            old(scope),
            final(scope),
            r,
        ),
{
    let word = interpreter.evm.context.chain_id;
    replace_top(scope, 0, word)
}

/// `SELFBALANCE`: the balance of the account in whose name the code runs.
pub fn op_selfbalance(pc: &mut u64, interpreter: &mut EVMInterpreter, scope: &mut ScopeContext) -> (r:
    Result<Vec<u8>, Error>)
    requires
        old(interpreter).wf(),
    ensures
        pure_post(
            ExecutionFunc::SelfBalance,
            *old(pc),
            *final(pc),
            old(interpreter),
            final(interpreter),
            old(scope),
            final(scope),
            r,
        ),
{
    let word = interpreter.evm.state_db.get_balance(scope.contract.address());
    proof {
        lemma_word(word);
    }
    replace_top(scope, 0, word)
}

/// `BASEFEE`: the base fee of the block.
pub fn op_basefee(pc: &mut u64, interpreter: &mut EVMInterpreter, scope: &mut ScopeContext) -> (r:
    Result<Vec<u8>, Error>)
    ensures
        pure_post(
            ExecutionFunc::BaseFee,
            *old(pc),
            *final(pc),
            old(interpreter),
            final(interpreter),
            old(scope),
            final(scope),
            r,
        ),
{
    let word = interpreter.evm.context.base_fee;
    replace_top(scope, 0, word)
}

/// `BLOCKHASH`: the hash of the block whose number the top item gives, if it
/// is one of the 256 blocks before the current one; else zero.
pub fn op_blockhash(pc: &mut u64, interpreter: &mut EVMInterpreter, scope: &mut ScopeContext) -> (r:
    Result<Vec<u8>, Error>)
    ensures
        pure_post(
            ExecutionFunc::BlockHash,
            *old(pc),
            *final(pc),
            old(interpreter),
            final(interpreter),
            old(scope),
            final(scope),
            r,
        ),
{
    if scope.stack.len() < 1 {
        return Err(Error::StackUnderflow);
    }
    let x = item(scope, 0);
    let (number, overflow) = x.uint64_with_overflow();
    proof {
        if !overflow {
            lemma_div_mod_unique(x@ as int, two_64() as int, 0, x@ as int);
        }
    }
    let upper = interpreter.evm.context.block_number;
    let lower = if upper < 257 {
        0
    } else {
        upper - 256
    };
    let word = if !overflow && lower <= number && number < upper {
        interpreter.evm.context.get_hash(number)
    } else {
        Int256::zero()
    };
    replace_top(scope, 1, word)
}

/// `BLOBHASH`: the hash of the blob at the place that the top item gives;
/// zero where the transaction has no such blob.
pub fn op_blobhash(pc: &mut u64, interpreter: &mut EVMInterpreter, scope: &mut ScopeContext) -> (r:
    Result<Vec<u8>, Error>)
    ensures
        pure_post(
            ExecutionFunc::BlobHash,
            *old(pc),
            *final(pc),
            old(interpreter),
            final(interpreter),
            old(scope),
            final(scope),
            r,
        ),
{
    if scope.stack.len() < 1 {
        return Err(Error::StackUnderflow);
    }
    let x = item(scope, 0);
    let (index, overflow) = x.uint64_with_overflow();
    proof {
        if !overflow {
            lemma_div_mod_unique(x@ as int, two_64() as int, 0, x@ as int);
        }
    }
    let count = interpreter.evm.context.blob_hashes.len();
    let word = if !overflow && index < count as u64 {
        interpreter.evm.context.blob_hashes[index as usize]
    } else {
        Int256::zero()
    };
    replace_top(scope, 1, word)
}
} // verus!
