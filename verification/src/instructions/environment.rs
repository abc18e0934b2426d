//! What an operation can learn of the call and of other accounts.

use vstd::prelude::*;
use crate::common::{Address, Error};
use crate::instructions::{get_data, get_data_spec, item, pure_post, replace_top};
use crate::int256::{Int256, lemma_word, two_64};
use crate::int256::bytes::{be_value, lemma_be_value_zeros};
use crate::int256::lemmas::lemma_div_mod_unique;
use crate::interpreter::{EVMInterpreter, ScopeContext};
use crate::jump_table::ExecutionFunc;
use crate::keccak::lemma_be_value_bound;

verus! {

/// `ADDRESS`: the account in whose name the code runs.
pub fn op_address(pc: &mut u64, interpreter: &mut EVMInterpreter, scope: &mut ScopeContext) -> (r:
    Result<Vec<u8>, Error>)
    ensures
        pure_post(
            ExecutionFunc::Address,
            *old(pc),
            *final(pc),
            old(interpreter),
            final(interpreter),
            old(scope),
            final(scope),
            r,
        ),
{
    let word = scope.contract.address().to_word();
    proof {
        lemma_word(word);
    }
    replace_top(scope, 0, word)
}

/// `BALANCE`: the balance of the account that the top item names.
pub fn op_balance(pc: &mut u64, interpreter: &mut EVMInterpreter, scope: &mut ScopeContext) -> (r:
    Result<Vec<u8>, Error>)
    requires
        old(interpreter).wf(),
    ensures
        pure_post(
            ExecutionFunc::Balance,
            *old(pc),
            *final(pc),
            old(interpreter),
            final(interpreter),
            old(scope),
            final(scope),
            r,
        ),
{
    if scope.stack.len() < 1 {
        return Err(Error::StackUnderflow);
    }
    let x = item(scope, 0);
    let word = interpreter.evm.state_db.get_balance(Address::from_word(&x));
    proof {
        lemma_word(word);
    }
    replace_top(scope, 1, word)
}

/// `ORIGIN`: the account that sent the transaction.
pub fn op_origin(pc: &mut u64, interpreter: &mut EVMInterpreter, scope: &mut ScopeContext) -> (r:
    Result<Vec<u8>, Error>)
    ensures
        pure_post(
            ExecutionFunc::Origin,
            *old(pc),
            *final(pc),
            old(interpreter),
            final(interpreter),
            old(scope),
            final(scope),
            r,
        ),
{
    let word = interpreter.evm.origin.to_word();
    proof {
        lemma_word(word);
    }
    replace_top(scope, 0, word)
}

/// `CALLER`: the account that called.
pub fn op_caller(pc: &mut u64, interpreter: &mut EVMInterpreter, scope: &mut ScopeContext) -> (r:
    Result<Vec<u8>, Error>)
    ensures
        pure_post(
            ExecutionFunc::Caller,
            *old(pc),
            *final(pc),
            old(interpreter),
            final(interpreter),
            old(scope),
            final(scope),
            r,
        ),
{
    let word = scope.contract.caller().to_word();
    proof {
        lemma_word(word);
    }
    replace_top(scope, 0, word)
}

/// `CALLVALUE`: the value sent with the call.
pub fn op_call_value(pc: &mut u64, interpreter: &mut EVMInterpreter, scope: &mut ScopeContext) -> (r:
    Result<Vec<u8>, Error>)
    ensures
        pure_post(
            ExecutionFunc::CallValue,
            *old(pc),
            *final(pc),
            old(interpreter),
            final(interpreter),
            old(scope),
            final(scope),
            r,
        ),
{
    let word = scope.contract.value();
    replace_top(scope, 0, word)
}

/// `CALLDATASIZE`: the length of the call data.
pub fn op_call_data_size(pc: &mut u64, interpreter: &mut EVMInterpreter, scope: &mut ScopeContext) -> (r:
    Result<Vec<u8>, Error>)
    ensures
        pure_post(
            ExecutionFunc::CallDataSize,
            *old(pc),
            *final(pc),
            old(interpreter),
            final(interpreter),
            old(scope),
            final(scope),
            r,
        ),
{
    let word = Int256::from_u64(scope.contract.input().len() as u64);
    proof {
        lemma_word(word);
    }
    replace_top(scope, 0, word)
}

/// `CODESIZE`: the length of the code that runs.
pub fn op_code_size(pc: &mut u64, interpreter: &mut EVMInterpreter, scope: &mut ScopeContext) -> (r:
    Result<Vec<u8>, Error>)
    ensures
        pure_post(
            ExecutionFunc::CodeSize,
            *old(pc),
            *final(pc),
            old(interpreter),
            final(interpreter),
            old(scope),
            final(scope),
            r,
        ),
{
    let word = Int256::from_u64(scope.contract.code().len() as u64);
    proof {
        lemma_word(word);
    }
    replace_top(scope, 0, word)
}

/// `GASPRICE`: the gas price of the transaction.
pub fn op_gasprice(pc: &mut u64, interpreter: &mut EVMInterpreter, scope: &mut ScopeContext) -> (r:
    Result<Vec<u8>, Error>)
    ensures
        pure_post(
            ExecutionFunc::GasPrice,
            *old(pc),
            *final(pc),
            old(interpreter),
            final(interpreter),
            old(scope),
            final(scope),
            r,
        ),
{
    let word = interpreter.evm.gas_price;
    replace_top(scope, 0, word)
}

/// `EXTCODESIZE`: the length of the code of the account that the top item
/// names.
pub fn op_ext_code_size(pc: &mut u64, interpreter: &mut EVMInterpreter, scope: &mut ScopeContext) -> (r:
    Result<Vec<u8>, Error>)
    requires
        old(interpreter).wf(),
    ensures
        pure_post(
            ExecutionFunc::ExtCodeSize,
            *old(pc),
            *final(pc),
            old(interpreter),
            final(interpreter),
            old(scope),
            final(scope),
            r,
        ),
{
    if scope.stack.len() < 1 {
        return Err(Error::StackUnderflow);
    }
    let x = item(scope, 0);
    let word = Int256::from_u64(interpreter.evm.state_db.get_code_size(Address::from_word(&x)) as u64);
    proof {
        lemma_word(word);
    }
    replace_top(scope, 1, word)
}

/// `RETURNDATASIZE`: the length of the output of the last nested call.
pub fn op_return_data_size(pc: &mut u64, interpreter: &mut EVMInterpreter, scope: &mut ScopeContext) -> (r:
    Result<Vec<u8>, Error>)
    ensures
        pure_post(
            ExecutionFunc::ReturnDataSize,
            *old(pc),
            *final(pc),
            old(interpreter),
            final(interpreter),
            old(scope),
            final(scope),
            r,
        ),
{
    let word = Int256::from_u64(interpreter.return_data.len() as u64);
    proof {
        lemma_word(word);
    }
    replace_top(scope, 0, word)
}

/// `EXTCODEHASH`: the Keccak-256 digest of the code of the account that the
/// top item names; zero for an account that does not exist.
pub fn op_ext_code_hash(pc: &mut u64, interpreter: &mut EVMInterpreter, scope: &mut ScopeContext) -> (r:
    Result<Vec<u8>, Error>)
    requires
        old(interpreter).wf(),
    ensures
        pure_post(
            ExecutionFunc::ExtCodeHash,
            *old(pc),
            *final(pc),
            old(interpreter),
            final(interpreter),
            old(scope),
            final(scope),
            r,
        ),
{
    if scope.stack.len() < 1 {
        return Err(Error::StackUnderflow);
    }
    let x = item(scope, 0);
    let word = interpreter.evm.state_db.get_code_hash(Address::from_word(&x));
    proof {
        lemma_word(word);
    }
    replace_top(scope, 1, word)
}

/// `CALLDATALOAD`: the 32 bytes of call data from the place that the top item
/// gives, read as a word; zeros stand for what lies behind the end of the data.
pub fn op_call_data_load(pc: &mut u64, interpreter: &mut EVMInterpreter, scope: &mut ScopeContext)
    -> (r: Result<Vec<u8>, Error>)
    ensures
        pure_post(
            ExecutionFunc::CallDataLoad,
            *old(pc),
            *final(pc),
            old(interpreter),
            final(interpreter),
            old(scope),
            final(scope),
            r,
        ),
{
    if scope.stack.len() < 1 {
        return Err(Error::StackUnderflow);
    }
    let x = item(scope, 0);
    let (offset, overflow) = x.uint64_with_overflow();
    let input_len = scope.contract.input().len();
    let ghost input = scope.contract.spec_input();
    let ghost expected = get_data_spec(input, x@, 32);
    proof {
        lemma_be_value_bound(expected);
        crate::int256::lemmas::lemma_pow2_values();
        lemma_div_mod_unique(be_value(expected) as int, crate::int256::two_256() as int, 0, be_value(expected) as int);
    }
    let word = if overflow {
        proof {
            assert(forall|i: int| 0 <= i < 32 ==> expected[i] == 0);
            lemma_be_value_zeros(expected);
        }
        Int256::zero()
    } else {
        proof {
            lemma_div_mod_unique(x@ as int, two_64() as int, 0, x@ as int);
        }
        let data = get_data(scope.contract.input(), offset, 32);
        Int256::from_be_bytes(data.as_slice())
    };
    proof {
        lemma_word(word);
    }
    replace_top(scope, 1, word)
}
} // verus!
