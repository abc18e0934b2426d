//! Operations on memory: loads, stores, copies into memory and hashing.

use vstd::prelude::*;
use crate::common::{Address, Error};
use crate::instructions::{
    drop_top, get_data, get_data_spec, item, memory_region, memory_write, only_state_changed,
    pure_post, region_args, region_fits, region_spec, replace_top, stack_op,
};
use crate::int256::{Int256, lemma_word, two_64, word};
use crate::int256::bytes::be_value;
use crate::int256::lemmas::lemma_div_mod_unique;
use crate::interpreter::{EVMInterpreter, ScopeContext};
use crate::jump_table::ExecutionFunc;
use crate::keccak::{keccak256, keccak256_word};
use crate::memory::overwrite;
use crate::memory_table::{back, memory_fits, MemorySizeFunc};

verus! {

/// `POP`: removes the top item.
pub fn op_pop(pc: &mut u64, interpreter: &mut EVMInterpreter, scope: &mut ScopeContext) -> (r:
    Result<Vec<u8>, Error>)
    ensures
        stack_op(old(scope), final(scope), r, 1, Seq::empty()),
        *final(interpreter) == *old(interpreter),
        *final(pc) == *old(pc),
{
    if scope.stack.len() < 1 {
        return Err(Error::StackUnderflow);
    }
    drop_top(scope, 1)
}

/// `MLOAD`: the 32 bytes of memory at the place that the top item gives, read
/// as a word.
pub fn op_mload(pc: &mut u64, interpreter: &mut EVMInterpreter, scope: &mut ScopeContext) -> (r:
    Result<Vec<u8>, Error>)
    requires
        old(scope).stack@.len() >= 1 ==> memory_fits(
            MemorySizeFunc::MLoad,
            old(scope).stack@,
            old(scope).memory@.len(),
        ),
    ensures
        pure_post(
            ExecutionFunc::MLoad,
            *old(pc),
            *final(pc),
            old(interpreter),
            final(interpreter),
            old(scope),
            final(scope),
            r,
        ),
{
    if scope.stack.len() < 1 {
        return Err(Error::StackUnderflow);
    }
    let x = item(scope, 0);
    proof {
        x.lemma_low_limb();
        lemma_div_mod_unique(x@ as int, two_64() as int, 0, x@ as int);
    }
    let bytes = memory_region(&scope.memory, x.low_u64(), 32);
    let word = Int256::from_be_bytes(bytes.as_slice());
    proof {
        crate::keccak::lemma_be_value_bound(bytes@);
        crate::int256::lemmas::lemma_pow2_values();
        lemma_div_mod_unique(
            be_value(bytes@) as int,
            crate::int256::two_256() as int,
            0,
            be_value(bytes@) as int,
        );
        lemma_word(word);
    }
    replace_top(scope, 1, word)
}

/// What `MSTORE` answers and leaves: the second item written to memory as 32
/// bytes, most significant first, at the place that the top item gives, and
/// both items gone.
pub open spec fn mstore_post(pre: &ScopeContext, post: &ScopeContext, r: Result<Vec<u8>, Error>)
    -> bool {
    let at = back(pre.stack@, 0)@ as int;
    if pre.stack@.len() < 2 {
        r == Err::<Vec<u8>, Error>(Error::StackUnderflow) && *post == *pre
    } else {
        &&& r is Ok
        &&& r->Ok_0@.len() == 0
        &&& post.stack@ == pre.stack@.take(pre.stack@.len() - 2)
        &&& post.contract == pre.contract
        &&& memory_write(&pre.memory, &post.memory, at, 32)
        &&& be_value(post.memory@.subrange(at, at + 32)) == back(pre.stack@, 1)@
    }
}

/// `MSTORE`: writes a word to memory.
#[verifier::rlimit(50)]
pub fn op_mstore(pc: &mut u64, interpreter: &mut EVMInterpreter, scope: &mut ScopeContext) -> (r:
    Result<Vec<u8>, Error>)
    requires
        old(scope).stack@.len() >= 2 ==> memory_fits(
            MemorySizeFunc::MStore,
            old(scope).stack@,
            old(scope).memory@.len(),
        ),
    ensures
        mstore_post(old(scope), final(scope), r),
        *final(interpreter) == *old(interpreter),
        *final(pc) == *old(pc),
{
    if scope.stack.len() < 2 {
        return Err(Error::StackUnderflow);
    }
    let x = item(scope, 0);
    let y = item(scope, 1);
    proof {
        x.lemma_low_limb();
        lemma_div_mod_unique(x@ as int, two_64() as int, 0, x@ as int);
    }
    scope.memory.set32(x.low_u64(), &y);
    scope.stack.pop_n(2);
    Ok(Vec::new())
}

/// What `MSTORE8` answers and leaves: the low byte of the second item written
/// to memory at the place that the top item gives, and both items gone.
pub open spec fn mstore8_post(pre: &ScopeContext, post: &ScopeContext, r: Result<Vec<u8>, Error>)
    -> bool {
    if pre.stack@.len() < 2 {
        r == Err::<Vec<u8>, Error>(Error::StackUnderflow) && *post == *pre
    } else {
        &&& r is Ok
        &&& r->Ok_0@.len() == 0
        &&& post.stack@ == pre.stack@.take(pre.stack@.len() - 2)
        &&& post.contract == pre.contract
        &&& post.memory@ == pre.memory@.update(
            back(pre.stack@, 0)@ as int,
            (back(pre.stack@, 1)@ % 256) as u8,
        )
        &&& post.memory.spec_last_gas_cost() == pre.memory.spec_last_gas_cost()
    }
}

/// `MSTORE8`: writes a byte to memory.
pub fn op_mstore8(pc: &mut u64, interpreter: &mut EVMInterpreter, scope: &mut ScopeContext) -> (r:
    Result<Vec<u8>, Error>)
    requires
        old(scope).stack@.len() >= 2 ==> memory_fits(
            MemorySizeFunc::MStore8,
            old(scope).stack@,
            old(scope).memory@.len(),
        ),
    ensures
        mstore8_post(old(scope), final(scope), r),
        *final(interpreter) == *old(interpreter),
        *final(pc) == *old(pc),
{
    if scope.stack.len() < 2 {
        return Err(Error::StackUnderflow);
    }
    let x = item(scope, 0);
    let y = item(scope, 1);
    proof {
        x.lemma_low_limb();
        y.lemma_low_limb();
        lemma_div_mod_unique(x@ as int, two_64() as int, 0, x@ as int);
        vstd::arithmetic::div_mod::lemma_mod_mod(y@ as int, 256, 0x100_0000_0000_0000);
    }
    let b = (y.low_u64() % 256) as u8;
    scope.memory.set_byte(x.low_u64(), b);
    scope.stack.pop_n(2);
    Ok(Vec::new())
}

/// `MSIZE`: the length of memory in bytes.
pub fn op_msize(pc: &mut u64, interpreter: &mut EVMInterpreter, scope: &mut ScopeContext) -> (r:
    Result<Vec<u8>, Error>)
    ensures
        pure_post(
            ExecutionFunc::MSize,
            *old(pc),
            *final(pc),
            old(interpreter),
            final(interpreter),
            old(scope),
            final(scope),
            r,
        ),
{
    let word = Int256::from_u64(scope.memory.len() as u64);
    proof {
        lemma_word(word);
    }
    replace_top(scope, 0, word)
}

/// The frame after a copy of `len` bytes of `source` from `from` on into
/// memory at `to`, zeros standing for what lies behind the end of `source`,
/// by an operation that took `pops` items.
pub open spec fn copy_effect(
    pre: &ScopeContext,
    post: &ScopeContext,
    pops: int,
    source: Seq<u8>,
    to: nat,
    from: nat,
    len: nat,
) -> bool {
    &&& post.stack@ == pre.stack@.take(pre.stack@.len() - pops)
    &&& post.contract == pre.contract
    &&& post.memory.spec_last_gas_cost() == pre.memory.spec_last_gas_cost()
    &&& post.memory@ == if len == 0 {
        pre.memory@
    } else {
        overwrite(pre.memory@, to as int, get_data_spec(source, from, len))
    }
}

/// What a copy into memory answers and leaves.
pub open spec fn copy_post(
    pre: &ScopeContext,
    post: &ScopeContext,
    r: Result<Vec<u8>, Error>,
    pops: int,
    source: Seq<u8>,
    to: nat,
    from: nat,
    len: nat,
) -> bool {
    if pre.stack@.len() < pops {
        r == Err::<Vec<u8>, Error>(Error::StackUnderflow) && *post == *pre
    } else {
        r is Ok && r->Ok_0@.len() == 0 && copy_effect(pre, post, pops, source, to, from, len)
    }
}

/// Copies into memory and takes `pops` items from the stack.
#[verifier::rlimit(50)]
fn copy_to_memory(
    scope: &mut ScopeContext,
    pops: usize,
    source: &[u8],
    to: &Int256,
    from: &Int256,
    len: &Int256,
) -> (r: Result<Vec<u8>, Error>)
    requires
        old(scope).stack@.len() >= pops,
        region_fits(to@, len@, old(scope).memory@.len()),
    ensures
        r is Ok,
        r->Ok_0@.len() == 0,
        copy_effect(old(scope), final(scope), pops as int, source@, to@, from@, len@),
{
    let (to64, len64) = region_args(to, len, &scope.memory);
    let (from64, overflow) = from.uint64_with_overflow();
    let source_len = source.len();
    let mem_len = scope.memory.len();
    if len64 > 0 {
        let start = if overflow {
            u64::MAX
        } else {
            from64
        };
        proof {
            if !overflow {
                lemma_div_mod_unique(from@ as int, two_64() as int, 0, from@ as int);
            }
        }
        let data = get_data(source, start, len64);
        assert(data@ =~= get_data_spec(source@, from@, len@));
        scope.memory.set(to64, len64, data.as_slice());
    }
    scope.stack.pop_n(pops);
    Ok(Vec::new())
}

/// `CALLDATACOPY`: copies call data into memory. The three top items give the
/// place in memory, the place in the call data and the length.
pub fn op_call_data_copy(pc: &mut u64, interpreter: &mut EVMInterpreter, scope: &mut ScopeContext)
    -> (r: Result<Vec<u8>, Error>)
    requires
        old(scope).stack@.len() >= 3 ==> memory_fits(
            MemorySizeFunc::CallDataCopy,
            old(scope).stack@,
            old(scope).memory@.len(),
        ),
    ensures
        copy_post(
            old(scope),
            final(scope),
            r,
            3,
            old(scope).contract.spec_input(),
            back(old(scope).stack@, 0)@,
            back(old(scope).stack@, 1)@,
            back(old(scope).stack@, 2)@,
        ),
        *final(interpreter) == *old(interpreter),
        *final(pc) == *old(pc),
{
    if scope.stack.len() < 3 {
        return Err(Error::StackUnderflow);
    }
    let to = item(scope, 0);
    let from = item(scope, 1);
    let len = item(scope, 2);
    let source = crate::instructions::bytes_of(scope.contract.input());
    copy_to_memory(scope, 3, source.as_slice(), &to, &from, &len)
}

/// `CODECOPY`: copies the code that runs into memory. The three top items
/// give the place in memory, the place in the code and the length.
pub fn op_code_copy(pc: &mut u64, interpreter: &mut EVMInterpreter, scope: &mut ScopeContext) -> (r:
    Result<Vec<u8>, Error>)
    requires
        old(scope).stack@.len() >= 3 ==> memory_fits(
            MemorySizeFunc::CodeCopy,
            old(scope).stack@,
            old(scope).memory@.len(),
        ),
    ensures
        copy_post(
            old(scope),
            final(scope),
            r,
            3,
            old(scope).contract.spec_code(),
            back(old(scope).stack@, 0)@,
            back(old(scope).stack@, 1)@,
            back(old(scope).stack@, 2)@,
        ),
        *final(interpreter) == *old(interpreter),
        *final(pc) == *old(pc),
{
    if scope.stack.len() < 3 {
        return Err(Error::StackUnderflow);
    }
    let to = item(scope, 0);
    let from = item(scope, 1);
    let len = item(scope, 2);
    let source = crate::instructions::bytes_of(scope.contract.code());
    copy_to_memory(scope, 3, source.as_slice(), &to, &from, &len)
}

/// `EXTCODECOPY`: copies the code of another account into memory. The four
/// top items give the account, the place in memory, the place in the code and
/// the length.
pub fn op_ext_code_copy(pc: &mut u64, interpreter: &mut EVMInterpreter, scope: &mut ScopeContext)
    -> (r: Result<Vec<u8>, Error>)
    requires
        old(interpreter).wf(),
        old(scope).stack@.len() >= 4 ==> memory_fits(
            MemorySizeFunc::ExtCodeCopy,
            old(scope).stack@,
            old(scope).memory@.len(),
        ),
    ensures
        copy_post(
            old(scope),
            final(scope),
            r,
            4,
            old(interpreter).evm.state_db@.code_of(
                Address::spec_from_word(back(old(scope).stack@, 0)),
            ),
            back(old(scope).stack@, 1)@,
            back(old(scope).stack@, 2)@,
            back(old(scope).stack@, 3)@,
        ),
        *final(interpreter) == *old(interpreter),
        *final(pc) == *old(pc),
{
    if scope.stack.len() < 4 {
        return Err(Error::StackUnderflow);
    }
    let account = Address::from_word(&item(scope, 0));
    let to = item(scope, 1);
    let from = item(scope, 2);
    let len = item(scope, 3);
    let source = interpreter.evm.state_db.get_code(account);
    copy_to_memory(scope, 4, source.as_slice(), &to, &from, &len)
}

/// What `RETURNDATACOPY` answers and leaves. The three top items give the
/// place in memory, the place in the output of the last nested call and the
/// length. A region that reaches behind the end of that output is an error.
pub open spec fn return_data_copy_post(
    i: &EVMInterpreter,
    pre: &ScopeContext,
    post: &ScopeContext,
    r: Result<Vec<u8>, Error>,
) -> bool {
    let to = back(pre.stack@, 0)@;
    let from = back(pre.stack@, 1)@;
    let len = back(pre.stack@, 2)@;
    if pre.stack@.len() < 3 {
        r == Err::<Vec<u8>, Error>(Error::StackUnderflow) && *post == *pre
    } else if from + len > i.return_data@.len() {
        r == Err::<Vec<u8>, Error>(Error::ReturnDataOutOfBounds) && *post == *pre
    } else {
        r is Ok && r->Ok_0@.len() == 0 && copy_effect(pre, post, 3, i.return_data@, to, from, len)
    }
}

/// `RETURNDATACOPY`: copies output of the last nested call into memory.
pub fn op_return_data_copy(
    pc: &mut u64,
    interpreter: &mut EVMInterpreter,
    scope: &mut ScopeContext,
) -> (r: Result<Vec<u8>, Error>)
    requires
        old(scope).stack@.len() >= 3 ==> memory_fits(
            MemorySizeFunc::ReturnDataCopy,
            old(scope).stack@,
            old(scope).memory@.len(),
        ),
    ensures
        return_data_copy_post(old(interpreter), old(scope), final(scope), r),
        *final(interpreter) == *old(interpreter),
        *final(pc) == *old(pc),
{
    if scope.stack.len() < 3 {
        return Err(Error::StackUnderflow);
    }
    let to = item(scope, 0);
    let from = item(scope, 1);
    let len = item(scope, 2);
    let available = interpreter.return_data.len() as u64;
    let (from64, from_overflow) = from.uint64_with_overflow();
    let (len64, len_overflow) = len.uint64_with_overflow();
    proof {
        if !from_overflow {
            lemma_div_mod_unique(from@ as int, two_64() as int, 0, from@ as int);
        }
        if !len_overflow {
            lemma_div_mod_unique(len@ as int, two_64() as int, 0, len@ as int);
        }
    }
    if from_overflow || len_overflow || from64 > available || len64 > available - from64 {
        return Err(Error::ReturnDataOutOfBounds);
    }
    copy_to_memory(scope, 3, interpreter.return_data.as_slice(), &to, &from, &len)
}

/// What `KECCAK256` answers and leaves: the region of memory that the two top
/// items give, by place and length, replaced on the stack by its Keccak-256
/// digest. Where preimages are recorded, the state records this one; its
/// accounts, storage and logs stay as they are.
pub open spec fn keccak256_post(
    pre_i: &EVMInterpreter,
    post_i: &EVMInterpreter,
    pre: &ScopeContext,
    post: &ScopeContext,
    r: Result<Vec<u8>, Error>,
) -> bool {
    let data = region_spec(pre.memory@, back(pre.stack@, 0)@, back(pre.stack@, 1)@);
    &&& stack_op(pre, post, r, 2, seq![word(be_value(keccak256(data)))])
    &&& only_state_changed(pre_i, post_i)
    &&& post_i.evm.state_db@ == pre_i.evm.state_db@
    &&& if pre.stack@.len() >= 2 && pre_i.evm.enable_preimage_recording {
        &&& post_i.evm.state_db.preimage_count() == pre_i.evm.state_db.preimage_count() + 1
        &&& post_i.evm.state_db.preimage(pre_i.evm.state_db.preimage_count() as int) == (
            word(be_value(keccak256(data))),
            data,
        )
    } else {
        post_i.evm.state_db.preimage_count() == pre_i.evm.state_db.preimage_count()
    }
}

/// `KECCAK256`: hashes a region of memory.
#[verifier::rlimit(50)]
pub fn op_keccak256(pc: &mut u64, interpreter: &mut EVMInterpreter, scope: &mut ScopeContext) -> (r:
    Result<Vec<u8>, Error>)
    requires
        old(interpreter).wf(),
        old(scope).stack@.len() >= 2 ==> memory_fits(
            MemorySizeFunc::Keccak256,
            old(scope).stack@,
            old(scope).memory@.len(),
        ),
    ensures
        keccak256_post(old(interpreter), final(interpreter), old(scope), final(scope), r),
        *final(pc) == *old(pc),
{
    if scope.stack.len() < 2 {
        return Err(Error::StackUnderflow);
    }
    let off = item(scope, 0);
    let size = item(scope, 1);
    let (off64, size64) = region_args(&off, &size, &scope.memory);
    let data = memory_region(&scope.memory, off64, size64);
    let digest = keccak256_word(data.as_slice());
    if interpreter.evm.enable_preimage_recording {
        interpreter.evm.state_db.add_preimage(digest, data);
    }
    proof {
        lemma_word(digest);
    }
    replace_top(scope, 2, digest)
}

} // verus!
