//! The operations, one function each.
//!
//! A function takes the program counter, the interpreter and the frame. It
//! answers `Ok` with no bytes when the frame goes on, and an error when the
//! frame ends: `StopToken` for a regular halt, whose output then stands in the
//! interpreter's `return_data`, `ExecutionReverted` for a revert, whose payload
//! stands there too, and every other error for a failure. An operation that
//! finds too few items on the stack answers `StackUnderflow` and changes
//! nothing.
//!
//! The operations that enter a nested frame stand beside the loop that they
//! enter, in `interpreter`; they are named here too.

use vstd::prelude::*;
use vstd::arithmetic::power::pow;
use vstd::arithmetic::power2::pow2;
use vstd::slice::{slice_subrange, slice_to_vec};
use crate::common::{Address, Error};
use crate::evm::{BlockContext, hash_of};
use crate::int256::{Int256, two_256, two_64, word, wrap};
use crate::int256::bytes::be_value;
use crate::int256::lemmas::lemma_div_mod_unique;
use crate::int256::signed::{sign_extend_spec, trunc_div, trunc_rem};
use crate::interpreter::{EVMInterpreter, ScopeContext};
use crate::jump_table::ExecutionFunc;
use crate::keccak::keccak256;
use crate::memory::Memory;
use crate::memory_table::{back, mem_size_spec};

pub use crate::interpreter::{
    op_call, op_call_code, op_create, op_create2, op_delegate_call, op_static_call,
};

pub mod arithmetic;
pub mod block;
pub mod environment;
pub mod logic;
pub mod flow;
pub mod memory_ops;
pub mod stack_ops;
pub mod storage;

verus! {

/// The frame after an operation that replaced the `pops` top items of the
/// stack by `pushed` and touched nothing else.
pub open spec fn stack_effect(
    pre: &ScopeContext,
    post: &ScopeContext,
    pops: int,
    pushed: Seq<Int256>,
) -> bool {
    &&& pre.stack@.len() >= pops
    &&& post.stack@ == pre.stack@.take(pre.stack@.len() - pops) + pushed
    &&& post.memory == pre.memory
    &&& post.contract == pre.contract
}

/// What an operation that works on the stack alone answers and leaves: with
/// too few items an underflow and nothing changed, else the items replaced.
pub open spec fn stack_op(
    pre: &ScopeContext,
    post: &ScopeContext,
    r: Result<Vec<u8>, Error>,
    pops: int,
    pushed: Seq<Int256>,
) -> bool {
    if pre.stack@.len() < pops {
        r == Err::<Vec<u8>, Error>(Error::StackUnderflow) && *post == *pre
    } else {
        r is Ok && r->Ok_0@.len() == 0 && stack_effect(pre, post, pops, pushed)
    }
}

/// The word that stands for a truth value: one for true, zero for false.
pub open spec fn bool_word(b: bool) -> Int256 {
    if b {
        Int256::spec_one()
    } else {
        Int256::spec_zero()
    }
}

/// `len` bytes of `data` from `offset` on, with zeros for what lies behind
/// the end of `data`.
pub open spec fn get_data_spec(data: Seq<u8>, offset: nat, len: nat) -> Seq<u8> {
    Seq::new(
        len,
        |i: int|
            if offset + i < data.len() {
                data[offset + i]
            } else {
                0u8
            },
    )
}

/// What `BLOCKHASH` answers for a block number: the hash of one of the 256
/// blocks before the current one, and zero for every other number.
pub open spec fn block_hash_spec(context: &BlockContext, number: nat) -> Int256 {
    let upper = context.block_number;
    let lower = if upper < 257 {
        0
    } else {
        upper - 256
    };
    if lower <= number < upper {
        hash_of(context.hashes@, number as u64)
    } else {
        Int256::spec_zero()
    }
}

/// Whether an operation only reads and leaves one word on the stack in place
/// of the items that it takes.
pub open spec fn is_pure(h: ExecutionFunc) -> bool {
    match h {
        ExecutionFunc::Add
        | ExecutionFunc::Mul
        | ExecutionFunc::Sub
        | ExecutionFunc::Div
        | ExecutionFunc::Sdiv
        | ExecutionFunc::Mod
        | ExecutionFunc::Smod
        | ExecutionFunc::Addmod
        | ExecutionFunc::Mulmod
        | ExecutionFunc::Exp
        | ExecutionFunc::SignExtend
        | ExecutionFunc::Lt
        | ExecutionFunc::Gt
        | ExecutionFunc::Slt
        | ExecutionFunc::Sgt
        | ExecutionFunc::Eq
        | ExecutionFunc::IsZero
        | ExecutionFunc::And
        | ExecutionFunc::Or
        | ExecutionFunc::Xor
        | ExecutionFunc::Not
        | ExecutionFunc::Byte
        | ExecutionFunc::Shl
        | ExecutionFunc::Shr
        | ExecutionFunc::Sar
        | ExecutionFunc::Address
        | ExecutionFunc::Balance
        | ExecutionFunc::Origin
        | ExecutionFunc::Caller
        | ExecutionFunc::CallValue
        | ExecutionFunc::CallDataLoad
        | ExecutionFunc::CallDataSize
        | ExecutionFunc::CodeSize
        | ExecutionFunc::GasPrice
        | ExecutionFunc::ExtCodeSize
        | ExecutionFunc::ReturnDataSize
        | ExecutionFunc::ExtCodeHash
        | ExecutionFunc::BlockHash
        | ExecutionFunc::Coinbase
        | ExecutionFunc::Timestamp
        | ExecutionFunc::Number
        | ExecutionFunc::Difficulty
        | ExecutionFunc::Random
        | ExecutionFunc::GasLimit
        | ExecutionFunc::ChainId
        | ExecutionFunc::SelfBalance
        | ExecutionFunc::BaseFee
        | ExecutionFunc::BlobHash
        | ExecutionFunc::MLoad
        | ExecutionFunc::SLoad
        | ExecutionFunc::TLoad
        | ExecutionFunc::Pc
        | ExecutionFunc::MSize
        | ExecutionFunc::Gas
        | ExecutionFunc::Push0 => true,
        _ => false,
    }
}

/// The word that a pure operation leaves on the stack. `x`, `y` and `z` are
/// the top item of the stack and the two below it.
pub open spec fn pure_value(h: ExecutionFunc, pc: u64, i: &EVMInterpreter, s: &ScopeContext)
    -> Int256 {
    let x = back(s.stack@, 0);
    let y = back(s.stack@, 1);
    let z = back(s.stack@, 2);
    let state = i.evm.state_db@;
    match h {
        ExecutionFunc::Add => word((x@ + y@) % two_256()),
        ExecutionFunc::Mul => word((x@ * y@) % two_256()),
        ExecutionFunc::Sub => word(wrap(x@ - y@)),
        ExecutionFunc::Div => word(
            if y@ == 0 {
                0
            } else {
                x@ / y@
            },
        ),
        ExecutionFunc::Sdiv => word(
            if y@ == 0 {
                0
            } else {
                wrap(trunc_div(x.signed(), y.signed()))
            },
        ),
        ExecutionFunc::Mod => word(
            if y@ == 0 {
                0
            } else {
                x@ % y@
            },
        ),
        ExecutionFunc::Smod => word(
            if y@ == 0 {
                0
            } else {
                wrap(trunc_rem(x.signed(), y.signed()))
            },
        ),
        ExecutionFunc::Addmod => word(
            if z@ == 0 {
                0
            } else {
                (x@ + y@) % z@
            },
        ),
        ExecutionFunc::Mulmod => word(
            if z@ == 0 {
                0
            } else {
                (x@ * y@) % z@
            },
        ),
        ExecutionFunc::Exp => word((pow(x@ as int, y@) % (two_256() as int)) as nat),
        ExecutionFunc::SignExtend => word(sign_extend_spec(y@, x@)),
        ExecutionFunc::Lt => bool_word(x@ < y@),
        ExecutionFunc::Gt => bool_word(x@ > y@),
        ExecutionFunc::Slt => bool_word(x.signed() < y.signed()),
        ExecutionFunc::Sgt => bool_word(x.signed() > y.signed()),
        ExecutionFunc::Eq => bool_word(x == y),
        ExecutionFunc::IsZero => bool_word(x@ == 0),
        ExecutionFunc::And => x.spec_and(y),
        ExecutionFunc::Or => x.spec_or(y),
        ExecutionFunc::Xor => x.spec_xor(y),
        ExecutionFunc::Not => word((two_256() - 1 - x@) as nat),
        ExecutionFunc::Byte => word(
            if x@ < 32 {
                (y@ / pow2((8 * (31 - x@)) as nat)) % 256
            } else {
                0
            },
        ),
        ExecutionFunc::Shl => word((y@ * pow2(x@)) % two_256()),
        ExecutionFunc::Shr => word(y@ / pow2(x@)),
        ExecutionFunc::Sar => word(wrap(y.signed() / (pow2(x@) as int))),
        ExecutionFunc::Address => word(s.contract.spec_address()@),
        ExecutionFunc::Balance => word(state.balance(Address::spec_from_word(x))),
        ExecutionFunc::Origin => word(i.evm.origin@),
        ExecutionFunc::Caller => word(s.contract.spec_caller()@),
        ExecutionFunc::CallValue => s.contract.spec_value(),
        ExecutionFunc::CallDataLoad => word(be_value(get_data_spec(s.contract.spec_input(), x@, 32))),
        ExecutionFunc::CallDataSize => word(s.contract.spec_input().len()),
        ExecutionFunc::CodeSize => word(s.contract.spec_code().len()),
        ExecutionFunc::GasPrice => i.evm.gas_price,
        ExecutionFunc::ExtCodeSize => word(state.code_of(Address::spec_from_word(x)).len()),
        ExecutionFunc::ReturnDataSize => word(i.return_data@.len()),
        ExecutionFunc::ExtCodeHash => word(
            if state.accounts.dom().contains(Address::spec_from_word(x)) {
                be_value(keccak256(state.code_of(Address::spec_from_word(x))))
            } else {
                0
            },
        ),
        ExecutionFunc::BlockHash => block_hash_spec(&i.evm.context, x@),
        ExecutionFunc::Coinbase => word(i.evm.context.coinbase@),
        ExecutionFunc::Timestamp => word(i.evm.context.time as nat),
        ExecutionFunc::Number => word(i.evm.context.block_number as nat),
        ExecutionFunc::Difficulty => i.evm.context.difficulty,
        ExecutionFunc::Random => i.evm.context.random,
        ExecutionFunc::GasLimit => word(i.evm.context.gas_limit as nat),
        ExecutionFunc::ChainId => i.evm.context.chain_id,
        ExecutionFunc::SelfBalance => word(state.balance(s.contract.spec_address())),
        ExecutionFunc::BaseFee => i.evm.context.base_fee,
        ExecutionFunc::BlobHash => if x@ < i.evm.context.blob_hashes@.len() {
            i.evm.context.blob_hashes@[x@ as int]
        } else {
            Int256::spec_zero()
        },
        ExecutionFunc::MLoad => word(be_value(s.memory@.subrange(x@ as int, x@ as int + 32))),
        ExecutionFunc::SLoad => state.storage_at(s.contract.spec_address(), x),
        ExecutionFunc::TLoad => state.transient_at(s.contract.spec_address(), x),
        ExecutionFunc::Pc => word(pc as nat),
        ExecutionFunc::MSize => word(s.memory@.len()),
        ExecutionFunc::Gas => word(s.contract.spec_gas() as nat),
        _ => Int256::spec_zero(),
    }
}

/// What a pure operation answers and leaves: the items that it takes replaced
/// by its word, and nothing else changed.
pub open spec fn pure_post(
    h: ExecutionFunc,
    pre_pc: u64,
    post_pc: u64,
    pre_i: &EVMInterpreter,
    post_i: &EVMInterpreter,
    pre_s: &ScopeContext,
    post_s: &ScopeContext,
    r: Result<Vec<u8>, Error>,
) -> bool {
    &&& stack_op(pre_s, post_s, r, h.pops(), seq![pure_value(h, pre_pc, pre_i, pre_s)])
    &&& *post_i == *pre_i
    &&& post_pc == pre_pc
}

/// Replaces the `pops` top items of the stack by one.
pub(crate) fn replace_top(scope: &mut ScopeContext, pops: usize, value: Int256) -> (r: Result<
    Vec<u8>,
    Error,
>)
    requires
        old(scope).stack@.len() >= pops,
    ensures
        r is Ok,
        r->Ok_0@.len() == 0,
        stack_effect(old(scope), final(scope), pops as int, seq![value]),
{
    scope.stack.pop_n(pops);
    scope.stack.push(value);
    assert(scope.stack@ =~= old(scope).stack@.take(old(scope).stack@.len() - pops) + seq![value]);
    Ok(Vec::new())
}

/// Removes the `pops` top items of the stack.
pub(crate) fn drop_top(scope: &mut ScopeContext, pops: usize) -> (r: Result<Vec<u8>, Error>)
    requires
        old(scope).stack@.len() >= pops,
    ensures
        r is Ok,
        r->Ok_0@.len() == 0,
        stack_effect(old(scope), final(scope), pops as int, Seq::empty()),
{
    scope.stack.pop_n(pops);
    assert(scope.stack@ =~= old(scope).stack@.take(old(scope).stack@.len() - pops) + Seq::empty());
    Ok(Vec::new())
}

/// `length` bytes of `data` from `offset` on, with zeros for what lies behind
/// the end of `data`.
pub fn get_data(data: &[u8], offset: u64, length: u64) -> (r: Vec<u8>)
    requires
        length <= usize::MAX,
    ensures
        r@ == get_data_spec(data@, offset as nat, length as nat),
{
    let mut out: Vec<u8> = Vec::new();
    let n = data.len();
    let mut i: u64 = 0;
    while i < length
        invariant
            i <= length,
            n == data@.len(),
            out@.len() == i,
            forall|k: int|
                0 <= k < i ==> out@[k] == if offset + k < data@.len() {
                    data@[offset + k]
                } else {
                    0u8
                },
        decreases length - i,
    {
        let b = if offset <= u64::MAX - i && offset + i < n as u64 {
            data[(offset + i) as usize]
        } else {
            0
        };
        out.push(b);
        i = i + 1;
    }
    assert(out@ =~= get_data_spec(data@, offset as nat, length as nat));
    out
}

/// The `len` bytes of memory at `off`; nothing for a length of zero, wherever
/// the region starts.
pub open spec fn region_spec(mem: Seq<u8>, off: nat, len: nat) -> Seq<u8> {
    if len == 0 {
        Seq::empty()
    } else {
        mem.subrange(off as int, (off + len) as int)
    }
}

/// Whether memory of `mem_len` bytes holds the region of `len` bytes at
/// `off`.
pub open spec fn region_fits(off: nat, len: nat, mem_len: nat) -> bool {
    !mem_size_spec(off, len).1 && mem_size_spec(off, len).0 <= mem_len
}

/// Whether a memory differs from an earlier one in nothing but the `len`
/// bytes at `at`.
pub open spec fn memory_write(pre: &Memory, post: &Memory, at: int, len: int) -> bool {
    &&& post@.len() == pre@.len()
    &&& post.spec_last_gas_cost() == pre.spec_last_gas_cost()
    &&& forall|k: int| 0 <= k < pre@.len() && !(at <= k < at + len) ==> post@[k] == pre@[k]
}

/// Whether an interpreter differs from an earlier one in nothing but the
/// world state, whose snapshots are as before.
pub open spec fn only_state_changed(pre: &EVMInterpreter, post: &EVMInterpreter) -> bool {
    &&& post.table == pre.table
    &&& post.read_only == pre.read_only
    &&& post.return_data == pre.return_data
    &&& post.pool == pre.pool
    &&& crate::gas_table::evm_same_but_state(&pre.evm, &post.evm)
    &&& post.evm.state_db.wf()
    &&& post.evm.state_db.same_snapshots(&pre.evm.state_db)
}

/// Whether an interpreter differs from an earlier one in nothing but the
/// output that it holds.
pub open spec fn only_return_data_changed(pre: &EVMInterpreter, post: &EVMInterpreter) -> bool {
    &&& post.table == pre.table
    &&& post.read_only == pre.read_only
    &&& post.pool == pre.pool
    &&& post.evm == pre.evm
}

/// Offset and length of a region that memory holds, as machine numbers. The
/// offset of an empty region means nothing.
pub(crate) fn region_args(off: &Int256, len: &Int256, mem: &Memory) -> (r: (u64, u64))
    requires
        region_fits(off@, len@, mem@.len()),
    ensures
        r.1 == len@,
        len@ > 0 ==> r.0 == off@ && r.0 + r.1 <= mem@.len(),
{
    proof {
        off.lemma_low_limb();
        len.lemma_low_limb();
        lemma_div_mod_unique(len@ as int, two_64() as int, 0, len@ as int);
        if len@ > 0 {
            lemma_div_mod_unique(off@ as int, two_64() as int, 0, off@ as int);
        }
    }
    (off.low_u64(), len.low_u64())
}

/// A copy of the `len` bytes of memory at `off`.
pub(crate) fn memory_region(mem: &Memory, off: u64, len: u64) -> (r: Vec<u8>)
    requires
        len > 0 ==> off + len <= mem@.len(),
    ensures
        r@ == region_spec(mem@, off as nat, len as nat),
{
    if len == 0 {
        Vec::new()
    } else {
        let n = mem.len();
        slice_to_vec(slice_subrange(mem.data(), off as usize, (off + len) as usize))
    }
}

/// A copy of a byte string.
pub(crate) fn bytes_of(data: &[u8]) -> (r: Vec<u8>)
    ensures
        r@ == data@,
{
    slice_to_vec(data)
}

/// The item `n` places below the top of the stack.
pub(crate) fn item(scope: &ScopeContext, n: usize) -> (r: Int256)
    requires
        n < scope.stack@.len(),
    ensures
        r == crate::memory_table::back(scope.stack@, n as int),
{
    *scope.stack.back(n).unwrap()
}

} // verus!
