//! The interpreter: the frame that an operation works on, and the loop that
//! fetches, checks, charges and carries out one operation after another.

use vstd::prelude::*;
use vstd::slice::{slice_subrange, slice_to_vec};
use crate::common::{
    Address, create2_address, create2_address_spec, create_address, create_address_spec, Error,
};
use crate::contract::Contract;
use crate::evm::{EVM, TraceEvent};
use crate::gas_table::{
    dynamic_gas, dynamic_gas_effect, dynamic_gas_spec, MAX_MEMORY_SIZE, memory_cost,
    memory_total_cost, to_word_size, word_count,
};
use crate::instructions::{
    bool_word, is_pure, item, memory_region, memory_write, only_return_data_changed, pure_post,
    region_args, region_fits, region_spec, stack_op,
};
use crate::instructions::arithmetic::{
    op_add, op_addmod, op_div, op_exp, op_mod, op_mul, op_mulmod, op_sdiv, op_sign_extend, op_smod,
    op_sub,
};
use crate::instructions::block::{
    op_basefee, op_blobhash, op_blockhash, op_chainid, op_coinbase, op_difficulty, op_gaslimit,
    op_number, op_random, op_selfbalance, op_timestamp,
};
use crate::instructions::environment::{
    op_address, op_balance, op_call_data_load, op_call_data_size, op_call_value, op_caller,
    op_code_size, op_ext_code_hash, op_ext_code_size, op_gasprice, op_origin, op_return_data_size,
};
use crate::instructions::flow::{
    halt_post, jump_post, op_gas, op_jump, op_jumpdest, op_jumpi, op_pc, op_return, op_revert,
    op_stop, op_undefined,
};
use crate::instructions::logic::{
    op_and, op_byte, op_eq, op_gt, op_iszero, op_lt, op_not, op_or, op_sar, op_sgt, op_shl, op_shr,
    op_slt, op_xor,
};
use crate::instructions::memory_ops::{
    copy_post, keccak256_post, mstore8_post, mstore_post, op_call_data_copy, op_code_copy,
    op_ext_code_copy, op_keccak256, op_mload, op_msize, op_mstore, op_mstore8, op_pop,
    op_return_data_copy, return_data_copy_post,
};
use crate::instructions::stack_ops::{
    dup_post, op_dup, op_push, op_push0, op_swap, push_post, swap_post,
};
use crate::instructions::storage::{
    log_record, op_log, op_selfdestruct, op_sload, op_sstore, op_tload, op_tstore,
    selfdestruct_post, state_write_post,
};
use crate::int256::Int256;
use crate::jump_table::{ExecutionFunc, JumpTable, Operation, operation_wf};
use crate::memory::{Memory, overwrite};
use crate::memory_table::{back, memory_fits, memory_size, memory_size_spec, memory_stack_need};
use crate::op_code::{CALL, CALLCODE, CREATE, CREATE2, DELEGATECALL, STATICCALL, STOP};
use crate::params::{CALL_CREATE_DEPTH, CALL_STIPEND, CREATE_DATA_GAS, MAX_CODE_SIZE};
use crate::stack::{Stack, StackPool};
use crate::stack_table::STACK_LIMIT;
use crate::state::StateView;

verus! {

/// What one frame works on.
pub struct ScopeContext {
    pub memory: Memory,
    pub stack: Stack,
    pub contract: Contract,
}

/// The interpreter with the machine that it runs in.
pub struct EVMInterpreter {
    pub evm: EVM,
    pub table: JumpTable,
    /// Whether the frame may not change the world state.
    pub read_only: bool,
    /// The output of the last nested call, and on the way out of a frame the
    /// output of the frame.
    pub return_data: Vec<u8>,
    pub pool: StackPool,
}

impl EVMInterpreter {
    /// The machine and the table are well formed.
    pub open spec fn wf(&self) -> bool {
        &&& self.evm.wf()
        &&& self.table.wf()
    }

    /// An interpreter for a machine, with the table of the machine's rule
    /// set.
    pub fn new(evm: EVM) -> (r: EVMInterpreter)
        requires
            evm.wf(),
        ensures
            r.wf(),
            r.evm == evm,
            !r.read_only,
            r.return_data@.len() == 0,
            r.pool.available() == 0,
            forall|op: u8| #[trigger]
                r.table@[op as int] == crate::jump_table::operation_at(op, evm.chain_rules),
    {
        let table = crate::jump_table::instruction_set(&evm.chain_rules);
        EVMInterpreter {
            evm,
            table,
            read_only: false,
            return_data: Vec::new(),
            pool: StackPool::new(),
        }
    }
}

/// What holds of a frame between two operations: the stack is no deeper than
/// its limit, memory is a whole number of words long, and what was charged
/// for memory is the cost of its length.
pub open spec fn frame_inv(s: &ScopeContext) -> bool {
    &&& s.stack@.len() <= STACK_LIMIT
    &&& s.memory@.len() % 32 == 0
    &&& s.memory.spec_last_gas_cost() == memory_cost(s.memory@.len() / 32)
}

/// Whether a stack of `len` items is deep enough and not too deep for an
/// operation.
pub open spec fn validate_stack_spec(len: nat, min_stack: i32, max_stack: i32) -> Result<
    (),
    Error,
> {
    if len < min_stack {
        Err(Error::StackUnderflow)
    } else if len > max_stack {
        Err(Error::StackOverflow)
    } else {
        Ok(())
    }
}

/// Checks the depth of the stack against the bounds of an operation.
pub fn validate_stack(len: usize, min_stack: i32, max_stack: i32) -> (r: Result<(), Error>)
    ensures
        r == validate_stack_spec(len as nat, min_stack, max_stack),
{
    if min_stack > 0 && len < min_stack as usize {
        Err(Error::StackUnderflow)
    } else if max_stack < 0 || len > max_stack as usize {
        Err(Error::StackOverflow)
    } else {
        Ok(())
    }
}

/// The size that memory must have for an operation, in bytes and rounded up
/// to whole words; zero for an operation that touches no memory. A size that
/// cannot be told in 64 bits, that no gas can pay for, or that the machine
/// cannot address is an error.
pub open spec fn needed_memory(op: Operation, stack: Seq<Int256>) -> Result<u64, Error> {
    match op.memory_size {
        None => Ok(0u64),
        Some(f) => {
            let size = memory_size_spec(f, stack);
            let rounded = word_count(size.0 as nat) * 32;
            if size.1 || rounded > MAX_MEMORY_SIZE || rounded > usize::MAX {
                Err(Error::GasUintOverflow)
            } else {
                Ok(rounded as u64)
            }
        },
    }
}

/// What an operation costs beyond its fixed price, or why it cannot be paid
/// for.
pub open spec fn charge_spec(op: Operation, i: &EVMInterpreter, s: &ScopeContext) -> Result<
    u64,
    Error,
> {
    let gas = s.contract.spec_gas();
    if gas < op.constant_gas {
        Err(Error::OutOfGas)
    } else {
        match needed_memory(op, s.stack@) {
            Err(e) => Err(e),
            Ok(size) => match op.dynamic_gas {
                None => Ok(0u64),
                Some(g) => match dynamic_gas_spec(
                    g,
                    &i.evm,
                    s.contract.spec_address(),
                    (gas - op.constant_gas) as u64,
                    s.stack@,
                    s.memory.spec_last_gas_cost(),
                    s.memory@.len(),
                    size,
                ) {
                    Err(e) => Err(e),
                    Ok(d) => if gas - op.constant_gas < d {
                        Err(Error::OutOfGas)
                    } else {
                        Ok(d)
                    },
                },
            },
        }
    }
}

/// What charging leaves unchanged whether it succeeds or not.
pub open spec fn charge_frame(
    pre_i: &EVMInterpreter,
    post_i: &EVMInterpreter,
    pre: &ScopeContext,
    post: &ScopeContext,
) -> bool {
    &&& post_i.wf()
    &&& post_i.table == pre_i.table
    &&& post_i.read_only == pre_i.read_only
    &&& post_i.return_data == pre_i.return_data
    &&& post_i.pool == pre_i.pool
    &&& post_i.evm.depth == pre_i.evm.depth
    &&& post_i.evm.chain_rules == pre_i.evm.chain_rules
    &&& post_i.evm.context == pre_i.evm.context
    &&& post_i.evm.tracer == pre_i.evm.tracer
    &&& post_i.evm.state_db.same_snapshots(&pre_i.evm.state_db)
    &&& post.stack == pre.stack
    &&& post.contract.same_but_gas(&pre.contract)
    &&& post.contract.spec_gas() <= pre.contract.spec_gas()
    &&& frame_inv(post)
    &&& post.memory@.len() >= pre.memory@.len()
}

/// Memory after it was grown to hold `size` bytes: the old bytes, then zeros.
pub open spec fn memory_grown(pre: &Memory, post: &Memory, size: u64) -> bool {
    &&& post@.len() == if pre@.len() < size {
        size as nat
    } else {
        pre@.len()
    }
    &&& post@.subrange(0, pre@.len() as int) == pre@
    &&& forall|k: int| pre@.len() <= k < post@.len() ==> post@[k] == 0
}

/// What charging an operation leaves where it succeeds with the price `d`
/// beyond the fixed one: the gas less both prices, memory grown to the size
/// that the operation needs, and of the machine what the pricing changes.
pub open spec fn charge_effect(
    op: Operation,
    pre_i: &EVMInterpreter,
    post_i: &EVMInterpreter,
    pre: &ScopeContext,
    post: &ScopeContext,
    d: u64,
) -> bool {
    let size = needed_memory(op, pre.stack@)->Ok_0;
    &&& post.contract.spec_gas() == pre.contract.spec_gas() - op.constant_gas - d
    &&& memory_grown(&pre.memory, &post.memory, size)
    &&& match op.memory_size {
        Some(f) => memory_fits(f, pre.stack@, post.memory@.len()),
        None => true,
    }
    &&& match op.dynamic_gas {
        Some(g) => dynamic_gas_effect(
            g,
            &pre_i.evm,
            &post_i.evm,
            pre.contract.spec_address(),
            (pre.contract.spec_gas() - op.constant_gas) as u64,
            pre.stack@,
            pre.memory.spec_last_gas_cost(),
            pre.memory@.len(),
            size,
        ),
        None => post_i.evm == pre_i.evm,
    }
}

/// The size that memory must have for an operation.
fn measure_memory(op: &Operation, stack: &Stack) -> (r: Result<u64, Error>)
    requires
        match op.memory_size {
            Some(f) => stack@.len() >= memory_stack_need(f),
            None => true,
        },
    ensures
        r == needed_memory(*op, stack@),
{
    match op.memory_size {
        Some(f) => {
            let (bytes, overflow) = memory_size(f, stack);
            if overflow {
                return Err(Error::GasUintOverflow);
            }
            let words = to_word_size(bytes);
            if words > MAX_MEMORY_SIZE / 32 || words * 32 > usize::MAX as u64 {
                return Err(Error::GasUintOverflow);
            }
            Ok(words * 32)
        },
        None => Ok(0),
    }
}

/// Grows memory to `size` bytes and records what its new length costs.
fn grow_memory(memory: &mut Memory, size: u64)
    requires
        size % 32 == 0,
        size <= MAX_MEMORY_SIZE,
        size <= usize::MAX,
        old(memory)@.len() % 32 == 0,
        old(memory).spec_last_gas_cost() == memory_cost(old(memory)@.len() / 32),
    ensures
        memory_grown(old(memory), final(memory), size),
        final(memory)@.len() % 32 == 0,
        final(memory).spec_last_gas_cost() == memory_cost(final(memory)@.len() / 32),
{
    let len = memory.len();
    if size > len as u64 {
        let total = memory_total_cost(size / 32);
        memory.resize(size);
        memory.set_last_gas_cost(total);
    }
    proof {
        assert(memory@.subrange(0, old(memory)@.len() as int) =~= old(memory)@);
    }
}

/// A region that ends within the size that was measured for an operation
/// lies in memory that was grown to that size.
proof fn lemma_fits_after_growth(op: Operation, stack: Seq<Int256>, mem_len: nat)
    requires
        needed_memory(op, stack) is Ok,
        mem_len >= needed_memory(op, stack)->Ok_0,
    ensures
        match op.memory_size {
            Some(f) => memory_fits(f, stack, mem_len),
            None => true,
        },
{
}

/// Charges an operation: its fixed price, then the price of what it works
/// on, which includes the growth of memory; then grows memory. Gives the
/// second price.
#[verifier::rlimit(100)]
pub fn charge(op: &Operation, interpreter: &mut EVMInterpreter, scope: &mut ScopeContext) -> (r:
    Result<u64, Error>)
    requires
        old(interpreter).wf(),
        operation_wf(*op),
        frame_inv(old(scope)),
        old(scope).stack@.len() >= op.min_stack,
    ensures
        r == charge_spec(*op, old(interpreter), old(scope)),
        charge_frame(old(interpreter), final(interpreter), old(scope), final(scope)),
        r is Ok ==> charge_effect(
            *op,
            old(interpreter),
            final(interpreter),
            old(scope),
            final(scope),
            r->Ok_0,
        ),
{
    proof {
        crate::jump_table::lemma_operation_needs(*op);
    }
    if !scope.contract.use_gas(op.constant_gas) {
        return Err(Error::OutOfGas);
    }
    let size = match measure_memory(op, &scope.stack) {
        Ok(size) => size,
        Err(e) => {
            return Err(e);
        },
    };
    let mut cost: u64 = 0;
    match op.dynamic_gas {
        Some(g) => {
            cost =
            match dynamic_gas(
                g,
                &mut interpreter.evm,
                &scope.contract,
                &scope.stack,
                &scope.memory,
                size,
            ) {
                Ok(c) => c,
                Err(e) => {
                    return Err(e);
                },
            };
            if !scope.contract.use_gas(cost) {
                return Err(Error::OutOfGas);
            }
        },
        None => {},
    }
    grow_memory(&mut scope.memory, size);
    proof {
        lemma_fits_after_growth(*op, scope.stack@, scope.memory@.len());
    }
    Ok(cost)
}

/// The most gas that an operation can give back to the frame: what a call
/// hands on, with the stipend where it moves value.
pub open spec fn gas_back_cap(h: ExecutionFunc, i: &EVMInterpreter, s: &ScopeContext) -> nat {
    match h {
        ExecutionFunc::Call | ExecutionFunc::CallCode => (i.evm.call_gas_temp + (if back(
            s.stack@,
            2,
        )@ != 0 {
            CALL_STIPEND
        } else {
            0
        })) as nat,
        ExecutionFunc::DelegateCall | ExecutionFunc::StaticCall => i.evm.call_gas_temp as nat,
        _ => 0,
    }
}

/// What an operation needs before it runs: a well-formed interpreter, memory
/// that holds what the operation touches, and room in the gas counter for
/// what the operation can give back.
pub open spec fn handler_pre(h: ExecutionFunc, i: &EVMInterpreter, s: &ScopeContext) -> bool {
    &&& i.wf()
    &&& h.valid()
    &&& s.stack@.len() >= h.pops() ==> match h.memory_func() {
        Some(f) => memory_fits(f, s.stack@, s.memory@.len()),
        None => true,
    }
    &&& s.contract.spec_gas() + gas_back_cap(h, i, s) <= u64::MAX
}

/// What every operation keeps: the interpreter well formed, the table, the
/// read-only flag, the depth and the rule set as they were, the snapshots of
/// the state, the length of memory and the frame's contract but for its gas.
/// The gas grows by no more than the operation can give back; the stack of an
/// operation that lets the frame go on has changed by what the operation pops
/// and pushes; and an operation that always halts answers an error.
pub open spec fn handler_frame(
    h: ExecutionFunc,
    pre_i: &EVMInterpreter,
    post_i: &EVMInterpreter,
    pre: &ScopeContext,
    post: &ScopeContext,
    r: Result<Vec<u8>, Error>,
) -> bool {
    &&& post_i.wf()
    &&& post_i.table == pre_i.table
    &&& post_i.read_only == pre_i.read_only
    &&& post_i.evm.depth == pre_i.evm.depth
    &&& post_i.evm.chain_rules == pre_i.evm.chain_rules
    &&& post_i.evm.state_db.same_snapshots(&pre_i.evm.state_db)
    &&& post.memory@.len() == pre.memory@.len()
    &&& post.memory.spec_last_gas_cost() == pre.memory.spec_last_gas_cost()
    &&& post.contract.same_but_gas(&pre.contract)
    &&& post.contract.spec_gas() <= pre.contract.spec_gas() + gas_back_cap(h, pre_i, pre)
    &&& r is Ok ==> post.stack@.len() == pre.stack@.len() - h.pops() + h.pushes()
    &&& h.halts() ==> r is Err
}

/// A pure operation that did what it should kept what every operation keeps.
#[verifier::rlimit(100)]
pub proof fn lemma_pure_frame(
    h: ExecutionFunc,
    pre_pc: u64,
    post_pc: u64,
    pre_i: &EVMInterpreter,
    post_i: &EVMInterpreter,
    pre: &ScopeContext,
    post: &ScopeContext,
    r: Result<Vec<u8>, Error>,
)
    requires
        is_pure(h),
        pre_i.wf(),
        pure_post(h, pre_pc, post_pc, pre_i, post_i, pre, post, r),
    ensures
        handler_frame(h, pre_i, post_i, pre, post, r),
{
}

/// Carries out a pure operation.
#[verifier::rlimit(100)]
pub fn execute_pure(
    h: ExecutionFunc,
    pc: &mut u64,
    interpreter: &mut EVMInterpreter,
    scope: &mut ScopeContext,
) -> (r: Result<Vec<u8>, Error>)
    requires
        is_pure(h),
        handler_pre(h, old(interpreter), old(scope)),
    ensures
        pure_post(
            h,
            *old(pc),
            *final(pc),
            old(interpreter),
            final(interpreter),
            old(scope),
            final(scope),
            r,
        ),
{
    match h {
        ExecutionFunc::Add => op_add(pc, interpreter, scope),
        ExecutionFunc::Mul => op_mul(pc, interpreter, scope),
        ExecutionFunc::Sub => op_sub(pc, interpreter, scope),
        ExecutionFunc::Div => op_div(pc, interpreter, scope),
        ExecutionFunc::Sdiv => op_sdiv(pc, interpreter, scope),
        ExecutionFunc::Mod => op_mod(pc, interpreter, scope),
        ExecutionFunc::Smod => op_smod(pc, interpreter, scope),
        ExecutionFunc::Addmod => op_addmod(pc, interpreter, scope),
        ExecutionFunc::Mulmod => op_mulmod(pc, interpreter, scope),
        ExecutionFunc::Exp => op_exp(pc, interpreter, scope),
        ExecutionFunc::SignExtend => op_sign_extend(pc, interpreter, scope),
        ExecutionFunc::Lt => op_lt(pc, interpreter, scope),
        ExecutionFunc::Gt => op_gt(pc, interpreter, scope),
        ExecutionFunc::Slt => op_slt(pc, interpreter, scope),
        ExecutionFunc::Sgt => op_sgt(pc, interpreter, scope),
        ExecutionFunc::Eq => op_eq(pc, interpreter, scope),
        ExecutionFunc::IsZero => op_iszero(pc, interpreter, scope),
        ExecutionFunc::And => op_and(pc, interpreter, scope),
        ExecutionFunc::Or => op_or(pc, interpreter, scope),
        ExecutionFunc::Xor => op_xor(pc, interpreter, scope),
        ExecutionFunc::Not => op_not(pc, interpreter, scope),
        ExecutionFunc::Byte => op_byte(pc, interpreter, scope),
        ExecutionFunc::Shl => op_shl(pc, interpreter, scope),
        ExecutionFunc::Shr => op_shr(pc, interpreter, scope),
        ExecutionFunc::Sar => op_sar(pc, interpreter, scope),
        ExecutionFunc::Address => op_address(pc, interpreter, scope),
        ExecutionFunc::Balance => op_balance(pc, interpreter, scope),
        ExecutionFunc::Origin => op_origin(pc, interpreter, scope),
        ExecutionFunc::Caller => op_caller(pc, interpreter, scope),
        ExecutionFunc::CallValue => op_call_value(pc, interpreter, scope),
        ExecutionFunc::CallDataLoad => op_call_data_load(pc, interpreter, scope),
        ExecutionFunc::CallDataSize => op_call_data_size(pc, interpreter, scope),
        ExecutionFunc::CodeSize => op_code_size(pc, interpreter, scope),
        ExecutionFunc::GasPrice => op_gasprice(pc, interpreter, scope),
        ExecutionFunc::ExtCodeSize => op_ext_code_size(pc, interpreter, scope),
        ExecutionFunc::ReturnDataSize => op_return_data_size(pc, interpreter, scope),
        ExecutionFunc::ExtCodeHash => op_ext_code_hash(pc, interpreter, scope),
        ExecutionFunc::BlockHash => op_blockhash(pc, interpreter, scope),
        ExecutionFunc::Coinbase => op_coinbase(pc, interpreter, scope),
        ExecutionFunc::Timestamp => op_timestamp(pc, interpreter, scope),
        ExecutionFunc::Number => op_number(pc, interpreter, scope),
        ExecutionFunc::Difficulty => op_difficulty(pc, interpreter, scope),
        ExecutionFunc::Random => op_random(pc, interpreter, scope),
        ExecutionFunc::GasLimit => op_gaslimit(pc, interpreter, scope),
        ExecutionFunc::ChainId => op_chainid(pc, interpreter, scope),
        ExecutionFunc::SelfBalance => op_selfbalance(pc, interpreter, scope),
        ExecutionFunc::BaseFee => op_basefee(pc, interpreter, scope),
        ExecutionFunc::BlobHash => op_blobhash(pc, interpreter, scope),
        ExecutionFunc::MLoad => op_mload(pc, interpreter, scope),
        ExecutionFunc::SLoad => op_sload(pc, interpreter, scope),
        ExecutionFunc::TLoad => op_tload(pc, interpreter, scope),
        ExecutionFunc::Pc => op_pc(pc, interpreter, scope),
        ExecutionFunc::MSize => op_msize(pc, interpreter, scope),
        ExecutionFunc::Gas => op_gas(pc, interpreter, scope),
        _ => op_push0(pc, interpreter, scope),
    }
}

/// Whether an operation enters a nested frame.
pub open spec fn enters_frame(h: ExecutionFunc) -> bool {
    match h {
        ExecutionFunc::Create
        | ExecutionFunc::Create2
        | ExecutionFunc::Call
        | ExecutionFunc::CallCode
        | ExecutionFunc::DelegateCall
        | ExecutionFunc::StaticCall => true,
        _ => false,
    }
}

/// What an operation answers and leaves that is neither pure nor enters a
/// nested frame.
pub open spec fn plain_post(
    h: ExecutionFunc,
    pre_pc: u64,
    post_pc: u64,
    pre_i: &EVMInterpreter,
    post_i: &EVMInterpreter,
    pre: &ScopeContext,
    post: &ScopeContext,
    r: Result<Vec<u8>, Error>,
) -> bool {
    let s = pre.stack@;
    let state = pre_i.evm.state_db@;
    let me = pre.contract.spec_address();
    match h {
        ExecutionFunc::Stop => {
            &&& r == Err::<Vec<u8>, Error>(Error::StopToken)
            &&& only_return_data_changed(pre_i, post_i)
            &&& post_i.return_data@.len() == 0
            &&& *post == *pre
            &&& post_pc == pre_pc
        },
        ExecutionFunc::JumpDest => {
            &&& r is Ok
            &&& r->Ok_0@.len() == 0
            &&& *post == *pre
            &&& *post_i == *pre_i
            &&& post_pc == pre_pc
        },
        ExecutionFunc::Pop => {
            &&& stack_op(pre, post, r, 1, Seq::empty())
            &&& *post_i == *pre_i
            &&& post_pc == pre_pc
        },
        ExecutionFunc::MStore => {
            &&& mstore_post(pre, post, r)
            &&& *post_i == *pre_i
            &&& post_pc == pre_pc
        },
        ExecutionFunc::MStore8 => {
            &&& mstore8_post(pre, post, r)
            &&& *post_i == *pre_i
            &&& post_pc == pre_pc
        },
        ExecutionFunc::CallDataCopy => {
            &&& copy_post(
                pre,
                post,
                r,
                3,
                pre.contract.spec_input(),
                back(s, 0)@,
                back(s, 1)@,
                back(s, 2)@,
            )
            &&& *post_i == *pre_i
            &&& post_pc == pre_pc
        },
        ExecutionFunc::CodeCopy => {
            &&& copy_post(
                pre,
                post,
                r,
                3,
                pre.contract.spec_code(),
                back(s, 0)@,
                back(s, 1)@,
                back(s, 2)@,
            )
            &&& *post_i == *pre_i
            &&& post_pc == pre_pc
        },
        ExecutionFunc::ExtCodeCopy => {
            &&& copy_post(
                pre,
                post,
                r,
                4,
                state.code_of(Address::spec_from_word(back(s, 0))),
                back(s, 1)@,
                back(s, 2)@,
                back(s, 3)@,
            )
            &&& *post_i == *pre_i
            &&& post_pc == pre_pc
        },
        ExecutionFunc::ReturnDataCopy => {
            &&& return_data_copy_post(pre_i, pre, post, r)
            &&& *post_i == *pre_i
            &&& post_pc == pre_pc
        },
        ExecutionFunc::Keccak256 => {
            &&& keccak256_post(pre_i, post_i, pre, post, r)
            &&& post_pc == pre_pc
        },
        ExecutionFunc::SStore => {
            &&& state_write_post(
                pre_i,
                post_i,
                pre,
                post,
                r,
                2,
                StateView { storage: state.storage.insert((me, back(s, 0)), back(s, 1)), ..state },
            )
            &&& post_pc == pre_pc
        },
        ExecutionFunc::TStore => {
            &&& state_write_post(
                pre_i,
                post_i,
                pre,
                post,
                r,
                2,
                StateView {
                    transient: state.transient.insert((me, back(s, 0)), back(s, 1)),
                    ..state
                },
            )
            &&& post_pc == pre_pc
        },
        ExecutionFunc::Log(n) => {
            &&& state_write_post(
                pre_i,
                post_i,
                pre,
                post,
                r,
                n + 2,
                StateView { logs: state.logs.push(log_record(n, pre_i, pre)), ..state },
            )
            &&& post_pc == pre_pc
        },
        ExecutionFunc::Jump => {
            &&& jump_post(pre_pc, post_pc, pre, post, r, 1, true)
            &&& *post_i == *pre_i
        },
        ExecutionFunc::Jumpi => {
            &&& jump_post(pre_pc, post_pc, pre, post, r, 2, back(s, 1)@ != 0)
            &&& *post_i == *pre_i
        },
        ExecutionFunc::Push(n) => {
            &&& push_post(n, pre_pc, post_pc, pre, post, r)
            &&& *post_i == *pre_i
        },
        ExecutionFunc::Dup(n) => {
            &&& dup_post(n, pre, post, r)
            &&& *post_i == *pre_i
            &&& post_pc == pre_pc
        },
        ExecutionFunc::Swap(n) => {
            &&& swap_post(n, pre, post, r)
            &&& *post_i == *pre_i
            &&& post_pc == pre_pc
        },
        ExecutionFunc::Return => {
            &&& halt_post(pre_i, post_i, pre, post, r, Error::StopToken)
            &&& post_pc == pre_pc
        },
        ExecutionFunc::Revert => {
            &&& halt_post(pre_i, post_i, pre, post, r, Error::ExecutionReverted)
            &&& post_pc == pre_pc
        },
        ExecutionFunc::SelfDestruct => {
            &&& selfdestruct_post(pre_i, post_i, pre, post, r)
            &&& post_pc == pre_pc
        },
        ExecutionFunc::Undefined => {
            &&& r == Err::<Vec<u8>, Error>(
                Error::InvalidOpCode {
                    opcode: if pre_pc < pre.contract.spec_code().len() {
                        pre.contract.spec_code()[pre_pc as int]
                    } else {
                        STOP
                    },
                },
            )
            &&& *post == *pre
            &&& *post_i == *pre_i
            &&& post_pc == pre_pc
        },
        _ => true,
    }
}

/// What an operation answers and leaves that does not enter a nested frame.
pub open spec fn local_post(
    h: ExecutionFunc,
    pre_pc: u64,
    post_pc: u64,
    pre_i: &EVMInterpreter,
    post_i: &EVMInterpreter,
    pre: &ScopeContext,
    post: &ScopeContext,
    r: Result<Vec<u8>, Error>,
) -> bool {
    if is_pure(h) {
        pure_post(h, pre_pc, post_pc, pre_i, post_i, pre, post, r)
    } else {
        plain_post(h, pre_pc, post_pc, pre_i, post_i, pre, post, r)
    }
}

/// Carries out an operation that does not enter a nested frame.
#[verifier::rlimit(100)]
pub fn execute_local(
    h: ExecutionFunc,
    pc: &mut u64,
    interpreter: &mut EVMInterpreter,
    scope: &mut ScopeContext,
) -> (r: Result<Vec<u8>, Error>)
    requires
        !enters_frame(h),
        handler_pre(h, old(interpreter), old(scope)),
    ensures
        local_post(
            h,
            *old(pc),
            *final(pc),
            old(interpreter),
            final(interpreter),
            old(scope),
            final(scope),
            r,
        ),
        handler_frame(h, old(interpreter), final(interpreter), old(scope), final(scope), r),
{
    match h {
        ExecutionFunc::Stop => op_stop(pc, interpreter, scope),
        ExecutionFunc::JumpDest => op_jumpdest(pc, interpreter, scope),
        ExecutionFunc::Pop => op_pop(pc, interpreter, scope),
        ExecutionFunc::MStore => op_mstore(pc, interpreter, scope),
        ExecutionFunc::MStore8 => op_mstore8(pc, interpreter, scope),
        ExecutionFunc::CallDataCopy => op_call_data_copy(pc, interpreter, scope),
        ExecutionFunc::CodeCopy => op_code_copy(pc, interpreter, scope),
        ExecutionFunc::ExtCodeCopy => op_ext_code_copy(pc, interpreter, scope),
        ExecutionFunc::ReturnDataCopy => op_return_data_copy(pc, interpreter, scope),
        ExecutionFunc::Keccak256 => op_keccak256(pc, interpreter, scope),
        ExecutionFunc::SStore => op_sstore(pc, interpreter, scope),
        ExecutionFunc::TStore => op_tstore(pc, interpreter, scope),
        ExecutionFunc::Log(n) => op_log(n, pc, interpreter, scope),
        ExecutionFunc::Jump => op_jump(pc, interpreter, scope),
        ExecutionFunc::Jumpi => op_jumpi(pc, interpreter, scope),
        ExecutionFunc::Push(n) => op_push(n, pc, interpreter, scope),
        ExecutionFunc::Dup(n) => op_dup(n, pc, interpreter, scope),
        ExecutionFunc::Swap(n) => op_swap(n, pc, interpreter, scope),
        ExecutionFunc::Return => op_return(pc, interpreter, scope),
        ExecutionFunc::Revert => op_revert(pc, interpreter, scope),
        ExecutionFunc::SelfDestruct => op_selfdestruct(pc, interpreter, scope),
        ExecutionFunc::Undefined => op_undefined(pc, interpreter, scope),
        _ => {
            let r = execute_pure(h, pc, interpreter, scope);
            proof {
                lemma_pure_frame(
                    h,
                    *old(pc),
                    *pc,
                    old(interpreter),
                    interpreter,
                    old(scope),
                    scope,
                    r,
                );
            }
            r
        },
    }
}

/// How a nested call ended.
pub struct CallResult {
    /// What the callee gave back: its output, or the payload of its revert.
    pub output: Vec<u8>,
    /// The gas that the callee did not use.
    pub gas_left: u64,
    /// Why the callee failed, if it did.
    pub error: Option<Error>,
}

/// How a creation ended.
pub struct CreateResult {
    /// The payload of a revert; empty in every other case.
    pub output: Vec<u8>,
    /// The address of the new contract.
    pub address: Address,
    /// The gas that the creation did not use.
    pub gas_left: u64,
    /// Why the creation failed, if it did.
    pub error: Option<Error>,
}

/// What a nested frame keeps of the interpreter however it ends.
pub open spec fn keeps_frame(pre: &EVMInterpreter, post: &EVMInterpreter) -> bool {
    &&& post.wf()
    &&& post.table == pre.table
    &&& post.read_only == pre.read_only
    &&& post.evm.depth == pre.evm.depth
    &&& post.evm.chain_rules == pre.evm.chain_rules
    &&& post.evm.state_db.same_snapshots(&pre.evm.state_db)
}

/// Whether an error leaves the gas of the frame that it ended.
pub open spec fn keeps_gas(e: Error) -> bool {
    e == Error::ExecutionReverted
}

/// What holds of every outcome of `run`.
///
/// The depth and the read-only flag are as before the frame; the gas has not
/// grown; a failure other than a revert has used up all gas; the halt marker
/// never comes out; at the depth limit the frame fails at once; and a frame
/// without code succeeds with no output and changes neither gas nor state.
pub open spec fn run_outcome(
    pre_i: &EVMInterpreter,
    post_i: &EVMInterpreter,
    pre_c: &Contract,
    post_c: &Contract,
    input: Seq<u8>,
    r: Result<Vec<u8>, Error>,
) -> bool {
    &&& keeps_frame(pre_i, post_i)
    &&& post_c.spec_code() == pre_c.spec_code()
    &&& post_c.spec_caller() == pre_c.spec_caller()
    &&& post_c.spec_address() == pre_c.spec_address()
    &&& post_c.spec_value() == pre_c.spec_value()
    &&& post_c.spec_gas() <= pre_c.spec_gas()
    &&& r != Err::<Vec<u8>, Error>(Error::StopToken)
    &&& r matches Err(e) ==> keeps_gas(e) || post_c.spec_gas() == 0
    &&& r matches Ok(out) ==> post_i.return_data@ == out@
    &&& pre_i.evm.depth >= CALL_CREATE_DEPTH ==> r == Err::<Vec<u8>, Error>(Error::DepthLimit)
    &&& pre_i.evm.depth < CALL_CREATE_DEPTH ==> post_c.spec_input() == input
    &&& pre_i.evm.depth < CALL_CREATE_DEPTH && pre_c.spec_code().len() == 0 ==> {
        &&& r is Ok
        &&& r->Ok_0@.len() == 0
        &&& post_c.spec_gas() == pre_c.spec_gas()
        &&& post_i.evm.state_db@ == pre_i.evm.state_db@
    }
}

/// What holds of every outcome of a nested call that was given `gas`.
///
/// No more gas comes back than was given. A call that fails leaves the world
/// state as it was, and unless it reverted or never began, no gas. At the
/// depth limit, and where the caller cannot pay the value, the call never
/// begins.
pub open spec fn call_outcome(
    pre: &EVMInterpreter,
    post: &EVMInterpreter,
    gas: u64,
    caller: Address,
    value: Int256,
    transfers: bool,
    res: &CallResult,
) -> bool {
    let broke = transfers && value@ != 0 && pre.evm.state_db@.balance(caller) < value@;
    &&& keeps_frame(pre, post)
    &&& res.gas_left <= gas
    &&& res.error != Some(Error::StopToken)
    &&& res.error is Some ==> post.evm.state_db@ == pre.evm.state_db@
    &&& pre.evm.depth >= CALL_CREATE_DEPTH ==> res.error == Some(Error::DepthLimit)
    &&& pre.evm.depth < CALL_CREATE_DEPTH && broke ==> res.error == Some(
        Error::InsufficientBalance,
    )
    &&& pre.evm.depth >= CALL_CREATE_DEPTH || broke ==> res.gas_left == gas && res.output@.len()
        == 0
    &&& pre.evm.depth < CALL_CREATE_DEPTH && !broke ==> match res.error {
        Some(e) => keeps_gas(e) || res.gas_left == 0,
        None => true,
    }
}

/// What `complete_call` leaves: the status of the call on the stack in place
/// of the operation's items, one for success and zero for failure; the output
/// in memory, as far as it and the output region reach, if the call succeeded
/// or reverted; the unused gas back in the frame; and the output as the
/// interpreter's return data.
pub open spec fn complete_call_post(
    pre_i: &EVMInterpreter,
    post_i: &EVMInterpreter,
    pre: &ScopeContext,
    post: &ScopeContext,
    res: &CallResult,
    pops: int,
    ret_off: nat,
    ret_size: nat,
    r: Result<Vec<u8>, Error>,
) -> bool {
    let n = if ret_size < res.output@.len() {
        ret_size
    } else {
        res.output@.len()
    };
    let copies = res.error is None || res.error == Some(Error::ExecutionReverted);
    &&& r is Ok
    &&& r->Ok_0@ == res.output@
    &&& post.stack@ == pre.stack@.take(pre.stack@.len() - pops).push(bool_word(res.error is None))
    &&& post.contract.same_but_gas(&pre.contract)
    &&& post.contract.spec_gas() == pre.contract.spec_gas() + res.gas_left
    &&& post.memory.spec_last_gas_cost() == pre.memory.spec_last_gas_cost()
    &&& post.memory@ == if copies && n > 0 {
        overwrite(pre.memory@, ret_off as int, res.output@.take(n as int))
    } else {
        pre.memory@
    }
    &&& post_i.return_data@ == res.output@
    &&& post_i.evm == pre_i.evm
    &&& post_i.table == pre_i.table
    &&& post_i.read_only == pre_i.read_only
    &&& post_i.pool == pre_i.pool
}

/// Finishes a call operation once the nested call has ended.
#[verifier::rlimit(100)]
pub fn complete_call(
    interpreter: &mut EVMInterpreter,
    scope: &mut ScopeContext,
    res: CallResult,
    pops: usize,
    ret_off: &Int256,
    ret_size: &Int256,
) -> (r: Result<Vec<u8>, Error>)
    requires
        old(scope).stack@.len() >= pops,
        region_fits(ret_off@, ret_size@, old(scope).memory@.len()),
        old(scope).contract.spec_gas() + res.gas_left <= u64::MAX,
    ensures
        complete_call_post(
            old(interpreter),
            final(interpreter),
            old(scope),
            final(scope),
            &res,
            pops as int,
            ret_off@,
            ret_size@,
            r,
        ),
{
    let status = Int256::from_bool(res.error.is_none());
    scope.stack.pop_n(pops);
    scope.stack.push(status);
    let copies = match res.error {
        None => true,
        Some(e) => e == Error::ExecutionReverted,
    };
    if copies {
        let (off64, size64) = region_args(ret_off, ret_size, &scope.memory);
        let available = res.output.len() as u64;
        let n = if size64 < available {
            size64
        } else {
            available
        };
        if n > 0 {
            let part = slice_subrange(res.output.as_slice(), 0, n as usize);
            assert(part@ =~= res.output@.take(n as int));
            scope.memory.set(off64, n, part);
        }
    }
    let gas = scope.contract.gas();
    scope.contract.set_gas(gas + res.gas_left);
    let out = slice_to_vec(res.output.as_slice());
    interpreter.return_data = res.output;
    Ok(out)
}

/// What `complete_create` leaves: the address of the new contract on the
/// stack in place of the operation's items, or zero where the creation
/// failed; the unused gas back in the frame; and as the interpreter's return
/// data the payload of a revert, or nothing.
///
/// Running out of gas for storing the code counts as a failure under the
/// Homestead rules and as a success with empty code before them.
pub open spec fn complete_create_post(
    pre_i: &EVMInterpreter,
    post_i: &EVMInterpreter,
    pre: &ScopeContext,
    post: &ScopeContext,
    res: &CreateResult,
    pops: int,
    r: Result<Vec<u8>, Error>,
) -> bool {
    let failed = match res.error {
        None => false,
        Some(e) => e != Error::CodeStoreOutOfGas || pre_i.evm.chain_rules.is_homestead,
    };
    let reverted = res.error == Some(Error::ExecutionReverted);
    &&& r is Ok
    &&& r->Ok_0@ == post_i.return_data@
    &&& post.stack@ == pre.stack@.take(pre.stack@.len() - pops).push(
        if failed {
            Int256::spec_zero()
        } else {
            crate::int256::word(res.address@)
        },
    )
    &&& post.contract.same_but_gas(&pre.contract)
    &&& post.contract.spec_gas() == pre.contract.spec_gas() + res.gas_left
    &&& post.memory == pre.memory
    &&& post_i.return_data@ == if reverted {
        res.output@
    } else {
        Seq::empty()
    }
    &&& post_i.evm == pre_i.evm
    &&& post_i.table == pre_i.table
    &&& post_i.read_only == pre_i.read_only
    &&& post_i.pool == pre_i.pool
}

/// Finishes a creation once the nested frame has ended.
#[verifier::rlimit(100)]
pub fn complete_create(
    interpreter: &mut EVMInterpreter,
    scope: &mut ScopeContext,
    res: CreateResult,
    pops: usize,
) -> (r: Result<Vec<u8>, Error>)
    requires
        old(scope).stack@.len() >= pops,
        old(scope).contract.spec_gas() + res.gas_left <= u64::MAX,
    ensures
        complete_create_post(
            old(interpreter),
            final(interpreter),
            old(scope),
            final(scope),
            &res,
            pops as int,
            r,
        ),
{
    let failed = match res.error {
        None => false,
        Some(e) => e != Error::CodeStoreOutOfGas || interpreter.evm.chain_rules.is_homestead,
    };
    let word = if failed {
        Int256::zero()
    } else {
        let w = res.address.to_word();
        proof {
            crate::int256::lemma_word(w);
        }
        w
    };
    scope.stack.pop_n(pops);
    scope.stack.push(word);
    let gas = scope.contract.gas();
    scope.contract.set_gas(gas + res.gas_left);
    let reverted = match res.error {
        Some(e) => e == Error::ExecutionReverted,
        None => false,
    };
    if reverted {
        let out = slice_to_vec(res.output.as_slice());
        interpreter.return_data = res.output;
        Ok(out)
    } else {
        interpreter.return_data = Vec::new();
        Ok(Vec::new())
    }
}

/// How many levels of nesting the machine has left below the depth limit.
pub open spec fn nesting_left(i: &EVMInterpreter) -> nat {
    if i.evm.depth <= CALL_CREATE_DEPTH {
        (CALL_CREATE_DEPTH - i.evm.depth) as nat
    } else {
        0
    }
}

/// What an operation answers and leaves.
pub open spec fn handler_post(
    h: ExecutionFunc,
    pre_pc: u64,
    post_pc: u64,
    pre_i: &EVMInterpreter,
    post_i: &EVMInterpreter,
    pre: &ScopeContext,
    post: &ScopeContext,
    r: Result<Vec<u8>, Error>,
) -> bool
    decreases nesting_left(pre_i), 27nat,
{
    if enters_frame(h) {
        post_pc == pre_pc && nested_post(h, pre_i, post_i, pre, post, r)
    } else {
        local_post(h, pre_pc, post_pc, pre_i, post_i, pre, post, r)
    }
}

/// The operation that the table holds for the code at the counter; behind
/// the end of the code stands `STOP`.
pub open spec fn operation_here(pc: u64, i: &EVMInterpreter, s: &ScopeContext) -> Operation {
    let code = s.contract.spec_code();
    i.table@[(if pc < code.len() {
        code[pc as int]
    } else {
        STOP
    }) as int]
}

/// What the tracer is told before an operation is charged.
pub open spec fn step_event(pc: u64, i: &EVMInterpreter, s: &ScopeContext) -> TraceEvent {
    let code = s.contract.spec_code();
    TraceEvent::State {
        pc,
        op: if pc < code.len() {
            code[pc as int]
        } else {
            STOP
        },
        gas: s.contract.spec_gas(),
        cost: operation_here(pc, i, s).constant_gas,
        depth: i.evm.depth,
        stack_len: s.stack@.len() as usize,
        top: if s.stack@.len() > 0 {
            back(s.stack@, 0)
        } else {
            Int256::spec_zero()
        },
    }
}

/// Whether an interpreter differs from an earlier one in nothing but that
/// its tracer, if it has one, was told of an event.
pub open spec fn told(pre: &EVMInterpreter, post: &EVMInterpreter, event: TraceEvent) -> bool {
    &&& post.table == pre.table
    &&& post.read_only == pre.read_only
    &&& post.return_data == pre.return_data
    &&& post.pool == pre.pool
    &&& post.evm.context == pre.evm.context
    &&& post.evm.chain_rules == pre.evm.chain_rules
    &&& post.evm.state_db == pre.evm.state_db
    &&& post.evm.depth == pre.evm.depth
    &&& post.evm.abort == pre.evm.abort
    &&& post.evm.call_gas_temp == pre.evm.call_gas_temp
    &&& post.evm.origin == pre.evm.origin
    &&& post.evm.gas_price == pre.evm.gas_price
    &&& post.evm.enable_preimage_recording == pre.evm.enable_preimage_recording
    &&& match pre.evm.tracer {
        Some(t) => post.evm.tracer is Some && post.evm.tracer->Some_0.events@ == t.events@.push(
            event,
        ),
        None => post.evm.tracer is None,
    }
}

/// The course of a step around the operation itself, by way of the
/// interpreter once the tracer was told, of interpreter, frame and counter
/// once the operation was charged, and of what the operation answered: the
/// operation was charged with `d` beyond its fixed price, it kept what every
/// operation keeps, the counter moved on by one if the frame goes on, and the
/// step answers the error of the operation, or nothing.
pub open spec fn carried_out(
    op: Operation,
    d: u64,
    pre_pc: u64,
    mid_pc: u64,
    post_pc: u64,
    pre_i: &EVMInterpreter,
    told_i: &EVMInterpreter,
    mid_i: &EVMInterpreter,
    post_i: &EVMInterpreter,
    pre: &ScopeContext,
    mid: &ScopeContext,
    post: &ScopeContext,
    answer: Result<Vec<u8>, Error>,
    r: Result<(), Error>,
) -> bool {
    &&& told(pre_i, told_i, step_event(pre_pc, pre_i, pre))
    &&& charge_frame(told_i, mid_i, pre, mid)
    &&& charge_effect(op, told_i, mid_i, pre, mid, d)
    &&& handler_frame(op.execute, mid_i, post_i, mid, post, answer)
    &&& post_pc == if answer is Ok {
        if mid_pc == u64::MAX {
            0
        } else {
            (mid_pc + 1) as u64
        }
    } else {
        mid_pc
    }
    &&& r == match answer {
        Ok(_) => Ok::<(), Error>(()),
        Err(e) => Err::<(), Error>(e),
    }
}

/// What one step answers and leaves.
///
/// The interpreter keeps what a nested frame keeps; the frame stays within
/// its bounds; the contract changes in its gas alone, which does not grow and
/// shrinks if the frame goes on. A stack that is too shallow or too deep for
/// the operation at the counter ends the frame before anything changes, and a
/// price that cannot be told or paid ends it too. Else the operation is
/// charged and carried out, and does what `handler_post` says of it; unless
/// it enters a nested frame, the gas that the step uses is the operation's
/// fixed price and the price of what it works on, which includes the growth
/// of memory.
pub open spec fn step_outcome(
    pre_pc: u64,
    post_pc: u64,
    pre_i: &EVMInterpreter,
    post_i: &EVMInterpreter,
    pre: &ScopeContext,
    post: &ScopeContext,
    r: Result<(), Error>,
) -> bool
    decreases nesting_left(pre_i), 28nat,
{
    let op = operation_here(pre_pc, pre_i, pre);
    let fit = validate_stack_spec(pre.stack@.len(), op.min_stack, op.max_stack);
    &&& keeps_frame(pre_i, post_i)
    &&& frame_inv(post)
    &&& post.contract.same_but_gas(&pre.contract)
    &&& post.contract.spec_gas() <= pre.contract.spec_gas()
    &&& r is Ok ==> post.contract.spec_gas() < pre.contract.spec_gas()
    &&& fit matches Err(e) ==> r == Err::<(), Error>(e) && *post == *pre && *post_i == *pre_i
        && post_pc == pre_pc
    &&& fit is Ok ==> match charge_spec(op, pre_i, pre) {
        Err(e) => r == Err::<(), Error>(e) && post_pc == pre_pc,
        Ok(d) => {
            &&& !enters_frame(op.execute) ==> post.contract.spec_gas() == pre.contract.spec_gas()
                - op.constant_gas - d
            &&& exists|
                told_i: EVMInterpreter,
                mid_i: EVMInterpreter,
                mid: ScopeContext,
                mid_pc: u64,
                answer: Result<Vec<u8>, Error>,
            | #[trigger]
                carried_out(
                    op,
                    d,
                    pre_pc,
                    mid_pc,
                    post_pc,
                    pre_i,
                    &told_i,
                    &mid_i,
                    post_i,
                    pre,
                    &mid,
                    post,
                    answer,
                    r,
                ) && handler_post(op.execute, pre_pc, mid_pc, &mid_i, post_i, &mid, post, answer)
        },
    }
}

/// A frame between two steps.
pub struct FrameState {
    pub pc: u64,
    pub interpreter: EVMInterpreter,
    pub scope: ScopeContext,
}

/// Whether two machines differ in nothing but their depth.
pub open spec fn evm_same_but_depth(a: &EVM, b: &EVM) -> bool {
    &&& b.context == a.context
    &&& b.chain_rules == a.chain_rules
    &&& b.state_db == a.state_db
    &&& b.abort == a.abort
    &&& b.call_gas_temp == a.call_gas_temp
    &&& b.origin == a.origin
    &&& b.gas_price == a.gas_price
    &&& b.tracer == a.tracer
    &&& b.enable_preimage_recording == a.enable_preimage_recording
}

/// How a frame begins: the counter at zero, stack and memory empty, the input
/// bound to the contract, the machine one level deeper, the read-only flag
/// set if it was set before or is asked for, and no return data.
pub open spec fn frame_begins(
    first: &FrameState,
    pre_i: &EVMInterpreter,
    pre_c: &Contract,
    input: Seq<u8>,
    read_only: bool,
) -> bool {
    &&& first.pc == 0
    &&& first.scope.stack@.len() == 0
    &&& first.scope.memory@.len() == 0
    &&& first.scope.memory.spec_last_gas_cost() == 0
    &&& first.scope.contract.spec_code() == pre_c.spec_code()
    &&& first.scope.contract.spec_caller() == pre_c.spec_caller()
    &&& first.scope.contract.spec_address() == pre_c.spec_address()
    &&& first.scope.contract.spec_value() == pre_c.spec_value()
    &&& first.scope.contract.spec_gas() == pre_c.spec_gas()
    &&& first.scope.contract.spec_input() == input
    &&& first.interpreter.table == pre_i.table
    &&& first.interpreter.read_only == (pre_i.read_only || read_only)
    &&& first.interpreter.return_data@.len() == 0
    &&& first.interpreter.evm.depth == pre_i.evm.depth + 1
    &&& evm_same_but_depth(&pre_i.evm, &first.interpreter.evm)
}

/// Whether a step leads from one state of a frame to the next and lets the
/// frame go on.
pub open spec fn frame_goes_on(a: &FrameState, b: &FrameState) -> bool
    decreases nesting_left(&a.interpreter), 29nat,
{
    step_outcome(
        a.pc,
        b.pc,
        &a.interpreter,
        &b.interpreter,
        &a.scope,
        &b.scope,
        Ok::<(), Error>(()),
    )
}

/// Whether each state of a frame leads to the next by a step, all at the
/// depth of the first.
pub open spec fn frame_course(trace: Seq<FrameState>) -> bool
    decreases nesting_left(&trace[0].interpreter), 30nat,
{
    forall|k: int|
        #![trigger trace[k]]
        0 <= k < trace.len() - 1 ==> trace[k].interpreter.evm.depth
            == trace[0].interpreter.evm.depth && frame_goes_on(&trace[k], &trace[k + 1])
}

/// How a frame ends from a state: by a step that answers an error, or, where
/// a stop was asked for from outside, before the next step, as a regular halt
/// without output.
pub open spec fn frame_ends(last: &FrameState, end: &FrameState, e: Error) -> bool
    decreases nesting_left(&last.interpreter), 29nat,
{
    ||| step_outcome(
        last.pc,
        end.pc,
        &last.interpreter,
        &end.interpreter,
        &last.scope,
        &end.scope,
        Err::<(), Error>(e),
    )
    ||| {
        &&& e == Error::StopToken
        &&& end.pc == last.pc
        &&& end.scope == last.scope
        &&& only_return_data_changed(&last.interpreter, &end.interpreter)
        &&& end.interpreter.return_data@.len() == 0
    }
}

/// What `run` answers and leaves for a frame that ended in the state `end`
/// with `e`: after a regular halt the output that the interpreter holds; after
/// a revert the error, with the gas that was left; after a failure the error
/// and no gas. The machine is back at the depth and the interpreter at the
/// read-only flag that they had before the frame.
pub open spec fn frame_result(
    end: &FrameState,
    e: Error,
    pre_i: &EVMInterpreter,
    post_i: &EVMInterpreter,
    post_c: &Contract,
    r: Result<Vec<u8>, Error>,
) -> bool {
    &&& post_i.table == end.interpreter.table
    &&& post_i.return_data == end.interpreter.return_data
    &&& post_i.read_only == pre_i.read_only
    &&& post_i.evm.depth == pre_i.evm.depth
    &&& evm_same_but_depth(&end.interpreter.evm, &post_i.evm)
    &&& post_c.same_but_gas(&end.scope.contract)
    &&& post_c.spec_gas() == if e == Error::StopToken || keeps_gas(e) {
        end.scope.contract.spec_gas()
    } else {
        0
    }
    &&& if e == Error::StopToken {
        r is Ok && r->Ok_0@ == end.interpreter.return_data@
    } else {
        r == Err::<Vec<u8>, Error>(e)
    }
}

/// Whether `trace` begins as the frame of `run` begins, its last state is
/// at the depth of its first, and the answer of `run` is the result of the
/// frame's end in the state `end` with `e`.
pub open spec fn frame_ran(
    trace: Seq<FrameState>,
    end: &FrameState,
    e: Error,
    pre_i: &EVMInterpreter,
    post_i: &EVMInterpreter,
    pre_c: &Contract,
    post_c: &Contract,
    input: Seq<u8>,
    read_only: bool,
    r: Result<Vec<u8>, Error>,
) -> bool {
    &&& trace.len() >= 1
    &&& frame_begins(&trace[0], pre_i, pre_c, input, read_only)
    &&& trace.last().interpreter.evm.depth == trace[0].interpreter.evm.depth
    &&& frame_result(end, e, pre_i, post_i, post_c, r)
}

/// What `run` answers and leaves for a frame with code below the depth
/// limit: there is a course of steps from the beginning of the frame to a
/// state from which the frame ends, and the answer is the result of that end.
pub open spec fn run_course(
    pre_i: &EVMInterpreter,
    post_i: &EVMInterpreter,
    pre_c: &Contract,
    post_c: &Contract,
    input: Seq<u8>,
    read_only: bool,
    r: Result<Vec<u8>, Error>,
) -> bool
    decreases nesting_left(pre_i), 21nat,
{
    pre_i.evm.depth < CALL_CREATE_DEPTH && pre_c.spec_code().len() > 0 ==> exists|
        trace: Seq<FrameState>,
        end: FrameState,
        e: Error,
    | #[trigger]
        frame_ran(trace, &end, e, pre_i, post_i, pre_c, post_c, input, read_only, r)
            && frame_course(trace) && frame_ends(&trace.last(), &end, e)
}

/// What holds at every step boundary of a frame, however far the frame has
/// come: the stack is no deeper than its limit and memory a whole number of
/// words long, from the first step on; the depth, the read-only flag and the
/// table are those with which the frame began; and the gas has not grown.
#[verifier::rlimit(100)]
pub proof fn lemma_course_bounds(trace: Seq<FrameState>, k: int)
    requires
        frame_course(trace),
        0 <= k < trace.len(),
    ensures
        k > 0 ==> frame_inv(&trace[k].scope),
        trace[k].interpreter.evm.depth == trace[0].interpreter.evm.depth,
        trace[k].interpreter.read_only == trace[0].interpreter.read_only,
        trace[k].interpreter.table == trace[0].interpreter.table,
        trace[k].scope.contract.same_but_gas(&trace[0].scope.contract),
        trace[k].scope.contract.spec_gas() <= trace[0].scope.contract.spec_gas(),
        trace[k].scope.contract.spec_gas() + k <= trace[0].scope.contract.spec_gas(),
    decreases k,
{
    if k > 0 {
        lemma_course_bounds(trace, k - 1);
        let a = trace[k - 1];
        let b = trace[k];
        assert(frame_goes_on(&a, &b));
        assert(step_outcome(
            a.pc,
            b.pc,
            &a.interpreter,
            &b.interpreter,
            &a.scope,
            &b.scope,
            Ok::<(), Error>(()),
        ));
    }
}

/// The read-only flag holds at every step boundary of a frame that `run` was
/// asked to run read-only, or that began in a read-only interpreter: the
/// flag of every state of the course is set if either is so.
pub proof fn lemma_course_read_only(
    trace: Seq<FrameState>,
    end: FrameState,
    e: Error,
    pre_i: &EVMInterpreter,
    post_i: &EVMInterpreter,
    pre_c: &Contract,
    post_c: &Contract,
    input: Seq<u8>,
    read_only: bool,
    r: Result<Vec<u8>, Error>,
    k: int,
)
    requires
        frame_ran(trace, &end, e, pre_i, post_i, pre_c, post_c, input, read_only, r),
        frame_course(trace),
        0 <= k < trace.len(),
    ensures
        trace[k].interpreter.read_only == (pre_i.read_only || read_only),
        trace[k].interpreter.evm.depth == pre_i.evm.depth + 1,
{
    lemma_course_bounds(trace, k);
}

/// An operation that does not enter a nested frame leaves the gas as it is.
#[verifier::rlimit(100)]
pub proof fn lemma_local_keeps_gas(
    h: ExecutionFunc,
    pre_pc: u64,
    post_pc: u64,
    pre_i: &EVMInterpreter,
    post_i: &EVMInterpreter,
    pre: &ScopeContext,
    post: &ScopeContext,
    r: Result<Vec<u8>, Error>,
)
    requires
        !enters_frame(h),
        local_post(h, pre_pc, post_pc, pre_i, post_i, pre, post, r),
    ensures
        post.contract.spec_gas() == pre.contract.spec_gas(),
{
}

/// Once an operation is charged, the frame has paid for all that the
/// operation can give back, and for one unit more unless the operation halts.
#[verifier::rlimit(100)]
pub proof fn lemma_charged(
    op: Operation,
    pre_i: &EVMInterpreter,
    mid_i: &EVMInterpreter,
    pre: &ScopeContext,
    mid: &ScopeContext,
    d: u64,
)
    requires
        operation_wf(op),
        pre.stack@.len() >= op.min_stack,
        charge_spec(op, pre_i, pre) == Ok::<u64, Error>(d),
        charge_effect(op, pre_i, mid_i, pre, mid, d),
        mid.stack == pre.stack,
    ensures
        mid.contract.spec_gas() + gas_back_cap(op.execute, mid_i, mid) + (if op.execute.halts() {
            0nat
        } else {
            1nat
        }) <= pre.contract.spec_gas(),
{
    crate::jump_table::lemma_operation_needs(op);
}

/// Whether a call operation is refused because it would move value in a
/// read-only frame.
pub open spec fn call_writes(h: ExecutionFunc, i: &EVMInterpreter, s: &ScopeContext) -> bool {
    h == ExecutionFunc::Call && i.read_only && back(s.stack@, 2)@ != 0
}

/// The gas that a call operation gives the callee: what was kept for it when
/// the operation was charged, and the stipend where `CALL` or `CALLCODE` move
/// value.
pub open spec fn call_gas_given(h: ExecutionFunc, i: &EVMInterpreter, s: &ScopeContext) -> nat {
    gas_back_cap(h, i, s)
}

/// The account in whose name a call operation calls.
pub open spec fn call_caller(h: ExecutionFunc, s: &ScopeContext) -> Address {
    if h == ExecutionFunc::DelegateCall {
        s.contract.spec_caller()
    } else {
        s.contract.spec_address()
    }
}

/// The value that goes with a call operation.
pub open spec fn call_value(h: ExecutionFunc, s: &ScopeContext) -> Int256 {
    match h {
        ExecutionFunc::Call | ExecutionFunc::CallCode => back(s.stack@, 2),
        ExecutionFunc::DelegateCall => s.contract.spec_value(),
        _ => Int256::spec_zero(),
    }
}

/// Whether the nested call of a call operation begins: the machine is below
/// the depth limit, and the caller can pay the value where value moves.
pub open spec fn call_begun(h: ExecutionFunc, i: &EVMInterpreter, s: &ScopeContext) -> bool {
    &&& i.evm.depth < CALL_CREATE_DEPTH
    &&& !((h == ExecutionFunc::Call || h == ExecutionFunc::CallCode) && call_value(h, s)@ != 0
        && i.evm.state_db@.balance(call_caller(h, s)) < call_value(h, s)@)
}

/// What the nested call of a call operation ran, for a call that begins: the
/// code of the account that the operation names, on the region of memory that
/// the operation names as its input, with the gas that the operation gives.
///
/// `CALL` runs the callee in its own name, after the value has moved to it,
/// and does nothing where it goes without value to an account that does not
/// exist under the rule that clears empty accounts. `CALLCODE` and
/// `DELEGATECALL` run the callee's code in the name of the account that
/// runs, `DELEGATECALL` with the caller and the value of this frame.
/// `STATICCALL` runs the callee in its own name in a read-only frame.
pub open spec fn nested_call_course(
    h: ExecutionFunc,
    pre_i: &EVMInterpreter,
    mid_i: &EVMInterpreter,
    s: &ScopeContext,
    res: &CallResult,
) -> bool
    decreases nesting_left(pre_i), 24nat,
{
    let callee = Address::spec_from_word(back(s.stack@, 1));
    let me = s.contract.spec_address();
    let gas = call_gas_given(h, pre_i, s) as u64;
    let value = call_value(h, s);
    let state = pre_i.evm.state_db@;
    let input = region_spec(
        s.memory@,
        back(s.stack@, h.pops() - 4)@,
        back(s.stack@, h.pops() - 3)@,
    );
    match h {
        ExecutionFunc::Call => if call_skipped(pre_i, callee, value) {
            &&& res.error is None
            &&& res.gas_left == gas
            &&& res.output@.len() == 0
            &&& mid_i.evm.state_db@ == state
        } else {
            call_course(
                pre_i,
                mid_i,
                me,
                callee,
                value,
                callee,
                gas,
                state_after_transfer(state, me, callee, value@),
                input,
                false,
                res,
            )
        },
        ExecutionFunc::CallCode => call_course(
            pre_i,
            mid_i,
            me,
            me,
            value,
            callee,
            gas,
            state,
            input,
            false,
            res,
        ),
        ExecutionFunc::DelegateCall => call_course(
            pre_i,
            mid_i,
            s.contract.spec_caller(),
            me,
            value,
            callee,
            gas,
            state,
            input,
            false,
            res,
        ),
        _ => call_course(pre_i, mid_i, me, callee, value, callee, gas, state, input, true, res),
    }
}

/// Whether a call operation made of the outcome of its nested call what it
/// should, by way of the interpreter once the nested call had ended and of
/// how it ended.
pub open spec fn call_completed(
    h: ExecutionFunc,
    pre_i: &EVMInterpreter,
    mid_i: &EVMInterpreter,
    post_i: &EVMInterpreter,
    pre: &ScopeContext,
    post: &ScopeContext,
    res: &CallResult,
    r: Result<Vec<u8>, Error>,
) -> bool {
    &&& call_outcome(
        pre_i,
        mid_i,
        call_gas_given(h, pre_i, pre) as u64,
        call_caller(h, pre),
        call_value(h, pre),
        h == ExecutionFunc::Call || h == ExecutionFunc::CallCode,
        res,
    )
    &&& complete_call_post(
        mid_i,
        post_i,
        pre,
        post,
        res,
        h.pops(),
        back(pre.stack@, h.pops() - 2)@,
        back(pre.stack@, h.pops() - 1)@,
        r,
    )
}

/// What an operation that enters a nested call answers and leaves: with too
/// few items an underflow, for a transfer of value in a read-only frame a
/// write protection error, both with nothing changed; else the nested call
/// runs as `nested_call_course` says, and the operation leaves what
/// `complete_call` leaves for its outcome.
pub open spec fn nested_call_post(
    h: ExecutionFunc,
    pre_i: &EVMInterpreter,
    post_i: &EVMInterpreter,
    pre: &ScopeContext,
    post: &ScopeContext,
    r: Result<Vec<u8>, Error>,
) -> bool
    decreases nesting_left(pre_i), 25nat,
{
    let pops = h.pops();
    let len = pre.stack@.len();
    if len < pops {
        r == Err::<Vec<u8>, Error>(Error::StackUnderflow) && *post == *pre && *post_i == *pre_i
    } else if call_writes(h, pre_i, pre) {
        r == Err::<Vec<u8>, Error>(Error::WriteProtection) && *post == *pre && *post_i == *pre_i
    } else {
        &&& r is Ok
        &&& post_i.return_data@ == r->Ok_0@
        &&& post.stack@.len() == len - pops + 1
        &&& post.stack@.take(len - pops) == pre.stack@.take(len - pops)
        &&& (post.stack@.last() == Int256::spec_zero() || post.stack@.last()
            == Int256::spec_one())
        &&& memory_write(
            &pre.memory,
            &post.memory,
            back(pre.stack@, pops - 2)@ as int,
            back(pre.stack@, pops - 1)@ as int,
        )
        &&& exists|mid_i: EVMInterpreter, res: CallResult| #[trigger]
            call_completed(h, pre_i, &mid_i, post_i, pre, post, &res, r) && (call_begun(
                h,
                pre_i,
                pre,
            ) ==> nested_call_course(h, pre_i, &mid_i, pre, &res))
    }
}

/// The gas that a creation hands on: all that the frame has, less a 64th
/// under the all-but-one-64th rule.
pub open spec fn create_gas_spec(is_eip150: bool, gas: u64) -> u64 {
    if is_eip150 {
        (gas - gas / 64) as u64
    } else {
        gas
    }
}

/// Under the all-but-one-64th rule a creation never gets more than the
/// creator's gas less a 64th of it.
pub proof fn lemma_create_gas_bounded(gas: u64)
    ensures
        create_gas_spec(true, gas) <= gas - gas / 64,
        create_gas_spec(false, gas) == gas,
{
}

/// The address at which a creating operation makes its contract.
pub open spec fn created_address(h: ExecutionFunc, i: &EVMInterpreter, s: &ScopeContext)
    -> Address {
    let me = s.contract.spec_address();
    if h == ExecutionFunc::Create {
        create_address_spec(me, i.evm.state_db@.nonce(me))
    } else {
        create2_address_spec(
            me,
            back(s.stack@, 3),
            region_spec(s.memory@, back(s.stack@, 1)@, back(s.stack@, 2)@),
        )
    }
}

/// Whether the creation of a creating operation begins: the machine is below
/// the depth limit, and the creator can pay the value.
pub open spec fn create_begun(i: &EVMInterpreter, s: &ScopeContext) -> bool {
    &&& i.evm.depth < CALL_CREATE_DEPTH
    &&& !(back(s.stack@, 0)@ != 0 && i.evm.state_db@.balance(s.contract.spec_address()) < back(
        s.stack@,
        0,
    )@)
}

/// Whether a creating operation made of the outcome of its creation what it
/// should, by way of the frame once the gas for the creation was taken from
/// it, of the interpreter once the creation had ended, and of how it ended.
pub open spec fn create_completed(
    h: ExecutionFunc,
    pre_i: &EVMInterpreter,
    mid_i: &EVMInterpreter,
    post_i: &EVMInterpreter,
    pre: &ScopeContext,
    mid: &ScopeContext,
    post: &ScopeContext,
    res: &CreateResult,
    r: Result<Vec<u8>, Error>,
) -> bool {
    let gas = create_gas_spec(pre_i.evm.chain_rules.is_eip150, pre.contract.spec_gas());
    &&& mid.stack == pre.stack
    &&& mid.memory == pre.memory
    &&& mid.contract.same_but_gas(&pre.contract)
    &&& mid.contract.spec_gas() == pre.contract.spec_gas() - gas
    &&& create_outcome(pre_i, mid_i, gas, pre.contract.spec_address(), back(pre.stack@, 0), res)
    &&& res.address == created_address(h, pre_i, pre)
    &&& complete_create_post(mid_i, post_i, mid, post, res, h.pops(), r)
}

/// What an operation that creates a contract answers and leaves: in a
/// read-only frame a write protection error, with too few items an underflow,
/// both with nothing changed; else the creation runs as `create_course`
/// says, on the code that the operation names in memory and with all gas of
/// the frame but what the all-but-one-64th rule keeps back, and the operation
/// leaves what `complete_create` leaves for its outcome.
pub open spec fn nested_create_post(
    h: ExecutionFunc,
    pre_i: &EVMInterpreter,
    post_i: &EVMInterpreter,
    pre: &ScopeContext,
    post: &ScopeContext,
    r: Result<Vec<u8>, Error>,
) -> bool
    decreases nesting_left(pre_i), 25nat,
{
    let pops = h.pops();
    let len = pre.stack@.len();
    if pre_i.read_only {
        r == Err::<Vec<u8>, Error>(Error::WriteProtection) && *post == *pre && *post_i == *pre_i
    } else if len < pops {
        r == Err::<Vec<u8>, Error>(Error::StackUnderflow) && *post == *pre && *post_i == *pre_i
    } else {
        &&& r is Ok
        &&& post_i.return_data@ == r->Ok_0@
        &&& post.stack@.len() == len - pops + 1
        &&& post.stack@.take(len - pops) == pre.stack@.take(len - pops)
        &&& post.memory == pre.memory
        &&& exists|mid_i: EVMInterpreter, mid: ScopeContext, res: CreateResult| #[trigger]
            create_completed(h, pre_i, &mid_i, post_i, pre, &mid, post, &res, r) && (create_begun(
                pre_i,
                pre,
            ) ==> create_course(
                pre_i,
                &mid_i,
                pre.contract.spec_address(),
                region_spec(pre.memory@, back(pre.stack@, 1)@, back(pre.stack@, 2)@),
                create_gas_spec(pre_i.evm.chain_rules.is_eip150, pre.contract.spec_gas()),
                back(pre.stack@, 0),
                res.address,
                &res,
            ))
    }
}

/// `STATICCALL` runs its callee in a read-only frame: where the operation
/// finds its six items and the machine is below the depth limit, there is a
/// frame of the callee's code, in the callee's name and without value, on the
/// input that the operation names and with the gas that was kept for the
/// call, that `run` ran read-only from the state before the call, and the
/// operation made of its outcome what `complete_call` makes of it.
pub proof fn lemma_static_call_read_only(
    pre_i: &EVMInterpreter,
    post_i: &EVMInterpreter,
    pre: &ScopeContext,
    post: &ScopeContext,
    r: Result<Vec<u8>, Error>,
)
    requires
        nested_call_post(ExecutionFunc::StaticCall, pre_i, post_i, pre, post, r),
        pre.stack@.len() >= 6,
        pre_i.evm.depth < CALL_CREATE_DEPTH,
    ensures
        exists|
            mid_i: EVMInterpreter,
            res: CallResult,
            mid: EVMInterpreter,
            frame: Contract,
            ran: EVMInterpreter,
            c_post: Contract,
            answer: Result<Vec<u8>, Error>,
        |
            #![trigger
                call_completed(ExecutionFunc::StaticCall, pre_i, &mid_i, post_i, pre, post, &res, r),
                nested_ran(&mid, &ran, &mid_i, &frame, &c_post, region_spec(
                    pre.memory@,
                    back(pre.stack@, 2)@,
                    back(pre.stack@, 3)@,
                ), answer, &res)
            ]
            {
                let callee = Address::spec_from_word(back(pre.stack@, 1));
                let input = region_spec(pre.memory@, back(pre.stack@, 2)@, back(pre.stack@, 3)@);
                &&& call_completed(
                    ExecutionFunc::StaticCall,
                    pre_i,
                    &mid_i,
                    post_i,
                    pre,
                    post,
                    &res,
                    r,
                )
                &&& call_begins(
                    pre_i,
                    &mid,
                    &frame,
                    pre.contract.spec_address(),
                    callee,
                    Int256::spec_zero(),
                    callee,
                    pre_i.evm.call_gas_temp,
                    pre_i.evm.state_db@,
                )
                &&& nested_ran(&mid, &ran, &mid_i, &frame, &c_post, input, answer, &res)
                &&& run_course(&mid, &ran, &frame, &c_post, input, true, answer)
            },
{
    let h = ExecutionFunc::StaticCall;
    let callee = Address::spec_from_word(back(pre.stack@, 1));
    let me = pre.contract.spec_address();
    let input = region_spec(pre.memory@, back(pre.stack@, 2)@, back(pre.stack@, 3)@);
    let gas = pre_i.evm.call_gas_temp;
    let state = pre_i.evm.state_db@;
    let (mid_i, res) = choose|mid_i: EVMInterpreter, res: CallResult| #[trigger]
        call_completed(h, pre_i, &mid_i, post_i, pre, post, &res, r) && (call_begun(h, pre_i, pre)
            ==> nested_call_course(h, pre_i, &mid_i, pre, &res));
    assert(call_completed(h, pre_i, &mid_i, post_i, pre, post, &res, r));
    assert(nested_call_course(h, pre_i, &mid_i, pre, &res));
    assert(call_course(
        pre_i,
        &mid_i,
        me,
        callee,
        Int256::spec_zero(),
        callee,
        gas,
        state,
        input,
        true,
        &res,
    ));
    let (mid, frame) = choose|mid: EVMInterpreter, frame: Contract| #[trigger]
        call_begins(pre_i, &mid, &frame, me, callee, Int256::spec_zero(), callee, gas, state)
            && nested_run(&mid, &mid_i, &frame, input, true, &res);
    assert(nested_run(&mid, &mid_i, &frame, input, true, &res));
    let (ran, c_post, answer) = choose|
        ran: EVMInterpreter,
        c_post: Contract,
        answer: Result<Vec<u8>, Error>,
    | #[trigger]
        nested_ran(&mid, &ran, &mid_i, &frame, &c_post, input, answer, &res) && run_course(
            &mid,
            &ran,
            &frame,
            &c_post,
            input,
            true,
            answer,
        );
    assert(nested_ran(&mid, &ran, &mid_i, &frame, &c_post, input, answer, &res));
    assert(run_course(&mid, &ran, &frame, &c_post, input, true, answer));
}

/// What an operation that enters a nested frame answers and leaves.
pub open spec fn nested_post(
    h: ExecutionFunc,
    pre_i: &EVMInterpreter,
    post_i: &EVMInterpreter,
    pre: &ScopeContext,
    post: &ScopeContext,
    r: Result<Vec<u8>, Error>,
) -> bool
    decreases nesting_left(pre_i), 26nat,
{
    if h == ExecutionFunc::Create || h == ExecutionFunc::Create2 {
        nested_create_post(h, pre_i, post_i, pre, post, r)
    } else {
        nested_call_post(h, pre_i, post_i, pre, post, r)
    }
}

/// What holds of every outcome of a creation that was given `gas`: no more
/// gas comes back than was given, and a creation that fails for another
/// reason than a revert leaves none, unless it never began or, before the
/// Homestead rules, only ran out of gas for storing the code.
pub open spec fn create_outcome(
    pre: &EVMInterpreter,
    post: &EVMInterpreter,
    gas: u64,
    creator: Address,
    value: Int256,
    res: &CreateResult,
) -> bool {
    let broke = value@ != 0 && pre.evm.state_db@.balance(creator) < value@;
    &&& keeps_frame(pre, post)
    &&& res.gas_left <= gas
    &&& res.error != Some(Error::StopToken)
    &&& pre.evm.depth >= CALL_CREATE_DEPTH ==> res.error == Some(Error::DepthLimit)
    &&& pre.evm.depth < CALL_CREATE_DEPTH && broke ==> res.error == Some(
        Error::InsufficientBalance,
    )
    &&& pre.evm.depth >= CALL_CREATE_DEPTH || broke ==> res.gas_left == gas
        && post.evm.state_db@ == pre.evm.state_db@
    &&& pre.evm.depth < CALL_CREATE_DEPTH && !broke ==> match res.error {
        Some(e) => keeps_gas(e) || res.gas_left == 0 || (e == Error::CodeStoreOutOfGas
            && !pre.evm.chain_rules.is_homestead),
        None => true,
    }
}

/// What an interpreter keeps while a nested frame is entered or left: all but
/// the world state and the tracer.
pub open spec fn frame_left(a: &EVMInterpreter, b: &EVMInterpreter) -> bool {
    &&& b.table == a.table
    &&& b.read_only == a.read_only
    &&& b.return_data == a.return_data
    &&& b.pool == a.pool
    &&& b.evm.context == a.evm.context
    &&& b.evm.chain_rules == a.evm.chain_rules
    &&& b.evm.depth == a.evm.depth
    &&& b.evm.abort == a.evm.abort
    &&& b.evm.call_gas_temp == a.evm.call_gas_temp
    &&& b.evm.origin == a.evm.origin
    &&& b.evm.gas_price == a.evm.gas_price
    &&& b.evm.enable_preimage_recording == a.evm.enable_preimage_recording
}

/// Whether a nested frame ran from the interpreter `pre`, whose last snapshot
/// holds the state to go back to, left the interpreter `ran` and the contract
/// `c_post` with the answer `r`, and was left with the outcome `res` and the
/// interpreter `post`: the outcome holds the gas that is left and the output,
/// or the error with the payload of a revert; and the state is that of the
/// frame if it succeeded and that of the snapshot if it failed.
pub open spec fn nested_ran(
    pre: &EVMInterpreter,
    ran: &EVMInterpreter,
    post: &EVMInterpreter,
    contract: &Contract,
    c_post: &Contract,
    input: Seq<u8>,
    r: Result<Vec<u8>, Error>,
    res: &CallResult,
) -> bool {
    &&& run_outcome(pre, ran, contract, c_post, input, r)
    &&& frame_left(ran, post)
    &&& res.gas_left == c_post.spec_gas()
    &&& match r {
        Ok(out) => res.error is None && res.output@ == out@ && post.evm.state_db@
            == ran.evm.state_db@,
        Err(e) => res.error == Some(e) && res.output@ == (if keeps_gas(e) {
            ran.return_data@
        } else {
            Seq::empty()
        }) && post.evm.state_db@ == pre.evm.state_db.snapshot_view(
            pre.evm.state_db.snapshot_count() - 1,
        ),
    }
}

/// Whether `res` is the outcome of running the frame of `contract` from the
/// interpreter `pre`: the frame ran as `run_course` says, and was left as
/// `nested_ran` says.
pub open spec fn nested_run(
    pre: &EVMInterpreter,
    post: &EVMInterpreter,
    contract: &Contract,
    input: Seq<u8>,
    read_only: bool,
    res: &CallResult,
) -> bool
    decreases nesting_left(pre), 22nat,
{
    exists|ran: EVMInterpreter, c_post: Contract, r: Result<Vec<u8>, Error>| #[trigger]
        nested_ran(pre, &ran, post, contract, &c_post, input, r, res) && run_course(
            pre,
            &ran,
            contract,
            &c_post,
            input,
            read_only,
            r,
        )
}

/// The state after a call has moved `value` from `caller` to `addr`, which
/// exists from then on.
pub open spec fn state_after_transfer(s: StateView, caller: Address, addr: Address, value: nat)
    -> StateView {
    (StateView { accounts: s.accounts.insert(addr, s.account(addr)), ..s }).debit(
        caller,
        value,
    ).credit(addr, value)
}

/// Whether a call does nothing because it goes without value to an account
/// that does not exist, under the rule that clears empty accounts.
pub open spec fn call_skipped(pre: &EVMInterpreter, addr: Address, value: Int256) -> bool {
    !pre.evm.state_db@.accounts.dom().contains(addr) && pre.evm.chain_rules.is_eip158 && value@
        == 0
}

/// Whether a called frame begins in the interpreter `mid` with the contract
/// `frame`: a snapshot of the state before the call was taken, the state is
/// `state`, and the frame runs the code of `code_from` with the given caller,
/// address, value and gas.
pub open spec fn call_begins(
    pre: &EVMInterpreter,
    mid: &EVMInterpreter,
    frame: &Contract,
    frame_caller: Address,
    frame_address: Address,
    frame_value: Int256,
    code_from: Address,
    gas: u64,
    state: StateView,
) -> bool {
    &&& frame_left(pre, mid)
    &&& mid.wf()
    &&& mid.evm.state_db.snapshot_count() == pre.evm.state_db.snapshot_count() + 1
    &&& mid.evm.state_db.snapshot_view(pre.evm.state_db.snapshot_count() as int)
        == pre.evm.state_db@
    &&& mid.evm.state_db.keeps_snapshots_of(&pre.evm.state_db)
    &&& mid.evm.state_db@ == state
    &&& frame.spec_caller() == frame_caller
    &&& frame.spec_address() == frame_address
    &&& frame.spec_value() == frame_value
    &&& frame.spec_gas() == gas
    &&& frame.spec_code() == pre.evm.state_db@.code_of(code_from)
}

/// What a call that begins answers and leaves: its frame begins with the
/// given caller, address and value on the code of `code_from`, in the state
/// `state`, and `res` is the outcome of running it.
pub open spec fn call_course(
    pre: &EVMInterpreter,
    post: &EVMInterpreter,
    frame_caller: Address,
    frame_address: Address,
    frame_value: Int256,
    code_from: Address,
    gas: u64,
    state: StateView,
    input: Seq<u8>,
    read_only: bool,
    res: &CallResult,
) -> bool
    decreases nesting_left(pre), 23nat,
{
    exists|mid: EVMInterpreter, frame: Contract| #[trigger]
        call_begins(
            pre,
            &mid,
            &frame,
            frame_caller,
            frame_address,
            frame_value,
            code_from,
            gas,
            state,
        ) && nested_run(&mid, post, &frame, input, read_only, res)
}

/// The state once a creation has counted up the nonce of the creator.
pub open spec fn state_after_nonce(s: StateView, creator: Address) -> StateView {
    StateView {
        accounts: s.accounts.insert(
            creator,
            crate::state::AccountData {
                nonce: if s.nonce(creator) == u64::MAX {
                    0
                } else {
                    (s.nonce(creator) + 1) as u64
                },
                ..s.account(creator)
            },
        ),
        ..s
    }
}

/// The state in which the frame of a creation begins: the new account
/// exists, with a nonce of one under the rule that clears empty accounts, and
/// has the value from the creator.
pub open spec fn state_after_endowment(
    s: StateView,
    creator: Address,
    address: Address,
    value: nat,
    nonce_one: bool,
) -> StateView {
    let made = StateView { accounts: s.accounts.insert(address, s.account(address)), ..s };
    let numbered = if nonce_one {
        StateView {
            accounts: made.accounts.insert(
                address,
                crate::state::AccountData { nonce: 1, ..made.account(address) },
            ),
            ..made
        }
    } else {
        made
    };
    numbered.debit(creator, value).credit(address, value)
}

/// Why a creation whose frame answered `r` failed, if it did: for the
/// failure of the frame, for code that is too long, or for want of gas to
/// store the code.
pub open spec fn create_error(
    r: Result<Vec<u8>, Error>,
    gas: u64,
    limits_code: bool,
) -> Option<Error> {
    match r {
        Err(e) => Some(e),
        Ok(body) => if limits_code && body@.len() > MAX_CODE_SIZE {
            Some(Error::MaxCodeSizeExceeded)
        } else if body@.len() * CREATE_DATA_GAS > gas {
            Some(Error::CodeStoreOutOfGas)
        } else {
            None
        },
    }
}

/// Whether a creation began and was left as it should: its frame began in
/// `mid`, in the state `state` and with a snapshot of the state `kept`, on the
/// code `code`; its run left the interpreter `ran` with the answer `r`; and the
/// creation was left with the outcome `res` and the interpreter `post`.
///
/// A creation that succeeds pays for storing the code that its frame gave
/// back, and stores it. A creation that fails is undone, and loses its gas
/// unless it reverted; but before the Homestead rules, one that only lacks
/// the gas for storing the code stands, without code.
pub open spec fn create_ran(
    pre: &EVMInterpreter,
    mid: &EVMInterpreter,
    ran: &EVMInterpreter,
    post: &EVMInterpreter,
    frame: &Contract,
    c_post: &Contract,
    r: Result<Vec<u8>, Error>,
    creator: Address,
    code: Seq<u8>,
    gas: u64,
    value: Int256,
    address: Address,
    kept: StateView,
    state: StateView,
    res: &CreateResult,
) -> bool {
    let rules = pre.evm.chain_rules;
    let error = create_error(r, c_post.spec_gas(), rules.is_eip158);
    let undone = match error {
        None => false,
        Some(e) => e != Error::CodeStoreOutOfGas || rules.is_homestead,
    };
    &&& frame_left(pre, mid)
    &&& mid.wf()
    &&& mid.evm.state_db.snapshot_count() == pre.evm.state_db.snapshot_count() + 1
    &&& mid.evm.state_db.snapshot_view(pre.evm.state_db.snapshot_count() as int) == kept
    &&& mid.evm.state_db@ == state
    &&& frame.spec_caller() == creator
    &&& frame.spec_address() == address
    &&& frame.spec_value() == value
    &&& frame.spec_gas() == gas
    &&& frame.spec_code() == code
    &&& run_outcome(mid, ran, frame, c_post, Seq::empty(), r)
    &&& frame_left(ran, post)
    &&& res.address == address
    &&& res.error == error
    &&& res.output@ == (match r {
        Err(e) => if keeps_gas(e) {
            ran.return_data@
        } else {
            Seq::empty()
        },
        Ok(_) => Seq::empty(),
    })
    &&& res.gas_left == if undone && error != Some(Error::ExecutionReverted) {
        0
    } else if error is None {
        (c_post.spec_gas() - r->Ok_0@.len() * CREATE_DATA_GAS) as u64
    } else {
        c_post.spec_gas()
    }
    &&& post.evm.state_db@ == if undone {
        kept
    } else if error is None {
        StateView { code: ran.evm.state_db@.code.insert(address, r->Ok_0@), ..ran.evm.state_db@ }
    } else {
        ran.evm.state_db@
    }
}

/// What a creation that begins answers and leaves. The nonce of the creator
/// is counted up first, and stays so whatever follows. If the address is
/// taken by an account with a nonce or with code, the creation fails and all
/// gas is lost; else the frame of the creation runs.
pub open spec fn create_course(
    pre: &EVMInterpreter,
    post: &EVMInterpreter,
    creator: Address,
    code: Seq<u8>,
    gas: u64,
    value: Int256,
    address: Address,
    res: &CreateResult,
) -> bool
    decreases nesting_left(pre), 23nat,
{
    let kept = state_after_nonce(pre.evm.state_db@, creator);
    if kept.nonce(address) != 0 || kept.code_of(address).len() != 0 {
        &&& res.error == Some(Error::ContractAddressCollision)
        &&& res.gas_left == 0
        &&& res.output@.len() == 0
        &&& res.address == address
        &&& post.evm.state_db@ == kept
    } else {
        exists|
            mid: EVMInterpreter,
            ran: EVMInterpreter,
            frame: Contract,
            c_post: Contract,
            r: Result<Vec<u8>, Error>,
        | #[trigger]
            create_ran(
                pre,
                &mid,
                &ran,
                post,
                &frame,
                &c_post,
                r,
                creator,
                code,
                gas,
                value,
                address,
                kept,
                state_after_endowment(
                    kept,
                    creator,
                    address,
                    value@,
                    pre.evm.chain_rules.is_eip158,
                ),
                res,
            ) && run_course(&mid, &ran, &frame, &c_post, Seq::empty(), false, r)
    }
}

/// One step of the loop: fetches the operation at the counter, checks the
/// stack against its bounds, charges it, carries it out and moves the
/// counter on.
#[verifier::rlimit(100)]
#[verifier::spinoff_prover]
pub fn step(pc: &mut u64, interpreter: &mut EVMInterpreter, scope: &mut ScopeContext) -> (r: Result<
    (),
    Error,
>)
    requires
        old(interpreter).wf(),
        frame_inv(old(scope)),
    ensures
        step_outcome(
            *old(pc),
            *final(pc),
            old(interpreter),
            final(interpreter),
            old(scope),
            final(scope),
            r,
        ),
    decreases CALL_CREATE_DEPTH - old(interpreter).evm.depth, 6nat,
{
    let code_byte = scope.contract.get_op(*pc);
    let operation = interpreter.table.get(code_byte);
    let depth = scope.stack.len();
    match validate_stack(depth, operation.min_stack, operation.max_stack) {
        Err(e) => {
            return Err(e);
        },
        Ok(_) => {},
    }
    let top = if depth > 0 {
        item(scope, 0)
    } else {
        Int256::zero()
    };
    interpreter.evm.trace(
        TraceEvent::State {
            pc: *pc,
            op: code_byte,
            gas: scope.contract.gas(),
            cost: operation.constant_gas,
            depth: interpreter.evm.depth,
            stack_len: depth,
            top,
        },
    );
    let ghost traced = *interpreter;
    let cost = match charge(&operation, interpreter, scope) {
        Ok(c) => c,
        Err(e) => {
            return Err(e);
        },
    };
    proof {
        crate::jump_table::lemma_operation_needs(operation);
        lemma_charged(operation, &traced, interpreter, old(scope), scope, cost);
    }
    let ghost mid_i = *interpreter;
    let ghost mid = *scope;
    let answer = execute(operation.execute, pc, interpreter, scope);
    let ghost mid_pc = *pc;
    let ghost answered = answer;
    let r = match answer {
        Ok(_) => {
            *pc = pc.wrapping_add(1);
            Ok(())
        },
        Err(e) => Err(e),
    };
    proof {
        assert(handler_post(
            operation.execute,
            *old(pc),
            mid_pc,
            &mid_i,
            interpreter,
            &mid,
            scope,
            answered,
        ));
        if !enters_frame(operation.execute) {
            lemma_local_keeps_gas(
                operation.execute,
                *old(pc),
                mid_pc,
                &mid_i,
                interpreter,
                &mid,
                scope,
                answered,
            );
        }
        assert(carried_out(
            operation,
            cost,
            *old(pc),
            mid_pc,
            *pc,
            old(interpreter),
            &traced,
            &mid_i,
            interpreter,
            old(scope),
            &mid,
            scope,
            answered,
            r,
        ));
    }
    r
}

/// Carries out an operation.
#[verifier::rlimit(100)]
pub fn execute(
    h: ExecutionFunc,
    pc: &mut u64,
    interpreter: &mut EVMInterpreter,
    scope: &mut ScopeContext,
) -> (r: Result<Vec<u8>, Error>)
    requires
        handler_pre(h, old(interpreter), old(scope)),
    ensures
        handler_frame(h, old(interpreter), final(interpreter), old(scope), final(scope), r),
        handler_post(
            h,
            *old(pc),
            *final(pc),
            old(interpreter),
            final(interpreter),
            old(scope),
            final(scope),
            r,
        ),
    decreases CALL_CREATE_DEPTH - old(interpreter).evm.depth, 5nat,
{
    let r = match h {
        ExecutionFunc::Create => op_create(pc, interpreter, scope),
        ExecutionFunc::Create2 => op_create2(pc, interpreter, scope),
        ExecutionFunc::Call => op_call(pc, interpreter, scope),
        ExecutionFunc::CallCode => op_call_code(pc, interpreter, scope),
        ExecutionFunc::DelegateCall => op_delegate_call(pc, interpreter, scope),
        ExecutionFunc::StaticCall => op_static_call(pc, interpreter, scope),
        _ => execute_local(h, pc, interpreter, scope),
    };
    proof {
        if enters_frame(h) {
            assert(nested_post(h, old(interpreter), interpreter, old(scope), scope, r));
        }
    }
    r
}

/// The input of a nested frame: a copy of the region of memory that two
/// items of the stack give, by place and length.
fn nested_input(scope: &ScopeContext, off: &Int256, size: &Int256) -> (r: Vec<u8>)
    requires
        region_fits(off@, size@, scope.memory@.len()),
    ensures
        r@ == region_spec(scope.memory@, off@, size@),
{
    let (off64, size64) = region_args(off, size, &scope.memory);
    memory_region(&scope.memory, off64, size64)
}

/// `CALL`: calls another account. The seven top items give the gas that is
/// asked for, the account, the value that goes with the call, place and
/// length of the input in memory, and place and length of the region for the
/// output.
#[verifier::rlimit(100)]
pub fn op_call(pc: &mut u64, interpreter: &mut EVMInterpreter, scope: &mut ScopeContext) -> (r:
    Result<Vec<u8>, Error>)
    requires
        handler_pre(ExecutionFunc::Call, old(interpreter), old(scope)),
    ensures
        handler_frame(
            ExecutionFunc::Call,
            old(interpreter),
            final(interpreter),
            old(scope),
            final(scope),
            r,
        ),
        nested_call_post(
            ExecutionFunc::Call,
            old(interpreter),
            final(interpreter),
            old(scope),
            final(scope),
            r,
        ),
        *final(pc) == *old(pc),
    decreases CALL_CREATE_DEPTH - old(interpreter).evm.depth, 4nat,
{
    if scope.stack.len() < 7 {
        return Err(Error::StackUnderflow);
    }
    let callee = Address::from_word(&item(scope, 1));
    let value = item(scope, 2);
    let in_off = item(scope, 3);
    let in_size = item(scope, 4);
    let ret_off = item(scope, 5);
    let ret_size = item(scope, 6);
    if interpreter.read_only && !value.is_zero() {
        return Err(Error::WriteProtection);
    }
    let mut gas = interpreter.evm.call_gas_temp;
    if !value.is_zero() {
        gas = gas + CALL_STIPEND;
    }
    let args = nested_input(scope, &in_off, &in_size);
    let res = interpreter.call(scope.contract.address(), callee, args, gas, &value);
    let ghost mid_i = *interpreter;
    let ghost outcome = res;
    let r = complete_call(interpreter, scope, res, 7, &ret_off, &ret_size);
    proof {
        let keep = old(scope).stack@.len() - 7;
        assert(scope.stack@.take(keep) =~= old(scope).stack@.take(keep));
        if call_begun(ExecutionFunc::Call, old(interpreter), old(scope)) {
            assert(nested_call_course(
                ExecutionFunc::Call,
                old(interpreter),
                &mid_i,
                old(scope),
                &outcome,
            ));
        }
        assert(call_completed(
            ExecutionFunc::Call,
            old(interpreter),
            &mid_i,
            interpreter,
            old(scope),
            scope,
            &outcome,
            r,
        ));
    }
    r
}

/// `CALLCODE`: runs the code of another account in the name of the account
/// that runs. The seven top items are those of `CALL`.
#[verifier::rlimit(100)]
pub fn op_call_code(pc: &mut u64, interpreter: &mut EVMInterpreter, scope: &mut ScopeContext) -> (r:
    Result<Vec<u8>, Error>)
    requires
        handler_pre(ExecutionFunc::CallCode, old(interpreter), old(scope)),
    ensures
        handler_frame(
            ExecutionFunc::CallCode,
            old(interpreter),
            final(interpreter),
            old(scope),
            final(scope),
            r,
        ),
        nested_call_post(
            ExecutionFunc::CallCode,
            old(interpreter),
            final(interpreter),
            old(scope),
            final(scope),
            r,
        ),
        *final(pc) == *old(pc),
    decreases CALL_CREATE_DEPTH - old(interpreter).evm.depth, 4nat,
{
    if scope.stack.len() < 7 {
        return Err(Error::StackUnderflow);
    }
    let callee = Address::from_word(&item(scope, 1));
    let value = item(scope, 2);
    let in_off = item(scope, 3);
    let in_size = item(scope, 4);
    let ret_off = item(scope, 5);
    let ret_size = item(scope, 6);
    let mut gas = interpreter.evm.call_gas_temp;
    if !value.is_zero() {
        gas = gas + CALL_STIPEND;
    }
    let args = nested_input(scope, &in_off, &in_size);
    let res = interpreter.call_code(scope.contract.address(), callee, args, gas, &value);
    let ghost mid_i = *interpreter;
    let ghost outcome = res;
    let r = complete_call(interpreter, scope, res, 7, &ret_off, &ret_size);
    proof {
        let keep = old(scope).stack@.len() - 7;
        assert(scope.stack@.take(keep) =~= old(scope).stack@.take(keep));
        if call_begun(ExecutionFunc::CallCode, old(interpreter), old(scope)) {
            assert(nested_call_course(
                ExecutionFunc::CallCode,
                old(interpreter),
                &mid_i,
                old(scope),
                &outcome,
            ));
        }
        assert(call_completed(
            ExecutionFunc::CallCode,
            old(interpreter),
            &mid_i,
            interpreter,
            old(scope),
            scope,
            &outcome,
            r,
        ));
    }
    r
}

/// `DELEGATECALL`: runs the code of another account in the name of the
/// account that runs, with the caller and the value of this frame. The six
/// top items give the gas that is asked for, the account, place and length of
/// the input in memory, and place and length of the region for the output.
#[verifier::rlimit(100)]
pub fn op_delegate_call(pc: &mut u64, interpreter: &mut EVMInterpreter, scope: &mut ScopeContext)
    -> (r: Result<Vec<u8>, Error>)
    requires
        handler_pre(ExecutionFunc::DelegateCall, old(interpreter), old(scope)),
    ensures
        handler_frame(
            ExecutionFunc::DelegateCall,
            old(interpreter),
            final(interpreter),
            old(scope),
            final(scope),
            r,
        ),
        nested_call_post(
            ExecutionFunc::DelegateCall,
            old(interpreter),
            final(interpreter),
            old(scope),
            final(scope),
            r,
        ),
        *final(pc) == *old(pc),
    decreases CALL_CREATE_DEPTH - old(interpreter).evm.depth, 4nat,
{
    if scope.stack.len() < 6 {
        return Err(Error::StackUnderflow);
    }
    let callee = Address::from_word(&item(scope, 1));
    let in_off = item(scope, 2);
    let in_size = item(scope, 3);
    let ret_off = item(scope, 4);
    let ret_size = item(scope, 5);
    let gas = interpreter.evm.call_gas_temp;
    let args = nested_input(scope, &in_off, &in_size);
    let res = interpreter.delegate_call(
        scope.contract.caller(),
        scope.contract.address(),
        scope.contract.value(),
        callee,
        args,
        gas,
    );
    let ghost mid_i = *interpreter;
    let ghost outcome = res;
    let r = complete_call(interpreter, scope, res, 6, &ret_off, &ret_size);
    proof {
        let keep = old(scope).stack@.len() - 6;
        assert(scope.stack@.take(keep) =~= old(scope).stack@.take(keep));
        if call_begun(ExecutionFunc::DelegateCall, old(interpreter), old(scope)) {
            assert(nested_call_course(
                ExecutionFunc::DelegateCall,
                old(interpreter),
                &mid_i,
                old(scope),
                &outcome,
            ));
        }
        assert(call_completed(
            ExecutionFunc::DelegateCall,
            old(interpreter),
            &mid_i,
            interpreter,
            old(scope),
            scope,
            &outcome,
            r,
        ));
    }
    r
}

/// `STATICCALL`: calls another account in a read-only frame. The six top
/// items are those of `DELEGATECALL`.
#[verifier::rlimit(100)]
pub fn op_static_call(pc: &mut u64, interpreter: &mut EVMInterpreter, scope: &mut ScopeContext)
    -> (r: Result<Vec<u8>, Error>)
    requires
        handler_pre(ExecutionFunc::StaticCall, old(interpreter), old(scope)),
    ensures
        handler_frame(
            ExecutionFunc::StaticCall,
            old(interpreter),
            final(interpreter),
            old(scope),
            final(scope),
            r,
        ),
        nested_call_post(
            ExecutionFunc::StaticCall,
            old(interpreter),
            final(interpreter),
            old(scope),
            final(scope),
            r,
        ),
        *final(pc) == *old(pc),
    decreases CALL_CREATE_DEPTH - old(interpreter).evm.depth, 4nat,
{
    if scope.stack.len() < 6 {
        return Err(Error::StackUnderflow);
    }
    let callee = Address::from_word(&item(scope, 1));
    let in_off = item(scope, 2);
    let in_size = item(scope, 3);
    let ret_off = item(scope, 4);
    let ret_size = item(scope, 5);
    let gas = interpreter.evm.call_gas_temp;
    let args = nested_input(scope, &in_off, &in_size);
    let res = interpreter.static_call(scope.contract.address(), callee, args, gas);
    let ghost mid_i = *interpreter;
    let ghost outcome = res;
    let r = complete_call(interpreter, scope, res, 6, &ret_off, &ret_size);
    proof {
        let keep = old(scope).stack@.len() - 6;
        assert(scope.stack@.take(keep) =~= old(scope).stack@.take(keep));
        if call_begun(ExecutionFunc::StaticCall, old(interpreter), old(scope)) {
            assert(nested_call_course(
                ExecutionFunc::StaticCall,
                old(interpreter),
                &mid_i,
                old(scope),
                &outcome,
            ));
        }
        assert(call_completed(
            ExecutionFunc::StaticCall,
            old(interpreter),
            &mid_i,
            interpreter,
            old(scope),
            scope,
            &outcome,
            r,
        ));
    }
    r
}

/// `CREATE`: creates a contract at an address made from the creator and its
/// nonce. The three top items give the value that goes to the contract, and
/// place and length in memory of the code that makes it.
#[verifier::rlimit(100)]
pub fn op_create(pc: &mut u64, interpreter: &mut EVMInterpreter, scope: &mut ScopeContext) -> (r:
    Result<Vec<u8>, Error>)
    requires
        handler_pre(ExecutionFunc::Create, old(interpreter), old(scope)),
    ensures
        handler_frame(
            ExecutionFunc::Create,
            old(interpreter),
            final(interpreter),
            old(scope),
            final(scope),
            r,
        ),
        nested_create_post(
            ExecutionFunc::Create,
            old(interpreter),
            final(interpreter),
            old(scope),
            final(scope),
            r,
        ),
        *final(pc) == *old(pc),
    decreases CALL_CREATE_DEPTH - old(interpreter).evm.depth, 4nat,
{
    if interpreter.read_only {
        return Err(Error::WriteProtection);
    }
    if scope.stack.len() < 3 {
        return Err(Error::StackUnderflow);
    }
    let value = item(scope, 0);
    let off = item(scope, 1);
    let size = item(scope, 2);
    let code = nested_input(scope, &off, &size);
    let mut gas = scope.contract.gas();
    if interpreter.evm.chain_rules.is_eip150 {
        gas = gas - gas / 64;
    }
    scope.contract.use_gas(gas);
    let creator = scope.contract.address();
    let address = create_address(creator, interpreter.evm.state_db.get_nonce(creator));
    let ghost mid = *scope;
    let res = interpreter.create_at(creator, code, gas, &value, address, CREATE);
    let ghost mid_i = *interpreter;
    let ghost outcome = res;
    let r = complete_create(interpreter, scope, res, 3);
    proof {
        let keep = old(scope).stack@.len() - 3;
        assert(scope.stack@.take(keep) =~= old(scope).stack@.take(keep));
        assert(create_completed(
            ExecutionFunc::Create,
            old(interpreter),
            &mid_i,
            interpreter,
            old(scope),
            &mid,
            scope,
            &outcome,
            r,
        ));
    }
    r
}

/// `CREATE2`: creates a contract at an address made from the creator, a salt
/// and the code. The four top items give the value that goes to the contract,
/// place and length in memory of the code that makes it, and the salt.
#[verifier::rlimit(100)]
pub fn op_create2(pc: &mut u64, interpreter: &mut EVMInterpreter, scope: &mut ScopeContext) -> (r:
    Result<Vec<u8>, Error>)
    requires
        handler_pre(ExecutionFunc::Create2, old(interpreter), old(scope)),
    ensures
        handler_frame(
            ExecutionFunc::Create2,
            old(interpreter),
            final(interpreter),
            old(scope),
            final(scope),
            r,
        ),
        nested_create_post(
            ExecutionFunc::Create2,
            old(interpreter),
            final(interpreter),
            old(scope),
            final(scope),
            r,
        ),
        *final(pc) == *old(pc),
    decreases CALL_CREATE_DEPTH - old(interpreter).evm.depth, 4nat,
{
    if interpreter.read_only {
        return Err(Error::WriteProtection);
    }
    if scope.stack.len() < 4 {
        return Err(Error::StackUnderflow);
    }
    let value = item(scope, 0);
    let off = item(scope, 1);
    let size = item(scope, 2);
    let salt = item(scope, 3);
    let code = nested_input(scope, &off, &size);
    let mut gas = scope.contract.gas();
    if interpreter.evm.chain_rules.is_eip150 {
        gas = gas - gas / 64;
    }
    scope.contract.use_gas(gas);
    let creator = scope.contract.address();
    let address = create2_address(creator, &salt, code.as_slice());
    let ghost mid = *scope;
    let res = interpreter.create_at(creator, code, gas, &value, address, CREATE2);
    let ghost mid_i = *interpreter;
    let ghost outcome = res;
    let r = complete_create(interpreter, scope, res, 4);
    proof {
        let keep = old(scope).stack@.len() - 4;
        assert(scope.stack@.take(keep) =~= old(scope).stack@.take(keep));
        assert(create_completed(
            ExecutionFunc::Create2,
            old(interpreter),
            &mid_i,
            interpreter,
            old(scope),
            &mid,
            scope,
            &outcome,
            r,
        ));
    }
    r
}

impl EVMInterpreter {
    /// Runs a frame in the state that snapshot `snapshot` was taken of, and
    /// goes back to the snapshot if the frame fails.
    #[verifier::rlimit(100)]
    #[verifier::spinoff_prover]
    fn finish_frame(
        &mut self,
        contract: Contract,
        input: &[u8],
        read_only: bool,
        snapshot: usize,
    ) -> (res: CallResult)
        requires
            old(self).wf(),
            snapshot + 1 == old(self).evm.state_db.snapshot_count(),
        ensures
            final(self).wf(),
            final(self).table == old(self).table,
            final(self).read_only == old(self).read_only,
            final(self).evm.depth == old(self).evm.depth,
            final(self).evm.chain_rules == old(self).evm.chain_rules,
            final(self).evm.state_db.snapshot_count() == snapshot,
            old(self).evm.state_db.keeps_snapshots_of(&final(self).evm.state_db),
            res.gas_left <= contract.spec_gas(),
            res.error != Some(Error::StopToken),
            res.error is Some ==> final(self).evm.state_db@ == old(self).evm.state_db.snapshot_view(
                snapshot as int,
            ),
            res.error matches Some(e) ==> keeps_gas(e) || res.gas_left == 0,
            nested_run(old(self), final(self), &contract, input@, read_only, &res),
        decreases CALL_CREATE_DEPTH - old(self).evm.depth, 2nat,
    {
        let ghost frame = contract;
        let mut contract = contract;
        let r = self.run(&mut contract, input, read_only);
        let ghost ran = *self;
        let res = match r {
            Ok(output) => {
                self.leave_frame(snapshot, false);
                CallResult { output, gas_left: contract.gas(), error: None }
            },
            Err(e) => {
                let output = if e == Error::ExecutionReverted {
                    slice_to_vec(self.return_data.as_slice())
                } else {
                    Vec::new()
                };
                self.leave_frame(snapshot, true);
                CallResult { output, gas_left: contract.gas(), error: Some(e) }
            },
        };
        proof {
            assert(nested_ran(old(self), &ran, self, &frame, &contract, input@, r, &res));
        }
        res
    }

    /// Leaves a nested frame: goes back to the snapshot that was taken for it
    /// if the frame failed, and drops the snapshot if it did not.
    #[verifier::rlimit(100)]
    fn leave_frame(&mut self, snapshot: usize, failed: bool)
        requires
            old(self).wf(),
            snapshot < old(self).evm.state_db.snapshot_count(),
        ensures
            final(self).wf(),
            frame_left(old(self), final(self)),
            final(self).evm.state_db.snapshot_count() == snapshot,
            old(self).evm.state_db.keeps_snapshots_of(&final(self).evm.state_db),
            final(self).evm.state_db@ == if failed {
                old(self).evm.state_db.snapshot_view(snapshot as int)
            } else {
                old(self).evm.state_db@
            },
    {
        if failed {
            self.evm.state_db.revert_to_snapshot(snapshot);
        } else {
            self.evm.state_db.discard_snapshot(snapshot);
        }
        self.evm.trace(TraceEvent::Exit { failed });
    }

    /// Calls the account `addr` for `caller` with `value`.
    #[verifier::rlimit(100)]
    #[verifier::spinoff_prover]
    pub fn call(&mut self, caller: Address, addr: Address, input: Vec<u8>, gas: u64, value: &Int256)
        -> (res: CallResult)
        requires
            old(self).wf(),
        ensures
            call_outcome(old(self), final(self), gas, caller, *value, true, &res),
            old(self).evm.depth < CALL_CREATE_DEPTH && !(value@ != 0 && old(
                self,
            ).evm.state_db@.balance(caller) < value@) ==> if call_skipped(old(self), addr, *value) {
                &&& res.error is None
                &&& res.gas_left == gas
                &&& res.output@.len() == 0
                &&& final(self).evm.state_db@ == old(self).evm.state_db@
            } else {
                call_course(
                    old(self),
                    final(self),
                    caller,
                    addr,
                    *value,
                    addr,
                    gas,
                    state_after_transfer(old(self).evm.state_db@, caller, addr, value@),
                    input@,
                    false,
                    &res,
                )
            },
        decreases CALL_CREATE_DEPTH - old(self).evm.depth, 3nat,
    {
        if self.evm.depth >= CALL_CREATE_DEPTH {
            return CallResult { output: Vec::new(), gas_left: gas, error: Some(Error::DepthLimit) };
        }
        if !value.is_zero() && self.evm.state_db.get_balance(caller).lt(value) {
            return CallResult {
                output: Vec::new(),
                gas_left: gas,
                error: Some(Error::InsufficientBalance),
            };
        }
        self.evm.trace(TraceEvent::Enter { typ: CALL, from: caller, to: addr, gas, value: *value });
        if !self.evm.state_db.exist(addr) && self.evm.chain_rules.is_eip158 && value.is_zero() {
            self.evm.trace(TraceEvent::Exit { failed: false });
            return CallResult { output: Vec::new(), gas_left: gas, error: None };
        }
        let code = self.evm.state_db.get_code(addr);
        let snapshot = self.transfer(caller, addr, value);
        let contract = Contract::new(caller, addr, *value, gas, code);
        let ghost mid = *self;
        let ghost frame = contract;
        let res = self.finish_frame(contract, input.as_slice(), false, snapshot);
        proof {
            assert(call_begins(
                old(self),
                &mid,
                &frame,
                caller,
                addr,
                *value,
                addr,
                gas,
                state_after_transfer(old(self).evm.state_db@, caller, addr, value@),
            ));
        }
        res
    }

    /// Takes a snapshot of the state and moves the value of a call from the
    /// caller to the callee, which exists from then on. Gives the number of
    /// the snapshot.
    #[verifier::rlimit(100)]
    fn transfer(&mut self, caller: Address, addr: Address, value: &Int256) -> (snapshot: usize)
        requires
            old(self).wf(),
        ensures
            final(self).wf(),
            frame_left(old(self), final(self)),
            final(self).evm.tracer == old(self).evm.tracer,
            snapshot == old(self).evm.state_db.snapshot_count(),
            final(self).evm.state_db.snapshot_count() == snapshot + 1,
            final(self).evm.state_db.snapshot_view(snapshot as int) == old(self).evm.state_db@,
            final(self).evm.state_db.keeps_snapshots_of(&old(self).evm.state_db),
            final(self).evm.state_db@ == state_after_transfer(
                old(self).evm.state_db@,
                caller,
                addr,
                value@,
            ),
    {
        let snapshot = self.evm.state_db.snapshot();
        self.evm.state_db.create_account(addr);
        self.evm.state_db.sub_balance(caller, value);
        self.evm.state_db.add_balance(addr, value);
        snapshot
    }

    /// Runs the code of `addr` in the name of `caller`, with `value` as the
    /// value of the call; no value moves.
    #[verifier::rlimit(100)]
    pub fn call_code(
        &mut self,
        caller: Address,
        addr: Address,
        input: Vec<u8>,
        gas: u64,
        value: &Int256,
    ) -> (res: CallResult)
        requires
            old(self).wf(),
        ensures
            call_outcome(old(self), final(self), gas, caller, *value, true, &res),
            old(self).evm.depth < CALL_CREATE_DEPTH && !(value@ != 0 && old(
                self,
            ).evm.state_db@.balance(caller) < value@) ==> call_course(
                old(self),
                final(self),
                caller,
                caller,
                *value,
                addr,
                gas,
                old(self).evm.state_db@,
                input@,
                false,
                &res,
            ),
        decreases CALL_CREATE_DEPTH - old(self).evm.depth, 3nat,
    {
        if self.evm.depth >= CALL_CREATE_DEPTH {
            return CallResult { output: Vec::new(), gas_left: gas, error: Some(Error::DepthLimit) };
        }
        if !value.is_zero() && self.evm.state_db.get_balance(caller).lt(value) {
            return CallResult {
                output: Vec::new(),
                gas_left: gas,
                error: Some(Error::InsufficientBalance),
            };
        }
        self.evm.trace(
            TraceEvent::Enter { typ: CALLCODE, from: caller, to: addr, gas, value: *value },
        );
        let snapshot = self.evm.state_db.snapshot();
        let code = self.evm.state_db.get_code(addr);
        let contract = Contract::new(caller, caller, *value, gas, code);
        let ghost mid = *self;
        let ghost frame = contract;
        let res = self.finish_frame(contract, input.as_slice(), false, snapshot);
        proof {
            assert(call_begins(
                old(self),
                &mid,
                &frame,
                caller,
                caller,
                *value,
                addr,
                gas,
                old(self).evm.state_db@,
            ));
        }
        res
    }

    /// Runs the code of `addr` in the name of `address`, with the caller and
    /// the value of the frame that delegates.
    #[verifier::rlimit(100)]
    pub fn delegate_call(
        &mut self,
        caller: Address,
        address: Address,
        value: Int256,
        addr: Address,
        input: Vec<u8>,
        gas: u64,
    ) -> (res: CallResult)
        requires
            old(self).wf(),
        ensures
            call_outcome(old(self), final(self), gas, caller, value, false, &res),
            old(self).evm.depth < CALL_CREATE_DEPTH ==> call_course(
                old(self),
                final(self),
                caller,
                address,
                value,
                addr,
                gas,
                old(self).evm.state_db@,
                input@,
                false,
                &res,
            ),
        decreases CALL_CREATE_DEPTH - old(self).evm.depth, 3nat,
    {
        if self.evm.depth >= CALL_CREATE_DEPTH {
            return CallResult { output: Vec::new(), gas_left: gas, error: Some(Error::DepthLimit) };
        }
        self.evm.trace(
            TraceEvent::Enter { typ: DELEGATECALL, from: address, to: addr, gas, value },
        );
        let snapshot = self.evm.state_db.snapshot();
        let code = self.evm.state_db.get_code(addr);
        let contract = Contract::new(caller, address, value, gas, code);
        let ghost mid = *self;
        let ghost frame = contract;
        let res = self.finish_frame(contract, input.as_slice(), false, snapshot);
        proof {
            assert(call_begins(
                old(self),
                &mid,
                &frame,
                caller,
                address,
                value,
                addr,
                gas,
                old(self).evm.state_db@,
            ));
        }
        res
    }

    /// Calls the account `addr` for `caller` in a read-only frame.
    #[verifier::rlimit(100)]
    pub fn static_call(&mut self, caller: Address, addr: Address, input: Vec<u8>, gas: u64) -> (res:
        CallResult)
        requires
            old(self).wf(),
        ensures
            call_outcome(old(self), final(self), gas, caller, Int256::spec_zero(), false, &res),
            old(self).evm.depth < CALL_CREATE_DEPTH ==> call_course(
                old(self),
                final(self),
                caller,
                addr,
                Int256::spec_zero(),
                addr,
                gas,
                old(self).evm.state_db@,
                input@,
                true,
                &res,
            ),
        decreases CALL_CREATE_DEPTH - old(self).evm.depth, 3nat,
    {
        if self.evm.depth >= CALL_CREATE_DEPTH {
            return CallResult { output: Vec::new(), gas_left: gas, error: Some(Error::DepthLimit) };
        }
        self.evm.trace(
            TraceEvent::Enter {
                typ: STATICCALL,
                from: caller,
                to: addr,
                gas,
                value: Int256::zero(),
            },
        );
        let snapshot = self.evm.state_db.snapshot();
        let code = self.evm.state_db.get_code(addr);
        let contract = Contract::new(caller, addr, Int256::zero(), gas, code);
        let ghost mid = *self;
        let ghost frame = contract;
        let res = self.finish_frame(contract, input.as_slice(), true, snapshot);
        proof {
            assert(call_begins(
                old(self),
                &mid,
                &frame,
                caller,
                addr,
                Int256::spec_zero(),
                addr,
                gas,
                old(self).evm.state_db@,
            ));
        }
        res
    }

    /// Creates a contract at `address` for `creator` by running `code`, and
    /// stores what the code gives back as the contract's code.
    #[verifier::rlimit(100)]
    #[verifier::spinoff_prover]
    pub fn create_at(
        &mut self,
        creator: Address,
        code: Vec<u8>,
        gas: u64,
        value: &Int256,
        address: Address,
        typ: u8,
    ) -> (res: CreateResult)
        requires
            old(self).wf(),
        ensures
            create_outcome(old(self), final(self), gas, creator, *value, &res),
            res.address == address,
            old(self).evm.depth < CALL_CREATE_DEPTH && !(value@ != 0 && old(
                self,
            ).evm.state_db@.balance(creator) < value@) ==> create_course(
                old(self),
                final(self),
                creator,
                code@,
                gas,
                *value,
                address,
                &res,
            ),
        decreases CALL_CREATE_DEPTH - old(self).evm.depth, 3nat,
    {
        if self.evm.depth >= CALL_CREATE_DEPTH {
            return CreateResult {
                output: Vec::new(),
                address,
                gas_left: gas,
                error: Some(Error::DepthLimit),
            };
        }
        if !value.is_zero() && self.evm.state_db.get_balance(creator).lt(value) {
            return CreateResult {
                output: Vec::new(),
                address,
                gas_left: gas,
                error: Some(Error::InsufficientBalance),
            };
        }
        self.count_nonce(creator);
        let ghost kept = self.evm.state_db@;
        if self.evm.state_db.get_nonce(address) != 0 || self.evm.state_db.get_code_size(address)
            != 0 {
            return CreateResult {
                output: Vec::new(),
                address,
                gas_left: 0,
                error: Some(Error::ContractAddressCollision),
            };
        }
        self.evm.trace(TraceEvent::Enter { typ, from: creator, to: address, gas, value: *value });
        let snapshot = self.endow(creator, address, value);
        let ghost init = code@;
        let mut contract = Contract::new(creator, address, *value, gas, code);
        let ghost mid = *self;
        let ghost frame = contract;
        let empty: Vec<u8> = Vec::new();
        let r = self.run(&mut contract, empty.as_slice(), false);
        let ghost ran = *self;
        let ghost c_post = contract;
        assert(empty@ =~= Seq::<u8>::empty());
        let res = self.store_code(contract, r, address, snapshot);
        proof {
            assert(create_ran(
                old(self),
                &mid,
                &ran,
                self,
                &frame,
                &c_post,
                r,
                creator,
                init,
                gas,
                *value,
                address,
                kept,
                state_after_endowment(
                    kept,
                    creator,
                    address,
                    value@,
                    old(self).evm.chain_rules.is_eip158,
                ),
                &res,
            ));
        }
        res
    }

    /// Counts up the nonce of an account that creates a contract.
    #[verifier::rlimit(100)]
    fn count_nonce(&mut self, creator: Address)
        requires
            old(self).wf(),
        ensures
            final(self).wf(),
            frame_left(old(self), final(self)),
            final(self).evm.tracer == old(self).evm.tracer,
            final(self).evm.state_db.same_snapshots(&old(self).evm.state_db),
            final(self).evm.state_db@ == state_after_nonce(old(self).evm.state_db@, creator),
    {
        let nonce = self.evm.state_db.get_nonce(creator);
        self.evm.state_db.set_nonce(creator, nonce.wrapping_add(1));
    }

    /// Takes a snapshot of the state, makes the account of a new contract
    /// exist, with a nonce of one under the rule that clears empty accounts,
    /// and moves the value of the creation to it. Gives the number of the
    /// snapshot.
    #[verifier::rlimit(100)]
    fn endow(&mut self, creator: Address, address: Address, value: &Int256) -> (snapshot: usize)
        requires
            old(self).wf(),
        ensures
            final(self).wf(),
            frame_left(old(self), final(self)),
            final(self).evm.tracer == old(self).evm.tracer,
            snapshot == old(self).evm.state_db.snapshot_count(),
            final(self).evm.state_db.snapshot_count() == snapshot + 1,
            final(self).evm.state_db.snapshot_view(snapshot as int) == old(self).evm.state_db@,
            final(self).evm.state_db.keeps_snapshots_of(&old(self).evm.state_db),
            final(self).evm.state_db@ == state_after_endowment(
                old(self).evm.state_db@,
                creator,
                address,
                value@,
                old(self).evm.chain_rules.is_eip158,
            ),
    {
        let snapshot = self.evm.state_db.snapshot();
        self.evm.state_db.create_account(address);
        if self.evm.chain_rules.is_eip158 {
            self.evm.state_db.set_nonce(address, 1);
        }
        self.evm.state_db.sub_balance(creator, value);
        self.evm.state_db.add_balance(address, value);
        snapshot
    }

    /// Ends a creation whose frame answered `r`: stores the code that the
    /// frame gave back if it can be paid for, and else undoes the creation.
    #[verifier::rlimit(100)]
    fn store_code(
        &mut self,
        contract: Contract,
        r: Result<Vec<u8>, Error>,
        address: Address,
        snapshot: usize,
    ) -> (res: CreateResult)
        requires
            old(self).wf(),
            snapshot + 1 == old(self).evm.state_db.snapshot_count(),
            r != Err::<Vec<u8>, Error>(Error::StopToken),
            r matches Err(e) ==> keeps_gas(e) || contract.spec_gas() == 0,
        ensures
            final(self).wf(),
            frame_left(old(self), final(self)),
            final(self).evm.state_db.snapshot_count() == snapshot,
            old(self).evm.state_db.keeps_snapshots_of(&final(self).evm.state_db),
            res.address == address,
            res.gas_left <= contract.spec_gas(),
            res.error == create_error(
                r,
                contract.spec_gas(),
                old(self).evm.chain_rules.is_eip158,
            ),
            res.output@ == (match r {
                Err(e) => if keeps_gas(e) {
                    old(self).return_data@
                } else {
                    Seq::empty()
                },
                Ok(_) => Seq::empty(),
            }),
            res.gas_left == if (match res.error {
                None => false,
                Some(e) => e != Error::CodeStoreOutOfGas || old(self).evm.chain_rules.is_homestead,
            }) && res.error != Some(Error::ExecutionReverted) {
                0
            } else if res.error is None {
                (contract.spec_gas() - r->Ok_0@.len() * CREATE_DATA_GAS) as u64
            } else {
                contract.spec_gas()
            },
            final(self).evm.state_db@ == if (match res.error {
                None => false,
                Some(e) => e != Error::CodeStoreOutOfGas || old(self).evm.chain_rules.is_homestead,
            }) {
                old(self).evm.state_db.snapshot_view(snapshot as int)
            } else if res.error is None {
                StateView {
                    code: old(self).evm.state_db@.code.insert(address, r->Ok_0@),
                    ..old(self).evm.state_db@
                }
            } else {
                old(self).evm.state_db@
            },
    {
        let mut contract = contract;
        let mut output: Vec<u8> = Vec::new();
        let error = match r {
            Ok(body) => {
                if self.evm.chain_rules.is_eip158 && body.len() as u64 > MAX_CODE_SIZE {
                    Some(Error::MaxCodeSizeExceeded)
                } else if body.len() as u64 > u64::MAX / CREATE_DATA_GAS || !contract.use_gas(
                    body.len() as u64 * CREATE_DATA_GAS,
                ) {
                    Some(Error::CodeStoreOutOfGas)
                } else {
                    self.evm.state_db.set_code(address, body);
                    None
                }
            },
            Err(e) => {
                if e == Error::ExecutionReverted {
                    output = slice_to_vec(self.return_data.as_slice());
                }
                Some(e)
            },
        };
        let undone = match error {
            None => false,
            Some(e) => e != Error::CodeStoreOutOfGas || self.evm.chain_rules.is_homestead,
        };
        if undone {
            let reverted = match error {
                Some(e) => e == Error::ExecutionReverted,
                None => false,
            };
            if !reverted {
                contract.set_gas(0);
            }
        }
        self.leave_frame(snapshot, undone);
        CreateResult { output, address, gas_left: contract.gas(), error }
    }

    /// Runs the code of a contract on an input to its end.
    ///
    /// A frame that halts regularly answers its output. A frame that reverts
    /// answers `ExecutionReverted`, keeps the gas that is left, and leaves the
    /// payload in `return_data`. A frame that fails answers the failure and
    /// has no gas left.
    #[verifier::rlimit(100)]
    #[verifier::spinoff_prover]
    pub fn run(&mut self, contract: &mut Contract, input: &[u8], read_only: bool) -> (r: Result<
        Vec<u8>,
        Error,
    >)
        requires
            old(self).wf(),
        ensures
            run_outcome(old(self), final(self), old(contract), final(contract), input@, r),
            run_course(old(self), final(self), old(contract), final(contract), input@, read_only, r),
        decreases CALL_CREATE_DEPTH - old(self).evm.depth, 1nat,
    {
        if self.evm.depth >= CALL_CREATE_DEPTH {
            contract.set_gas(0);
            return Err(Error::DepthLimit);
        }
        self.evm.depth = self.evm.depth + 1;
        let was_read_only = self.read_only;
        if read_only && !self.read_only {
            self.read_only = true;
        }
        self.return_data = Vec::new();
        contract.set_input(slice_to_vec(input));
        if contract.code().len() == 0 {
            self.evm.depth = self.evm.depth - 1;
            self.read_only = was_read_only;
            return Ok(Vec::new());
        }
        let ghost entry = *contract;
        let mut scope = ScopeContext {
            memory: Memory::new(),
            stack: self.pool.new_stack(),
            contract: Contract::new(Address::zero(), Address::zero(), Int256::zero(), 0, Vec::new()),
        };
        std::mem::swap(&mut scope.contract, contract);
        let mut pc: u64 = 0;
        let mut halted: Option<Error> = None;
        let ghost first = FrameState { pc, interpreter: *self, scope };
        let ghost mut trace = seq![first];
        let ghost mut end = first;
        while halted.is_none()
            invariant
                trace.len() >= 1,
                trace[0] == first,
                first.interpreter.evm.depth == old(self).evm.depth + 1,
                trace.last().interpreter.evm.depth == old(self).evm.depth + 1,
                frame_course(trace),
                halted is None ==> trace.last() == (FrameState { pc, interpreter: *self, scope }),
                halted matches Some(e) ==> frame_ends(&trace.last(), &end, e) && end == (FrameState {
                    pc,
                    interpreter: *self,
                    scope,
                }),
                self.wf(),
                frame_inv(&scope),
                self.table == old(self).table,
                self.evm.chain_rules == old(self).evm.chain_rules,
                self.evm.depth == old(self).evm.depth + 1,
                self.read_only == (old(self).read_only || read_only),
                was_read_only == old(self).read_only,
                self.evm.state_db.same_snapshots(&old(self).evm.state_db),
                scope.contract.same_but_gas(&entry),
                scope.contract.spec_gas() <= entry.spec_gas(),
            decreases
                    (if halted is None {
                        scope.contract.spec_gas() + 1
                    } else {
                        0
                    }),
        {
            let ghost before = FrameState { pc, interpreter: *self, scope };
            if self.evm.aborted() {
                self.return_data = Vec::new();
                halted = Some(Error::StopToken);
                proof {
                    end = FrameState { pc, interpreter: *self, scope };
                }
            } else {
                match step(&mut pc, self, &mut scope) {
                    Ok(_) => {
                        proof {
                            let after = FrameState { pc, interpreter: *self, scope };
                            assert(step_outcome(
                                before.pc,
                                after.pc,
                                &before.interpreter,
                                &after.interpreter,
                                &before.scope,
                                &after.scope,
                                Ok::<(), Error>(()),
                            ));
                            assert(frame_goes_on(&before, &after));
                            let longer = trace.push(after);
                            assert forall|k: int|
                                #![trigger longer[k]]
                                0 <= k < longer.len() - 1 implies longer[k].interpreter.evm.depth
                                == longer[0].interpreter.evm.depth && frame_goes_on(
                                &longer[k],
                                &longer[k + 1],
                            ) by {
                                if k < trace.len() - 1 {
                                    assert(longer[k] == trace[k]);
                                    assert(longer[k + 1] == trace[k + 1]);
                                    assert(frame_goes_on(&trace[k], &trace[k + 1]));
                                }
                            }
                            assert(frame_course(longer));
                            trace = longer;
                        }
                    },
                    Err(e) => {
                        halted = Some(e);
                        proof {
                            end = FrameState { pc, interpreter: *self, scope };
                        }
                    },
                }
            }
        }
        std::mem::swap(&mut scope.contract, contract);
        let ScopeContext { memory, stack, contract: spare } = scope;
        self.pool.return_stack(stack);
        self.evm.depth = self.evm.depth - 1;
        self.read_only = was_read_only;
        let r = match halted {
            Some(e) => {
                if e == Error::StopToken {
                    Ok(slice_to_vec(self.return_data.as_slice()))
                } else if e == Error::ExecutionReverted {
                    Err(e)
                } else {
                    contract.set_gas(0);
                    Err(e)
                }
            },
            None => Ok(Vec::new()),
        };
        proof {
            assert(frame_ran(
                trace,
                &end,
                halted->Some_0,
                old(self),
                self,
                old(contract),
                contract,
                input@,
                read_only,
                r,
            ));
        }
        r
    }
}

} // verus!
