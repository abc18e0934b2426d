//! Operations on the storage of the account that runs, and logs.

use vstd::prelude::*;
use crate::common::Error;
use crate::evm::TraceEvent;
use crate::instructions::{
    item, memory_region, only_state_changed, pure_post, region_args, region_spec, replace_top,
};
use crate::int256::Int256;
use crate::interpreter::{EVMInterpreter, ScopeContext};
use crate::jump_table::ExecutionFunc;
use crate::memory_table::{back, memory_fits, MemorySizeFunc};
use crate::state::{Log, LogData, StateView};

verus! {

/// `SLOAD`: the word of storage under the key that the top item gives.
pub fn op_sload(pc: &mut u64, interpreter: &mut EVMInterpreter, scope: &mut ScopeContext) -> (r:
    Result<Vec<u8>, Error>)
    requires
        old(interpreter).wf(),
    ensures
        pure_post(
            ExecutionFunc::SLoad,
            *old(pc),
            *final(pc),
            old(interpreter),
            final(interpreter),
            old(scope),
            final(scope),
            r,
        ),
{
    if scope.stack.len() < 1 {
        return Err(Error::StackUnderflow);
    }
    let x = item(scope, 0);
    let word = interpreter.evm.state_db.get_state(scope.contract.address(), &x);
    replace_top(scope, 1, word)
}

/// `TLOAD`: the word of transient storage under the key that the top item
/// gives.
pub fn op_tload(pc: &mut u64, interpreter: &mut EVMInterpreter, scope: &mut ScopeContext) -> (r:
    Result<Vec<u8>, Error>)
    requires
        old(interpreter).wf(),
    ensures
        pure_post(
            ExecutionFunc::TLoad,
            *old(pc),
            *final(pc),
            old(interpreter),
            final(interpreter),
            old(scope),
            final(scope),
            r,
        ),
{
    if scope.stack.len() < 1 {
        return Err(Error::StackUnderflow);
    }
    let x = item(scope, 0);
    let word = interpreter.evm.state_db.get_transient_state(scope.contract.address(), &x);
    replace_top(scope, 1, word)
}

/// What an operation that writes the world state answers and leaves: in a
/// read-only frame a write protection error, with too few items an underflow,
/// both with nothing changed; else `state` as the new state, the items gone
/// and nothing else changed.
pub open spec fn state_write_post(
    pre_i: &EVMInterpreter,
    post_i: &EVMInterpreter,
    pre: &ScopeContext,
    post: &ScopeContext,
    r: Result<Vec<u8>, Error>,
    pops: int,
    state: StateView,
) -> bool {
    if pre_i.read_only {
        r == Err::<Vec<u8>, Error>(Error::WriteProtection) && *post == *pre && *post_i == *pre_i
    } else if pre.stack@.len() < pops {
        r == Err::<Vec<u8>, Error>(Error::StackUnderflow) && *post == *pre && *post_i == *pre_i
    } else {
        &&& r is Ok
        &&& r->Ok_0@.len() == 0
        &&& post.stack@ == pre.stack@.take(pre.stack@.len() - pops)
        &&& post.memory == pre.memory
        &&& post.contract == pre.contract
        &&& only_state_changed(pre_i, post_i)
        &&& post_i.evm.state_db@ == state
    }
}

/// `SSTORE`: stores the second item under the key that the top item gives.
pub fn op_sstore(pc: &mut u64, interpreter: &mut EVMInterpreter, scope: &mut ScopeContext) -> (r:
    Result<Vec<u8>, Error>)
    requires
        old(interpreter).wf(),
    ensures
        state_write_post(
            old(interpreter),
            final(interpreter),
            old(scope),
            final(scope),
            r,
            2,
            StateView {
                storage: old(interpreter).evm.state_db@.storage.insert(
                    (old(scope).contract.spec_address(), back(old(scope).stack@, 0)),
                    back(old(scope).stack@, 1),
                ),
                ..old(interpreter).evm.state_db@
            },
        ),
        *final(pc) == *old(pc),
{
    if interpreter.read_only {
        return Err(Error::WriteProtection);
    }
    if scope.stack.len() < 2 {
        return Err(Error::StackUnderflow);
    }
    let key = item(scope, 0);
    let value = item(scope, 1);
    interpreter.evm.state_db.set_state(scope.contract.address(), &key, &value);
    scope.stack.pop_n(2);
    Ok(Vec::new())
}

/// `TSTORE`: stores the second item in transient storage under the key that
/// the top item gives.
pub fn op_tstore(pc: &mut u64, interpreter: &mut EVMInterpreter, scope: &mut ScopeContext) -> (r:
    Result<Vec<u8>, Error>)
    requires
        old(interpreter).wf(),
    ensures
        state_write_post(
            old(interpreter),
            final(interpreter),
            old(scope),
            final(scope),
            r,
            2,
            StateView {
                transient: old(interpreter).evm.state_db@.transient.insert(
                    (old(scope).contract.spec_address(), back(old(scope).stack@, 0)),
                    back(old(scope).stack@, 1),
                ),
                ..old(interpreter).evm.state_db@
            },
        ),
        *final(pc) == *old(pc),
{
    if interpreter.read_only {
        return Err(Error::WriteProtection);
    }
    if scope.stack.len() < 2 {
        return Err(Error::StackUnderflow);
    }
    let key = item(scope, 0);
    let value = item(scope, 1);
    interpreter.evm.state_db.set_transient_state(scope.contract.address(), &key, &value);
    scope.stack.pop_n(2);
    Ok(Vec::new())
}

/// What `SELFDESTRUCT` answers and leaves: in a read-only frame a write
/// protection error, with an empty stack an underflow, both with nothing
/// changed; else the balance of the account that runs goes to the account
/// that the top item names, the account that runs is marked as destroyed, and
/// the frame halts with no output.
pub open spec fn selfdestruct_post(
    pre_i: &EVMInterpreter,
    post_i: &EVMInterpreter,
    pre: &ScopeContext,
    post: &ScopeContext,
    r: Result<Vec<u8>, Error>,
) -> bool {
    let me = pre.contract.spec_address();
    let heir = crate::common::Address::spec_from_word(back(pre.stack@, 0));
    let state = pre_i.evm.state_db@;
    if pre_i.read_only {
        r == Err::<Vec<u8>, Error>(Error::WriteProtection) && *post == *pre && *post_i == *pre_i
    } else if pre.stack@.len() < 1 {
        r == Err::<Vec<u8>, Error>(Error::StackUnderflow) && *post == *pre && *post_i == *pre_i
    } else {
        &&& r == Err::<Vec<u8>, Error>(Error::StopToken)
        &&& post.stack@ == pre.stack@.take(pre.stack@.len() - 1)
        &&& post.memory == pre.memory
        &&& post.contract == pre.contract
        &&& post_i.return_data@.len() == 0
        &&& post_i.table == pre_i.table
        &&& post_i.read_only == pre_i.read_only
        &&& post_i.pool == pre_i.pool
        &&& post_i.evm.context == pre_i.evm.context
        &&& post_i.evm.chain_rules == pre_i.evm.chain_rules
        &&& post_i.evm.depth == pre_i.evm.depth
        &&& post_i.evm.call_gas_temp == pre_i.evm.call_gas_temp
        &&& post_i.evm.state_db.wf()
        &&& post_i.evm.state_db.same_snapshots(&pre_i.evm.state_db)
        &&& post_i.evm.state_db@ == state.credit(heir, state.balance(me)).destroy(me)
    }
}

/// `SELFDESTRUCT`: hands the balance on and marks the account as destroyed.
#[verifier::rlimit(50)]
pub fn op_selfdestruct(pc: &mut u64, interpreter: &mut EVMInterpreter, scope: &mut ScopeContext)
    -> (r: Result<Vec<u8>, Error>)
    requires
        old(interpreter).wf(),
    ensures
        selfdestruct_post(old(interpreter), final(interpreter), old(scope), final(scope), r),
        *final(pc) == *old(pc),
{
    if interpreter.read_only {
        return Err(Error::WriteProtection);
    }
    if scope.stack.len() < 1 {
        return Err(Error::StackUnderflow);
    }
    let me = scope.contract.address();
    let heir = crate::common::Address::from_word(&item(scope, 0));
    let balance = interpreter.evm.state_db.get_balance(me);
    interpreter.evm.state_db.add_balance(heir, &balance);
    interpreter.evm.state_db.suicide(me);
    interpreter.evm.trace(
        TraceEvent::Enter {
            typ: crate::op_code::SELFDESTRUCT,
            from: me,
            to: heir,
            gas: 0,
            value: balance,
        },
    );
    interpreter.evm.trace(TraceEvent::Exit { failed: false });
    interpreter.return_data = Vec::new();
    scope.stack.pop_n(1);
    Err(Error::StopToken)
}

/// The log record that `LOGn` writes: the region of memory that the two top
/// items give, by place and length, with the `n` items below them as topics.
pub open spec fn log_record(n: u8, i: &EVMInterpreter, s: &ScopeContext) -> LogData {
    LogData {
        address: s.contract.spec_address(),
        topics: Seq::new(n as nat, |k: int| back(s.stack@, 2 + k)),
        data: region_spec(s.memory@, back(s.stack@, 0)@, back(s.stack@, 1)@),
        block_number: i.evm.context.block_number,
    }
}

/// `LOG0` to `LOG4`: appends a log record with `n` topics.
#[verifier::rlimit(50)]
pub fn op_log(
    n: u8,
    pc: &mut u64,
    interpreter: &mut EVMInterpreter,
    scope: &mut ScopeContext,
) -> (r: Result<Vec<u8>, Error>)
    requires
        n <= 4,
        old(interpreter).wf(),
        old(scope).stack@.len() >= n + 2 ==> memory_fits(
            MemorySizeFunc::Log,
            old(scope).stack@,
            old(scope).memory@.len(),
        ),
    ensures
        state_write_post(
            old(interpreter),
            final(interpreter),
            old(scope),
            final(scope),
            r,
            n + 2,
            StateView {
                logs: old(interpreter).evm.state_db@.logs.push(
                    log_record(n, old(interpreter), old(scope)),
                ),
                ..old(interpreter).evm.state_db@
            },
        ),
        *final(pc) == *old(pc),
{
    if interpreter.read_only {
        return Err(Error::WriteProtection);
    }
    if scope.stack.len() < n as usize + 2 {
        return Err(Error::StackUnderflow);
    }
    let start = item(scope, 0);
    let size = item(scope, 1);
    let mut topics: Vec<Int256> = Vec::new();
    let mut k: usize = 0;
    while k < n as usize
        invariant
            k <= n,
            n <= 4,
            scope.stack@.len() >= n + 2,
            topics@.len() == k,
            forall|j: int| 0 <= j < k ==> topics@[j] == back(scope.stack@, 2 + j),
        decreases n - k,
    {
        topics.push(item(scope, 2 + k));
        k = k + 1;
    }
    let (start64, size64) = region_args(&start, &size, &scope.memory);
    let data = memory_region(&scope.memory, start64, size64);
    let log = Log {
        address: scope.contract.address(),
        topics,
        data,
        block_number: interpreter.evm.context.block_number,
    };
    proof {
        assert(log@.topics =~= log_record(n, interpreter, scope).topics);
    }
    interpreter.evm.state_db.add_log(log);
    scope.stack.pop_n(n as usize + 2);
    Ok(Vec::new())
}

/// The execution function of `LOGn`.
pub fn make_log(size: u8) -> (r: ExecutionFunc)
    ensures
        r == ExecutionFunc::Log(size),
{
    ExecutionFunc::Log(size)
}

} // verus!
