//! The gas that depends on what an operation works on: memory growth, the
//! size of copies, storage, logs and nested calls.

use vstd::prelude::*;
use crate::common::{Address, Error};
use crate::contract::Contract;
use crate::evm::EVM;
use crate::gas::{call_gas, call_gas_spec};
use crate::int256::{Int256, two_64};
use crate::int256::lemmas::lemma_div_mod_unique;
use crate::int256::shift::byte_length;
use crate::jump_table::{gas_stack_need, GasFunc};
use crate::memory::Memory;
use crate::memory_table::back;
use crate::params::{
    CALL_NEW_ACCOUNT_GAS, CALL_VALUE_TRANSFER_GAS, COPY_GAS, CREATE_BY_SELFDESTRUCT_GAS,
    EXP_BYTE_EIP158, EXP_BYTE_FRONTIER, KECCAK256_WORD_GAS, LOG_DATA_GAS, LOG_GAS, LOG_TOPIC_GAS,
    MEMORY_GAS, QUAD_COEFF_DIV, SELFDESTRUCT_GAS_EIP150, SELFDESTRUCT_REFUND_GAS, SSTORE_CLEAR_GAS,
    SSTORE_REFUND_GAS, SSTORE_RESET_GAS, SSTORE_SET_GAS,
};
use crate::stack::Stack;
use crate::state::StateView;

verus! {

/// The greatest memory size that is charged for; a greater one is refused.
pub const MAX_MEMORY_SIZE: u64 = 0x1F_FFFF_FFE0;

/// How many 32-byte words hold `size` bytes.
pub open spec fn word_count(size: nat) -> nat {
    (size + 31) / 32
}

/// How many 32-byte words hold `size` bytes.
pub fn to_word_size(size: u64) -> (r: u64)
    ensures
        r == word_count(size as nat),
{
    if size > u64::MAX - 31 {
        u64::MAX / 32 + 1
    } else {
        (size + 31) / 32
    }
}

/// What memory of `words` words costs in all: three per word and a 512th of
/// the square of their number.
pub open spec fn memory_cost(words: nat) -> nat {
    words * 3 + words * words / 512
}

/// What growing memory to `new_size` bytes costs: the cost of the new size in
/// words less what was charged before. Nothing for a size of zero or one that
/// memory already has.
pub open spec fn memory_gas_spec(last_gas_cost: u64, mem_len: nat, new_size: u64) -> Result<
    u64,
    Error,
> {
    if new_size == 0 {
        Ok(0u64)
    } else if new_size > MAX_MEMORY_SIZE {
        Err(Error::GasUintOverflow)
    } else if word_count(new_size as nat) * 32 > mem_len {
        let total = memory_cost(word_count(new_size as nat));
        Ok(
            if total >= last_gas_cost {
                (total - last_gas_cost) as u64
            } else {
                0u64
            },
        )
    } else {
        Ok(0u64)
    }
}

/// What memory of `words` words costs in all.
pub fn memory_total_cost(words: u64) -> (r: u64)
    requires
        words <= 0xFFFF_FFFF,
    ensures
        r == memory_cost(words as nat),
{
    assert(words * words <= 0xFFFF_FFFF * 0xFFFF_FFFF) by (nonlinear_arith)
        requires
            0 <= words <= 0xFFFF_FFFF,
    ;
    let square = words * words;
    words * MEMORY_GAS + square / QUAD_COEFF_DIV
}

/// What growing memory to `new_size` bytes costs.
pub fn memory_gas_cost(mem: &Memory, new_size: u64) -> (r: Result<u64, Error>)
    ensures
        r == memory_gas_spec(mem.spec_last_gas_cost(), mem@.len(), new_size),
{
    if new_size == 0 {
        return Ok(0);
    }
    if new_size > MAX_MEMORY_SIZE {
        return Err(Error::GasUintOverflow);
    }
    let words = to_word_size(new_size);
    let bytes = words * 32;
    if bytes > mem.len() as u64 {
        let total = memory_total_cost(words);
        let last = mem.last_gas_cost();
        if total >= last {
            Ok(total - last)
        } else {
            Ok(0)
        }
    } else {
        Ok(0)
    }
}

/// What only the growth of memory costs.
pub fn pure_memory_gas_cost(
    evm: &EVM,
    contract: &Contract,
    stack: &Stack,
    mem: &Memory,
    memory_size: u64,
) -> (r: Result<u64, Error>)
    ensures
        r == memory_gas_spec(mem.spec_last_gas_cost(), mem@.len(), memory_size),
{
    memory_gas_cost(mem, memory_size)
}

/// The sum of gas amounts as far as 64 bits hold it.
pub open spec fn gas_sum(total: int) -> Result<u64, Error> {
    if total > u64::MAX {
        Err(Error::GasUintOverflow)
    } else {
        Ok(total as u64)
    }
}

/// Memory growth and a price per word of `len` bytes, as far as 64 bits hold
/// the length and the sum.
pub open spec fn per_word_gas_spec(memory: Result<u64, Error>, len: nat, unit: u64) -> Result<
    u64,
    Error,
> {
    if memory is Err || len >= two_64() {
        Err(Error::GasUintOverflow)
    } else {
        gas_sum(memory->Ok_0 + word_count(len) * unit)
    }
}

/// A word as a length: its value where 64 bits hold it.
fn length_of(w: &Int256) -> (r: Option<u64>)
    ensures
        r == if w@ < two_64() { Some(w@ as u64) } else { None },
{
    proof {
        w.lemma_low_limb();
        if w@ < two_64() {
            lemma_div_mod_unique(w@ as int, two_64() as int, 0, w@ as int);
        }
    }
    if w.is_u64() {
        Some(w.low_u64())
    } else {
        None
    }
}

/// The sum of two gas amounts.
fn safe_add(a: u64, b: u64) -> (r: Result<u64, Error>)
    ensures
        r == gas_sum(a + b),
{
    match a.checked_add(b) {
        Some(s) => Ok(s),
        None => Err(Error::GasUintOverflow),
    }
}

/// The product of two gas amounts.
fn safe_mul(a: u64, b: u64) -> (r: Result<u64, Error>)
    ensures
        r == gas_sum(a * b),
{
    match a.checked_mul(b) {
        Some(s) => Ok(s),
        None => Err(Error::GasUintOverflow),
    }
}

/// Memory growth and a price per word of a length taken from the stack.
fn per_word_gas(mem: &Memory, memory_size: u64, len: &Int256, unit: u64) -> (r: Result<u64, Error>)
    ensures
        r == per_word_gas_spec(
            memory_gas_spec(mem.spec_last_gas_cost(), mem@.len(), memory_size),
            len@,
            unit,
        ),
{
    let memory = match memory_gas_cost(mem, memory_size) {
        Ok(g) => g,
        Err(_) => {
            return Err(Error::GasUintOverflow);
        },
    };
    let n = match length_of(len) {
        Some(n) => n,
        None => {
            return Err(Error::GasUintOverflow);
        },
    };
    let words = to_word_size(n);
    let priced = match safe_mul(words, unit) {
        Ok(p) => p,
        Err(e) => {
            return Err(e);
        },
    };
    safe_add(memory, priced)
}

/// The gas of a copy into memory: memory growth and three per word copied.
pub fn gas_copy(evm: &EVM, contract: &Contract, stack: &Stack, mem: &Memory, memory_size: u64) -> (r:
    Result<u64, Error>)
    requires
        stack@.len() >= 3,
    ensures
        r == per_word_gas_spec(
            memory_gas_spec(mem.spec_last_gas_cost(), mem@.len(), memory_size),
            back(stack@, 2)@,
            COPY_GAS,
        ),
{
    per_word_gas(mem, memory_size, stack.back(2).unwrap(), COPY_GAS)
}

/// The gas of a copy of another account's code into memory.
pub fn gas_ext_code_copy(
    evm: &EVM,
    contract: &Contract,
    stack: &Stack,
    mem: &Memory,
    memory_size: u64,
) -> (r: Result<u64, Error>)
    requires
        stack@.len() >= 4,
    ensures
        r == per_word_gas_spec(
            memory_gas_spec(mem.spec_last_gas_cost(), mem@.len(), memory_size),
            back(stack@, 3)@,
            COPY_GAS,
        ),
{
    per_word_gas(mem, memory_size, stack.back(3).unwrap(), COPY_GAS)
}

/// The gas of hashing: memory growth and six per word hashed.
pub fn gas_keccak256(
    evm: &EVM,
    contract: &Contract,
    stack: &Stack,
    mem: &Memory,
    memory_size: u64,
) -> (r: Result<u64, Error>)
    requires
        stack@.len() >= 2,
    ensures
        r == per_word_gas_spec(
            memory_gas_spec(mem.spec_last_gas_cost(), mem@.len(), memory_size),
            back(stack@, 1)@,
            KECCAK256_WORD_GAS,
        ),
{
    per_word_gas(mem, memory_size, stack.back(1).unwrap(), KECCAK256_WORD_GAS)
}

/// The gas of a creation at an address made from a salt: memory growth and
/// six per word of the code that is hashed.
pub fn gas_create2(evm: &EVM, contract: &Contract, stack: &Stack, mem: &Memory, memory_size: u64)
    -> (r: Result<u64, Error>)
    requires
        stack@.len() >= 3,
    ensures
        r == per_word_gas_spec(
            memory_gas_spec(mem.spec_last_gas_cost(), mem@.len(), memory_size),
            back(stack@, 2)@,
            KECCAK256_WORD_GAS,
        ),
{
    per_word_gas(mem, memory_size, stack.back(2).unwrap(), KECCAK256_WORD_GAS)
}

/// The price of one byte of an exponent.
pub open spec fn exp_byte_gas(is_eip158: bool) -> u64 {
    if is_eip158 {
        EXP_BYTE_EIP158
    } else {
        EXP_BYTE_FRONTIER
    }
}

/// The gas of an exponentiation beyond its fixed price: a price for each byte
/// that the exponent takes.
pub fn gas_exp(evm: &EVM, contract: &Contract, stack: &Stack, mem: &Memory, memory_size: u64) -> (r:
    Result<u64, Error>)
    requires
        stack@.len() >= 2,
    ensures
        r is Ok,
        r->Ok_0 == byte_length(back(stack@, 1)@) * exp_byte_gas(evm.chain_rules.is_eip158),
{
    let n = stack.back(1).unwrap().byte_len() as u64;
    let unit = if evm.chain_rules.is_eip158 {
        EXP_BYTE_EIP158
    } else {
        EXP_BYTE_FRONTIER
    };
    Ok(n * unit)
}

/// The gas of a log beyond memory growth: a base price, a price for each
/// topic and a price for each byte of data.
pub open spec fn log_gas_spec(memory: Result<u64, Error>, topics: u8, size: nat) -> Result<
    u64,
    Error,
> {
    if memory is Err || size >= two_64() {
        Err(Error::GasUintOverflow)
    } else {
        gas_sum(memory->Ok_0 + LOG_GAS + topics * LOG_TOPIC_GAS + size * LOG_DATA_GAS)
    }
}

/// The gas of a log with the given number of topics.
pub fn gas_log(
    topics: u8,
    evm: &EVM,
    contract: &Contract,
    stack: &Stack,
    mem: &Memory,
    memory_size: u64,
) -> (r: Result<u64, Error>)
    requires
        stack@.len() >= 2,
    ensures
        r == log_gas_spec(
            memory_gas_spec(mem.spec_last_gas_cost(), mem@.len(), memory_size),
            topics,
            back(stack@, 1)@,
        ),
{
    let memory = match memory_gas_cost(mem, memory_size) {
        Ok(g) => g,
        Err(_) => {
            return Err(Error::GasUintOverflow);
        },
    };
    let size = match length_of(stack.back(1).unwrap()) {
        Some(n) => n,
        None => {
            return Err(Error::GasUintOverflow);
        },
    };
    let fixed = LOG_GAS + (topics as u64) * LOG_TOPIC_GAS;
    let data = match safe_mul(size, LOG_DATA_GAS) {
        Ok(d) => d,
        Err(e) => {
            return Err(e);
        },
    };
    let with_fixed = match safe_add(memory, fixed) {
        Ok(g) => g,
        Err(e) => {
            return Err(e);
        },
    };
    safe_add(with_fixed, data)
}

/// The gas of a store: the higher price for a word that was zero and is not
/// any more, else the lower one.
pub open spec fn sstore_gas_spec(current: Int256, value: Int256) -> u64 {
    if current@ == 0 && value@ != 0 {
        SSTORE_SET_GAS
    } else if current@ != 0 && value@ == 0 {
        SSTORE_CLEAR_GAS
    } else {
        SSTORE_RESET_GAS
    }
}

/// The gas of a store. Clearing a word that was set earns a refund.
#[verifier::rlimit(100)]
pub fn gas_sstore(
    evm: &mut EVM,
    contract: &Contract,
    stack: &Stack,
    mem: &Memory,
    memory_size: u64,
) -> (r: Result<u64, Error>)
    requires
        old(evm).wf(),
        stack@.len() >= 2,
    ensures
        final(evm).wf(),
        r == Ok::<u64, Error>(
            sstore_gas_spec(
                old(evm).state_db@.storage_at(contract.spec_address(), back(stack@, 0)),
                back(stack@, 1),
            ),
        ),
        r->Ok_0 >= SSTORE_RESET_GAS,
        final(evm).state_db.same_snapshots(&old(evm).state_db),
        final(evm).state_db@ == if old(evm).state_db@.storage_at(
            contract.spec_address(),
            back(stack@, 0),
        )@ != 0 && back(stack@, 1)@ == 0 {
            StateView {
                refund: if old(evm).state_db@.refund + SSTORE_REFUND_GAS > u64::MAX {
                    u64::MAX
                } else {
                    (old(evm).state_db@.refund + SSTORE_REFUND_GAS) as u64
                },
                ..old(evm).state_db@
            }
        } else {
            old(evm).state_db@
        },
        evm_same_but_state(old(evm), final(evm)),
{
    let key = *stack.back(0).unwrap();
    let value = *stack.back(1).unwrap();
    let current = evm.state_db.get_state(contract.address(), &key);
    if current.is_zero() && !value.is_zero() {
        Ok(SSTORE_SET_GAS)
    } else if !current.is_zero() && value.is_zero() {
        evm.state_db.add_refund(SSTORE_REFUND_GAS);
        Ok(SSTORE_CLEAR_GAS)
    } else {
        Ok(SSTORE_RESET_GAS)
    }
}

/// Whether a machine differs from an earlier one in nothing but its world
/// state.
pub open spec fn evm_same_but_state(pre: &EVM, post: &EVM) -> bool {
    &&& post.context == pre.context
    &&& post.chain_rules == pre.chain_rules
    &&& post.depth == pre.depth
    &&& post.abort == pre.abort
    &&& post.call_gas_temp == pre.call_gas_temp
    &&& post.origin == pre.origin
    &&& post.gas_price == pre.gas_price
    &&& post.tracer == pre.tracer
    &&& post.enable_preimage_recording == pre.enable_preimage_recording
}

/// Whether a machine differs from an earlier one in nothing but the gas kept
/// for the next call.
pub open spec fn evm_same_but_call_gas(pre: &EVM, post: &EVM) -> bool {
    &&& post.context == pre.context
    &&& post.chain_rules == pre.chain_rules
    &&& post.state_db == pre.state_db
    &&& post.depth == pre.depth
    &&& post.abort == pre.abort
    &&& post.origin == pre.origin
    &&& post.gas_price == pre.gas_price
    &&& post.tracer == pre.tracer
    &&& post.enable_preimage_recording == pre.enable_preimage_recording
}

/// What a call costs before any gas is handed on: memory growth, the price of
/// moving value, and the price of bringing the callee into being.
pub open spec fn call_base_gas(
    memory: u64,
    transfers_value: bool,
    charges_transfer: bool,
    new_account: bool,
) -> nat {
    (memory + (if charges_transfer && transfers_value {
        CALL_VALUE_TRANSFER_GAS
    } else {
        0
    }) + (if new_account {
        CALL_NEW_ACCOUNT_GAS
    } else {
        0
    })) as nat
}

/// Whether a call to `callee` has to pay for a new account: under the rule
/// that clears empty accounts, when value goes to an empty account; else when
/// the callee does not exist.
pub open spec fn call_makes_account(
    is_eip158: bool,
    state: StateView,
    callee: Address,
    transfers_value: bool,
) -> bool {
    if is_eip158 {
        transfers_value && state.is_empty(callee)
    } else {
        !state.accounts.dom().contains(callee)
    }
}

/// The gas of a call that has the given base price and asks for `request`:
/// the base and what is handed on, which is kept in `call_gas_temp`.
pub open spec fn call_gas_post(
    pre: &EVM,
    post: &EVM,
    contract_gas: u64,
    memory: Result<u64, Error>,
    base_extra: nat,
    request: nat,
    r: Result<u64, Error>,
) -> bool {
    if memory is Err || memory->Ok_0 + base_extra > u64::MAX {
        r == Err::<u64, Error>(Error::GasUintOverflow) && *post == *pre
    } else {
        let base = (memory->Ok_0 + base_extra) as u64;
        match call_gas_spec(pre.chain_rules.is_eip150, contract_gas, base, request) {
            Err(e) => r == Err::<u64, Error>(e) && *post == *pre,
            Ok(forward) => if base + forward > u64::MAX {
                r == Err::<u64, Error>(Error::GasUintOverflow) && *post == *pre
            } else {
                evm_same_but_call_gas(pre, post) && post.call_gas_temp == forward && r == Ok::<
                    u64,
                    Error,
                >((base + forward) as u64)
            },
        }
    }
}

/// Charges a call: keeps what is handed on and gives the sum.
#[verifier::rlimit(100)]
fn finish_call_gas(evm: &mut EVM, contract_gas: u64, memory: u64, extra: u64, request: &Int256)
    -> (r: Result<u64, Error>)
    requires
        extra <= CALL_VALUE_TRANSFER_GAS + CALL_NEW_ACCOUNT_GAS,
    ensures
        call_gas_post(
            old(evm),
            final(evm),
            contract_gas,
            Ok(memory),
            extra as nat,
            request@,
            r,
        ),
{
    let base = match safe_add(memory, extra) {
        Ok(b) => b,
        Err(e) => {
            return Err(e);
        },
    };
    let forward = match call_gas(evm.chain_rules.is_eip150, contract_gas, base, request) {
        Ok(f) => f,
        Err(e) => {
            return Err(e);
        },
    };
    let total = match safe_add(base, forward) {
        Ok(t) => t,
        Err(e) => {
            return Err(e);
        },
    };
    evm.call_gas_temp = forward;
    Ok(total)
}

/// The gas of `CALL`.
#[verifier::rlimit(100)]
pub fn gas_call(evm: &mut EVM, contract: &Contract, stack: &Stack, mem: &Memory, memory_size: u64)
    -> (r: Result<u64, Error>)
    requires
        old(evm).wf(),
        stack@.len() >= 3,
    ensures
        call_gas_post(
            old(evm),
            final(evm),
            contract.spec_gas(),
            memory_gas_spec(mem.spec_last_gas_cost(), mem@.len(), memory_size),
            (call_base_gas(
                0,
                back(stack@, 2)@ != 0,
                true,
                call_makes_account(
                    old(evm).chain_rules.is_eip158,
                    old(evm).state_db@,
                    Address::spec_from_word(back(stack@, 1)),
                    back(stack@, 2)@ != 0,
                ),
            )),
            back(stack@, 0)@,
            r,
        ),
{
    let transfers_value = !stack.back(2).unwrap().is_zero();
    let callee = Address::from_word(stack.back(1).unwrap());
    let mut extra: u64 = 0;
    if evm.chain_rules.is_eip158 {
        if transfers_value && evm.state_db.empty(callee) {
            extra = extra + CALL_NEW_ACCOUNT_GAS;
        }
    } else if !evm.state_db.exist(callee) {
        extra = extra + CALL_NEW_ACCOUNT_GAS;
    }
    if transfers_value {
        extra = extra + CALL_VALUE_TRANSFER_GAS;
    }
    let memory = match memory_gas_cost(mem, memory_size) {
        Ok(g) => g,
        Err(e) => {
            return Err(e);
        },
    };
    finish_call_gas(evm, contract.gas(), memory, extra, stack.back(0).unwrap())
}

/// The gas of `CALLCODE`.
pub fn gas_call_code(
    evm: &mut EVM,
    contract: &Contract,
    stack: &Stack,
    mem: &Memory,
    memory_size: u64,
) -> (r: Result<u64, Error>)
    requires
        stack@.len() >= 3,
    ensures
        call_gas_post(
            old(evm),
            final(evm),
            contract.spec_gas(),
            memory_gas_spec(mem.spec_last_gas_cost(), mem@.len(), memory_size),
            call_base_gas(0, back(stack@, 2)@ != 0, true, false),
            back(stack@, 0)@,
            r,
        ),
{
    let transfers_value = !stack.back(2).unwrap().is_zero();
    let extra: u64 = if transfers_value {
        CALL_VALUE_TRANSFER_GAS
    } else {
        0
    };
    let memory = match memory_gas_cost(mem, memory_size) {
        Ok(g) => g,
        Err(e) => {
            return Err(e);
        },
    };
    finish_call_gas(evm, contract.gas(), memory, extra, stack.back(0).unwrap())
}

/// The gas of `DELEGATECALL`.
pub fn gas_delegate_call(
    evm: &mut EVM,
    contract: &Contract,
    stack: &Stack,
    mem: &Memory,
    memory_size: u64,
) -> (r: Result<u64, Error>)
    requires
        stack@.len() >= 1,
    ensures
        call_gas_post(
            old(evm),
            final(evm),
            contract.spec_gas(),
            memory_gas_spec(mem.spec_last_gas_cost(), mem@.len(), memory_size),
            0,
            back(stack@, 0)@,
            r,
        ),
{
    let memory = match memory_gas_cost(mem, memory_size) {
        Ok(g) => g,
        Err(e) => {
            return Err(e);
        },
    };
    finish_call_gas(evm, contract.gas(), memory, 0, stack.back(0).unwrap())
}

/// The gas of `STATICCALL`.
pub fn gas_static_call(
    evm: &mut EVM,
    contract: &Contract,
    stack: &Stack,
    mem: &Memory,
    memory_size: u64,
) -> (r: Result<u64, Error>)
    requires
        stack@.len() >= 1,
    ensures
        call_gas_post(
            old(evm),
            final(evm),
            contract.spec_gas(),
            memory_gas_spec(mem.spec_last_gas_cost(), mem@.len(), memory_size),
            0,
            back(stack@, 0)@,
            r,
        ),
{
    gas_delegate_call(evm, contract, stack, mem, memory_size)
}

/// The gas of a self-destruction: under the all-but-one-64th rule a base
/// price, and more when the beneficiary comes into being by it.
pub open spec fn selfdestruct_gas_spec(
    is_eip150: bool,
    is_eip158: bool,
    state: StateView,
    contract: Address,
    beneficiary: Address,
) -> u64 {
    if !is_eip150 {
        0
    } else if (is_eip158 && state.is_empty(beneficiary) && state.balance(contract) != 0) || (
    !is_eip158 && !state.accounts.dom().contains(beneficiary)) {
        (SELFDESTRUCT_GAS_EIP150 + CREATE_BY_SELFDESTRUCT_GAS) as u64
    } else {
        SELFDESTRUCT_GAS_EIP150
    }
}

/// The gas of a self-destruction. The first in a transaction earns a refund.
#[verifier::rlimit(100)]
pub fn gas_selfdestruct(
    evm: &mut EVM,
    contract: &Contract,
    stack: &Stack,
    mem: &Memory,
    memory_size: u64,
) -> (r: Result<u64, Error>)
    requires
        old(evm).wf(),
        stack@.len() >= 1,
    ensures
        final(evm).wf(),
        r == Ok::<u64, Error>(
            selfdestruct_gas_spec(
                old(evm).chain_rules.is_eip150,
                old(evm).chain_rules.is_eip158,
                old(evm).state_db@,
                contract.spec_address(),
                Address::spec_from_word(back(stack@, 0)),
            ),
        ),
        final(evm).state_db.same_snapshots(&old(evm).state_db),
        final(evm).state_db@ == if !old(evm).state_db@.account(contract.spec_address()).suicided {
            StateView {
                refund: if old(evm).state_db@.refund + SELFDESTRUCT_REFUND_GAS > u64::MAX {
                    u64::MAX
                } else {
                    (old(evm).state_db@.refund + SELFDESTRUCT_REFUND_GAS) as u64
                },
                ..old(evm).state_db@
            }
        } else {
            old(evm).state_db@
        },
        evm_same_but_state(old(evm), final(evm)),
{
    let mut gas: u64 = 0;
    if evm.chain_rules.is_eip150 {
        gas = SELFDESTRUCT_GAS_EIP150;
        let beneficiary = Address::from_word(stack.back(0).unwrap());
        if evm.chain_rules.is_eip158 {
            if evm.state_db.empty(beneficiary) && !evm.state_db.get_balance(
                contract.address(),
            ).is_zero() {
                gas = gas + CREATE_BY_SELFDESTRUCT_GAS;
            }
        } else if !evm.state_db.exist(beneficiary) {
            gas = gas + CREATE_BY_SELFDESTRUCT_GAS;
        }
    }
    if !evm.state_db.has_suicided(contract.address()) {
        evm.state_db.add_refund(SELFDESTRUCT_REFUND_GAS);
    }
    Ok(gas)
}

/// What a call costs in all: its base price and the gas that it hands on.
pub open spec fn call_total_spec(
    is_eip150: bool,
    contract_gas: u64,
    memory: Result<u64, Error>,
    extra: nat,
    request: nat,
) -> Result<u64, Error> {
    if memory is Err || memory->Ok_0 + extra > u64::MAX {
        Err(Error::GasUintOverflow)
    } else {
        let base = (memory->Ok_0 + extra) as u64;
        match call_gas_spec(is_eip150, contract_gas, base, request) {
            Err(e) => Err(e),
            Ok(forward) => gas_sum(base + forward),
        }
    }
}

/// The gas that a call hands on, where its price can be told.
pub open spec fn call_forward_spec(
    is_eip150: bool,
    contract_gas: u64,
    memory: Result<u64, Error>,
    extra: nat,
    request: nat,
) -> u64 {
    let base = (memory->Ok_0 + extra) as u64;
    call_gas_spec(is_eip150, contract_gas, base, request)->Ok_0
}

/// What a call pays beyond memory growth and the gas that it hands on.
pub open spec fn call_extra_spec(g: GasFunc, evm: &EVM, stack: Seq<Int256>) -> nat {
    match g {
        GasFunc::Call => call_base_gas(
            0,
            back(stack, 2)@ != 0,
            true,
            call_makes_account(
                evm.chain_rules.is_eip158,
                evm.state_db@,
                Address::spec_from_word(back(stack, 1)),
                back(stack, 2)@ != 0,
            ),
        ),
        GasFunc::CallCode => call_base_gas(0, back(stack, 2)@ != 0, true, false),
        _ => 0,
    }
}

/// Whether a gas function prices a nested call.
pub open spec fn prices_call(g: GasFunc) -> bool {
    g == GasFunc::Call || g == GasFunc::CallCode || g == GasFunc::DelegateCall || g
        == GasFunc::StaticCall
}

/// The gas that an operation costs for what it works on. `gas` is what the
/// frame has left once the operation's fixed price is paid, `memory_size` the
/// size that memory must have for the operation, rounded up to whole words.
pub open spec fn dynamic_gas_spec(
    g: GasFunc,
    evm: &EVM,
    address: Address,
    gas: u64,
    stack: Seq<Int256>,
    last_gas_cost: u64,
    mem_len: nat,
    memory_size: u64,
) -> Result<u64, Error> {
    let memory = memory_gas_spec(last_gas_cost, mem_len, memory_size);
    match g {
        GasFunc::Memory => memory,
        GasFunc::Copy => per_word_gas_spec(memory, back(stack, 2)@, COPY_GAS),
        GasFunc::ExtCodeCopy => per_word_gas_spec(memory, back(stack, 3)@, COPY_GAS),
        GasFunc::Keccak256 => per_word_gas_spec(memory, back(stack, 1)@, KECCAK256_WORD_GAS),
        GasFunc::Exp => Ok(
            (byte_length(back(stack, 1)@) * exp_byte_gas(evm.chain_rules.is_eip158)) as u64,
        ),
        GasFunc::SStore => Ok(
            sstore_gas_spec(evm.state_db@.storage_at(address, back(stack, 0)), back(stack, 1)),
        ),
        GasFunc::Log(n) => log_gas_spec(memory, n, back(stack, 1)@),
        GasFunc::Create2 => per_word_gas_spec(memory, back(stack, 2)@, KECCAK256_WORD_GAS),
        GasFunc::Call | GasFunc::CallCode | GasFunc::DelegateCall | GasFunc::StaticCall =>
            call_total_spec(
            evm.chain_rules.is_eip150,
            gas,
            memory,
            call_extra_spec(g, evm, stack),
            back(stack, 0)@,
        ),
        GasFunc::SelfDestruct => Ok(
            selfdestruct_gas_spec(
                evm.chain_rules.is_eip150,
                evm.chain_rules.is_eip158,
                evm.state_db@,
                address,
                Address::spec_from_word(back(stack, 0)),
            ),
        ),
    }
}

/// The refund counter after an operation was priced: clearing a word of
/// storage and the first self-destruction of an account earn a refund.
pub open spec fn refund_after_gas(g: GasFunc, evm: &EVM, address: Address, stack: Seq<Int256>)
    -> u64 {
    let state = evm.state_db@;
    let earned: u64 = match g {
        GasFunc::SStore => if state.storage_at(address, back(stack, 0))@ != 0 && back(stack, 1)@
            == 0 {
            SSTORE_REFUND_GAS
        } else {
            0
        },
        GasFunc::SelfDestruct => if !state.account(address).suicided {
            SELFDESTRUCT_REFUND_GAS
        } else {
            0
        },
        _ => 0,
    };
    if state.refund + earned > u64::MAX {
        u64::MAX
    } else {
        (state.refund + earned) as u64
    }
}

/// What pricing an operation leaves of the machine: where the price can be
/// told, the gas that a call hands on is kept and the refund counter holds
/// what was earned; nothing else changes. Where it cannot be told nothing
/// changes at all.
pub open spec fn dynamic_gas_effect(
    g: GasFunc,
    pre: &EVM,
    post: &EVM,
    address: Address,
    gas: u64,
    stack: Seq<Int256>,
    last_gas_cost: u64,
    mem_len: nat,
    memory_size: u64,
) -> bool {
    let r = dynamic_gas_spec(g, pre, address, gas, stack, last_gas_cost, mem_len, memory_size);
    if r is Err {
        *post == *pre
    } else {
        &&& post.context == pre.context
        &&& post.chain_rules == pre.chain_rules
        &&& post.depth == pre.depth
        &&& post.abort == pre.abort
        &&& post.origin == pre.origin
        &&& post.gas_price == pre.gas_price
        &&& post.tracer == pre.tracer
        &&& post.enable_preimage_recording == pre.enable_preimage_recording
        &&& post.state_db.wf()
        &&& post.state_db.same_snapshots(&pre.state_db)
        &&& post.state_db@ == (StateView {
            refund: refund_after_gas(g, pre, address, stack),
            ..pre.state_db@
        })
        &&& post.call_gas_temp == if prices_call(g) {
            call_forward_spec(
                pre.chain_rules.is_eip150,
                gas,
                memory_gas_spec(last_gas_cost, mem_len, memory_size),
                call_extra_spec(g, pre, stack),
                back(stack, 0)@,
            )
        } else {
            pre.call_gas_temp
        }
    }
}

/// The gas that an operation costs for what it works on.
#[verifier::rlimit(100)]
pub fn dynamic_gas(
    g: GasFunc,
    evm: &mut EVM,
    contract: &Contract,
    stack: &Stack,
    mem: &Memory,
    memory_size: u64,
) -> (r: Result<u64, Error>)
    requires
        old(evm).wf(),
        stack@.len() >= gas_stack_need(g),
        g matches GasFunc::Log(n) ==> n <= 4,
    ensures
        r == dynamic_gas_spec(
            g,
            old(evm),
            contract.spec_address(),
            contract.spec_gas(),
            stack@,
            mem.spec_last_gas_cost(),
            mem@.len(),
            memory_size,
        ),
        dynamic_gas_effect(
            g,
            old(evm),
            final(evm),
            contract.spec_address(),
            contract.spec_gas(),
            stack@,
            mem.spec_last_gas_cost(),
            mem@.len(),
            memory_size,
        ),
{
    let ghost pre_state = evm.state_db@;
    proof {
        assert(pre_state == (StateView { refund: pre_state.refund, ..pre_state }));
    }
    match g {
        GasFunc::Memory => pure_memory_gas_cost(evm, contract, stack, mem, memory_size),
        GasFunc::Copy => gas_copy(evm, contract, stack, mem, memory_size),
        GasFunc::ExtCodeCopy => gas_ext_code_copy(evm, contract, stack, mem, memory_size),
        GasFunc::Keccak256 => gas_keccak256(evm, contract, stack, mem, memory_size),
        GasFunc::Exp => gas_exp(evm, contract, stack, mem, memory_size),
        GasFunc::SStore => gas_sstore(evm, contract, stack, mem, memory_size),
        GasFunc::Log(n) => gas_log(n, evm, contract, stack, mem, memory_size),
        GasFunc::Create2 => gas_create2(evm, contract, stack, mem, memory_size),
        GasFunc::Call => gas_call(evm, contract, stack, mem, memory_size),
        GasFunc::CallCode => gas_call_code(evm, contract, stack, mem, memory_size),
        GasFunc::DelegateCall => gas_delegate_call(evm, contract, stack, mem, memory_size),
        GasFunc::StaticCall => gas_static_call(evm, contract, stack, mem, memory_size),
        GasFunc::SelfDestruct => gas_selfdestruct(evm, contract, stack, mem, memory_size),
    }
}

} // verus!
