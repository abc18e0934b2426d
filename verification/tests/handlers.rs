use evm_core::common::{Address, Error};
use evm_core::contract::Contract;
use evm_core::evm::{BlockContext, BlockHash, ChainRules, EVM};
use evm_core::instructions::arithmetic::{op_add, op_addmod, op_div, op_exp, op_mulmod, op_sdiv, op_sub};
use evm_core::instructions::block::{op_blockhash, op_number, op_timestamp};
use evm_core::instructions::environment::{
    op_address, op_balance, op_call_data_load, op_call_data_size, op_call_value, op_caller,
    op_code_size, op_origin, op_return_data_size,
};
use evm_core::instructions::flow::{
    op_gas, op_jump, op_jumpdest, op_jumpi, op_pc, op_return, op_revert, op_stop, op_undefined,
};
use evm_core::instructions::get_data;
use evm_core::instructions::logic::{op_byte, op_iszero, op_lt, op_not, op_sar, op_shl, op_slt};
use evm_core::instructions::memory_ops::{
    op_call_data_copy, op_code_copy, op_keccak256, op_mload, op_msize, op_mstore, op_mstore8,
    op_pop, op_return_data_copy,
};
use evm_core::instructions::stack_ops::{
    make_dup, make_push, make_swap, op_dup, op_push, op_push0, op_push1, op_swap,
};
use evm_core::instructions::storage::{make_log, op_log, op_selfdestruct, op_sload, op_sstore};
use evm_core::int256::Int256;
use evm_core::interpreter::{
    charge, complete_call, execute, validate_stack, CallResult, EVMInterpreter, ScopeContext,
};
use evm_core::jump_table::ExecutionFunc;
use evm_core::keccak::keccak256_word;
use evm_core::memory::Memory;
use evm_core::stack::Stack;
use evm_core::state::StateDb;

fn n(v: u64) -> Int256 {
    Int256::from_u64(v)
}

fn addr(v: u64) -> Address {
    Address { hi: 0, mid: 0, lo: v }
}

fn interpreter() -> EVMInterpreter {
    EVMInterpreter::new(EVM::new(BlockContext::new(), ChainRules::all(), StateDb::new()))
}

/// A frame of account 0xc0de called by 0xca11 with value 5 and 1000 gas; the
/// first item of `stack` is the bottom.
fn scope(code: &[u8], input: &[u8], stack: &[Int256]) -> ScopeContext {
    let mut contract = Contract::new(addr(0xca11), addr(0xc0de), n(5), 1000, code.to_vec());
    contract.set_input(input.to_vec());
    let mut s = Stack::new();
    for v in stack {
        s.push(*v);
    }
    ScopeContext { memory: Memory::new(), stack: s, contract }
}

type Handler = fn(&mut u64, &mut EVMInterpreter, &mut ScopeContext) -> Result<Vec<u8>, Error>;

fn run_on(h: Handler, stack: &[Int256]) -> (Result<Vec<u8>, Error>, Vec<Int256>) {
    let mut i = interpreter();
    let mut s = scope(&[], &[], stack);
    let mut pc = 0;
    let r = h(&mut pc, &mut i, &mut s);
    assert_eq!(pc, 0);
    (r, s.stack.data().to_vec())
}

#[test]
fn arithmetic_takes_the_top_item_as_its_first_operand() {
    assert_eq!(run_on(op_add, &[n(9), n(1), n(2)]), (Ok(vec![]), vec![n(9), n(3)]));
    assert_eq!(run_on(op_sub, &[n(3), n(10)]), (Ok(vec![]), vec![n(7)]));
    assert_eq!(run_on(op_div, &[n(3), n(10)]), (Ok(vec![]), vec![n(3)]));
    assert_eq!(run_on(op_div, &[n(0), n(10)]), (Ok(vec![]), vec![n(0)]));
    assert_eq!(run_on(op_sdiv, &[n(3), n(10).neg()]), (Ok(vec![]), vec![n(3).neg()]));
    assert_eq!(run_on(op_exp, &[n(3), n(2)]), (Ok(vec![]), vec![n(8)]));
    assert_eq!(run_on(op_addmod, &[n(8), n(10), n(10)]), (Ok(vec![]), vec![n(4)]));
    assert_eq!(run_on(op_mulmod, &[n(0), n(10), n(10)]), (Ok(vec![]), vec![n(0)]));
    assert_eq!(run_on(op_lt, &[n(2), n(1)]), (Ok(vec![]), vec![n(1)]));
    assert_eq!(run_on(op_lt, &[n(1), n(2)]), (Ok(vec![]), vec![n(0)]));
    assert_eq!(run_on(op_slt, &[n(1), n(1).neg()]), (Ok(vec![]), vec![n(1)]));
    assert_eq!(run_on(op_iszero, &[n(0)]), (Ok(vec![]), vec![n(1)]));
    assert_eq!(run_on(op_not, &[n(0)]), (Ok(vec![]), vec![Int256::max_value()]));
    assert_eq!(run_on(op_byte, &[n(0xab), n(31)]), (Ok(vec![]), vec![n(0xab)]));
    assert_eq!(run_on(op_shl, &[n(1), n(4)]), (Ok(vec![]), vec![n(16)]));
    assert_eq!(run_on(op_sar, &[n(16).neg(), n(2)]), (Ok(vec![]), vec![n(4).neg()]));
    assert_eq!(run_on(op_pop, &[n(1), n(2)]), (Ok(vec![]), vec![n(1)]));
    assert_eq!(run_on(op_push0, &[n(1)]), (Ok(vec![]), vec![n(1), n(0)]));
}

#[test]
fn too_few_items_are_an_underflow_and_change_nothing() {
    assert_eq!(run_on(op_add, &[n(1)]), (Err(Error::StackUnderflow), vec![n(1)]));
    assert_eq!(run_on(op_addmod, &[n(1), n(2)]), (Err(Error::StackUnderflow), vec![n(1), n(2)]));
    assert_eq!(run_on(op_iszero, &[]), (Err(Error::StackUnderflow), vec![]));
    assert_eq!(run_on(op_pop, &[]), (Err(Error::StackUnderflow), vec![]));
    assert_eq!(run_on(op_jump, &[]), (Err(Error::StackUnderflow), vec![]));
    assert_eq!(run_on(op_mstore, &[n(0)]), (Err(Error::StackUnderflow), vec![n(0)]));
    assert_eq!(run_on(op_sstore, &[n(0)]), (Err(Error::StackUnderflow), vec![n(0)]));
}

#[test]
fn environment_values() {
    let mut i = interpreter();
    i.evm.origin = addr(0x0419);
    i.evm.state_db.add_balance(addr(0xb0b), &n(77));
    i.return_data = vec![1, 2, 3];
    i.evm.context.time = 1234;
    i.evm.context.block_number = 300;
    let mut s = scope(&[0x00, 0x00], &[9, 8, 7], &[n(0xb0b)]);
    let mut pc = 4;
    assert_eq!(op_balance(&mut pc, &mut i, &mut s), Ok(vec![]));
    assert_eq!(s.stack.pop(), Some(n(77)));
    for (h, want) in [
        (op_address as Handler, n(0xc0de)),
        (op_caller, n(0xca11)),
        (op_call_value, n(5)),
        (op_origin, n(0x0419)),
        (op_call_data_size, n(3)),
        (op_code_size, n(2)),
        (op_return_data_size, n(3)),
        (op_timestamp, n(1234)),
        (op_number, n(300)),
        (op_pc, n(4)),
        (op_msize, n(0)),
        (op_gas, n(1000)),
    ] {
        assert_eq!(h(&mut pc, &mut i, &mut s), Ok(vec![]));
        assert_eq!(s.stack.pop(), Some(want));
    }
    assert_eq!(s.stack.len(), 0);
}

#[test]
fn block_hash_of_the_last_256_blocks_only() {
    let mut i = interpreter();
    i.evm.context.block_number = 1000;
    i.evm.context.hashes = vec![
        BlockHash { number: 999, hash: n(0x999) },
        BlockHash { number: 744, hash: n(0x744) },
        BlockHash { number: 743, hash: n(0x743) },
    ];
    let mut pc = 0;
    for (number, want) in [(999u64, n(0x999)), (744, n(0x744)), (743, n(0)), (1000, n(0)), (998, n(0))] {
        let mut s = scope(&[], &[], &[n(number)]);
        assert_eq!(op_blockhash(&mut pc, &mut i, &mut s), Ok(vec![]));
        assert_eq!(s.stack.data(), &[want]);
    }
    let mut s = scope(&[], &[], &[Int256::max_value()]);
    assert_eq!(op_blockhash(&mut pc, &mut i, &mut s), Ok(vec![]));
    assert_eq!(s.stack.data(), &[n(0)]);
}

#[test]
fn call_data_is_padded_with_zeros() {
    assert_eq!(get_data(&[1, 2, 3], 1, 4), vec![2, 3, 0, 0]);
    assert_eq!(get_data(&[1, 2, 3], 3, 2), vec![0, 0]);
    assert_eq!(get_data(&[1, 2, 3], u64::MAX, 2), vec![0, 0]);
    assert_eq!(get_data(&[1, 2, 3], 0, 0), Vec::<u8>::new());
    let mut i = interpreter();
    let mut pc = 0;
    let mut s = scope(&[], &[1, 2, 3], &[n(1)]);
    assert_eq!(op_call_data_load(&mut pc, &mut i, &mut s), Ok(vec![]));
    let mut want = vec![2u8, 3];
    want.resize(32, 0);
    assert_eq!(s.stack.data(), &[Int256::from_be_bytes(&want)]);
    let mut s = scope(&[], &[1, 2, 3], &[Int256::max_value()]);
    assert_eq!(op_call_data_load(&mut pc, &mut i, &mut s), Ok(vec![]));
    assert_eq!(s.stack.data(), &[n(0)]);
}

#[test]
fn memory_stores_loads_and_copies() {
    let mut i = interpreter();
    let mut pc = 0;
    let mut s = scope(&[0xaa, 0xbb, 0xcc], &[1, 2, 3], &[n(0x0102), n(32)]);
    s.memory.resize(96);
    assert_eq!(op_mstore(&mut pc, &mut i, &mut s), Ok(vec![]));
    assert_eq!(s.stack.len(), 0);
    assert_eq!(&s.memory.data()[62..64], &[1, 2]);
    s.stack.push(n(32));
    assert_eq!(op_mload(&mut pc, &mut i, &mut s), Ok(vec![]));
    assert_eq!(s.stack.pop(), Some(n(0x0102)));
    s.stack.push(n(0x1ff));
    s.stack.push(n(5));
    assert_eq!(op_mstore8(&mut pc, &mut i, &mut s), Ok(vec![]));
    assert_eq!(s.memory.data()[5], 0xff);
    // length 4, from 2, to 64
    for v in [4u64, 2, 64] {
        s.stack.push(n(v));
    }
    assert_eq!(op_call_data_copy(&mut pc, &mut i, &mut s), Ok(vec![]));
    assert_eq!(&s.memory.data()[64..68], &[3, 0, 0, 0]);
    for v in [3u64, 0, 70] {
        s.stack.push(n(v));
    }
    assert_eq!(op_code_copy(&mut pc, &mut i, &mut s), Ok(vec![]));
    assert_eq!(&s.memory.data()[70..73], &[0xaa, 0xbb, 0xcc]);
    // a copy of nothing may name any place
    s.stack.push(n(0));
    s.stack.push(n(0));
    s.stack.push(Int256::max_value());
    assert_eq!(op_code_copy(&mut pc, &mut i, &mut s), Ok(vec![]));
    assert_eq!(s.stack.len(), 0);
    assert_eq!(s.memory.len(), 96);
}

#[test]
fn return_data_copy_checks_its_bounds() {
    let mut i = interpreter();
    i.return_data = vec![7, 8, 9];
    let mut pc = 0;
    let mut s = scope(&[], &[], &[n(2), n(1), n(0)]);
    s.memory.resize(32);
    assert_eq!(op_return_data_copy(&mut pc, &mut i, &mut s), Ok(vec![]));
    assert_eq!(&s.memory.data()[0..3], &[8, 9, 0]);
    let mut s = scope(&[], &[], &[n(3), n(1), n(0)]);
    s.memory.resize(32);
    assert_eq!(op_return_data_copy(&mut pc, &mut i, &mut s), Err(Error::ReturnDataOutOfBounds));
    assert_eq!(s.stack.len(), 3);
    let mut s = scope(&[], &[], &[n(0), Int256::max_value(), n(0)]);
    assert_eq!(op_return_data_copy(&mut pc, &mut i, &mut s), Err(Error::ReturnDataOutOfBounds));
    let mut s = scope(&[], &[], &[n(0), n(3), n(0)]);
    assert_eq!(op_return_data_copy(&mut pc, &mut i, &mut s), Ok(vec![]));
}

#[test]
fn hashing_a_region_of_memory() {
    let mut i = interpreter();
    i.evm.enable_preimage_recording = true;
    let mut pc = 0;
    let mut s = scope(&[], &[], &[n(3), n(1)]);
    s.memory.resize(32);
    s.memory.set(1, 3, b"abc");
    assert_eq!(op_keccak256(&mut pc, &mut i, &mut s), Ok(vec![]));
    assert_eq!(s.stack.data(), &[keccak256_word(b"abc")]);
    let mut s = scope(&[], &[], &[n(0), n(0)]);
    assert_eq!(op_keccak256(&mut pc, &mut i, &mut s), Ok(vec![]));
    assert_eq!(s.stack.data(), &[keccak256_word(&[])]);
}

#[test]
fn storage_is_protected_in_a_read_only_frame() {
    let mut i = interpreter();
    let mut pc = 0;
    let mut s = scope(&[], &[], &[n(7), n(1)]);
    assert_eq!(op_sstore(&mut pc, &mut i, &mut s), Ok(vec![]));
    assert_eq!(s.stack.len(), 0);
    assert_eq!(i.evm.state_db.get_state(addr(0xc0de), &n(1)), n(7));
    s.stack.push(n(1));
    assert_eq!(op_sload(&mut pc, &mut i, &mut s), Ok(vec![]));
    assert_eq!(s.stack.pop(), Some(n(7)));
    i.read_only = true;
    s.stack.push(n(8));
    s.stack.push(n(1));
    assert_eq!(op_sstore(&mut pc, &mut i, &mut s), Err(Error::WriteProtection));
    assert_eq!(s.stack.len(), 2);
    assert_eq!(i.evm.state_db.get_state(addr(0xc0de), &n(1)), n(7));
    assert_eq!(op_log(0, &mut pc, &mut i, &mut s), Err(Error::WriteProtection));
    assert_eq!(op_selfdestruct(&mut pc, &mut i, &mut s), Err(Error::WriteProtection));
}

#[test]
fn logs_take_their_topics_from_the_stack() {
    let mut i = interpreter();
    i.evm.context.block_number = 12;
    let mut pc = 0;
    let mut s = scope(&[], &[], &[n(0xb), n(0xa), n(2), n(1)]);
    s.memory.resize(32);
    s.memory.set(1, 2, &[5, 6]);
    assert_eq!(make_log(2), ExecutionFunc::Log(2));
    assert_eq!(op_log(2, &mut pc, &mut i, &mut s), Ok(vec![]));
    assert_eq!(s.stack.len(), 0);
    let logs = i.evm.state_db.logs();
    assert_eq!(logs.len(), 1);
    assert_eq!(logs[0].address, addr(0xc0de));
    assert_eq!(logs[0].topics, vec![n(0xa), n(0xb)]);
    assert_eq!(logs[0].data, vec![5, 6]);
    assert_eq!(logs[0].block_number, 12);
}

#[test]
fn jumps_leave_the_counter_one_before_the_destination() {
    let code = [0x5b, 0x60, 0x5b, 0x5b];
    let mut i = interpreter();
    let mut pc = 1;
    let mut s = scope(&code, &[], &[n(3)]);
    assert_eq!(op_jump(&mut pc, &mut i, &mut s), Ok(vec![]));
    assert_eq!((pc, s.stack.len()), (2, 0));
    let mut s = scope(&code, &[], &[n(0)]);
    assert_eq!(op_jump(&mut pc, &mut i, &mut s), Ok(vec![]));
    assert_eq!(pc, u64::MAX);
    pc = 1;
    let mut s = scope(&code, &[], &[n(2)]);
    assert_eq!(op_jump(&mut pc, &mut i, &mut s), Err(Error::InvalidJump));
    assert_eq!((pc, s.stack.len()), (1, 1));
    let mut s = scope(&code, &[], &[n(4)]);
    assert_eq!(op_jump(&mut pc, &mut i, &mut s), Err(Error::InvalidJump));
    let mut s = scope(&code, &[], &[n(0), n(2)]);
    assert_eq!(op_jumpi(&mut pc, &mut i, &mut s), Ok(vec![]));
    assert_eq!((pc, s.stack.len()), (1, 0));
    let mut s = scope(&code, &[], &[n(1), n(2)]);
    assert_eq!(op_jumpi(&mut pc, &mut i, &mut s), Err(Error::InvalidJump));
    let mut s = scope(&code, &[], &[n(1), n(3)]);
    assert_eq!(op_jumpi(&mut pc, &mut i, &mut s), Ok(vec![]));
    assert_eq!(pc, 2);
    let mut s = scope(&code, &[], &[n(1)]);
    pc = 0;
    assert_eq!(op_jumpdest(&mut pc, &mut i, &mut s), Ok(vec![]));
    assert_eq!((pc, s.stack.data().to_vec()), (0, vec![n(1)]));
}

#[test]
fn pushes_read_the_code_and_pad_it() {
    let code = [0x61, 0x01, 0x02, 0x62, 0xaa];
    let mut i = interpreter();
    let mut pc = 0;
    let mut s = scope(&code, &[], &[]);
    assert_eq!(op_push(2, &mut pc, &mut i, &mut s), Ok(vec![]));
    assert_eq!((pc, s.stack.pop()), (2, Some(n(0x0102))));
    pc = 3;
    assert_eq!(op_push(3, &mut pc, &mut i, &mut s), Ok(vec![]));
    assert_eq!((pc, s.stack.pop()), (6, Some(n(0xaa0000))));
    pc = 3;
    assert_eq!(op_push1(&mut pc, &mut i, &mut s), Ok(vec![]));
    assert_eq!((pc, s.stack.pop()), (4, Some(n(0xaa))));
    pc = 10;
    assert_eq!(op_push(32, &mut pc, &mut i, &mut s), Ok(vec![]));
    assert_eq!((pc, s.stack.pop()), (42, Some(n(0))));
    assert_eq!(make_push(7, 7), ExecutionFunc::Push(7));
    assert_eq!(make_dup(3), ExecutionFunc::Dup(3));
    assert_eq!(make_swap(16), ExecutionFunc::Swap(16));
}

#[test]
fn duplications_and_exchanges() {
    let mut i = interpreter();
    let mut pc = 0;
    let mut s = scope(&[], &[], &[n(1), n(2), n(3)]);
    assert_eq!(op_dup(3, &mut pc, &mut i, &mut s), Ok(vec![]));
    assert_eq!(s.stack.data(), &[n(1), n(2), n(3), n(1)]);
    assert_eq!(op_swap(3, &mut pc, &mut i, &mut s), Ok(vec![]));
    assert_eq!(s.stack.data(), &[n(1), n(2), n(3), n(1)]);
    assert_eq!(op_swap(1, &mut pc, &mut i, &mut s), Ok(vec![]));
    assert_eq!(s.stack.data(), &[n(1), n(2), n(1), n(3)]);
    assert_eq!(op_swap(4, &mut pc, &mut i, &mut s), Err(Error::StackUnderflow));
    assert_eq!(op_dup(5, &mut pc, &mut i, &mut s), Err(Error::StackUnderflow));
    assert_eq!(s.stack.len(), 4);
}

#[test]
fn halting_operations() {
    let mut i = interpreter();
    i.return_data = vec![1];
    let mut pc = 0;
    let mut s = scope(&[0xfe], &[], &[n(2), n(1)]);
    s.memory.resize(32);
    s.memory.set(1, 2, &[5, 6]);
    assert_eq!(op_stop(&mut pc, &mut i, &mut s), Err(Error::StopToken));
    assert!(i.return_data.is_empty());
    assert_eq!(op_undefined(&mut pc, &mut i, &mut s), Err(Error::InvalidOpCode { opcode: 0xfe }));
    assert_eq!(op_return(&mut pc, &mut i, &mut s), Err(Error::StopToken));
    assert_eq!(i.return_data, vec![5, 6]);
    s.stack.push(n(1));
    s.stack.push(n(2));
    assert_eq!(op_revert(&mut pc, &mut i, &mut s), Err(Error::ExecutionReverted));
    assert_eq!(i.return_data, vec![6]);
    assert_eq!(s.contract.gas(), 1000);
}

#[test]
fn self_destruction_hands_the_balance_on() {
    let mut i = interpreter();
    i.evm.state_db.add_balance(addr(0xc0de), &n(50));
    i.evm.state_db.add_balance(addr(0xbee), &n(1));
    let mut pc = 0;
    let mut s = scope(&[], &[], &[n(0xbee)]);
    assert_eq!(op_selfdestruct(&mut pc, &mut i, &mut s), Err(Error::StopToken));
    assert_eq!(i.evm.state_db.get_balance(addr(0xbee)), n(51));
    assert_eq!(i.evm.state_db.get_balance(addr(0xc0de)), n(0));
    assert!(i.evm.state_db.has_suicided(addr(0xc0de)));
}

#[test]
fn charging_takes_the_fixed_price_and_the_price_of_memory() {
    let mut i = interpreter();
    let table = evm_core::jump_table::default_instruction_set();
    let mstore = table.get(0x52);
    let mut s = scope(&[], &[], &[n(1), n(0)]);
    assert_eq!(validate_stack(2, mstore.min_stack, mstore.max_stack), Ok(()));
    assert_eq!(validate_stack(1, mstore.min_stack, mstore.max_stack), Err(Error::StackUnderflow));
    assert_eq!(validate_stack(1027, mstore.min_stack, mstore.max_stack), Err(Error::StackOverflow));
    assert_eq!(charge(&mstore, &mut i, &mut s), Ok(3));
    assert_eq!(s.contract.gas(), 1000 - 3 - 3);
    assert_eq!(s.memory.len(), 32);
    assert_eq!(s.memory.last_gas_cost(), 3);
    // a second word costs three more
    s.stack.push(n(1));
    s.stack.push(n(33));
    assert_eq!(charge(&mstore, &mut i, &mut s), Ok(6));
    assert_eq!(s.contract.gas(), 1000 - 6 - 9);
    assert_eq!(s.memory.len(), 96);
    assert_eq!(s.memory.last_gas_cost(), 9);
    // memory that is large enough costs nothing more
    let mload = table.get(0x51);
    s.stack.push(n(64));
    assert_eq!(charge(&mload, &mut i, &mut s), Ok(0));
    assert_eq!(s.contract.gas(), 1000 - 6 - 9 - 3);
    let add = table.get(0x01);
    assert_eq!(charge(&add, &mut i, &mut s), Ok(0));
    let mut poor = scope(&[], &[], &[n(1), n(0)]);
    poor.contract.set_gas(5);
    assert_eq!(charge(&mstore, &mut i, &mut poor), Err(Error::OutOfGas));
    let mut huge = scope(&[], &[], &[n(1), Int256::max_value()]);
    assert_eq!(charge(&mstore, &mut i, &mut huge), Err(Error::GasUintOverflow));
    let sstore = table.get(0x55);
    let mut fresh = scope(&[], &[], &[n(1), n(0)]);
    fresh.contract.set_gas(30_000);
    assert_eq!(charge(&sstore, &mut i, &mut fresh), Ok(20_000));
    let exp = table.get(0x0a);
    let mut e = scope(&[], &[], &[n(0x1_0000), n(2)]);
    assert_eq!(charge(&exp, &mut i, &mut e), Ok(150));
    assert_eq!(e.contract.gas(), 1000 - 10 - 150);
}

#[test]
fn execute_dispatches_by_execution_function() {
    let mut i = interpreter();
    let mut pc = 0;
    let mut s = scope(&[], &[], &[n(4), n(6)]);
    assert_eq!(execute(ExecutionFunc::Mul, &mut pc, &mut i, &mut s), Ok(vec![]));
    assert_eq!(s.stack.data(), &[n(24)]);
    assert_eq!(execute(ExecutionFunc::Dup(1), &mut pc, &mut i, &mut s), Ok(vec![]));
    assert_eq!(s.stack.data(), &[n(24), n(24)]);
    assert_eq!(execute(ExecutionFunc::Stop, &mut pc, &mut i, &mut s), Err(Error::StopToken));
    assert_eq!(execute(ExecutionFunc::Random, &mut pc, &mut i, &mut s), Ok(vec![]));
}

#[test]
fn completing_a_call_pushes_the_status_and_copies_the_output() {
    let mut i = interpreter();
    let mut s = scope(&[], &[], &[n(9), n(1), n(2), n(3)]);
    s.memory.resize(32);
    let res = CallResult { output: vec![7, 8, 9], gas_left: 11, error: None };
    assert_eq!(complete_call(&mut i, &mut s, res, 3, &n(4), &n(2)), Ok(vec![7, 8, 9]));
    assert_eq!(s.stack.data(), &[n(9), n(1)]);
    assert_eq!(&s.memory.data()[3..7], &[0, 7, 8, 0]);
    assert_eq!(s.contract.gas(), 1011);
    assert_eq!(i.return_data, vec![7, 8, 9]);
    let res = CallResult { output: vec![5], gas_left: 0, error: Some(Error::ExecutionReverted) };
    assert_eq!(complete_call(&mut i, &mut s, res, 1, &n(0), &n(4)), Ok(vec![5]));
    assert_eq!(s.stack.data(), &[n(9), n(0)]);
    assert_eq!(&s.memory.data()[0..2], &[5, 0]);
    let res = CallResult { output: vec![], gas_left: 0, error: Some(Error::OutOfGas) };
    assert_eq!(complete_call(&mut i, &mut s, res, 2, &n(0), &n(4)), Ok(vec![]));
    assert_eq!(s.stack.data(), &[n(0)]);
    assert!(i.return_data.is_empty());
}
