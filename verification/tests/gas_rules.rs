use evm_core::common::{Address, Error};
use evm_core::contract::Contract;
use evm_core::evm::{BlockContext, ChainRules, TraceEvent, Tracer, EVM};
use evm_core::gas_table::{gas_call, gas_exp, gas_log, gas_selfdestruct, gas_sstore, gas_static_call};
use evm_core::int256::Int256;
use evm_core::interpreter::EVMInterpreter;
use evm_core::memory::Memory;
use evm_core::stack::Stack;
use evm_core::state::StateDb;

const GAS: u64 = 1_000_000;

fn n(v: u64) -> Int256 {
    Int256::from_u64(v)
}

fn addr(v: u64) -> Address {
    Address { hi: 0, mid: 0, lo: v }
}

fn machine(rules: ChainRules, state: StateDb) -> EVM {
    let mut evm = EVM::new(BlockContext::new(), rules, state);
    evm.tracer = Some(Tracer::new());
    evm
}

fn frame(code: &[u8]) -> Contract {
    Contract::new(addr(0xca11), addr(0xc0de), Int256::zero(), GAS, code.to_vec())
}

fn stack_of(items: &[Int256]) -> Stack {
    let mut s = Stack::new();
    for v in items {
        s.push(*v);
    }
    s
}

fn last_top(interp: &EVMInterpreter) -> Int256 {
    interp
        .evm
        .tracer
        .as_ref()
        .unwrap()
        .events
        .iter()
        .rev()
        .find_map(|e| match e {
            TraceEvent::State { top, .. } => Some(*top),
            _ => None,
        })
        .unwrap()
}

#[test]
fn exponent_bytes_are_priced() {
    let mem = Memory::new();
    let c = frame(&[]);
    let new_rules = machine(ChainRules::all(), StateDb::new());
    let old_rules = machine(ChainRules::frontier(), StateDb::new());
    for (exponent, bytes) in [(n(0), 0u64), (n(1), 1), (n(255), 1), (n(256), 2), (Int256::max_value(), 32)] {
        let s = stack_of(&[exponent, n(7)]);
        assert_eq!(gas_exp(&new_rules, &c, &s, &mem, 0), Ok(50 * bytes));
        assert_eq!(gas_exp(&old_rules, &c, &s, &mem, 0), Ok(10 * bytes));
    }
    // 3 ^ 0x0101 costs the fixed ten and fifty for each of two bytes
    let mut interp = EVMInterpreter::new(machine(ChainRules::all(), StateDb::new()));
    let mut contract = frame(&[0x61, 0x01, 0x01, 0x60, 0x03, 0x0a, 0x00]);
    assert_eq!(interp.run(&mut contract, &[], false), Ok(vec![]));
    assert_eq!(GAS - contract.gas(), 3 + 3 + 10 + 100);
    assert_eq!(last_top(&interp), n(3).exp(&n(0x0101)));
}

#[test]
fn stores_are_priced_by_what_they_change_and_clearing_earns_a_refund() {
    let mut evm = machine(ChainRules::all(), StateDb::new());
    evm.state_db.set_state(addr(0xc0de), &n(1), &n(5));
    let c = frame(&[]);
    let mem = Memory::new();
    // the value is the second item, the key the top
    assert_eq!(gas_sstore(&mut evm, &c, &stack_of(&[n(9), n(2)]), &mem, 0), Ok(20_000));
    assert_eq!(gas_sstore(&mut evm, &c, &stack_of(&[n(0), n(2)]), &mem, 0), Ok(5_000));
    assert_eq!(gas_sstore(&mut evm, &c, &stack_of(&[n(9), n(1)]), &mem, 0), Ok(5_000));
    assert_eq!(evm.state_db.get_refund(), 0);
    assert_eq!(gas_sstore(&mut evm, &c, &stack_of(&[n(0), n(1)]), &mem, 0), Ok(5_000));
    assert_eq!(evm.state_db.get_refund(), 15_000);
}

#[test]
fn logs_are_priced_by_topics_and_data() {
    let evm = machine(ChainRules::all(), StateDb::new());
    let c = frame(&[]);
    let mem = Memory::new();
    let s = stack_of(&[n(10), n(0)]);
    assert_eq!(gas_log(0, &evm, &c, &s, &mem, 32), Ok(3 + 375 + 80));
    assert_eq!(gas_log(4, &evm, &c, &s, &mem, 32), Ok(3 + 375 + 4 * 375 + 80));
    let s = stack_of(&[Int256::max_value(), n(0)]);
    assert_eq!(gas_log(0, &evm, &c, &s, &mem, 0), Err(Error::GasUintOverflow));
}

#[test]
fn self_destruction_is_priced_by_the_rules_and_earns_a_refund_once() {
    let mem = Memory::new();
    let c = frame(&[]);
    let s = stack_of(&[n(0xbee)]);
    let mut old_rules = machine(ChainRules::frontier(), StateDb::new());
    assert_eq!(gas_selfdestruct(&mut old_rules, &c, &s, &mem, 0), Ok(0));
    assert_eq!(old_rules.state_db.get_refund(), 24_000);
    let mut evm = machine(ChainRules::all(), StateDb::new());
    // the beneficiary is empty, but the account has nothing to give
    assert_eq!(gas_selfdestruct(&mut evm, &c, &s, &mem, 0), Ok(5_000));
    evm.state_db.add_balance(addr(0xc0de), &n(1));
    assert_eq!(gas_selfdestruct(&mut evm, &c, &s, &mem, 0), Ok(30_000));
    evm.state_db.add_balance(addr(0xbee), &n(1));
    assert_eq!(gas_selfdestruct(&mut evm, &c, &s, &mem, 0), Ok(5_000));
    assert_eq!(evm.state_db.get_refund(), 3 * 24_000);
    evm.state_db.suicide(addr(0xc0de));
    assert_eq!(gas_selfdestruct(&mut evm, &c, &s, &mem, 0), Ok(5_000));
    assert_eq!(evm.state_db.get_refund(), 3 * 24_000);
    let mut rules = ChainRules::frontier();
    rules.is_eip150 = true;
    let mut between = machine(rules, StateDb::new());
    assert_eq!(gas_selfdestruct(&mut between, &c, &s, &mem, 0), Ok(30_000));
    between.state_db.create_account(addr(0xbee));
    assert_eq!(gas_selfdestruct(&mut between, &c, &s, &mem, 0), Ok(5_000));
}

#[test]
fn calls_are_priced_with_what_they_hand_on() {
    let mem = Memory::new();
    let mut c = frame(&[]);
    c.set_gas(64_000);
    let mut evm = machine(ChainRules::all(), StateDb::new());
    evm.state_db.add_balance(addr(0xbb), &n(1));
    // no value: the request is granted and kept for the call
    let s = stack_of(&[n(0), n(0xbb), n(500)]);
    assert_eq!(gas_call(&mut evm, &c, &s, &mem, 0), Ok(500));
    assert_eq!(evm.call_gas_temp, 500);
    // a request for too much is cut down to all but one 64th
    let s = stack_of(&[n(0), n(0xbb), Int256::max_value()]);
    assert_eq!(gas_call(&mut evm, &c, &s, &mem, 0), Ok(63_000));
    assert_eq!(evm.call_gas_temp, 63_000);
    // value costs 9000, and an empty callee 25000 more
    let s = stack_of(&[n(1), n(0xbb), n(500)]);
    assert_eq!(gas_call(&mut evm, &c, &s, &mem, 0), Ok(9_500));
    let s = stack_of(&[n(1), n(0xcc), n(500)]);
    assert_eq!(gas_call(&mut evm, &c, &s, &mem, 0), Ok(34_500));
    let s = stack_of(&[n(1), n(0xcc), Int256::max_value()]);
    assert_eq!(gas_call(&mut evm, &c, &s, &mem, 0), Ok(34_000 + (30_000 - 30_000 / 64)));
    assert_eq!(evm.call_gas_temp, 30_000 - 30_000 / 64);
    let s = stack_of(&[n(500)]);
    assert_eq!(gas_static_call(&mut evm, &c, &s, &mem, 32), Ok(503));
    let mut old_rules = machine(ChainRules::frontier(), StateDb::new());
    let s = stack_of(&[n(0), n(0xcc), Int256::max_value()]);
    assert_eq!(gas_call(&mut old_rules, &c, &s, &mem, 0), Err(Error::GasUintOverflow));
    let s = stack_of(&[n(0), n(0xcc), n(500)]);
    assert_eq!(gas_call(&mut old_rules, &c, &s, &mem, 0), Ok(25_500));
    assert_eq!(old_rules.call_gas_temp, 500);
}

#[test]
fn a_call_with_value_gives_the_callee_a_stipend_that_the_caller_does_not_pay() {
    let mut state = StateDb::new();
    state.add_balance(addr(0xc0de), &n(10));
    state.add_balance(addr(0xbb), &n(1));
    state.set_code(addr(0xbb), vec![0x5a, 0x00]);
    let mut interp = EVMInterpreter::new(machine(ChainRules::all(), state));
    // no output, no input, value 1, account 0xbb, gas 0; CALL; STOP
    let mut parent = frame(&[
        0x60, 0x00, 0x60, 0x00, 0x60, 0x00, 0x60, 0x00, 0x60, 0x01, 0x60, 0xbb, 0x60, 0x00, 0xf1,
        0x00,
    ]);
    assert_eq!(interp.run(&mut parent, &[], false), Ok(vec![]));
    assert_eq!(last_top(&interp), n(1));
    // the callee saw the stipend less the price of asking for it
    let seen: Vec<Int256> = interp
        .evm
        .tracer
        .as_ref()
        .unwrap()
        .events
        .iter()
        .filter_map(|e| match e {
            TraceEvent::State { depth: 2, top, stack_len: 1, .. } => Some(*top),
            _ => None,
        })
        .collect();
    assert_eq!(seen, vec![n(2300 - 2)]);
    // seven pushes, the call, the transfer; the rest of the stipend comes back
    assert_eq!(GAS - parent.gas(), 7 * 3 + 40 + 9000 - (2300 - 2));
    assert_eq!(interp.evm.state_db.get_balance(addr(0xbb)), n(2));
    assert_eq!(interp.evm.state_db.get_balance(addr(0xc0de)), n(9));
}

#[test]
fn a_call_without_value_to_nobody_does_nothing() {
    let mut interp = EVMInterpreter::new(machine(ChainRules::all(), StateDb::new()));
    let r = interp.call(addr(0xc0de), addr(0xdead), vec![1], 700, &n(0));
    assert_eq!((r.error, r.gas_left, r.output), (None, 700, vec![]));
    assert!(!interp.evm.state_db.exist(addr(0xdead)));
    let mut old = EVMInterpreter::new(machine(ChainRules::frontier(), StateDb::new()));
    let r = old.call(addr(0xc0de), addr(0xdead), vec![1], 700, &n(0));
    assert_eq!((r.error, r.gas_left), (None, 700));
    assert!(old.evm.state_db.exist(addr(0xdead)));
}

#[test]
fn operations_that_the_rules_do_not_know_are_undefined() {
    let mut interp = EVMInterpreter::new(machine(ChainRules::frontier(), StateDb::new()));
    let mut contract = frame(&[0x60, 0x00, 0x60, 0x00, 0xfd]);
    assert_eq!(interp.run(&mut contract, &[], false), Err(Error::InvalidOpCode { opcode: 0xfd }));
    assert_eq!(contract.gas(), 0);
    let mut contract = frame(&[0x5f]);
    assert_eq!(interp.run(&mut contract, &[], false), Err(Error::InvalidOpCode { opcode: 0x5f }));
}

#[test]
fn nested_frames_are_traced() {
    let mut state = StateDb::new();
    state.set_code(addr(0xbb), vec![0x00]);
    state.create_account(addr(0xbb));
    let mut interp = EVMInterpreter::new(machine(ChainRules::all(), state));
    let r = interp.static_call(addr(0xc0de), addr(0xbb), vec![], 100);
    assert_eq!((r.error, r.gas_left), (None, 100));
    let events = &interp.evm.tracer.as_ref().unwrap().events;
    assert_eq!(events.len(), 3);
    assert_eq!(
        events[0],
        TraceEvent::Enter { typ: 0xfa, from: addr(0xc0de), to: addr(0xbb), gas: 100, value: n(0) }
    );
    assert!(matches!(events[1], TraceEvent::State { pc: 0, op: 0x00, depth: 1, .. }));
    assert_eq!(events[2], TraceEvent::Exit { failed: false });
}

#[test]
fn the_top_of_the_stack_can_be_changed_in_place() {
    let mut s = Stack::new();
    assert!(s.peek_mut().is_none());
    s.push(n(1));
    s.push(n(2));
    if let Some(top) = s.peek_mut() {
        *top = top.add(&n(40));
    }
    assert_eq!(s.data(), &[n(1), n(42)]);
}
