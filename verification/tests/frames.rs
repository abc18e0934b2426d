use evm_core::common::{create_address, Address, Error};
use evm_core::contract::Contract;
use evm_core::evm::{BlockContext, ChainRules, TraceEvent, Tracer, EVM};
use evm_core::int256::Int256;
use evm_core::interpreter::{step, EVMInterpreter, ScopeContext};
use evm_core::memory::Memory;
use evm_core::stack::Stack;
use evm_core::state::StateDb;
use std::sync::atomic::Ordering;

const GAS: u64 = 1_000_000;

fn n(v: u64) -> Int256 {
    Int256::from_u64(v)
}

fn addr(v: u64) -> Address {
    Address { hi: 0, mid: 0, lo: v }
}

fn interpreter_with(rules: ChainRules, state: StateDb) -> EVMInterpreter {
    let mut evm = EVM::new(BlockContext::new(), rules, state);
    evm.tracer = Some(Tracer::new());
    EVMInterpreter::new(evm)
}

fn interpreter() -> EVMInterpreter {
    interpreter_with(ChainRules::all(), StateDb::new())
}

fn frame(code: &[u8]) -> Contract {
    Contract::new(addr(0xca11), addr(0xc0de), Int256::zero(), GAS, code.to_vec())
}

fn tops(interp: &EVMInterpreter) -> Vec<(u64, usize, Int256)> {
    interp
        .evm
        .tracer
        .as_ref()
        .unwrap()
        .events
        .iter()
        .filter_map(|e| match e {
            TraceEvent::State { depth, stack_len, top, .. } => Some((*depth, *stack_len, *top)),
            _ => None,
        })
        .collect()
}

#[test]
fn static_call_protects_the_state_from_the_callee() {
    let mut state = StateDb::new();
    state.set_code(addr(0xaa), vec![0x60, 0x00, 0x60, 0x00, 0x55, 0x00]);
    state.create_account(addr(0xaa));
    let mut interp = interpreter_with(ChainRules::all(), state);
    // output 0 bytes at 0, input 0 bytes at 0, account 0xaa, gas 0xffff; STATICCALL; STOP
    let mut parent = frame(&[
        0x60, 0x00, 0x60, 0x00, 0x60, 0x00, 0x60, 0x00, 0x60, 0xaa, 0x61, 0xff, 0xff, 0xfa, 0x00,
    ]);
    let r = interp.run(&mut parent, &[], false);
    assert_eq!(r, Ok(vec![]));
    let seen = tops(&interp);
    // the last operation of the parent sees the status of the call
    assert_eq!(seen.last(), Some(&(1, 1, n(0))));
    // the callee ran at depth two up to its store
    assert_eq!(seen.iter().filter(|s| s.0 == 2).count(), 3);
    // the parent paid six pushes, the call, and the gas that it handed on
    assert_eq!(parent.gas(), GAS - 6 * 3 - 40 - 0xffff);
    assert!(parent.gas() > 0);
    assert_eq!(interp.evm.state_db.get_state(addr(0xaa), &n(0)), n(0));
    assert!(!interp.read_only);
    assert_eq!(interp.evm.depth, 0);
    let failed: Vec<bool> = interp
        .evm
        .tracer
        .as_ref()
        .unwrap()
        .events
        .iter()
        .filter_map(|e| match e {
            TraceEvent::Exit { failed } => Some(*failed),
            _ => None,
        })
        .collect();
    assert_eq!(failed, vec![true]);
}

#[test]
fn a_call_copies_the_output_of_the_callee_and_gives_unused_gas_back() {
    let mut state = StateDb::new();
    // the callee stores 0x2a at 0 and returns the word
    state.set_code(addr(0xbb), vec![0x60, 0x2a, 0x60, 0x00, 0x52, 0x60, 0x20, 0x60, 0x00, 0xf3]);
    state.create_account(addr(0xbb));
    let mut interp = interpreter_with(ChainRules::all(), state);
    // output 32 bytes at 0, no input, no value, account 0xbb, gas 0xffff; CALL; MLOAD 0; STOP
    let mut parent = frame(&[
        0x60, 0x20, 0x60, 0x00, 0x60, 0x00, 0x60, 0x00, 0x60, 0x00, 0x60, 0xbb, 0x61, 0xff, 0xff,
        0xf1, 0x60, 0x00, 0x51, 0x00,
    ]);
    let r = interp.run(&mut parent, &[], false);
    assert_eq!(r, Ok(vec![]));
    let seen = tops(&interp);
    assert_eq!(seen.last(), Some(&(1, 2, n(0x2a))));
    let callee_cost = 3 + 3 + 3 + 3 + 3 + 3;
    let parent_cost = 7 * 3 + (40 + 3) + 3 + 3;
    assert_eq!(parent.gas(), GAS - parent_cost - callee_cost);
    assert_eq!(interp.return_data, Vec::<u8>::new());
}

#[test]
fn a_call_with_value_moves_the_value_and_a_failing_callee_moves_nothing() {
    let mut state = StateDb::new();
    state.add_balance(addr(0xc0de), &n(100));
    state.set_code(addr(0xbb), vec![0x00]);
    state.create_account(addr(0xbb));
    state.set_code(addr(0xcc), vec![0xfe]);
    state.create_account(addr(0xcc));
    let mut interp = interpreter_with(ChainRules::all(), state);
    let ok = interp.call(addr(0xc0de), addr(0xbb), vec![], 1000, &n(30));
    assert_eq!((ok.error, ok.gas_left), (None, 1000));
    assert_eq!(interp.evm.state_db.get_balance(addr(0xbb)), n(30));
    assert_eq!(interp.evm.state_db.get_balance(addr(0xc0de)), n(70));
    let bad = interp.call(addr(0xc0de), addr(0xcc), vec![], 1000, &n(30));
    assert_eq!((bad.error, bad.gas_left), (Some(Error::InvalidOpCode { opcode: 0xfe }), 0));
    assert_eq!(interp.evm.state_db.get_balance(addr(0xcc)), n(0));
    assert_eq!(interp.evm.state_db.get_balance(addr(0xc0de)), n(70));
    let broke = interp.call(addr(0xc0de), addr(0xbb), vec![], 1000, &n(71));
    assert_eq!((broke.error, broke.gas_left), (Some(Error::InsufficientBalance), 1000));
    interp.evm.depth = 1024;
    let deep = interp.call(addr(0xc0de), addr(0xbb), vec![], 1000, &n(0));
    assert_eq!((deep.error, deep.gas_left), (Some(Error::DepthLimit), 1000));
    let deep = interp.static_call(addr(0xc0de), addr(0xbb), vec![], 1000);
    assert_eq!((deep.error, deep.gas_left), (Some(Error::DepthLimit), 1000));
}

#[test]
fn delegate_call_runs_in_the_name_of_the_delegating_account() {
    let mut state = StateDb::new();
    // the library stores the caller under key 0
    state.set_code(addr(0x11b), vec![0x33, 0x60, 0x00, 0x55, 0x00]);
    let mut interp = interpreter_with(ChainRules::all(), state);
    let r = interp.delegate_call(addr(0xca11), addr(0xc0de), n(0), addr(0x11b), vec![], 50_000);
    assert_eq!(r.error, None);
    assert_eq!(interp.evm.state_db.get_state(addr(0xc0de), &n(0)), n(0xca11));
    assert_eq!(interp.evm.state_db.get_state(addr(0x11b), &n(0)), n(0));
    let r = interp.call_code(addr(0xc0de), addr(0x11b), vec![], 50_000, &n(0));
    assert_eq!(r.error, None);
    assert_eq!(interp.evm.state_db.get_state(addr(0xc0de), &n(0)), n(0xc0de));
}

#[test]
fn creation_stores_what_the_init_code_returns() {
    let mut interp = interpreter();
    // init code: store 0x00 at 31 (one byte of code: STOP) and return that byte
    let init = vec![0x60, 0x00, 0x60, 0x00, 0x53, 0x60, 0x01, 0x60, 0x00, 0xf3];
    let want = create_address(addr(0xc0de), 0);
    let r = interp.create_at(addr(0xc0de), init.clone(), 100_000, &n(0), want, 0xf0);
    assert_eq!(r.error, None);
    assert_eq!(r.address, want);
    assert_eq!(interp.evm.state_db.get_code(want), vec![0x00]);
    assert_eq!(interp.evm.state_db.get_nonce(addr(0xc0de)), 1);
    assert_eq!(interp.evm.state_db.get_nonce(want), 1);
    assert_eq!(r.gas_left, 100_000 - (3 + 3 + 3 + 3) - (3 + 3) - 200);
    let again = interp.create_at(addr(0xc0de), init.clone(), 100_000, &n(0), want, 0xf0);
    assert_eq!((again.error, again.gas_left), (Some(Error::ContractAddressCollision), 0));
    let other = create_address(addr(0xc0de), 2);
    let poor = interp.create_at(addr(0xc0de), init.clone(), 18 + 199, &n(0), other, 0xf0);
    assert_eq!((poor.error, poor.gas_left), (Some(Error::CodeStoreOutOfGas), 0));
    assert_eq!(interp.evm.state_db.get_code_size(other), 0);
    assert!(!interp.evm.state_db.exist(other));
    let broke = interp.create_at(addr(0xc0de), init, 1000, &n(1), addr(5), 0xf0);
    assert_eq!((broke.error, broke.gas_left), (Some(Error::InsufficientBalance), 1000));
}

#[test]
fn creation_before_homestead_keeps_a_contract_without_code() {
    let mut interp = interpreter_with(ChainRules::frontier(), StateDb::new());
    let init = vec![0x60, 0x00, 0x60, 0x00, 0x53, 0x60, 0x01, 0x60, 0x00, 0xf3];
    let at = addr(0x77);
    let r = interp.create_at(addr(0xc0de), init, 18 + 199, &n(0), at, 0xf0);
    assert_eq!((r.error, r.gas_left), (Some(Error::CodeStoreOutOfGas), 199));
    assert!(interp.evm.state_db.exist(at));
    assert_eq!(interp.evm.state_db.get_code_size(at), 0);
}

#[test]
fn creation_refuses_code_that_is_too_long() {
    let mut interp = interpreter();
    // return 0x6001 bytes of memory
    let init = vec![0x61, 0x60, 0x01, 0x60, 0x00, 0xf3];
    let r = interp.create_at(addr(0xc0de), init, 10_000_000, &n(0), addr(0x88), 0xf0);
    assert_eq!((r.error, r.gas_left), (Some(Error::MaxCodeSizeExceeded), 0));
    assert_eq!(interp.evm.state_db.get_code_size(addr(0x88)), 0);
}

#[test]
fn create_opcode_pushes_the_new_address_and_keeps_a_64th_of_the_gas() {
    let mut interp = interpreter();
    // store the ten bytes of init code at 22..32, then CREATE(value 0, offset 22, size 10); STOP
    let mut code = vec![0x69, 0x60, 0x00, 0x60, 0x00, 0x53, 0x60, 0x01, 0x60, 0x00, 0xf3];
    code.extend_from_slice(&[0x60, 0x00, 0x52, 0x60, 0x0a, 0x60, 0x16, 0x60, 0x00, 0xf0, 0x00]);
    let mut parent = frame(&code);
    let r = interp.run(&mut parent, &[], false);
    assert_eq!(r, Ok(vec![]));
    let want = create_address(addr(0xc0de), 0);
    assert_eq!(tops(&interp).last(), Some(&(1, 1, want.to_word())));
    assert_eq!(interp.evm.state_db.get_code(want), vec![0x00]);
    let before_create = GAS - 3 - 3 - 6 - 3 * 3 - 32000;
    let used_by_child = 18 + 200;
    assert_eq!(parent.gas(), before_create - used_by_child);
}

#[test]
fn failures_use_up_all_gas() {
    let many_pushes: Vec<u8> = std::iter::repeat([0x60u8, 0x01]).take(1025).flatten().collect();
    let cases: Vec<(Vec<u8>, Error)> = vec![
        (vec![0x01], Error::StackUnderflow),
        (many_pushes, Error::StackOverflow),
        (vec![0xfe], Error::InvalidOpCode { opcode: 0xfe }),
        (vec![0x0c], Error::InvalidOpCode { opcode: 0x0c }),
        (vec![0x60, 0x05, 0x56], Error::InvalidJump),
        (vec![0x60, 0x01, 0x60, 0x00, 0x60, 0x00, 0x3e], Error::ReturnDataOutOfBounds),
        (
            {
                let mut c = vec![0x7f];
                c.extend_from_slice(&[0xff; 32]);
                c.push(0x51);
                c
            },
            Error::GasUintOverflow,
        ),
    ];
    for (code, want) in cases {
        let mut interp = interpreter();
        let mut contract = frame(&code);
        let r = interp.run(&mut contract, &[], false);
        assert_eq!(r, Err(want));
        assert_eq!(contract.gas(), 0);
        assert_eq!(interp.evm.depth, 0);
    }
    let mut interp = interpreter();
    let mut contract = Contract::new(addr(1), addr(2), n(0), 5, vec![0x60, 0x01, 0x60, 0x01]);
    assert_eq!(interp.run(&mut contract, &[], false), Err(Error::OutOfGas));
    assert_eq!(contract.gas(), 0);
}

#[test]
fn the_depth_limit_ends_a_frame_before_it_begins() {
    let mut interp = interpreter();
    interp.evm.depth = 1024;
    let mut contract = frame(&[0x00]);
    assert_eq!(interp.run(&mut contract, &[], false), Err(Error::DepthLimit));
    assert_eq!(interp.evm.depth, 1024);
    assert_eq!(contract.gas(), 0);
    interp.evm.depth = 1023;
    let mut contract = frame(&[0x00]);
    assert_eq!(interp.run(&mut contract, &[], false), Ok(vec![]));
    assert_eq!(interp.evm.depth, 1023);
}

#[test]
fn a_frame_without_code_succeeds_at_once() {
    let mut interp = interpreter();
    let mut contract = frame(&[]);
    assert_eq!(interp.run(&mut contract, &[1, 2], true), Ok(vec![]));
    assert_eq!(contract.gas(), GAS);
    assert_eq!(contract.input(), &[1, 2]);
    assert!(!interp.read_only);
    assert!(tops(&interp).is_empty());
}

#[test]
fn a_stop_from_outside_ends_the_frame_at_the_next_step() {
    let mut interp = interpreter();
    interp.return_data = vec![1, 2, 3];
    interp.evm.abort.store(true, Ordering::SeqCst);
    // an endless loop: JUMPDEST; PUSH1 0; JUMP
    let mut contract = frame(&[0x5b, 0x60, 0x00, 0x56]);
    assert_eq!(interp.run(&mut contract, &[], false), Ok(vec![]));
    assert_eq!(contract.gas(), GAS);
    assert!(tops(&interp).is_empty());
    interp.evm.abort.store(false, Ordering::SeqCst);
    let mut contract = Contract::new(addr(1), addr(2), n(0), 1200, vec![0x5b, 0x60, 0x00, 0x56]);
    assert_eq!(interp.run(&mut contract, &[], false), Err(Error::OutOfGas));
    // a hundred rounds of three operations, and the one that could not be paid for
    assert_eq!(tops(&interp).len(), 301);
}

#[test]
fn return_hands_out_a_region_of_memory() {
    let mut interp = interpreter();
    // MSTORE8(0, 0xab); RETURN(0, 2)
    let mut contract = frame(&[0x60, 0xab, 0x60, 0x00, 0x53, 0x60, 0x02, 0x60, 0x00, 0xf3]);
    assert_eq!(interp.run(&mut contract, &[], false), Ok(vec![0xab, 0x00]));
    // MSTORE8(0, 0xab); REVERT(0, 1)
    let mut contract = frame(&[0x60, 0xab, 0x60, 0x00, 0x53, 0x60, 0x01, 0x60, 0x00, 0xfd]);
    assert_eq!(interp.run(&mut contract, &[], false), Err(Error::ExecutionReverted));
    assert_eq!(interp.return_data, vec![0xab]);
    assert_eq!(contract.gas(), GAS - 3 - 3 - 6 - 3 - 3);
}

#[test]
fn the_read_only_flag_holds_for_the_frame_and_is_restored_after_it() {
    let mut interp = interpreter();
    let mut contract = frame(&[0x60, 0x01, 0x60, 0x00, 0x55, 0x00]);
    assert_eq!(interp.run(&mut contract, &[], true), Err(Error::WriteProtection));
    assert!(!interp.read_only);
    let mut contract = frame(&[0x60, 0x01, 0x60, 0x00, 0x55, 0x00]);
    assert_eq!(interp.run(&mut contract, &[], false), Ok(vec![]));
    assert_eq!(interp.evm.state_db.get_state(addr(0xc0de), &n(0)), n(1));
    assert_eq!(contract.gas(), GAS - 6 - 20_000);
    interp.read_only = true;
    let mut contract = frame(&[0x60, 0x01, 0x60, 0x00, 0x55, 0x00]);
    assert_eq!(interp.run(&mut contract, &[], false), Err(Error::WriteProtection));
    assert!(interp.read_only);
}

#[test]
fn single_steps_keep_the_frame_within_its_bounds() {
    let mut interp = interpreter();
    let mut scope = ScopeContext {
        memory: Memory::new(),
        stack: Stack::new(),
        contract: frame(&[0x60, 0x07, 0x60, 0x21, 0x52, 0x5b, 0x5f, 0x00]),
    };
    let mut pc = 0;
    let mut gas = scope.contract.gas();
    let mut depths = vec![];
    loop {
        let r = step(&mut pc, &mut interp, &mut scope);
        assert!(scope.stack.len() <= 1024);
        assert_eq!(scope.memory.len() % 32, 0);
        assert!(scope.contract.gas() <= gas);
        gas = scope.contract.gas();
        depths.push(scope.stack.len());
        if r.is_err() {
            assert_eq!(r, Err(Error::StopToken));
            break;
        }
    }
    // PUSH1, PUSH1, MSTORE at 33 (two words more), JUMPDEST (nothing), PUSH0 (one more), STOP
    assert_eq!(depths, vec![1, 2, 0, 0, 1, 1]);
    assert_eq!(scope.memory.len(), 96);
    assert_eq!(pc, 7);
    assert_eq!(GAS - gas, 3 + 3 + (3 + 9) + 1 + 2);
}

#[test]
fn pseudo_random_programs_keep_the_depth_and_do_not_gain_gas() {
    let mut seed: u64 = 0x2545_f491_4f6c_dd1d;
    for round in 0..200 {
        let mut code = vec![];
        for _ in 0..(8 + round % 40) {
            seed ^= seed << 13;
            seed ^= seed >> 7;
            seed ^= seed << 17;
            code.push((seed >> 32) as u8);
        }
        let mut state = StateDb::new();
        state.add_balance(addr(0xc0de), &n(1000));
        let mut interp = interpreter_with(ChainRules::all(), state);
        let mut contract = Contract::new(addr(0xca11), addr(0xc0de), n(0), 100_000, code);
        let r = interp.run(&mut contract, &[1, 2, 3, 4], false);
        assert_eq!(interp.evm.depth, 0);
        assert!(contract.gas() <= 100_000);
        assert!(!interp.read_only);
        match r {
            Ok(_) | Err(Error::ExecutionReverted) => {}
            Err(e) => {
                assert_ne!(e, Error::StopToken);
                assert_eq!(contract.gas(), 0);
            }
        }
        let mut last = 100_000;
        for e in &interp.evm.tracer.as_ref().unwrap().events {
            if let TraceEvent::State { depth: 1, gas, .. } = e {
                assert!(*gas <= last);
                last = *gas;
            }
        }
    }
}
