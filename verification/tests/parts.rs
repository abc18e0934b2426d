use evm_core::common::{create2_address, create_address, Address, Error};
use evm_core::contract::Contract;
use evm_core::evm::ChainRules;
use evm_core::gas::{call_gas, GAS_FASTEST_STEP, GAS_QUICK_STEP};
use evm_core::gas_table::{memory_gas_cost, memory_total_cost, to_word_size};
use evm_core::int256::Int256;
use evm_core::jump_table::{
    default_instruction_set, instruction_set, ExecutionFunc, GasFunc, JumpTable,
};
use evm_core::keccak::keccak256_word;
use evm_core::memory::Memory;
use evm_core::memory_table::{calc_mem_size64, memory_call, memory_return, MemorySizeFunc};
use evm_core::op_code::is_push;
use evm_core::stack::{Stack, StackPool};
use evm_core::stack_table::{
    max_dup_stack, max_stack, max_swap_stack, min_dup_stack, min_stack, min_swap_stack,
};
use evm_core::state::{Log, StateDb};

fn n(v: u64) -> Int256 {
    Int256::from_u64(v)
}

fn addr(v: u64) -> Address {
    Address { hi: 0, mid: 0, lo: v }
}

fn hex(s: &str) -> Vec<u8> {
    (0..s.len()).step_by(2).map(|i| u8::from_str_radix(&s[i..i + 2], 16).unwrap()).collect()
}

#[test]
fn stack_push_then_pop_is_identity() {
    let mut s = Stack::new();
    s.push(n(1));
    s.push(n(2));
    let before: Vec<Int256> = s.data().to_vec();
    s.push(n(99));
    assert_eq!(s.pop(), Some(n(99)));
    assert_eq!(s.data(), &before[..]);
    assert_eq!(s.len(), 2);
}

#[test]
fn stack_operations() {
    let mut s = Stack::new();
    assert_eq!(s.pop(), None);
    assert_eq!(s.peek(), None);
    assert_eq!(s.back(0), None);
    for v in 1..=5 {
        s.push(n(v));
    }
    assert_eq!(s.peek(), Some(&n(5)));
    assert_eq!(s.back(0), Some(&n(5)));
    assert_eq!(s.back(4), Some(&n(1)));
    assert_eq!(s.back(5), None);
    s.swap(1);
    assert_eq!(s.data(), &[n(1), n(2), n(3), n(5), n(4)]);
    s.swap(4);
    assert_eq!(s.data(), &[n(4), n(2), n(3), n(5), n(1)]);
    s.dup(1);
    assert_eq!(s.data(), &[n(4), n(2), n(3), n(5), n(1), n(1)]);
    s.dup(6);
    assert_eq!(s.peek(), Some(&n(4)));
    s.set_top(n(8));
    assert_eq!(s.peek(), Some(&n(8)));
    s.pop_n(3);
    assert_eq!(s.len(), 4);
    s.clear();
    assert_eq!(s.len(), 0);
}

#[test]
fn stack_pool_hands_out_empty_stacks() {
    let mut pool = StackPool::new();
    let mut s = pool.new_stack();
    assert_eq!(s.len(), 0);
    s.push(n(1));
    pool.return_stack(s);
    let again = pool.new_stack();
    assert_eq!(again.len(), 0);
}

#[test]
fn stack_bounds() {
    assert_eq!(min_stack(2, 1), 2);
    assert_eq!(max_stack(2, 1), 1025);
    assert_eq!(max_stack(0, 1), 1023);
    assert_eq!(min_dup_stack(3), 3);
    assert_eq!(max_dup_stack(3), 1023);
    assert_eq!(min_swap_stack(3), 4);
    assert_eq!(max_swap_stack(3), 1024);
}

#[test]
fn push_opcodes() {
    assert!(is_push(0x60));
    assert!(is_push(0x7f));
    assert!(!is_push(0x5f));
    assert!(!is_push(0x80));
}

#[test]
fn memory_reads_and_writes() {
    let mut m = Memory::new();
    assert_eq!(m.len(), 0);
    assert_eq!(m.get_copy(0, 1), None);
    m.resize(64);
    assert_eq!(m.len(), 64);
    assert!(m.data().iter().all(|b| *b == 0));
    m.resize(32);
    assert_eq!(m.len(), 64);
    m.set(2, 3, &[7, 8, 9]);
    m.set(60, 0, &[]);
    assert_eq!(m.get_copy(1, 5), Some(vec![0, 7, 8, 9, 0]));
    assert_eq!(m.get_ptr(62, 10), Some(&[0u8, 0][..]));
    assert_eq!(m.get_copy(64, 1), None);
    assert_eq!(m.get_copy(-1, 1), None);
    assert_eq!(m.get_copy(0, 0), None);
    m.set32(32, &n(0x0102));
    assert_eq!(m.get_copy(62, 2), Some(vec![1, 2]));
    assert_eq!(m.get_copy(32, 30), Some(vec![0; 30]));
    m.set_byte(0, 0xff);
    assert_eq!(m.data()[0], 0xff);
    assert_eq!(m.last_gas_cost(), 0);
    m.set_last_gas_cost(6);
    assert_eq!(m.last_gas_cost(), 6);
}

#[test]
fn memory_expansion_cost() {
    assert_eq!(to_word_size(0), 0);
    assert_eq!(to_word_size(1), 1);
    assert_eq!(to_word_size(32), 1);
    assert_eq!(to_word_size(33), 2);
    assert_eq!(to_word_size(u64::MAX), u64::MAX / 32 + 1);
    assert_eq!(memory_total_cost(1), 3);
    assert_eq!(memory_total_cost(32), 98);
    assert_eq!(memory_total_cost(1024), 3 * 1024 + 2048);
    let mut m = Memory::new();
    assert_eq!(memory_gas_cost(&m, 0), Ok(0));
    assert_eq!(memory_gas_cost(&m, 1), Ok(3));
    assert_eq!(memory_gas_cost(&m, 1024), Ok(98));
    assert_eq!(memory_gas_cost(&m, 0x1F_FFFF_FFE1), Err(Error::GasUintOverflow));
    m.resize(32);
    m.set_last_gas_cost(3);
    assert_eq!(memory_gas_cost(&m, 32), Ok(0));
    assert_eq!(memory_gas_cost(&m, 64), Ok(3));
    assert_eq!(memory_gas_cost(&m, 1024), Ok(95));
}

#[test]
fn forwarded_gas_is_at_most_all_but_one_64th() {
    assert_eq!(call_gas(true, 6400, 0, &n(10_000)), Ok(6300));
    assert_eq!(call_gas(true, 6400, 0, &n(100)), Ok(100));
    assert_eq!(call_gas(true, 6400, 0, &n(6300)), Ok(6300));
    assert_eq!(call_gas(true, 6500, 100, &n(10_000)), Ok(6300));
    assert_eq!(call_gas(true, 50, 100, &n(10_000)), Ok(0));
    assert_eq!(call_gas(true, 6400, 0, &Int256::max_value()), Ok(6300));
    assert_eq!(call_gas(false, 6400, 0, &n(10_000)), Ok(10_000));
    assert_eq!(call_gas(false, 6400, 0, &Int256::max_value()), Err(Error::GasUintOverflow));
    for available in [0u64, 1, 63, 64, 65, 1_000_000, u64::MAX] {
        let got = call_gas(true, available, 0, &Int256::max_value()).unwrap();
        assert!(got <= available - available / 64);
    }
}

#[test]
fn memory_sizes_from_the_stack() {
    assert_eq!(calc_mem_size64(&n(10), &n(0)), (0, false));
    assert_eq!(calc_mem_size64(&Int256::max_value(), &n(0)), (0, false));
    assert_eq!(calc_mem_size64(&n(10), &n(5)), (15, false));
    assert_eq!(calc_mem_size64(&n(u64::MAX), &n(1)), (0, true));
    assert_eq!(calc_mem_size64(&Int256::max_value(), &n(1)), (0, true));
    assert_eq!(calc_mem_size64(&n(1), &Int256::max_value()), (0, true));
    let mut s = Stack::new();
    for v in [40u64, 4, 3, 100, 0, 0, 0] {
        s.push(n(v));
    }
    // gas, account, value = 0, 0, 0; input at 100 of length 3; output at 4 of length 40
    assert_eq!(memory_call(&s), (103, false));
    assert_eq!(memory_return(&s), (0, false));
}

#[test]
fn table_entries() {
    let t = default_instruction_set();
    let add = t.get(0x01);
    assert_eq!(add.execute, ExecutionFunc::Add);
    assert_eq!(add.constant_gas, GAS_FASTEST_STEP);
    assert_eq!((add.min_stack, add.max_stack), (2, 1025));
    assert_eq!(add.dynamic_gas, None);
    let push = t.get(0x7f);
    assert_eq!(push.execute, ExecutionFunc::Push(32));
    assert_eq!((push.min_stack, push.max_stack), (0, 1023));
    let dup = t.get(0x8f);
    assert_eq!(dup.execute, ExecutionFunc::Dup(16));
    assert_eq!((dup.min_stack, dup.max_stack), (16, 1023));
    let swap = t.get(0x90);
    assert_eq!(swap.execute, ExecutionFunc::Swap(1));
    assert_eq!((swap.min_stack, swap.max_stack), (2, 1024));
    let log = t.get(0xa4);
    assert_eq!(log.execute, ExecutionFunc::Log(4));
    assert_eq!(log.dynamic_gas, Some(GasFunc::Log(4)));
    assert_eq!(log.memory_size, Some(MemorySizeFunc::Log));
    assert_eq!(log.min_stack, 6);
    let call = t.get(0xf1);
    assert_eq!(call.execute, ExecutionFunc::Call);
    assert_eq!(call.constant_gas, 40);
    assert_eq!(t.get(0x0c).execute, ExecutionFunc::Undefined);
    assert_eq!(t.get(0xfe).execute, ExecutionFunc::Undefined);
    assert_eq!(t.get(0x30).constant_gas, GAS_QUICK_STEP);
    assert_eq!(JumpTable::new().get(0x5f).execute, ExecutionFunc::Push0);
}

#[test]
fn table_leaves_out_what_the_rules_do_not_know() {
    let old = instruction_set(&ChainRules::frontier());
    for op in [0x1bu8, 0x1c, 0x1d, 0x3d, 0x3e, 0x3f, 0x46, 0x47, 0x48, 0x49, 0x5f, 0xb3, 0xb4, 0xf4, 0xf5, 0xfa, 0xfd] {
        assert_eq!(old.get(op).execute, ExecutionFunc::Undefined);
    }
    assert_eq!(old.get(0xf1).execute, ExecutionFunc::Call);
    assert_eq!(old.get(0x01).execute, ExecutionFunc::Add);
}

#[test]
fn jump_destinations_inside_push_data_are_not_valid() {
    // PUSH1 0x5b; JUMPDEST; PUSH2 0x5b 0x5b; JUMPDEST
    let c = Contract::new(addr(1), addr(2), n(3), 100, vec![0x60, 0x5b, 0x5b, 0x61, 0x5b, 0x5b, 0x5b]);
    assert!(!c.valid_jumpdest(&n(0)));
    assert!(!c.valid_jumpdest(&n(1)));
    assert!(c.valid_jumpdest(&n(2)));
    assert!(!c.valid_jumpdest(&n(4)));
    assert!(!c.valid_jumpdest(&n(5)));
    assert!(c.valid_jumpdest(&n(6)));
    assert!(!c.valid_jumpdest(&n(7)));
    assert!(!c.valid_jumpdest(&Int256 { l0: 2, l1: 1, l2: 0, l3: 0 }));
    assert_eq!(c.get_op(0), 0x60);
    assert_eq!(c.get_op(7), 0x00);
    assert_eq!(c.caller(), addr(1));
    assert_eq!(c.address(), addr(2));
    assert_eq!(c.value(), n(3));
}

#[test]
fn contract_gas() {
    let mut c = Contract::new(addr(1), addr(2), n(0), 100, vec![]);
    assert!(c.use_gas(40));
    assert_eq!(c.gas(), 60);
    assert!(!c.use_gas(61));
    assert_eq!(c.gas(), 60);
    assert!(c.use_gas(60));
    assert_eq!(c.gas(), 0);
    c.set_input(vec![1, 2]);
    assert_eq!(c.input(), &[1, 2]);
}

#[test]
fn keccak_of_known_inputs() {
    let empty = keccak256_word(&[]);
    assert_eq!(
        empty.to_be_bytes(),
        hex("c5d2460186f7233c927e7db2dcc703c0e500b653ca82273b7bfad8045d85a470")
    );
    let abc = keccak256_word(b"abc");
    assert_eq!(
        abc.to_be_bytes(),
        hex("4e03657aea45a94fc7d47ba826c8d667c0d1e6e33a64a036ec44f58fa12d6c45")
    );
    assert_ne!(abc, Int256::from_be_bytes(b"abc"));
}

#[test]
fn addresses_of_new_contracts() {
    let creator = Address::from_word(&Int256::from_be_bytes(&hex(
        "6ac7ea33f8831ea9dcc53393aaa88b25a785dbf0",
    )));
    assert_eq!(
        create_address(creator, 0).to_be_bytes(),
        hex("cd234a471b72ba2f1ccf0a70fcaba648a5eecd8d")
    );
    assert_eq!(
        create_address(creator, 1).to_be_bytes(),
        hex("343c43a37d37dff08ae8c4a11544c718abb4fcf8")
    );
    assert_eq!(
        create_address(creator, 2).to_be_bytes(),
        hex("f778b86fa74e846c4f0a1fbd1335fe81c00a0c91")
    );
    // EIP-1014, example 0 and example 1
    assert_eq!(
        create2_address(Address::zero(), &n(0), &[0x00]).to_be_bytes(),
        hex("4d1a2e2bb4f88f0250f26ffff098b0b30b26bf38")
    );
    let deadbeef = Address::from_word(&Int256::from_be_bytes(&hex(
        "deadbeef00000000000000000000000000000000",
    )));
    assert_eq!(
        create2_address(deadbeef, &n(0), &[0x00]).to_be_bytes(),
        hex("b928f69bb1d91cd65274e3c79d8986362984fda3")
    );
}

#[test]
fn state_accounts_storage_and_snapshots() {
    let mut s = StateDb::new();
    let a = addr(1);
    let b = addr(2);
    assert!(!s.exist(a));
    assert!(s.empty(a));
    assert_eq!(s.get_balance(a), n(0));
    s.add_balance(a, &n(10));
    assert!(s.exist(a));
    assert!(!s.empty(a));
    s.sub_balance(a, &n(4));
    assert_eq!(s.get_balance(a), n(6));
    s.set_state(a, &n(1), &n(7));
    assert_eq!(s.get_state(a, &n(1)), n(7));
    assert_eq!(s.get_state(a, &n(2)), n(0));
    assert_eq!(s.get_state(b, &n(1)), n(0));
    let snap = s.snapshot();
    s.set_state(a, &n(1), &n(8));
    s.set_transient_state(a, &n(1), &n(9));
    s.add_balance(b, &n(1));
    s.set_code(b, vec![1, 2, 3]);
    s.set_nonce(b, 5);
    s.add_refund(100);
    s.add_log(Log { address: a, topics: vec![n(1)], data: vec![9], block_number: 3 });
    assert_eq!(s.get_code(b), vec![1, 2, 3]);
    assert_eq!(s.get_code_size(b), 3);
    assert_eq!(s.get_nonce(b), 5);
    assert_eq!(s.get_transient_state(a, &n(1)), n(9));
    assert_eq!(s.logs().len(), 1);
    assert_eq!(s.get_refund(), 100);
    s.sub_refund(30);
    assert_eq!(s.get_refund(), 70);
    s.sub_refund(100);
    assert_eq!(s.get_refund(), 0);
    assert_eq!(s.get_code_hash(b), keccak256_word(&[1, 2, 3]));
    assert_eq!(s.get_code_hash(addr(77)), n(0));
    let inner = s.snapshot();
    assert!(s.suicide(b));
    assert!(s.has_suicided(b));
    assert_eq!(s.get_balance(b), n(0));
    assert!(!s.suicide(addr(78)));
    s.discard_snapshot(inner);
    assert!(s.has_suicided(b));
    s.revert_to_snapshot(snap);
    assert_eq!(s.get_state(a, &n(1)), n(7));
    assert_eq!(s.get_transient_state(a, &n(1)), n(0));
    assert!(!s.exist(b));
    assert_eq!(s.get_code_size(b), 0);
    assert_eq!(s.logs().len(), 0);
    assert_eq!(s.get_refund(), 0);
    assert_eq!(s.get_balance(a), n(6));
    s.create_account(b);
    assert!(s.exist(b));
    assert!(s.empty(b));
    s.add_preimage(n(1), vec![1]);
}
