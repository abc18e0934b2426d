use evm_core::common::{Address, Error};
use evm_core::contract::Contract;
use evm_core::evm::{BlockContext, ChainRules, TraceEvent, Tracer, EVM};
use evm_core::int256::Int256;
use evm_core::interpreter::EVMInterpreter;
use evm_core::state::StateDb;

fn interpreter() -> EVMInterpreter {
    let mut evm = EVM::new(BlockContext::new(), ChainRules::all(), StateDb::new());
    evm.tracer = Some(Tracer::new());
    EVMInterpreter::new(evm)
}

fn frame(code: &[u8]) -> Contract {
    Contract::new(Address::zero(), Address::zero(), Int256::zero(), 1_000_000, code.to_vec())
}

fn last_top(interp: &EVMInterpreter) -> Option<Int256> {
    let tracer = interp.evm.tracer.as_ref().unwrap();
    for event in tracer.events.iter().rev() {
        if let TraceEvent::State { stack_len, top, .. } = event {
            return if *stack_len > 0 { Some(*top) } else { None };
        }
    }
    None
}

#[test]
fn addition_leaves_three_and_uses_nine_gas() {
    let mut interp = interpreter();
    let mut contract = frame(&[0x60, 0x01, 0x60, 0x02, 0x01, 0x00]);
    let r = interp.run(&mut contract, &[], false);
    assert_eq!(r, Ok(vec![]));
    assert_eq!(last_top(&interp), Some(Int256::from_u64(3)));
    assert_eq!(1_000_000 - contract.gas(), 9);
    assert_eq!(interp.evm.depth, 0);
}

#[test]
fn division_by_zero_gives_zero() {
    let mut interp = interpreter();
    let mut contract = frame(&[0x60, 0x00, 0x60, 0x01, 0x04, 0x00]);
    let r = interp.run(&mut contract, &[], false);
    assert_eq!(r, Ok(vec![]));
    assert_eq!(last_top(&interp), Some(Int256::zero()));
}

#[test]
fn invalid_jump_fails_and_uses_all_gas() {
    let mut interp = interpreter();
    let mut contract = frame(&[0x60, 0x05, 0x56, 0x00, 0x00, 0x00, 0x00, 0x00]);
    let r = interp.run(&mut contract, &[], false);
    assert_eq!(r, Err(Error::InvalidJump));
    assert_eq!(contract.gas(), 0);
}

#[test]
fn conditional_jump_to_a_destination_succeeds() {
    let mut interp = interpreter();
    let mut contract = frame(&[0x60, 0x01, 0x60, 0x06, 0x57, 0x00, 0x5b, 0x00, 0x00]);
    let r = interp.run(&mut contract, &[], false);
    assert_eq!(r, Ok(vec![]));
    let tracer = interp.evm.tracer.as_ref().unwrap();
    let pcs: Vec<u64> = tracer
        .events
        .iter()
        .filter_map(|e| match e {
            TraceEvent::State { pc, .. } => Some(*pc),
            _ => None,
        })
        .collect();
    assert_eq!(pcs, vec![0, 2, 4, 6, 7]);
}

#[test]
fn revert_keeps_gas_and_has_empty_payload() {
    let mut interp = interpreter();
    let mut contract = frame(&[0x60, 0x00, 0x60, 0x00, 0xfd]);
    let r = interp.run(&mut contract, &[], false);
    assert_eq!(r, Err(Error::ExecutionReverted));
    assert!(contract.gas() > 0);
    assert_eq!(contract.gas(), 1_000_000 - 6);
    assert!(interp.return_data.is_empty());
}
