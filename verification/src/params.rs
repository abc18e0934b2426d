//! Protocol constants: gas prices and limits.

use vstd::prelude::*;

verus! {

/// Greatest depth of nested calls and creations.
pub const CALL_CREATE_DEPTH: u64 = 1024;

/// Gas that a call which transfers value gives the callee on top.
pub const CALL_STIPEND: u64 = 2300;

pub const CALL_GAS_FRONTIER: u64 = 40;
pub const CALL_VALUE_TRANSFER_GAS: u64 = 9000;
pub const CALL_NEW_ACCOUNT_GAS: u64 = 25000;

pub const BALANCE_GAS_FRONTIER: u64 = 20;
pub const EXTCODE_SIZE_GAS_FRONTIER: u64 = 20;
pub const EXTCODE_COPY_BASE_FRONTIER: u64 = 20;
pub const EXTCODE_HASH_GAS: u64 = 400;
pub const SLOAD_GAS_FRONTIER: u64 = 50;
pub const JUMPDEST_GAS: u64 = 1;

pub const SSTORE_SET_GAS: u64 = 20000;
pub const SSTORE_RESET_GAS: u64 = 5000;
pub const SSTORE_CLEAR_GAS: u64 = 5000;
pub const SSTORE_REFUND_GAS: u64 = 15000;

pub const TRANSIENT_STORAGE_GAS: u64 = 100;

pub const EXP_GAS: u64 = 10;
pub const EXP_BYTE_FRONTIER: u64 = 10;
pub const EXP_BYTE_EIP158: u64 = 50;

pub const KECCAK256_GAS: u64 = 30;
pub const KECCAK256_WORD_GAS: u64 = 6;

pub const LOG_GAS: u64 = 375;
pub const LOG_TOPIC_GAS: u64 = 375;
pub const LOG_DATA_GAS: u64 = 8;

pub const COPY_GAS: u64 = 3;
pub const MEMORY_GAS: u64 = 3;
pub const QUAD_COEFF_DIV: u64 = 512;

pub const CREATE_GAS: u64 = 32000;
pub const CREATE2_GAS: u64 = 32000;
pub const CREATE_DATA_GAS: u64 = 200;
pub const MAX_CODE_SIZE: u64 = 24576;

pub const SELFDESTRUCT_GAS_EIP150: u64 = 5000;
pub const CREATE_BY_SELFDESTRUCT_GAS: u64 = 25000;
pub const SELFDESTRUCT_REFUND_GAS: u64 = 24000;

} // verus!
