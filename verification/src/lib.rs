//! The core of an Ethereum Virtual Machine: a stack machine that runs contract
//! bytecode against a world state and meters it in gas.
//!
//! The parts, leaves first:
//!
//! - `int256`: 256-bit integers with wrapping, signed and modular arithmetic.
//! - `common`: addresses, the addresses of new contracts, and the errors.
//! - `keccak`: the Keccak-256 digest.
//! - `stack`, `memory`: the operand stack and the memory of a frame.
//! - `contract`: the code of a frame with its valid jump destinations.
//! - `state`: accounts, code, storage and logs, with snapshots.
//! - `evm`: the block, the rule set and the bookkeeping of nested calls.
//! - `op_code`, `params`, `gas`: the instruction set and its prices.
//! - `stack_table`, `memory_table`, `gas_table`: what an operation needs of
//!   the stack and of memory, and what it costs for what it works on.
//! - `jump_table`: the dispatch table.
//! - `instructions`: the operations.
//! - `interpreter`: the loop, and the nested calls and creations.

pub mod assoc;
pub mod common;
pub mod contract;
pub mod evm;
pub mod gas;
pub mod gas_table;
pub mod instructions;
pub mod int256;
pub mod interpreter;
pub mod jump_table;
pub mod keccak;
pub mod memory;
pub mod memory_table;
pub mod op_code;
pub mod params;
pub mod stack;
pub mod stack_table;
pub mod state;
