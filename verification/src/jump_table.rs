//! The dispatch table: what stands behind each operation code, what it
//! costs, and how deep the stack must and may be before it runs.

use vstd::prelude::*;
use crate::evm::ChainRules;
use crate::gas::{
    GAS_EXT_STEP, GAS_FAST_STEP, GAS_FASTEST_STEP, GAS_MID_STEP, GAS_QUICK_STEP, GAS_SLOW_STEP,
};
use crate::memory_table::{memory_stack_need, MemorySizeFunc};
use crate::op_code::{
    ADD, ADDMOD, ADDRESS, AND, BALANCE, BASEFEE, BLOBHASH, BLOCKHASH, BYTE, CALL, CALLCODE,
    CALLDATACOPY, CALLDATALOAD, CALLDATASIZE, CALLER, CALLVALUE, CHAINID, CODECOPY, CODESIZE,
    COINBASE, CREATE, CREATE2, DELEGATECALL, DIFFICULTY, DIV, DUP1, DUP16, EQ, EXP, EXTCODECOPY,
    EXTCODEHASH, EXTCODESIZE, GAS, GASLIMIT, GASPRICE, GT, ISZERO, JUMP, JUMPDEST, JUMPI,
    KECCAK256, LOG0, LOG4, LT, MLOAD, MOD, MSIZE, MSTORE, MSTORE8, MUL, MULMOD, NOT, NUMBER, OR,
    ORIGIN, PC, POP, PUSH0, PUSH1, PUSH32, RETURN, RETURNDATACOPY, RETURNDATASIZE, REVERT, SAR,
    SDIV, SELFBALANCE, SELFDESTRUCT, SGT, SHL, SHR, SIGNEXTEND, SLOAD, SLT, SMOD, SSTORE,
    STATICCALL, STOP, SUB, SWAP1, SWAP16, TIMESTAMP, TLOAD, TSTORE, XOR,
};
use crate::params::{
    BALANCE_GAS_FRONTIER, CALL_GAS_FRONTIER, CREATE2_GAS, CREATE_GAS, EXP_GAS,
    EXTCODE_COPY_BASE_FRONTIER, EXTCODE_HASH_GAS, EXTCODE_SIZE_GAS_FRONTIER, JUMPDEST_GAS,
    KECCAK256_GAS, SLOAD_GAS_FRONTIER, TRANSIENT_STORAGE_GAS,
};
use crate::stack_table::{max_stack, min_stack, STACK_LIMIT};

verus! {

/// The function that carries an operation out.
#[derive(Clone, Copy, Debug, PartialEq, Eq, Structural)]
pub enum ExecutionFunc {
    Stop,
    Add,
    Mul,
    Sub,
    Div,
    Sdiv,
    Mod,
    Smod,
    Addmod,
    Mulmod,
    Exp,
    SignExtend,
    Lt,
    Gt,
    Slt,
    Sgt,
    Eq,
    IsZero,
    And,
    Or,
    Xor,
    Not,
    Byte,
    Shl,
    Shr,
    Sar,
    Keccak256,
    Address,
    Balance,
    Origin,
    Caller,
    CallValue,
    CallDataLoad,
    CallDataSize,
    CallDataCopy,
    CodeSize,
    CodeCopy,
    GasPrice,
    ExtCodeSize,
    ExtCodeCopy,
    ReturnDataSize,
    ReturnDataCopy,
    ExtCodeHash,
    BlockHash,
    Coinbase,
    Timestamp,
    Number,
    Difficulty,
    GasLimit,
    ChainId,
    SelfBalance,
    BaseFee,
    BlobHash,
    Pop,
    MLoad,
    MStore,
    MStore8,
    SLoad,
    SStore,
    Jump,
    Jumpi,
    Pc,
    MSize,
    Gas,
    JumpDest,
    Push0,
    TLoad,
    TStore,
    Create,
    Call,
    CallCode,
    Return,
    DelegateCall,
    Create2,
    StaticCall,
    Revert,
    SelfDestruct,
    /// `PUSH1` to `PUSH32`, with the number of immediate bytes.
    Push(u8),
    /// `DUP1` to `DUP16`, with the place of the item that is copied.
    Dup(u8),
    /// `SWAP1` to `SWAP16`, with the place of the item that is exchanged.
    Swap(u8),
    /// `LOG0` to `LOG4`, with the number of topics.
    Log(u8),
    /// The randomness of the block; no operation code names it in this table.
    Random,
    /// What stands behind every code that names no operation.
    Undefined,
}

/// The function that prices what an operation works on.
#[derive(Clone, Copy, Debug, PartialEq, Eq, Structural)]
pub enum GasFunc {
    /// The growth of memory alone.
    Memory,
    Copy,
    ExtCodeCopy,
    Keccak256,
    Exp,
    SStore,
    /// A log with the given number of topics.
    Log(u8),
    Create2,
    Call,
    CallCode,
    DelegateCall,
    StaticCall,
    SelfDestruct,
}

/// How many stack items a gas function reads.
pub open spec fn gas_stack_need(f: GasFunc) -> nat {
    match f {
        GasFunc::Memory => 0,
        GasFunc::Copy => 3,
        GasFunc::ExtCodeCopy => 4,
        GasFunc::Keccak256 => 2,
        GasFunc::Exp => 2,
        GasFunc::SStore => 2,
        GasFunc::Log(_) => 2,
        GasFunc::Create2 => 3,
        GasFunc::Call => 3,
        GasFunc::CallCode => 3,
        GasFunc::DelegateCall => 1,
        GasFunc::StaticCall => 1,
        GasFunc::SelfDestruct => 1,
    }
}

impl ExecutionFunc {
    /// Whether the number that a family member carries is one of its family.
    pub open spec fn valid(self) -> bool {
        match self {
            ExecutionFunc::Push(n) => 1 <= n <= 32,
            ExecutionFunc::Dup(n) => 1 <= n <= 16,
            ExecutionFunc::Swap(n) => 1 <= n <= 16,
            ExecutionFunc::Log(n) => n <= 4,
            _ => true,
        }
    }

    /// How many items the operation takes from the stack.
    pub open spec fn pops(self) -> int {
        match self {
            ExecutionFunc::Stop => 0,
            ExecutionFunc::Add => 2,
            ExecutionFunc::Mul => 2,
            ExecutionFunc::Sub => 2,
            ExecutionFunc::Div => 2,
            ExecutionFunc::Sdiv => 2,
            ExecutionFunc::Mod => 2,
            ExecutionFunc::Smod => 2,
            ExecutionFunc::Addmod => 3,
            ExecutionFunc::Mulmod => 3,
            ExecutionFunc::Exp => 2,
            ExecutionFunc::SignExtend => 2,
            ExecutionFunc::Lt => 2,
            ExecutionFunc::Gt => 2,
            ExecutionFunc::Slt => 2,
            ExecutionFunc::Sgt => 2,
            ExecutionFunc::Eq => 2,
            ExecutionFunc::IsZero => 1,
            ExecutionFunc::And => 2,
            ExecutionFunc::Or => 2,
            ExecutionFunc::Xor => 2,
            ExecutionFunc::Not => 1,
            ExecutionFunc::Byte => 2,
            ExecutionFunc::Shl => 2,
            ExecutionFunc::Shr => 2,
            ExecutionFunc::Sar => 2,
            ExecutionFunc::Keccak256 => 2,
            ExecutionFunc::Address => 0,
            ExecutionFunc::Balance => 1,
            ExecutionFunc::Origin => 0,
            ExecutionFunc::Caller => 0,
            ExecutionFunc::CallValue => 0,
            ExecutionFunc::CallDataLoad => 1,
            ExecutionFunc::CallDataSize => 0,
            ExecutionFunc::CallDataCopy => 3,
            ExecutionFunc::CodeSize => 0,
            ExecutionFunc::CodeCopy => 3,
            ExecutionFunc::GasPrice => 0,
            ExecutionFunc::ExtCodeSize => 1,
            ExecutionFunc::ExtCodeCopy => 4,
            ExecutionFunc::ReturnDataSize => 0,
            ExecutionFunc::ReturnDataCopy => 3,
            ExecutionFunc::ExtCodeHash => 1,
            ExecutionFunc::BlockHash => 1,
            ExecutionFunc::Coinbase => 0,
            ExecutionFunc::Timestamp => 0,
            ExecutionFunc::Number => 0,
            ExecutionFunc::Difficulty => 0,
            ExecutionFunc::GasLimit => 0,
            ExecutionFunc::ChainId => 0,
            ExecutionFunc::SelfBalance => 0,
            ExecutionFunc::BaseFee => 0,
            ExecutionFunc::BlobHash => 1,
            ExecutionFunc::Pop => 1,
            ExecutionFunc::MLoad => 1,
            ExecutionFunc::MStore => 2,
            ExecutionFunc::MStore8 => 2,
            ExecutionFunc::SLoad => 1,
            ExecutionFunc::SStore => 2,
            ExecutionFunc::Jump => 1,
            ExecutionFunc::Jumpi => 2,
            ExecutionFunc::Pc => 0,
            ExecutionFunc::MSize => 0,
            ExecutionFunc::Gas => 0,
            ExecutionFunc::JumpDest => 0,
            ExecutionFunc::Push0 => 0,
            ExecutionFunc::TLoad => 1,
            ExecutionFunc::TStore => 2,
            ExecutionFunc::Create => 3,
            ExecutionFunc::Call => 7,
            ExecutionFunc::CallCode => 7,
            ExecutionFunc::Return => 2,
            ExecutionFunc::DelegateCall => 6,
            ExecutionFunc::Create2 => 4,
            ExecutionFunc::StaticCall => 6,
            ExecutionFunc::Revert => 2,
            ExecutionFunc::SelfDestruct => 1,
            ExecutionFunc::Push(_) => 0,
            ExecutionFunc::Dup(n) => n as int,
            ExecutionFunc::Swap(n) => n + 1,
            ExecutionFunc::Log(n) => n + 2,
            ExecutionFunc::Random => 0,
            ExecutionFunc::Undefined => 0,
        }
    }

    /// How many items the operation puts on the stack.
    pub open spec fn pushes(self) -> int {
        match self {
            ExecutionFunc::Stop => 0,
            ExecutionFunc::Add => 1,
            ExecutionFunc::Mul => 1,
            ExecutionFunc::Sub => 1,
            ExecutionFunc::Div => 1,
            ExecutionFunc::Sdiv => 1,
            ExecutionFunc::Mod => 1,
            ExecutionFunc::Smod => 1,
            ExecutionFunc::Addmod => 1,
            ExecutionFunc::Mulmod => 1,
            ExecutionFunc::Exp => 1,
            ExecutionFunc::SignExtend => 1,
            ExecutionFunc::Lt => 1,
            ExecutionFunc::Gt => 1,
            ExecutionFunc::Slt => 1,
            ExecutionFunc::Sgt => 1,
            ExecutionFunc::Eq => 1,
            ExecutionFunc::IsZero => 1,
            ExecutionFunc::And => 1,
            ExecutionFunc::Or => 1,
            ExecutionFunc::Xor => 1,
            ExecutionFunc::Not => 1,
            ExecutionFunc::Byte => 1,
            ExecutionFunc::Shl => 1,
            ExecutionFunc::Shr => 1,
            ExecutionFunc::Sar => 1,
            ExecutionFunc::Keccak256 => 1,
            ExecutionFunc::Address => 1,
            ExecutionFunc::Balance => 1,
            ExecutionFunc::Origin => 1,
            ExecutionFunc::Caller => 1,
            ExecutionFunc::CallValue => 1,
            ExecutionFunc::CallDataLoad => 1,
            ExecutionFunc::CallDataSize => 1,
            ExecutionFunc::CallDataCopy => 0,
            ExecutionFunc::CodeSize => 1,
            ExecutionFunc::CodeCopy => 0,
            ExecutionFunc::GasPrice => 1,
            ExecutionFunc::ExtCodeSize => 1,
            ExecutionFunc::ExtCodeCopy => 0,
            ExecutionFunc::ReturnDataSize => 1,
            ExecutionFunc::ReturnDataCopy => 0,
            ExecutionFunc::ExtCodeHash => 1,
            ExecutionFunc::BlockHash => 1,
            ExecutionFunc::Coinbase => 1,
            ExecutionFunc::Timestamp => 1,
            ExecutionFunc::Number => 1,
            ExecutionFunc::Difficulty => 1,
            ExecutionFunc::GasLimit => 1,
            ExecutionFunc::ChainId => 1,
            ExecutionFunc::SelfBalance => 1,
            ExecutionFunc::BaseFee => 1,
            ExecutionFunc::BlobHash => 1,
            ExecutionFunc::Pop => 0,
            ExecutionFunc::MLoad => 1,
            ExecutionFunc::MStore => 0,
            ExecutionFunc::MStore8 => 0,
            ExecutionFunc::SLoad => 1,
            ExecutionFunc::SStore => 0,
            ExecutionFunc::Jump => 0,
            ExecutionFunc::Jumpi => 0,
            ExecutionFunc::Pc => 1,
            ExecutionFunc::MSize => 1,
            ExecutionFunc::Gas => 1,
            ExecutionFunc::JumpDest => 0,
            ExecutionFunc::Push0 => 1,
            ExecutionFunc::TLoad => 1,
            ExecutionFunc::TStore => 0,
            ExecutionFunc::Create => 1,
            ExecutionFunc::Call => 1,
            ExecutionFunc::CallCode => 1,
            ExecutionFunc::Return => 0,
            ExecutionFunc::DelegateCall => 1,
            ExecutionFunc::Create2 => 1,
            ExecutionFunc::StaticCall => 1,
            ExecutionFunc::Revert => 0,
            ExecutionFunc::SelfDestruct => 0,
            ExecutionFunc::Push(_) => 1,
            ExecutionFunc::Dup(n) => n + 1,
            ExecutionFunc::Swap(n) => n + 1,
            ExecutionFunc::Log(_) => 0,
            ExecutionFunc::Random => 1,
            ExecutionFunc::Undefined => 0,
        }
    }

    /// The gas that the operation costs whatever it works on.
    pub open spec fn constant_gas(self) -> u64 {
        match self {
            ExecutionFunc::Stop => 0,
            ExecutionFunc::Add => GAS_FASTEST_STEP,
            ExecutionFunc::Mul => GAS_FAST_STEP,
            ExecutionFunc::Sub => GAS_FASTEST_STEP,
            ExecutionFunc::Div => GAS_FAST_STEP,
            ExecutionFunc::Sdiv => GAS_FAST_STEP,
            ExecutionFunc::Mod => GAS_FAST_STEP,
            ExecutionFunc::Smod => GAS_FAST_STEP,
            ExecutionFunc::Addmod => GAS_MID_STEP,
            ExecutionFunc::Mulmod => GAS_MID_STEP,
            ExecutionFunc::Exp => EXP_GAS,
            ExecutionFunc::SignExtend => GAS_MID_STEP,
            ExecutionFunc::Lt => GAS_FASTEST_STEP,
            ExecutionFunc::Gt => GAS_FASTEST_STEP,
            ExecutionFunc::Slt => GAS_FASTEST_STEP,
            ExecutionFunc::Sgt => GAS_FASTEST_STEP,
            ExecutionFunc::Eq => GAS_FASTEST_STEP,
            ExecutionFunc::IsZero => GAS_FASTEST_STEP,
            ExecutionFunc::And => GAS_FASTEST_STEP,
            ExecutionFunc::Or => GAS_FASTEST_STEP,
            ExecutionFunc::Xor => GAS_FASTEST_STEP,
            ExecutionFunc::Not => GAS_FASTEST_STEP,
            ExecutionFunc::Byte => GAS_FASTEST_STEP,
            ExecutionFunc::Shl => GAS_FASTEST_STEP,
            ExecutionFunc::Shr => GAS_FASTEST_STEP,
            ExecutionFunc::Sar => GAS_FASTEST_STEP,
            ExecutionFunc::Keccak256 => KECCAK256_GAS,
            ExecutionFunc::Address => GAS_QUICK_STEP,
            ExecutionFunc::Balance => BALANCE_GAS_FRONTIER,
            ExecutionFunc::Origin => GAS_QUICK_STEP,
            ExecutionFunc::Caller => GAS_QUICK_STEP,
            ExecutionFunc::CallValue => GAS_QUICK_STEP,
            ExecutionFunc::CallDataLoad => GAS_FASTEST_STEP,
            ExecutionFunc::CallDataSize => GAS_QUICK_STEP,
            ExecutionFunc::CallDataCopy => GAS_FASTEST_STEP,
            ExecutionFunc::CodeSize => GAS_QUICK_STEP,
            ExecutionFunc::CodeCopy => GAS_FASTEST_STEP,
            ExecutionFunc::GasPrice => GAS_QUICK_STEP,
            ExecutionFunc::ExtCodeSize => EXTCODE_SIZE_GAS_FRONTIER,
            ExecutionFunc::ExtCodeCopy => EXTCODE_COPY_BASE_FRONTIER,
            ExecutionFunc::ReturnDataSize => GAS_QUICK_STEP,
            ExecutionFunc::ReturnDataCopy => GAS_FASTEST_STEP,
            ExecutionFunc::ExtCodeHash => EXTCODE_HASH_GAS,
            ExecutionFunc::BlockHash => GAS_EXT_STEP,
            ExecutionFunc::Coinbase => GAS_QUICK_STEP,
            ExecutionFunc::Timestamp => GAS_QUICK_STEP,
            ExecutionFunc::Number => GAS_QUICK_STEP,
            ExecutionFunc::Difficulty => GAS_QUICK_STEP,
            ExecutionFunc::GasLimit => GAS_QUICK_STEP,
            ExecutionFunc::ChainId => GAS_QUICK_STEP,
            ExecutionFunc::SelfBalance => GAS_FAST_STEP,
            ExecutionFunc::BaseFee => GAS_QUICK_STEP,
            ExecutionFunc::BlobHash => GAS_FASTEST_STEP,
            ExecutionFunc::Pop => GAS_QUICK_STEP,
            ExecutionFunc::MLoad => GAS_FASTEST_STEP,
            ExecutionFunc::MStore => GAS_FASTEST_STEP,
            ExecutionFunc::MStore8 => GAS_FASTEST_STEP,
            ExecutionFunc::SLoad => SLOAD_GAS_FRONTIER,
            ExecutionFunc::SStore => 0,
            ExecutionFunc::Jump => GAS_MID_STEP,
            ExecutionFunc::Jumpi => GAS_SLOW_STEP,
            ExecutionFunc::Pc => GAS_QUICK_STEP,
            ExecutionFunc::MSize => GAS_QUICK_STEP,
            ExecutionFunc::Gas => GAS_QUICK_STEP,
            ExecutionFunc::JumpDest => JUMPDEST_GAS,
            ExecutionFunc::Push0 => GAS_QUICK_STEP,
            ExecutionFunc::TLoad => TRANSIENT_STORAGE_GAS,
            ExecutionFunc::TStore => TRANSIENT_STORAGE_GAS,
            ExecutionFunc::Create => CREATE_GAS,
            ExecutionFunc::Call => CALL_GAS_FRONTIER,
            ExecutionFunc::CallCode => CALL_GAS_FRONTIER,
            ExecutionFunc::Return => 0,
            ExecutionFunc::DelegateCall => CALL_GAS_FRONTIER,
            ExecutionFunc::Create2 => CREATE2_GAS,
            ExecutionFunc::StaticCall => CALL_GAS_FRONTIER,
            ExecutionFunc::Revert => 0,
            ExecutionFunc::SelfDestruct => 0,
            ExecutionFunc::Push(_) => GAS_FASTEST_STEP,
            ExecutionFunc::Dup(_) => GAS_FASTEST_STEP,
            ExecutionFunc::Swap(_) => GAS_FASTEST_STEP,
            ExecutionFunc::Log(_) => 0,
            ExecutionFunc::Random => GAS_QUICK_STEP,
            ExecutionFunc::Undefined => 0,
        }
    }

    /// The function that prices what the operation works on, if any does.
    pub open spec fn gas_func(self) -> Option<GasFunc> {
        match self {
            ExecutionFunc::Exp => Some(GasFunc::Exp),
            ExecutionFunc::Keccak256 => Some(GasFunc::Keccak256),
            ExecutionFunc::CallDataCopy => Some(GasFunc::Copy),
            ExecutionFunc::CodeCopy => Some(GasFunc::Copy),
            ExecutionFunc::ExtCodeCopy => Some(GasFunc::ExtCodeCopy),
            ExecutionFunc::ReturnDataCopy => Some(GasFunc::Copy),
            ExecutionFunc::MLoad => Some(GasFunc::Memory),
            ExecutionFunc::MStore => Some(GasFunc::Memory),
            ExecutionFunc::MStore8 => Some(GasFunc::Memory),
            ExecutionFunc::SStore => Some(GasFunc::SStore),
            ExecutionFunc::Create => Some(GasFunc::Memory),
            ExecutionFunc::Call => Some(GasFunc::Call),
            ExecutionFunc::CallCode => Some(GasFunc::CallCode),
            ExecutionFunc::Return => Some(GasFunc::Memory),
            ExecutionFunc::DelegateCall => Some(GasFunc::DelegateCall),
            ExecutionFunc::Create2 => Some(GasFunc::Create2),
            ExecutionFunc::StaticCall => Some(GasFunc::StaticCall),
            ExecutionFunc::Revert => Some(GasFunc::Memory),
            ExecutionFunc::SelfDestruct => Some(GasFunc::SelfDestruct),
            ExecutionFunc::Log(n) => Some(GasFunc::Log(n)),
            _ => None,
        }
    }

    /// The function that tells how much memory the operation touches, if it
    /// touches any.
    pub open spec fn memory_func(self) -> Option<MemorySizeFunc> {
        match self {
            ExecutionFunc::Keccak256 => Some(MemorySizeFunc::Keccak256),
            ExecutionFunc::CallDataCopy => Some(MemorySizeFunc::CallDataCopy),
            ExecutionFunc::CodeCopy => Some(MemorySizeFunc::CodeCopy),
            ExecutionFunc::ExtCodeCopy => Some(MemorySizeFunc::ExtCodeCopy),
            ExecutionFunc::ReturnDataCopy => Some(MemorySizeFunc::ReturnDataCopy),
            ExecutionFunc::MLoad => Some(MemorySizeFunc::MLoad),
            ExecutionFunc::MStore => Some(MemorySizeFunc::MStore),
            ExecutionFunc::MStore8 => Some(MemorySizeFunc::MStore8),
            ExecutionFunc::Create => Some(MemorySizeFunc::Create),
            ExecutionFunc::Call => Some(MemorySizeFunc::Call),
            ExecutionFunc::CallCode => Some(MemorySizeFunc::Call),
            ExecutionFunc::Return => Some(MemorySizeFunc::Return),
            ExecutionFunc::DelegateCall => Some(MemorySizeFunc::DelegateCall),
            ExecutionFunc::Create2 => Some(MemorySizeFunc::Create2),
            ExecutionFunc::StaticCall => Some(MemorySizeFunc::StaticCall),
            ExecutionFunc::Revert => Some(MemorySizeFunc::Revert),
            ExecutionFunc::Log(_) => Some(MemorySizeFunc::Log),
            _ => None,
        }
    }

    /// Whether the operation ends the frame whenever it runs.
    pub open spec fn halts(self) -> bool {
        match self {
            ExecutionFunc::Stop => true,
            ExecutionFunc::Return => true,
            ExecutionFunc::Revert => true,
            ExecutionFunc::SelfDestruct => true,
            ExecutionFunc::Undefined => true,
            _ => false,
        }
    }

    /// Whether the rule set knows the operation.
    pub open spec fn enabled(self, rules: ChainRules) -> bool {
        match self {
            ExecutionFunc::Shl => rules.is_constantinople,
            ExecutionFunc::Shr => rules.is_constantinople,
            ExecutionFunc::Sar => rules.is_constantinople,
            ExecutionFunc::ReturnDataSize => rules.is_byzantium,
            ExecutionFunc::ReturnDataCopy => rules.is_byzantium,
            ExecutionFunc::ExtCodeHash => rules.is_constantinople,
            ExecutionFunc::ChainId => rules.is_istanbul,
            ExecutionFunc::SelfBalance => rules.is_istanbul,
            ExecutionFunc::BaseFee => rules.is_london,
            ExecutionFunc::BlobHash => rules.is_cancun,
            ExecutionFunc::Push0 => rules.is_shanghai,
            ExecutionFunc::TLoad => rules.is_cancun,
            ExecutionFunc::TStore => rules.is_cancun,
            ExecutionFunc::DelegateCall => rules.is_homestead,
            ExecutionFunc::Create2 => rules.is_constantinople,
            ExecutionFunc::StaticCall => rules.is_byzantium,
            ExecutionFunc::Revert => rules.is_byzantium,
            _ => true,
        }
    }
}

/// What the table holds for one operation code.
#[derive(Clone, Copy, Debug, PartialEq, Eq, Structural)]
pub struct Operation {
    pub execute: ExecutionFunc,
    pub constant_gas: u64,
    pub dynamic_gas: Option<GasFunc>,
    /// The least depth of the stack before the operation.
    pub min_stack: i32,
    /// The greatest depth of the stack before the operation.
    pub max_stack: i32,
    pub memory_size: Option<MemorySizeFunc>,
}

/// The table entry of an execution function.
pub open spec fn operation_of(h: ExecutionFunc) -> Operation {
    Operation {
        execute: h,
        constant_gas: h.constant_gas(),
        dynamic_gas: h.gas_func(),
        min_stack: h.pops() as i32,
        max_stack: (STACK_LIMIT + h.pops() - h.pushes()) as i32,
        memory_size: h.memory_func(),
    }
}

/// The execution function that an operation code names.
pub open spec fn instruction_at(op: u8) -> ExecutionFunc {
    if PUSH1 <= op <= PUSH32 {
        ExecutionFunc::Push((op - PUSH1 + 1) as u8)
    } else if DUP1 <= op <= DUP16 {
        ExecutionFunc::Dup((op - DUP1 + 1) as u8)
    } else if SWAP1 <= op <= SWAP16 {
        ExecutionFunc::Swap((op - SWAP1 + 1) as u8)
    } else if LOG0 <= op <= LOG4 {
        ExecutionFunc::Log((op - LOG0) as u8)
    } else if op == STOP {
        ExecutionFunc::Stop
    } else if op == ADD {
        ExecutionFunc::Add
    } else if op == MUL {
        ExecutionFunc::Mul
    } else if op == SUB {
        ExecutionFunc::Sub
    } else if op == DIV {
        ExecutionFunc::Div
    } else if op == SDIV {
        ExecutionFunc::Sdiv
    } else if op == MOD {
        ExecutionFunc::Mod
    } else if op == SMOD {
        ExecutionFunc::Smod
    } else if op == ADDMOD {
        ExecutionFunc::Addmod
    } else if op == MULMOD {
        ExecutionFunc::Mulmod
    } else if op == EXP {
        ExecutionFunc::Exp
    } else if op == SIGNEXTEND {
        ExecutionFunc::SignExtend
    } else if op == LT {
        ExecutionFunc::Lt
    } else if op == GT {
        ExecutionFunc::Gt
    } else if op == SLT {
        ExecutionFunc::Slt
    } else if op == SGT {
        ExecutionFunc::Sgt
    } else if op == EQ {
        ExecutionFunc::Eq
    } else if op == ISZERO {
        ExecutionFunc::IsZero
    } else if op == AND {
        ExecutionFunc::And
    } else if op == OR {
        ExecutionFunc::Or
    } else if op == XOR {
        ExecutionFunc::Xor
    } else if op == NOT {
        ExecutionFunc::Not
    } else if op == BYTE {
        ExecutionFunc::Byte
    } else if op == SHL {
        ExecutionFunc::Shl
    } else if op == SHR {
        ExecutionFunc::Shr
    } else if op == SAR {
        ExecutionFunc::Sar
    } else if op == KECCAK256 {
        ExecutionFunc::Keccak256
    } else if op == ADDRESS {
        ExecutionFunc::Address
    } else if op == BALANCE {
        ExecutionFunc::Balance
    } else if op == ORIGIN {
        ExecutionFunc::Origin
    } else if op == CALLER {
        ExecutionFunc::Caller
    } else if op == CALLVALUE {
        ExecutionFunc::CallValue
    } else if op == CALLDATALOAD {
        ExecutionFunc::CallDataLoad
    } else if op == CALLDATASIZE {
        ExecutionFunc::CallDataSize
    } else if op == CALLDATACOPY {
        ExecutionFunc::CallDataCopy
    } else if op == CODESIZE {
        ExecutionFunc::CodeSize
    } else if op == CODECOPY {
        ExecutionFunc::CodeCopy
    } else if op == GASPRICE {
        ExecutionFunc::GasPrice
    } else if op == EXTCODESIZE {
        ExecutionFunc::ExtCodeSize
    } else if op == EXTCODECOPY {
        ExecutionFunc::ExtCodeCopy
    } else if op == RETURNDATASIZE {
        ExecutionFunc::ReturnDataSize
    } else if op == RETURNDATACOPY {
        ExecutionFunc::ReturnDataCopy
    } else if op == EXTCODEHASH {
        ExecutionFunc::ExtCodeHash
    } else if op == BLOCKHASH {
        ExecutionFunc::BlockHash
    } else if op == COINBASE {
        ExecutionFunc::Coinbase
    } else if op == TIMESTAMP {
        ExecutionFunc::Timestamp
    } else if op == NUMBER {
        ExecutionFunc::Number
    } else if op == DIFFICULTY {
        ExecutionFunc::Difficulty
    } else if op == GASLIMIT {
        ExecutionFunc::GasLimit
    } else if op == CHAINID {
        ExecutionFunc::ChainId
    } else if op == SELFBALANCE {
        ExecutionFunc::SelfBalance
    } else if op == BASEFEE {
        ExecutionFunc::BaseFee
    } else if op == BLOBHASH {
        ExecutionFunc::BlobHash
    } else if op == POP {
        ExecutionFunc::Pop
    } else if op == MLOAD {
        ExecutionFunc::MLoad
    } else if op == MSTORE {
        ExecutionFunc::MStore
    } else if op == MSTORE8 {
        ExecutionFunc::MStore8
    } else if op == SLOAD {
        ExecutionFunc::SLoad
    } else if op == SSTORE {
        ExecutionFunc::SStore
    } else if op == JUMP {
        ExecutionFunc::Jump
    } else if op == JUMPI {
        ExecutionFunc::Jumpi
    } else if op == PC {
        ExecutionFunc::Pc
    } else if op == MSIZE {
        ExecutionFunc::MSize
    } else if op == GAS {
        ExecutionFunc::Gas
    } else if op == JUMPDEST {
        ExecutionFunc::JumpDest
    } else if op == PUSH0 {
        ExecutionFunc::Push0
    } else if op == TLOAD {
        ExecutionFunc::TLoad
    } else if op == TSTORE {
        ExecutionFunc::TStore
    } else if op == CREATE {
        ExecutionFunc::Create
    } else if op == CALL {
        ExecutionFunc::Call
    } else if op == CALLCODE {
        ExecutionFunc::CallCode
    } else if op == RETURN {
        ExecutionFunc::Return
    } else if op == DELEGATECALL {
        ExecutionFunc::DelegateCall
    } else if op == CREATE2 {
        ExecutionFunc::Create2
    } else if op == STATICCALL {
        ExecutionFunc::StaticCall
    } else if op == REVERT {
        ExecutionFunc::Revert
    } else if op == SELFDESTRUCT {
        ExecutionFunc::SelfDestruct
    } else {
        ExecutionFunc::Undefined
    }
}

/// What the table holds for an operation code under a rule set: the entry of
/// the operation that the code names, or that of the undefined operation where
/// the rule set does not know it.
pub open spec fn operation_at(op: u8, rules: ChainRules) -> Operation {
    if instruction_at(op).enabled(rules) {
        operation_of(instruction_at(op))
    } else {
        operation_of(ExecutionFunc::Undefined)
    }
}

/// Whether an entry agrees with its execution function: the stack bounds are
/// those of what it pops and pushes, and the gas and memory functions are the
/// ones that it needs.
pub open spec fn operation_wf(op: Operation) -> bool {
    &&& op.execute.valid()
    &&& op == operation_of(op.execute)
}

/// An entry that agrees with its execution function asks for a stack deep
/// enough for its gas and memory functions, and leaves the stack within its
/// limit.
#[verifier::rlimit(100)]
pub proof fn lemma_operation_needs(op: Operation)
    requires
        operation_wf(op),
    ensures
        0 <= op.min_stack == op.execute.pops() <= 17,
        0 <= op.execute.pushes() <= 17,
        op.max_stack == STACK_LIMIT + op.execute.pops() - op.execute.pushes(),
        op.constant_gas == op.execute.constant_gas(),
        op.dynamic_gas == op.execute.gas_func(),
        op.memory_size == op.execute.memory_func(),
        match op.memory_size {
            Some(f) => op.min_stack >= memory_stack_need(f),
            None => true,
        },
        match op.dynamic_gas {
            Some(g) => op.min_stack >= gas_stack_need(g) && (match g {
                GasFunc::Log(n) => n <= 4,
                _ => true,
            }),
            None => true,
        },
        !op.execute.halts() ==> op.constant_gas >= 1 || op.dynamic_gas == Some(GasFunc::SStore)
            || (op.dynamic_gas matches Some(GasFunc::Log(_))),
{
}

/// An entry with the stack bounds of an operation that pops and pushes the
/// given numbers of items.
fn entry(
    execute: ExecutionFunc,
    constant_gas: u64,
    pops: i32,
    pushes: i32,
    dynamic_gas: Option<GasFunc>,
    memory_size: Option<MemorySizeFunc>,
) -> (r: Operation)
    requires
        0 <= pops <= 17,
        0 <= pushes <= 17,
    ensures
        r == (Operation {
            execute,
            constant_gas,
            dynamic_gas,
            min_stack: pops,
            max_stack: (STACK_LIMIT + pops - pushes) as i32,
            memory_size,
        }),
{
    Operation {
        execute,
        constant_gas,
        dynamic_gas,
        min_stack: min_stack(pops, pushes),
        max_stack: max_stack(pops, pushes),
        memory_size,
    }
}

/// The entry of the undefined operation.
pub fn undefined_operation() -> (r: Operation)
    ensures
        r == operation_of(ExecutionFunc::Undefined),
{
    entry(ExecutionFunc::Undefined, 0, 0, 0, None, None)
}

/// The arithmetic operations.
fn arithmetic_operation(op: u8) -> (r: Option<Operation>)
    requires
        0x00 <= op <= 0x0b,
        !(LOG0 <= op <= LOG4),
    ensures
        match r {
            Some(entry) => entry == operation_of(instruction_at(op)) && entry.execute
                != ExecutionFunc::Undefined,
            None => instruction_at(op) == ExecutionFunc::Undefined,
        },
{
    if op == STOP {
        Some(entry(ExecutionFunc::Stop, 0, 0, 0, None, None))
    } else if op == ADD {
        Some(entry(ExecutionFunc::Add, GAS_FASTEST_STEP, 2, 1, None, None))
    } else if op == MUL {
        Some(entry(ExecutionFunc::Mul, GAS_FAST_STEP, 2, 1, None, None))
    } else if op == SUB {
        Some(entry(ExecutionFunc::Sub, GAS_FASTEST_STEP, 2, 1, None, None))
    } else if op == DIV {
        Some(entry(ExecutionFunc::Div, GAS_FAST_STEP, 2, 1, None, None))
    } else if op == SDIV {
        Some(entry(ExecutionFunc::Sdiv, GAS_FAST_STEP, 2, 1, None, None))
    } else if op == MOD {
        Some(entry(ExecutionFunc::Mod, GAS_FAST_STEP, 2, 1, None, None))
    } else if op == SMOD {
        Some(entry(ExecutionFunc::Smod, GAS_FAST_STEP, 2, 1, None, None))
    } else if op == ADDMOD {
        Some(entry(ExecutionFunc::Addmod, GAS_MID_STEP, 3, 1, None, None))
    } else if op == MULMOD {
        Some(entry(ExecutionFunc::Mulmod, GAS_MID_STEP, 3, 1, None, None))
    } else if op == EXP {
        Some(entry(ExecutionFunc::Exp, EXP_GAS, 2, 1, Some(GasFunc::Exp), None))
    } else if op == SIGNEXTEND {
        Some(entry(ExecutionFunc::SignExtend, GAS_MID_STEP, 2, 1, None, None))
    } else {
        None
    }
}

/// Comparison, bitwise logic and shifts.
fn logic_operation(op: u8) -> (r: Option<Operation>)
    requires
        0x10 <= op <= 0x1d,
        !(LOG0 <= op <= LOG4),
    ensures
        match r {
            Some(entry) => entry == operation_of(instruction_at(op)) && entry.execute
                != ExecutionFunc::Undefined,
            None => instruction_at(op) == ExecutionFunc::Undefined,
        },
{
    if op == LT {
        Some(entry(ExecutionFunc::Lt, GAS_FASTEST_STEP, 2, 1, None, None))
    } else if op == GT {
        Some(entry(ExecutionFunc::Gt, GAS_FASTEST_STEP, 2, 1, None, None))
    } else if op == SLT {
        Some(entry(ExecutionFunc::Slt, GAS_FASTEST_STEP, 2, 1, None, None))
    } else if op == SGT {
        Some(entry(ExecutionFunc::Sgt, GAS_FASTEST_STEP, 2, 1, None, None))
    } else if op == EQ {
        Some(entry(ExecutionFunc::Eq, GAS_FASTEST_STEP, 2, 1, None, None))
    } else if op == ISZERO {
        Some(entry(ExecutionFunc::IsZero, GAS_FASTEST_STEP, 1, 1, None, None))
    } else if op == AND {
        Some(entry(ExecutionFunc::And, GAS_FASTEST_STEP, 2, 1, None, None))
    } else if op == OR {
        Some(entry(ExecutionFunc::Or, GAS_FASTEST_STEP, 2, 1, None, None))
    } else if op == XOR {
        Some(entry(ExecutionFunc::Xor, GAS_FASTEST_STEP, 2, 1, None, None))
    } else if op == NOT {
        Some(entry(ExecutionFunc::Not, GAS_FASTEST_STEP, 1, 1, None, None))
    } else if op == BYTE {
        Some(entry(ExecutionFunc::Byte, GAS_FASTEST_STEP, 2, 1, None, None))
    } else if op == SHL {
        Some(entry(ExecutionFunc::Shl, GAS_FASTEST_STEP, 2, 1, None, None))
    } else if op == SHR {
        Some(entry(ExecutionFunc::Shr, GAS_FASTEST_STEP, 2, 1, None, None))
    } else if op == SAR {
        Some(entry(ExecutionFunc::Sar, GAS_FASTEST_STEP, 2, 1, None, None))
    } else {
        None
    }
}

/// Hashing and the environment of the call.
#[verifier::rlimit(100)]
fn environment_operation(op: u8) -> (r: Option<Operation>)
    requires
        0x20 <= op <= 0x3f,
        !(LOG0 <= op <= LOG4),
    ensures
        match r {
            Some(entry) => entry == operation_of(instruction_at(op)) && entry.execute
                != ExecutionFunc::Undefined,
            None => instruction_at(op) == ExecutionFunc::Undefined,
        },
{
    if op == KECCAK256 {
        Some(entry(ExecutionFunc::Keccak256, KECCAK256_GAS, 2, 1, Some(GasFunc::Keccak256), Some(MemorySizeFunc::Keccak256)))
    } else if op == ADDRESS {
        Some(entry(ExecutionFunc::Address, GAS_QUICK_STEP, 0, 1, None, None))
    } else if op == BALANCE {
        Some(entry(ExecutionFunc::Balance, BALANCE_GAS_FRONTIER, 1, 1, None, None))
    } else if op == ORIGIN {
        Some(entry(ExecutionFunc::Origin, GAS_QUICK_STEP, 0, 1, None, None))
    } else if op == CALLER {
        Some(entry(ExecutionFunc::Caller, GAS_QUICK_STEP, 0, 1, None, None))
    } else if op == CALLVALUE {
        Some(entry(ExecutionFunc::CallValue, GAS_QUICK_STEP, 0, 1, None, None))
    } else if op == CALLDATALOAD {
        Some(entry(ExecutionFunc::CallDataLoad, GAS_FASTEST_STEP, 1, 1, None, None))
    } else if op == CALLDATASIZE {
        Some(entry(ExecutionFunc::CallDataSize, GAS_QUICK_STEP, 0, 1, None, None))
    } else if op == CALLDATACOPY {
        Some(entry(ExecutionFunc::CallDataCopy, GAS_FASTEST_STEP, 3, 0, Some(GasFunc::Copy), Some(MemorySizeFunc::CallDataCopy)))
    } else if op == CODESIZE {
        Some(entry(ExecutionFunc::CodeSize, GAS_QUICK_STEP, 0, 1, None, None))
    } else if op == CODECOPY {
        Some(entry(ExecutionFunc::CodeCopy, GAS_FASTEST_STEP, 3, 0, Some(GasFunc::Copy), Some(MemorySizeFunc::CodeCopy)))
    } else if op == GASPRICE {
        Some(entry(ExecutionFunc::GasPrice, GAS_QUICK_STEP, 0, 1, None, None))
    } else if op == EXTCODESIZE {
        Some(entry(ExecutionFunc::ExtCodeSize, EXTCODE_SIZE_GAS_FRONTIER, 1, 1, None, None))
    } else if op == EXTCODECOPY {
        Some(entry(ExecutionFunc::ExtCodeCopy, EXTCODE_COPY_BASE_FRONTIER, 4, 0, Some(GasFunc::ExtCodeCopy), Some(MemorySizeFunc::ExtCodeCopy)))
    } else if op == RETURNDATASIZE {
        Some(entry(ExecutionFunc::ReturnDataSize, GAS_QUICK_STEP, 0, 1, None, None))
    } else if op == RETURNDATACOPY {
        Some(entry(ExecutionFunc::ReturnDataCopy, GAS_FASTEST_STEP, 3, 0, Some(GasFunc::Copy), Some(MemorySizeFunc::ReturnDataCopy)))
    } else if op == EXTCODEHASH {
        Some(entry(ExecutionFunc::ExtCodeHash, EXTCODE_HASH_GAS, 1, 1, None, None))
    } else {
        None
    }
}

/// The block.
fn block_operation(op: u8) -> (r: Option<Operation>)
    requires
        0x40 <= op <= 0x49,
        !(LOG0 <= op <= LOG4),
    ensures
        match r {
            Some(entry) => entry == operation_of(instruction_at(op)) && entry.execute
                != ExecutionFunc::Undefined,
            None => instruction_at(op) == ExecutionFunc::Undefined,
        },
{
    if op == BLOCKHASH {
        Some(entry(ExecutionFunc::BlockHash, GAS_EXT_STEP, 1, 1, None, None))
    } else if op == COINBASE {
        Some(entry(ExecutionFunc::Coinbase, GAS_QUICK_STEP, 0, 1, None, None))
    } else if op == TIMESTAMP {
        Some(entry(ExecutionFunc::Timestamp, GAS_QUICK_STEP, 0, 1, None, None))
    } else if op == NUMBER {
        Some(entry(ExecutionFunc::Number, GAS_QUICK_STEP, 0, 1, None, None))
    } else if op == DIFFICULTY {
        Some(entry(ExecutionFunc::Difficulty, GAS_QUICK_STEP, 0, 1, None, None))
    } else if op == GASLIMIT {
        Some(entry(ExecutionFunc::GasLimit, GAS_QUICK_STEP, 0, 1, None, None))
    } else if op == CHAINID {
        Some(entry(ExecutionFunc::ChainId, GAS_QUICK_STEP, 0, 1, None, None))
    } else if op == SELFBALANCE {
        Some(entry(ExecutionFunc::SelfBalance, GAS_FAST_STEP, 0, 1, None, None))
    } else if op == BASEFEE {
        Some(entry(ExecutionFunc::BaseFee, GAS_QUICK_STEP, 0, 1, None, None))
    } else if op == BLOBHASH {
        Some(entry(ExecutionFunc::BlobHash, GAS_FASTEST_STEP, 1, 1, None, None))
    } else {
        None
    }
}

/// Stack, memory, storage and flow.
#[verifier::rlimit(100)]
fn flow_operation(op: u8) -> (r: Option<Operation>)
    requires
        0x50 <= op <= 0x5f,
        !(LOG0 <= op <= LOG4),
    ensures
        match r {
            Some(entry) => entry == operation_of(instruction_at(op)) && entry.execute
                != ExecutionFunc::Undefined,
            None => instruction_at(op) == ExecutionFunc::Undefined,
        },
{
    if op == POP {
        Some(entry(ExecutionFunc::Pop, GAS_QUICK_STEP, 1, 0, None, None))
    } else if op == MLOAD {
        Some(entry(ExecutionFunc::MLoad, GAS_FASTEST_STEP, 1, 1, Some(GasFunc::Memory), Some(MemorySizeFunc::MLoad)))
    } else if op == MSTORE {
        Some(entry(ExecutionFunc::MStore, GAS_FASTEST_STEP, 2, 0, Some(GasFunc::Memory), Some(MemorySizeFunc::MStore)))
    } else if op == MSTORE8 {
        Some(entry(ExecutionFunc::MStore8, GAS_FASTEST_STEP, 2, 0, Some(GasFunc::Memory), Some(MemorySizeFunc::MStore8)))
    } else if op == SLOAD {
        Some(entry(ExecutionFunc::SLoad, SLOAD_GAS_FRONTIER, 1, 1, None, None))
    } else if op == SSTORE {
        Some(entry(ExecutionFunc::SStore, 0, 2, 0, Some(GasFunc::SStore), None))
    } else if op == JUMP {
        Some(entry(ExecutionFunc::Jump, GAS_MID_STEP, 1, 0, None, None))
    } else if op == JUMPI {
        Some(entry(ExecutionFunc::Jumpi, GAS_SLOW_STEP, 2, 0, None, None))
    } else if op == PC {
        Some(entry(ExecutionFunc::Pc, GAS_QUICK_STEP, 0, 1, None, None))
    } else if op == MSIZE {
        Some(entry(ExecutionFunc::MSize, GAS_QUICK_STEP, 0, 1, None, None))
    } else if op == GAS {
        Some(entry(ExecutionFunc::Gas, GAS_QUICK_STEP, 0, 1, None, None))
    } else if op == JUMPDEST {
        Some(entry(ExecutionFunc::JumpDest, JUMPDEST_GAS, 0, 0, None, None))
    } else if op == PUSH0 {
        Some(entry(ExecutionFunc::Push0, GAS_QUICK_STEP, 0, 1, None, None))
    } else {
        None
    }
}

/// Transient storage, calls, creation and halting.
#[verifier::rlimit(100)]
fn closure_operation(op: u8) -> (r: Option<Operation>)
    requires
        0xb3 <= op <= 0xff,
        !(LOG0 <= op <= LOG4),
    ensures
        match r {
            Some(entry) => entry == operation_of(instruction_at(op)) && entry.execute
                != ExecutionFunc::Undefined,
            None => instruction_at(op) == ExecutionFunc::Undefined,
        },
{
    if op == TLOAD {
        Some(entry(ExecutionFunc::TLoad, TRANSIENT_STORAGE_GAS, 1, 1, None, None))
    } else if op == TSTORE {
        Some(entry(ExecutionFunc::TStore, TRANSIENT_STORAGE_GAS, 2, 0, None, None))
    } else if op == CREATE {
        Some(entry(ExecutionFunc::Create, CREATE_GAS, 3, 1, Some(GasFunc::Memory), Some(MemorySizeFunc::Create)))
    } else if op == CALL {
        Some(entry(ExecutionFunc::Call, CALL_GAS_FRONTIER, 7, 1, Some(GasFunc::Call), Some(MemorySizeFunc::Call)))
    } else if op == CALLCODE {
        Some(entry(ExecutionFunc::CallCode, CALL_GAS_FRONTIER, 7, 1, Some(GasFunc::CallCode), Some(MemorySizeFunc::Call)))
    } else if op == RETURN {
        Some(entry(ExecutionFunc::Return, 0, 2, 0, Some(GasFunc::Memory), Some(MemorySizeFunc::Return)))
    } else if op == DELEGATECALL {
        Some(entry(ExecutionFunc::DelegateCall, CALL_GAS_FRONTIER, 6, 1, Some(GasFunc::DelegateCall), Some(MemorySizeFunc::DelegateCall)))
    } else if op == CREATE2 {
        Some(entry(ExecutionFunc::Create2, CREATE2_GAS, 4, 1, Some(GasFunc::Create2), Some(MemorySizeFunc::Create2)))
    } else if op == STATICCALL {
        Some(entry(ExecutionFunc::StaticCall, CALL_GAS_FRONTIER, 6, 1, Some(GasFunc::StaticCall), Some(MemorySizeFunc::StaticCall)))
    } else if op == REVERT {
        Some(entry(ExecutionFunc::Revert, 0, 2, 0, Some(GasFunc::Memory), Some(MemorySizeFunc::Revert)))
    } else if op == SELFDESTRUCT {
        Some(entry(ExecutionFunc::SelfDestruct, 0, 1, 0, Some(GasFunc::SelfDestruct), None))
    } else {
        None
    }
}

/// Whether the rule set knows the operation.
fn is_enabled(h: ExecutionFunc, rules: &ChainRules) -> (r: bool)
    ensures
        r == h.enabled(*rules),
{
    match h {
        ExecutionFunc::Shl => rules.is_constantinople,
        ExecutionFunc::Shr => rules.is_constantinople,
        ExecutionFunc::Sar => rules.is_constantinople,
        ExecutionFunc::ReturnDataSize => rules.is_byzantium,
        ExecutionFunc::ReturnDataCopy => rules.is_byzantium,
        ExecutionFunc::ExtCodeHash => rules.is_constantinople,
        ExecutionFunc::ChainId => rules.is_istanbul,
        ExecutionFunc::SelfBalance => rules.is_istanbul,
        ExecutionFunc::BaseFee => rules.is_london,
        ExecutionFunc::BlobHash => rules.is_cancun,
        ExecutionFunc::Push0 => rules.is_shanghai,
        ExecutionFunc::TLoad => rules.is_cancun,
        ExecutionFunc::TStore => rules.is_cancun,
        ExecutionFunc::DelegateCall => rules.is_homestead,
        ExecutionFunc::Create2 => rules.is_constantinople,
        ExecutionFunc::StaticCall => rules.is_byzantium,
        ExecutionFunc::Revert => rules.is_byzantium,
        _ => true,
    }
}

/// The entry of one of the operations that come in families: pushes,
/// duplications, exchanges and logs.
fn family_operation(op: u8) -> (r: Option<Operation>)
    ensures
        match r {
            Some(entry) => entry == operation_of(instruction_at(op)) && ((PUSH1 <= op <= PUSH32) || (
            DUP1 <= op <= DUP16) || (SWAP1 <= op <= SWAP16) || (LOG0 <= op <= LOG4)),
            None => !((PUSH1 <= op <= PUSH32) || (DUP1 <= op <= DUP16) || (SWAP1 <= op <= SWAP16) || (
            LOG0 <= op <= LOG4)),
        },
{
    if PUSH1 <= op && op <= PUSH32 {
        Some(entry(ExecutionFunc::Push(op - PUSH1 + 1), GAS_FASTEST_STEP, 0, 1, None, None))
    } else if DUP1 <= op && op <= DUP16 {
        let n = op - DUP1 + 1;
        Some(entry(ExecutionFunc::Dup(n), GAS_FASTEST_STEP, n as i32, n as i32 + 1, None, None))
    } else if SWAP1 <= op && op <= SWAP16 {
        let n = op - SWAP1 + 1;
        Some(
            entry(ExecutionFunc::Swap(n), GAS_FASTEST_STEP, n as i32 + 1, n as i32 + 1, None, None),
        )
    } else if LOG0 <= op && op <= LOG4 {
        let n = op - LOG0;
        Some(
            entry(
                ExecutionFunc::Log(n),
                0,
                n as i32 + 2,
                0,
                Some(GasFunc::Log(n)),
                Some(MemorySizeFunc::Log),
            ),
        )
    } else {
        None
    }
}

/// What a rule set defines for an operation code, if anything.
#[verifier::rlimit(100)]
pub fn defined_operation(op: u8, rules: &ChainRules) -> (r: Option<Operation>)
    ensures
        match r {
            Some(entry) => entry == operation_at(op, *rules) && entry.execute
                != ExecutionFunc::Undefined,
            None => operation_at(op, *rules) == operation_of(ExecutionFunc::Undefined),
        },
{
    let candidate = match family_operation(op) {
        Some(entry) => Some(entry),
        None => {
            if op <= 0x0b {
                arithmetic_operation(op)
            } else if 0x10 <= op && op <= 0x1d {
                logic_operation(op)
            } else if 0x20 <= op && op <= 0x3f {
                environment_operation(op)
            } else if 0x40 <= op && op <= 0x49 {
                block_operation(op)
            } else if 0x50 <= op && op <= 0x5f {
                flow_operation(op)
            } else if 0xb3 <= op {
                closure_operation(op)
            } else {
                None
            }
        },
    };
    match candidate {
        Some(entry) => {
            if is_enabled(entry.execute, rules) {
                Some(entry)
            } else {
                None
            }
        },
        None => None,
    }
}

/// The dispatch table: one entry for each of the 256 operation codes.
pub struct JumpTable {
    ops: Vec<Operation>,
}

impl View for JumpTable {
    type V = Seq<Operation>;

    closed spec fn view(&self) -> Seq<Operation> {
        self.ops@
    }
}

impl JumpTable {
    /// The table has its 256 entries and each agrees with its execution
    /// function.
    pub open spec fn wf(&self) -> bool {
        &&& self@.len() == 256
        &&& forall|i: int| 0 <= i < 256 ==> operation_wf(#[trigger] self@[i])
    }

    /// The table with every operation defined.
    pub fn new() -> (r: JumpTable)
        ensures
            r.wf(),
            forall|op: u8| #[trigger] r@[op as int] == operation_at(op, all_rules()),
    {
        default_instruction_set()
    }

    /// The entry for an operation code.
    pub fn get(&self, op: u8) -> (r: Operation)
        requires
            self@.len() == 256,
        ensures
            r == self@[op as int],
    {
        self.ops[op as usize]
    }
}

/// The rule set with every change in force.
pub open spec fn all_rules() -> ChainRules {
    ChainRules {
        is_homestead: true,
        is_eip150: true,
        is_eip158: true,
        is_byzantium: true,
        is_constantinople: true,
        is_petersburg: true,
        is_istanbul: true,
        is_berlin: true,
        is_london: true,
        is_merge: true,
        is_shanghai: true,
        is_cancun: true,
    }
}

/// Every entry that a rule set gives agrees with its execution function.
#[verifier::rlimit(100)]
pub proof fn lemma_operation_at_wf(op: u8, rules: ChainRules)
    ensures
        operation_wf(operation_at(op, rules)),
{
}

/// Makes a table of 256 slots complete: a slot that was left unset gets the
/// entry of the undefined operation.
pub fn validate(jt: Vec<Option<Operation>>) -> (r: JumpTable)
    requires
        jt@.len() == 256,
    ensures
        r@.len() == 256,
        forall|i: int|
            0 <= i < 256 ==> #[trigger] r@[i] == match jt@[i] {
                Some(entry) => entry,
                None => operation_of(ExecutionFunc::Undefined),
            },
{
    let mut ops: Vec<Operation> = Vec::new();
    let mut i: usize = 0;
    while i < 256
        invariant
            i <= 256,
            jt@.len() == 256,
            ops@.len() == i,
            forall|k: int|
                0 <= k < i ==> #[trigger] ops@[k] == match jt@[k] {
                    Some(entry) => entry,
                    None => operation_of(ExecutionFunc::Undefined),
                },
        decreases 256 - i,
    {
        let entry = match jt[i] {
            Some(entry) => entry,
            None => undefined_operation(),
        };
        ops.push(entry);
        i = i + 1;
    }
    JumpTable { ops }
}

/// The table of a rule set: for each operation code the entry of the
/// operation that it names under the rule set, and the entry of the undefined
/// operation for every other code.
#[verifier::rlimit(100)]
pub fn instruction_set(rules: &ChainRules) -> (r: JumpTable)
    ensures
        r.wf(),
        forall|op: u8| #[trigger] r@[op as int] == operation_at(op, *rules),
{
    let mut slots: Vec<Option<Operation>> = Vec::new();
    let mut i: usize = 0;
    while i < 256
        invariant
            i <= 256,
            slots@.len() == i,
            forall|k: int|
                0 <= k < i ==> match #[trigger] slots@[k] {
                    Some(entry) => entry == operation_at(k as u8, *rules),
                    None => operation_at(k as u8, *rules) == operation_of(ExecutionFunc::Undefined),
                },
        decreases 256 - i,
    {
        slots.push(defined_operation(i as u8, rules));
        i = i + 1;
    }
    let table = validate(slots);
    proof {
        assert forall|op: u8| #[trigger] table@[op as int] == operation_at(op, *rules) by {
            let k = op as int;
            assert(table@[k] == match slots@[k] {
                Some(entry) => entry,
                None => operation_of(ExecutionFunc::Undefined),
            });
        }
        assert forall|i: int| 0 <= i < 256 implies operation_wf(#[trigger] table@[i]) by {
            assert(table@[(i as u8) as int] == operation_at(i as u8, *rules));
            lemma_operation_at_wf(i as u8, *rules);
        }
    }
    table
}

/// The table with every operation defined.
pub fn default_instruction_set() -> (r: JumpTable)
    ensures
        r.wf(),
        forall|op: u8| #[trigger] r@[op as int] == operation_at(op, all_rules()),
{
    instruction_set(&ChainRules::all())
}

} // verus!
