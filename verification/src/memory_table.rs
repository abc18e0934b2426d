//! How much memory an operation touches, read off the operand stack.

use vstd::prelude::*;
use crate::int256::{Int256, two_64};
use crate::int256::lemmas::lemma_div_mod_unique;
use crate::stack::Stack;

verus! {

/// The end of the region of `len` bytes at `off`, and whether it cannot be
/// told in 64 bits. An empty region ends at zero wherever it starts.
pub open spec fn mem_size_spec(off: nat, len: nat) -> (u64, bool) {
    if len >= two_64() {
        (0u64, true)
    } else if len == 0 {
        (0u64, false)
    } else if off >= two_64() || off + len >= two_64() {
        (0u64, true)
    } else {
        ((off + len) as u64, false)
    }
}

/// The greater of two region ends; an overflow of either is one of both.
pub open spec fn mem_size_max(a: (u64, bool), b: (u64, bool)) -> (u64, bool) {
    if a.1 || b.1 {
        (0u64, true)
    } else if a.0 > b.0 {
        a
    } else {
        b
    }
}

/// The item `n` places below the top of a stack.
pub open spec fn back(stack: Seq<Int256>, n: int) -> Int256 {
    stack[stack.len() - 1 - n]
}

/// The end of the region of `len` bytes at `off`.
pub fn calc_mem_size64(off: &Int256, len: &Int256) -> (r: (u64, bool))
    ensures
        r == mem_size_spec(off@, len@),
{
    proof {
        len.lemma_low_limb();
        if len@ < two_64() {
            lemma_div_mod_unique(len@ as int, two_64() as int, 0, len@ as int);
        }
    }
    if !len.is_u64() {
        return (0, true);
    }
    calc_mem_size64_with_uint(off, len.low_u64())
}

/// The end of the region of `len` bytes at `off`.
pub fn calc_mem_size64_with_uint(off: &Int256, len: u64) -> (r: (u64, bool))
    ensures
        r == mem_size_spec(off@, len as nat),
{
    proof {
        off.lemma_low_limb();
        if off@ < two_64() {
            lemma_div_mod_unique(off@ as int, two_64() as int, 0, off@ as int);
        }
    }
    if len == 0 {
        return (0, false);
    }
    if !off.is_u64() {
        return (0, true);
    }
    let o = off.low_u64();
    if o > u64::MAX - len {
        return (0, true);
    }
    (o + len, false)
}

/// The function by which an operation's memory need is read off the stack.
#[derive(Clone, Copy, Debug, PartialEq, Eq, Structural)]
pub enum MemorySizeFunc {
    Keccak256,
    CallDataCopy,
    ReturnDataCopy,
    CodeCopy,
    ExtCodeCopy,
    MLoad,
    MStore8,
    MStore,
    Create,
    Create2,
    Call,
    DelegateCall,
    StaticCall,
    Return,
    Revert,
    Log,
}

/// How many stack items a memory size function reads.
pub open spec fn memory_stack_need(f: MemorySizeFunc) -> nat {
    match f {
        MemorySizeFunc::Keccak256 => 2,
        MemorySizeFunc::CallDataCopy => 3,
        MemorySizeFunc::ReturnDataCopy => 3,
        MemorySizeFunc::CodeCopy => 3,
        MemorySizeFunc::ExtCodeCopy => 4,
        MemorySizeFunc::MLoad => 1,
        MemorySizeFunc::MStore8 => 1,
        MemorySizeFunc::MStore => 1,
        MemorySizeFunc::Create => 3,
        MemorySizeFunc::Create2 => 3,
        MemorySizeFunc::Call => 7,
        MemorySizeFunc::DelegateCall => 6,
        MemorySizeFunc::StaticCall => 6,
        MemorySizeFunc::Return => 2,
        MemorySizeFunc::Revert => 2,
        MemorySizeFunc::Log => 2,
    }
}

/// The memory that an operation touches: the end of its region, or of the
/// later of its two regions, and whether that cannot be told in 64 bits.
pub open spec fn memory_size_spec(f: MemorySizeFunc, s: Seq<Int256>) -> (u64, bool) {
    match f {
        MemorySizeFunc::Keccak256 => mem_size_spec(back(s, 0)@, back(s, 1)@),
        MemorySizeFunc::CallDataCopy => mem_size_spec(back(s, 0)@, back(s, 2)@),
        MemorySizeFunc::ReturnDataCopy => mem_size_spec(back(s, 0)@, back(s, 2)@),
        MemorySizeFunc::CodeCopy => mem_size_spec(back(s, 0)@, back(s, 2)@),
        MemorySizeFunc::ExtCodeCopy => mem_size_spec(back(s, 1)@, back(s, 3)@),
        MemorySizeFunc::MLoad => mem_size_spec(back(s, 0)@, 32),
        MemorySizeFunc::MStore8 => mem_size_spec(back(s, 0)@, 1),
        MemorySizeFunc::MStore => mem_size_spec(back(s, 0)@, 32),
        MemorySizeFunc::Create => mem_size_spec(back(s, 1)@, back(s, 2)@),
        MemorySizeFunc::Create2 => mem_size_spec(back(s, 1)@, back(s, 2)@),
        MemorySizeFunc::Call => mem_size_max(
            mem_size_spec(back(s, 5)@, back(s, 6)@),
            mem_size_spec(back(s, 3)@, back(s, 4)@),
        ),
        MemorySizeFunc::DelegateCall => mem_size_max(
            mem_size_spec(back(s, 4)@, back(s, 5)@),
            mem_size_spec(back(s, 2)@, back(s, 3)@),
        ),
        MemorySizeFunc::StaticCall => mem_size_max(
            mem_size_spec(back(s, 4)@, back(s, 5)@),
            mem_size_spec(back(s, 2)@, back(s, 3)@),
        ),
        MemorySizeFunc::Return => mem_size_spec(back(s, 0)@, back(s, 1)@),
        MemorySizeFunc::Revert => mem_size_spec(back(s, 0)@, back(s, 1)@),
        MemorySizeFunc::Log => mem_size_spec(back(s, 0)@, back(s, 1)@),
    }
}

/// Whether memory of `mem_len` bytes holds all that the operation touches.
pub open spec fn memory_fits(f: MemorySizeFunc, s: Seq<Int256>, mem_len: nat) -> bool {
    !memory_size_spec(f, s).1 && memory_size_spec(f, s).0 <= mem_len
}

/// The region of `len` bytes at `off`, both taken from the stack.
fn region(stack: &Stack, off: usize, len: usize) -> (r: (u64, bool))
    requires
        off < stack@.len(),
        len < stack@.len(),
    ensures
        r == mem_size_spec(back(stack@, off as int)@, back(stack@, len as int)@),
{
    calc_mem_size64(stack.back(off).unwrap(), stack.back(len).unwrap())
}

/// The region of a fixed length at `off`, taken from the stack.
fn region_fixed(stack: &Stack, off: usize, len: u64) -> (r: (u64, bool))
    requires
        off < stack@.len(),
    ensures
        r == mem_size_spec(back(stack@, off as int)@, len as nat),
{
    calc_mem_size64_with_uint(stack.back(off).unwrap(), len)
}

/// The later end of two regions.
fn later(a: (u64, bool), b: (u64, bool)) -> (r: (u64, bool))
    ensures
        r == mem_size_max(a, b),
{
    if a.1 || b.1 {
        (0, true)
    } else if a.0 > b.0 {
        a
    } else {
        b
    }
}

pub fn memory_return(stack: &Stack) -> (r: (u64, bool))
    requires
        stack@.len() >= 2,
    ensures
        r == memory_size_spec(MemorySizeFunc::Return, stack@),
{
    region(stack, 0, 1)
}

pub fn memory_revert(stack: &Stack) -> (r: (u64, bool))
    requires
        stack@.len() >= 2,
    ensures
        r == memory_size_spec(MemorySizeFunc::Revert, stack@),
{
    region(stack, 0, 1)
}

pub fn memory_log(stack: &Stack) -> (r: (u64, bool))
    requires
        stack@.len() >= 2,
    ensures
        r == memory_size_spec(MemorySizeFunc::Log, stack@),
{
    region(stack, 0, 1)
}

/// The memory of a call: the later end of its input and its output region.
pub fn memory_call(stack: &Stack) -> (r: (u64, bool))
    requires
        stack@.len() >= 7,
    ensures
        r == memory_size_spec(MemorySizeFunc::Call, stack@),
{
    later(region(stack, 5, 6), region(stack, 3, 4))
}

/// The memory of a call without value: the later end of its input and its
/// output region.
pub fn memory_delegate_call(stack: &Stack) -> (r: (u64, bool))
    requires
        stack@.len() >= 6,
    ensures
        r == memory_size_spec(MemorySizeFunc::DelegateCall, stack@),
        r == memory_size_spec(MemorySizeFunc::StaticCall, stack@),
{
    later(region(stack, 4, 5), region(stack, 2, 3))
}

/// The memory that an operation touches.
pub fn memory_size(f: MemorySizeFunc, stack: &Stack) -> (r: (u64, bool))
    requires
        stack@.len() >= memory_stack_need(f),
    ensures
        r == memory_size_spec(f, stack@),
{
    match f {
        MemorySizeFunc::Keccak256 => region(stack, 0, 1),
        MemorySizeFunc::CallDataCopy => region(stack, 0, 2),
        MemorySizeFunc::ReturnDataCopy => region(stack, 0, 2),
        MemorySizeFunc::CodeCopy => region(stack, 0, 2),
        MemorySizeFunc::ExtCodeCopy => region(stack, 1, 3),
        MemorySizeFunc::MLoad => region_fixed(stack, 0, 32),
        MemorySizeFunc::MStore8 => region_fixed(stack, 0, 1),
        MemorySizeFunc::MStore => region_fixed(stack, 0, 32),
        MemorySizeFunc::Create => region(stack, 1, 2),
        MemorySizeFunc::Create2 => region(stack, 1, 2),
        MemorySizeFunc::Call => memory_call(stack),
        MemorySizeFunc::DelegateCall => memory_delegate_call(stack),
        MemorySizeFunc::StaticCall => memory_delegate_call(stack),
        MemorySizeFunc::Return => memory_return(stack),
        MemorySizeFunc::Revert => memory_revert(stack),
        MemorySizeFunc::Log => memory_log(stack),
    }
}

} // verus!
