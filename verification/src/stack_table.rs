//! Stack depth bounds that the dispatcher checks before an operation runs.

use vstd::prelude::*;

verus! {

/// The deepest an operand stack may grow.
pub const STACK_LIMIT: i32 = 1024;

/// Depth required before an operation that pops `pops` items.
pub fn min_stack(pops: i32, push: i32) -> (r: i32)
    ensures
        r == pops,
{
    pops
}

/// Greatest depth before an operation that pops `pop` and pushes `push`
/// items such that the depth afterwards does not exceed the limit.
pub fn max_stack(pop: i32, push: i32) -> (r: i32)
    requires
        i32::MIN <= STACK_LIMIT + pop - push <= i32::MAX,
        STACK_LIMIT + pop <= i32::MAX,
    ensures
        r == STACK_LIMIT + pop - push,
{
    STACK_LIMIT + pop - push
}

/// Depth required before `SWAPn`, which reaches `n` places below the top.
pub fn min_swap_stack(n: i32) -> (r: i32)
    requires
        n < i32::MAX,
    ensures
        r == n + 1,
{
    min_stack(n + 1, n + 1)
}

/// Greatest depth before `SWAPn`, which leaves the depth as it is.
pub fn max_swap_stack(n: i32) -> (r: i32)
    requires
        0 <= n < i32::MAX - STACK_LIMIT,
    ensures
        r == STACK_LIMIT,
{
    max_stack(n + 1, n + 1)
}

/// Depth required before `DUPn`, which copies the `n`-th item from the top.
pub fn min_dup_stack(n: i32) -> (r: i32)
    requires
        n < i32::MAX,
    ensures
        r == n,
{
    min_stack(n, n + 1)
}

/// Greatest depth before `DUPn`, which adds one item.
pub fn max_dup_stack(n: i32) -> (r: i32)
    requires
        0 <= n < i32::MAX - STACK_LIMIT,
    ensures
        r == STACK_LIMIT - 1,
{
    max_stack(n, n + 1)
}

} // verus!
