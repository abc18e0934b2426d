//! The operand stack and the pool that recycles stacks between frames.

use vstd::prelude::*;
use crate::int256::Int256;

verus! {

/// A last-in-first-out sequence of words. The last item of the view is the top.
pub struct Stack {
    data: Vec<Int256>,
}

impl View for Stack {
    type V = Seq<Int256>;

    closed spec fn view(&self) -> Seq<Int256> {
        self.data@
    }
}

impl Stack {
    pub fn new() -> (r: Stack)
        ensures
            r@.len() == 0,
    {
        Stack { data: Vec::new() }
    }

    pub fn push(&mut self, d: Int256)
        ensures
            final(self)@ == old(self)@.push(d),
    {
        self.data.push(d);
    }

    /// Removes and returns the top item; `None` on an empty stack.
    pub fn pop(&mut self) -> (r: Option<Int256>)
        ensures
            old(self)@.len() == 0 ==> r.is_none() && final(self)@ == old(self)@,
            old(self)@.len() > 0 ==> r == Some(old(self)@.last()) && final(self)@ == old(
                self,
            )@.drop_last(),
    {
        self.data.pop()
    }

    pub fn clear(&mut self)
        ensures
            final(self)@.len() == 0,
    {
        self.data.clear();
    }

    /// The items, bottom first.
    pub fn data(&self) -> (r: &[Int256])
        ensures
            r@ == self@,
    {
        self.data.as_slice()
    }

    pub fn len(&self) -> (r: usize)
        ensures
            r == self@.len(),
    {
        self.data.len()
    }

    /// Removes the `n` top items.
    pub fn pop_n(&mut self, n: usize)
        requires
            n <= old(self)@.len(),
        ensures
            final(self)@ == old(self)@.take(old(self)@.len() - n),
    {
        let len = self.data.len();
        self.data.truncate(len - n);
    }

    /// Exchanges the top item with the item `n` places below it.
    pub fn swap(&mut self, n: usize)
        requires
            1 <= n < old(self)@.len(),
        ensures
            final(self)@ == old(self)@.update(old(self)@.len() - 1, old(self)@[old(self)@.len() - 1
                - n]).update(old(self)@.len() - 1 - n, old(self)@.last()),
    {
        let len = self.data.len();
        let top = self.data[len - 1];
        let other = self.data[len - 1 - n];
        self.data[len - 1] = other;
        self.data[len - 1 - n] = top;
    }

    /// Pushes a copy of the `n`-th item counted from the top, the top being
    /// the first.
    pub fn dup(&mut self, n: usize)
        requires
            1 <= n <= old(self)@.len(),
        ensures
            final(self)@ == old(self)@.push(old(self)@[old(self)@.len() - n]),
    {
        let value = self.data[self.data.len() - n];
        self.data.push(value);
    }

    /// The top item; `None` on an empty stack.
    pub fn peek(&self) -> (r: Option<&Int256>)
        ensures
            self@.len() == 0 ==> r.is_none(),
            self@.len() > 0 ==> r == Some(&self@.last()),
    {
        let len = self.data.len();
        if len == 0 {
            None
        } else {
            Some(&self.data[len - 1])
        }
    }

    /// The top item, to be changed in place; `None` on an empty stack.
    pub fn peek_mut(&mut self) -> (r: Option<&mut Int256>)
        ensures
            old(self)@.len() == 0 ==> r is None && final(self)@ == old(self)@,
            old(self)@.len() > 0 ==> r is Some && *r->Some_0 == old(self)@.last() && final(self)@
                == old(self)@.update(old(self)@.len() - 1, *final(r->Some_0)),
    {
        let len = self.data.len();
        if len == 0 {
            None
        } else {
            Some(&mut self.data[len - 1])
        }
    }

    /// Replaces the top item.
    pub fn set_top(&mut self, d: Int256)
        requires
            old(self)@.len() > 0,
        ensures
            final(self)@ == old(self)@.update(old(self)@.len() - 1, d),
    {
        let len = self.data.len();
        self.data[len - 1] = d;
    }

    /// The item `n` places below the top, zero being the top; `None` when the
    /// stack holds no such item.
    pub fn back(&self, n: usize) -> (r: Option<&Int256>)
        ensures
            n >= self@.len() ==> r.is_none(),
            n < self@.len() ==> r == Some(&self@[self@.len() - 1 - n]),
    {
        let len = self.data.len();
        if n < len {
            Some(&self.data[len - n - 1])
        } else {
            None
        }
    }
}

/// Popping after a push gives back what was pushed and the stack as it was.
pub proof fn lemma_push_pop(s: Seq<Int256>, d: Int256)
    ensures
        s.push(d).len() > 0,
        s.push(d).last() == d,
        s.push(d).drop_last() == s,
{
    assert(s.push(d).drop_last() =~= s);
}

/// Stacks waiting to be used again.
pub struct StackPool {
    free: Vec<Stack>,
}

impl StackPool {
    /// How many stacks are waiting.
    pub closed spec fn available(&self) -> nat {
        self.free@.len()
    }

    pub fn new() -> (r: StackPool)
        ensures
            r.available() == 0,
    {
        StackPool { free: Vec::new() }
    }

    /// An empty stack: one from the pool where one waits, else a new one.
    pub fn new_stack(&mut self) -> (r: Stack)
        ensures
            r@.len() == 0,
            final(self).available() == if old(self).available() == 0 {
                0
            } else {
                (old(self).available() - 1) as nat
            },
    {
        match self.free.pop() {
            Some(mut stack) => {
                stack.clear();
                stack
            },
            None => Stack { data: Vec::with_capacity(16) },
        }
    }

    /// Empties a stack and keeps it for the next frame.
    pub fn return_stack(&mut self, stack: Stack)
        ensures
            final(self).available() == old(self).available() + 1,
    {
        let mut stack = stack;
        stack.clear();
        self.free.push(stack);
    }
}

} // verus!
