//! Byte-addressed memory of a frame. It only grows.

use vstd::prelude::*;
use vstd::slice::{slice_subrange, slice_to_vec};
use crate::int256::Int256;
use crate::int256::bytes::be_value;

verus! {

/// The memory of a frame, with what was last charged for its size.
pub struct Memory {
    store: Vec<u8>,
    last_gas_cost: u64,
}

impl View for Memory {
    type V = Seq<u8>;

    closed spec fn view(&self) -> Seq<u8> {
        self.store@
    }
}

/// `base` with the bytes of `patch` written from position `at` on.
pub open spec fn overwrite(base: Seq<u8>, at: int, patch: Seq<u8>) -> Seq<u8> {
    Seq::new(
        base.len(),
        |i: int|
            if at <= i < at + patch.len() {
                patch[i - at]
            } else {
                base[i]
            },
    )
}

/// The end of the region that `get_copy` and `get_ptr` hand out: it is cut
/// off at the end of memory.
pub open spec fn clamped_end(len: int, offset: int, size: int) -> int {
    if offset + size < len {
        offset + size
    } else {
        len
    }
}

impl Memory {
    /// What was last charged in total for the size of this memory.
    pub closed spec fn spec_last_gas_cost(&self) -> u64 {
        self.last_gas_cost
    }

    pub fn new() -> (r: Memory)
        ensures
            r@.len() == 0,
            r.spec_last_gas_cost() == 0,
    {
        Memory { store: Vec::new(), last_gas_cost: 0 }
    }

    /// Writes `size` bytes at `offset`. Nothing happens when `size` is zero.
    pub fn set(&mut self, offset: u64, size: u64, value: &[u8])
        requires
            size > 0 ==> offset + size <= old(self)@.len() && value@.len() == size,
        ensures
            final(self)@ == if size > 0 {
                overwrite(old(self)@, offset as int, value@)
            } else {
                old(self)@
            },
            final(self).spec_last_gas_cost() == old(self).spec_last_gas_cost(),
    {
        if size > 0 {
            let len = self.store.len();
            assert(offset + size <= len);
            let start = offset as usize;
            let n = size as usize;
            let mut i: usize = 0;
            while i < n
                invariant
                    i <= n,
                    n == size,
                    start == offset,
                    value@.len() == n,
                    start + n <= len,
                    self.store@.len() == len,
                    self.store@.len() == old(self).store@.len(),
                    self.last_gas_cost == old(self).last_gas_cost,
                    forall|k: int|
                        0 <= k < self.store@.len() ==> self.store@[k] == if start <= k < start + i {
                            value@[k - start]
                        } else {
                            old(self).store@[k]
                        },
                decreases n - i,
            {
                self.store[start + i] = value[i];
                i = i + 1;
            }
            assert(self.store@ =~= overwrite(old(self).store@, offset as int, value@));
        }
    }

    /// Writes a word as 32 bytes, most significant first, at `offset`.
    pub fn set32(&mut self, offset: u64, val: &Int256)
        requires
            offset + 32 <= old(self)@.len(),
        ensures
            final(self)@.len() == old(self)@.len(),
            be_value(final(self)@.subrange(offset as int, offset + 32)) == val@,
            forall|k: int|
                0 <= k < old(self)@.len() && !(offset <= k < offset + 32) ==> final(self)@[k]
                    == old(self)@[k],
            final(self).spec_last_gas_cost() == old(self).spec_last_gas_cost(),
    {
        let bytes = val.to_be_bytes();
        self.set(offset, 32, bytes.as_slice());
        assert(self@.subrange(offset as int, offset + 32) =~= bytes@);
    }

    /// Writes one byte at `offset`.
    pub fn set_byte(&mut self, offset: u64, b: u8)
        requires
            offset < old(self)@.len(),
        ensures
            final(self)@ == old(self)@.update(offset as int, b),
            final(self).spec_last_gas_cost() == old(self).spec_last_gas_cost(),
    {
        let len = self.store.len();
        assert(offset < len);
        self.store[offset as usize] = b;
    }

    /// Grows memory to `size` bytes with zeros; a memory that is already as
    /// long stays as it is.
    pub fn resize(&mut self, size: u64)
        requires
            size <= usize::MAX,
        ensures
            final(self)@.len() == if old(self)@.len() < size {
                size as nat
            } else {
                old(self)@.len()
            },
            final(self)@.subrange(0, old(self)@.len() as int) == old(self)@,
            forall|k: int| old(self)@.len() <= k < final(self)@.len() ==> final(self)@[k] == 0,
            final(self).spec_last_gas_cost() == old(self).spec_last_gas_cost(),
    {
        let target = size as usize;
        while self.store.len() < target
            invariant
                old(self).store@.len() <= self.store@.len(),
                self.store@.len() <= target || self.store@.len() == old(self).store@.len(),
                self.store@.subrange(0, old(self).store@.len() as int) == old(self).store@,
                forall|k: int| old(self).store@.len() <= k < self.store@.len() ==> self.store@[k] == 0,
                self.last_gas_cost == old(self).last_gas_cost,
            decreases target - self.store@.len(),
        {
            self.store.push(0);
            assert(self.store@.subrange(0, old(self).store@.len() as int) =~= old(self).store@);
        }
        assert(self.store@.subrange(0, old(self).store@.len() as int) =~= old(self).store@);
    }

    /// A copy of the bytes from `offset` on, `size` of them or as many as
    /// memory holds. `None` for an empty region and for an offset outside
    /// memory.
    pub fn get_copy(&self, offset: i64, size: usize) -> (r: Option<Vec<u8>>)
        ensures
            (size == 0 || offset < 0 || offset >= self@.len()) ==> r.is_none(),
            !(size == 0 || offset < 0 || offset >= self@.len()) ==> r.is_some() && r.unwrap()@
                == self@.subrange(
                offset as int,
                clamped_end(self@.len() as int, offset as int, size as int),
            ),
    {
        match self.get_ptr(offset, size) {
            Some(s) => Some(slice_to_vec(s)),
            None => None,
        }
    }

    /// The bytes from `offset` on, `size` of them or as many as memory holds,
    /// borrowed from memory. `None` for an empty region and for an offset
    /// outside memory.
    pub fn get_ptr(&self, offset: i64, size: usize) -> (r: Option<&[u8]>)
        ensures
            (size == 0 || offset < 0 || offset >= self@.len()) ==> r.is_none(),
            !(size == 0 || offset < 0 || offset >= self@.len()) ==> r.is_some() && r.unwrap()@
                == self@.subrange(
                offset as int,
                clamped_end(self@.len() as int, offset as int, size as int),
            ),
    {
        let len = self.store.len();
        if size == 0 || offset < 0 || offset as u64 >= len as u64 {
            return None;
        }
        let start = offset as usize;
        let end = if size < len - start {
            start + size
        } else {
            len
        };
        Some(slice_subrange(self.store.as_slice(), start, end))
    }

    pub fn len(&self) -> (r: usize)
        ensures
            r == self@.len(),
    {
        self.store.len()
    }

    pub fn data(&self) -> (r: &[u8])
        ensures
            r@ == self@,
    {
        self.store.as_slice()
    }

    /// What was last charged in total for the size of this memory.
    pub fn last_gas_cost(&self) -> (r: u64)
        ensures
            r == self.spec_last_gas_cost(),
    {
        self.last_gas_cost
    }

    /// Records what has now been charged in total for the size of memory.
    pub fn set_last_gas_cost(&mut self, cost: u64)
        ensures
            final(self)@ == old(self)@,
            final(self).spec_last_gas_cost() == cost,
    {
        self.last_gas_cost = cost;
    }
}

} // verus!
