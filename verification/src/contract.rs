//! A call frame's contract: the code that runs, who runs it, and its gas.

use vstd::prelude::*;
use crate::common::Address;
use crate::int256::{Int256, two_64};
use crate::int256::lemmas::lemma_div_mod_unique;
use crate::op_code::{immediate_len, JUMPDEST, push_size, STOP};

verus! {

/// Whether an instruction begins at `pos`, given that one begins at `from`.
/// The bytes that follow a push belong to it and begin nothing.
pub open spec fn instruction_start(code: Seq<u8>, from: nat, pos: nat) -> bool
    decreases
        (if from <= pos {
            pos - from + 1
        } else {
            0
        }),
{
    if from == pos {
        true
    } else if from > pos || from >= code.len() {
        false
    } else {
        instruction_start(code, from + 1 + immediate_len(code[from as int]), pos)
    }
}

/// Whether `pos` is a place that a jump may lead to: a `JUMPDEST` that is an
/// instruction of its own and no part of a push.
pub open spec fn valid_dest(code: Seq<u8>, pos: nat) -> bool {
    pos < code.len() && code[pos as int] == JUMPDEST && instruction_start(code, 0, pos)
}

/// An instruction that begins after another is reached from it.
proof fn lemma_start_chain(code: Seq<u8>, from: nat, s: nat, p: nat)
    requires
        instruction_start(code, from, s),
        instruction_start(code, from, p),
        s <= p,
    ensures
        instruction_start(code, s, p),
    decreases
        (if from <= s {
            s - from + 1
        } else {
            0
        }),
{
    if from != s {
        lemma_start_chain(code, from + 1 + immediate_len(code[from as int]), s, p);
    }
}

/// The instruction after one that begins at `s` begins behind its immediate
/// bytes.
proof fn lemma_start_next(code: Seq<u8>, from: nat, s: nat)
    requires
        instruction_start(code, from, s),
        s < code.len(),
    ensures
        instruction_start(code, from, s + 1 + immediate_len(code[s as int])),
    decreases
        (if from <= s {
            s - from + 1
        } else {
            0
        }),
{
    let next = s + 1 + immediate_len(code[s as int]);
    if from == s {
        assert(instruction_start(code, next, next));
    } else {
        lemma_start_next(code, from + 1 + immediate_len(code[from as int]), s);
    }
}

/// What a frame runs and for whom: the code with its valid jump
/// destinations, the caller, the account in whose name the code runs, the
/// value and the input of the call, and the gas that is left.
pub struct Contract {
    code: Vec<u8>,
    jumpdests: Vec<bool>,
    caller: Address,
    address: Address,
    value: Int256,
    input: Vec<u8>,
    gas: u64,
}

impl Contract {
    /// The jump analysis agrees with the code.
    #[verifier::type_invariant]
    spec fn wf(&self) -> bool {
        &&& self.jumpdests@.len() == self.code@.len()
        &&& forall|i: int|
            0 <= i < self.code@.len() ==> self.jumpdests@[i] == valid_dest(self.code@, i as nat)
    }

    pub closed spec fn spec_code(&self) -> Seq<u8> {
        self.code@
    }

    pub closed spec fn spec_caller(&self) -> Address {
        self.caller
    }

    pub closed spec fn spec_address(&self) -> Address {
        self.address
    }

    pub closed spec fn spec_value(&self) -> Int256 {
        self.value
    }

    pub closed spec fn spec_input(&self) -> Seq<u8> {
        self.input@
    }

    pub closed spec fn spec_gas(&self) -> u64 {
        self.gas
    }

    /// Whether two frames differ in nothing but their gas.
    pub open spec fn same_but_gas(&self, other: &Contract) -> bool {
        &&& self.spec_code() == other.spec_code()
        &&& self.spec_caller() == other.spec_caller()
        &&& self.spec_address() == other.spec_address()
        &&& self.spec_value() == other.spec_value()
        &&& self.spec_input() == other.spec_input()
    }

    /// A frame in which `address` runs `code` for `caller`.
    #[verifier::rlimit(50)]
    pub fn new(caller: Address, address: Address, value: Int256, gas: u64, code: Vec<u8>) -> (r:
        Contract)
        ensures
            r.spec_code() == code@,
            r.spec_caller() == caller,
            r.spec_address() == address,
            r.spec_value() == value,
            r.spec_gas() == gas,
            r.spec_input().len() == 0,
    {
        let mut jumpdests: Vec<bool> = Vec::new();
        let mut next: usize = 0;
        let ghost mut start: nat = 0;
        let mut i: usize = 0;
        let len = code.len();
        while i < len
            invariant
                len == code@.len(),
                i <= len,
                i <= next,
                next == if start < len { start } else { len as nat },
                jumpdests@.len() == i,
                instruction_start(code@, 0, start),
                forall|p: nat| i <= p < start ==> !#[trigger] instruction_start(code@, 0, p),
                forall|k: int| 0 <= k < i ==> jumpdests@[k] == valid_dest(code@, k as nat),
            decreases len - i,
        {
            if i == next {
                let op = code[i];
                let size = push_size(op) as usize;
                proof {
                    let behind = i as nat + 1 + immediate_len(op);
                    lemma_start_next(code@, 0, i as nat);
                    assert forall|p: nat| i + 1 <= p < behind implies !#[trigger] instruction_start(
                        code@,
                        0,
                        p,
                    ) by {
                        if instruction_start(code@, 0, p) {
                            lemma_start_chain(code@, 0, i as nat, p);
                            assert(instruction_start(code@, behind, p));
                        }
                    }
                    start = behind;
                }
                jumpdests.push(op == JUMPDEST);
                next = if size < len - i {
                    i + 1 + size
                } else {
                    len
                };
            } else {
                jumpdests.push(false);
            }
            i = i + 1;
        }
        Contract { code, jumpdests, caller, address, value, input: Vec::new(), gas }
    }

    /// The code that this frame runs.
    pub fn code(&self) -> (r: &[u8])
        ensures
            r@ == self.spec_code(),
    {
        self.code.as_slice()
    }

    /// The account that called.
    pub fn caller(&self) -> (r: Address)
        ensures
            r == self.spec_caller(),
    {
        self.caller
    }

    /// The account in whose name the code runs.
    pub fn address(&self) -> (r: Address)
        ensures
            r == self.spec_address(),
    {
        self.address
    }

    /// The value sent with the call.
    pub fn value(&self) -> (r: Int256)
        ensures
            r == self.spec_value(),
    {
        self.value
    }

    /// The call data.
    pub fn input(&self) -> (r: &[u8])
        ensures
            r@ == self.spec_input(),
    {
        self.input.as_slice()
    }

    /// The gas that is left.
    pub fn gas(&self) -> (r: u64)
        ensures
            r == self.spec_gas(),
    {
        self.gas
    }

    /// Binds the call data.
    pub fn set_input(&mut self, input: Vec<u8>)
        ensures
            final(self).spec_input() == input@,
            final(self).spec_gas() == old(self).spec_gas(),
            final(self).spec_code() == old(self).spec_code(),
            final(self).spec_caller() == old(self).spec_caller(),
            final(self).spec_address() == old(self).spec_address(),
            final(self).spec_value() == old(self).spec_value(),
    {
        proof {
            use_type_invariant(&*self);
        }
        self.input = input;
    }

    /// Sets the gas that is left.
    pub fn set_gas(&mut self, gas: u64)
        ensures
            final(self).spec_gas() == gas,
            final(self).same_but_gas(old(self)),
    {
        proof {
            use_type_invariant(&*self);
        }
        self.gas = gas;
    }

    /// Takes `n` from the gas that is left. Where less is left, nothing is
    /// taken and the answer is `false`.
    pub fn use_gas(&mut self, n: u64) -> (r: bool)
        ensures
            r == (old(self).spec_gas() >= n),
            final(self).spec_gas() == if r {
                (old(self).spec_gas() - n) as u64
            } else {
                old(self).spec_gas()
            },
            final(self).same_but_gas(old(self)),
    {
        proof {
            use_type_invariant(&*self);
        }
        if self.gas < n {
            false
        } else {
            self.gas = self.gas - n;
            true
        }
    }

    /// Whether a jump may lead to `pos`.
    pub fn valid_jumpdest(&self, pos: &Int256) -> (r: bool)
        ensures
            r == valid_dest(self.spec_code(), pos@),
    {
        proof {
            use_type_invariant(self);
            pos.lemma_low_limb();
            if pos@ < two_64() {
                lemma_div_mod_unique(pos@ as int, two_64() as int, 0, pos@ as int);
            }
        }
        let len = self.code.len();
        if !pos.is_u64() {
            return false;
        }
        let p = pos.low_u64();
        if p >= len as u64 {
            return false;
        }
        self.jumpdests[p as usize]
    }

    /// The operation at `pc`; `STOP` behind the end of the code.
    pub fn get_op(&self, pc: u64) -> (r: u8)
        ensures
            r == if pc < self.spec_code().len() { self.spec_code()[pc as int] } else { STOP },
    {
        if pc < self.code.len() as u64 {
            self.code[pc as usize]
        } else {
            STOP
        }
    }
}

} // verus!
