//! The context of an execution: the block, the rule set, the world state and
//! the bookkeeping of nested calls.

use std::sync::Arc;
use std::sync::atomic::AtomicBool;
use vstd::prelude::*;
use crate::common::Address;
use crate::int256::Int256;
use crate::params::CALL_CREATE_DEPTH;
use crate::state::StateDb;

verus! {

/// Which protocol changes are in force.
#[derive(Clone, Copy, Debug, PartialEq, Eq, Structural)]
pub struct ChainRules {
    pub is_homestead: bool,
    pub is_eip150: bool,
    pub is_eip158: bool,
    pub is_byzantium: bool,
    pub is_constantinople: bool,
    pub is_petersburg: bool,
    pub is_istanbul: bool,
    pub is_berlin: bool,
    pub is_london: bool,
    pub is_merge: bool,
    pub is_shanghai: bool,
    pub is_cancun: bool,
}

impl ChainRules {
    /// The rule set with every change in force.
    pub fn all() -> (r: ChainRules)
        ensures
            r == (ChainRules {
                is_homestead: true,
                is_eip150: true,
                is_eip158: true,
                is_byzantium: true,
                is_constantinople: true,
                is_petersburg: true,
                is_istanbul: true,
                is_berlin: true,
                is_london: true,
                is_merge: true,
                is_shanghai: true,
                is_cancun: true,
            }),
    {
        ChainRules {
            is_homestead: true,
            is_eip150: true,
            is_eip158: true,
            is_byzantium: true,
            is_constantinople: true,
            is_petersburg: true,
            is_istanbul: true,
            is_berlin: true,
            is_london: true,
            is_merge: true,
            is_shanghai: true,
            is_cancun: true,
        }
    }

    /// The rule set with no change in force.
    pub fn frontier() -> (r: ChainRules)
        ensures
            r == (ChainRules {
                is_homestead: false,
                is_eip150: false,
                is_eip158: false,
                is_byzantium: false,
                is_constantinople: false,
                is_petersburg: false,
                is_istanbul: false,
                is_berlin: false,
                is_london: false,
                is_merge: false,
                is_shanghai: false,
                is_cancun: false,
            }),
    {
        ChainRules {
            is_homestead: false,
            is_eip150: false,
            is_eip158: false,
            is_byzantium: false,
            is_constantinople: false,
            is_petersburg: false,
            is_istanbul: false,
            is_berlin: false,
            is_london: false,
            is_merge: false,
            is_shanghai: false,
            is_cancun: false,
        }
    }
}

/// The hash of an earlier block.
#[derive(Clone, Copy, Debug, PartialEq, Eq, Structural)]
pub struct BlockHash {
    pub number: u64,
    pub hash: Int256,
}

/// The first hash recorded for a block number; zero where none is.
pub open spec fn hash_of(hashes: Seq<BlockHash>, number: u64) -> Int256
    decreases hashes.len(),
{
    if hashes.len() == 0 {
        Int256::spec_zero()
    } else if hashes[0].number == number {
        hashes[0].hash
    } else {
        hash_of(hashes.drop_first(), number)
    }
}

/// The block in which the code runs.
pub struct BlockContext {
    pub coinbase: Address,
    pub time: u64,
    pub block_number: u64,
    pub difficulty: Int256,
    pub random: Int256,
    pub gas_limit: u64,
    pub base_fee: Int256,
    pub chain_id: Int256,
    pub blob_hashes: Vec<Int256>,
    /// The hashes of earlier blocks that `BLOCKHASH` can ask for.
    pub hashes: Vec<BlockHash>,
}

impl BlockContext {
    /// A block context with every field zero.
    pub fn new() -> (r: BlockContext)
        ensures
            r.coinbase@ == 0,
            r.time == 0,
            r.block_number == 0,
            r.difficulty == Int256::spec_zero(),
            r.random == Int256::spec_zero(),
            r.gas_limit == 0,
            r.base_fee == Int256::spec_zero(),
            r.chain_id == Int256::spec_zero(),
            r.blob_hashes@.len() == 0,
            r.hashes@.len() == 0,
    {
        BlockContext {
            coinbase: Address::zero(),
            time: 0,
            block_number: 0,
            difficulty: Int256::zero(),
            random: Int256::zero(),
            gas_limit: 0,
            base_fee: Int256::zero(),
            chain_id: Int256::zero(),
            blob_hashes: Vec::new(),
            hashes: Vec::new(),
        }
    }

    /// The hash of the block with the given number; zero where it is not
    /// known.
    pub fn get_hash(&self, number: u64) -> (r: Int256)
        ensures
            r == hash_of(self.hashes@, number),
    {
        let mut i: usize = 0;
        assert(self.hashes@.skip(0) =~= self.hashes@);
        while i < self.hashes.len()
            invariant
                i <= self.hashes@.len(),
                hash_of(self.hashes@, number) == hash_of(self.hashes@.skip(i as int), number),
            decreases self.hashes@.len() - i,
        {
            if self.hashes[i].number == number {
                return self.hashes[i].hash;
            }
            assert(self.hashes@.skip(i as int).drop_first() =~= self.hashes@.skip(i + 1));
            i = i + 1;
        }
        Int256::zero()
    }
}

/// What a tracer is told.
#[derive(Clone, Copy, Debug, PartialEq, Eq, Structural)]
pub enum TraceEvent {
    /// An operation is about to run.
    State { pc: u64, op: u8, gas: u64, cost: u64, depth: u64, stack_len: usize, top: Int256 },
    /// A nested frame is entered.
    Enter { typ: u8, from: Address, to: Address, gas: u64, value: Int256 },
    /// A nested frame was left.
    Exit { failed: bool },
}

/// A tracer that keeps what it is told, in order.
pub struct Tracer {
    pub events: Vec<TraceEvent>,
}

impl Tracer {
    pub fn new() -> (r: Tracer)
        ensures
            r.events@.len() == 0,
    {
        Tracer { events: Vec::new() }
    }

    /// Records an event.
    pub fn record(&mut self, event: TraceEvent)
        ensures
            final(self).events@ == old(self).events@.push(event),
    {
        self.events.push(event);
    }
}

/// The machine around the interpreter.
pub struct EVM {
    pub context: BlockContext,
    pub chain_rules: ChainRules,
    pub state_db: StateDb,
    /// How many frames are running.
    pub depth: u64,
    /// Set from outside to stop the execution at the next step.
    pub abort: Arc<AtomicBool>,
    /// The gas that the next call hands on: computed when the call is
    /// charged, used when it runs.
    pub call_gas_temp: u64,
    pub origin: Address,
    pub gas_price: Int256,
    pub tracer: Option<Tracer>,
    pub enable_preimage_recording: bool,
}

impl EVM {
    /// The state is well formed and the depth within its limit.
    pub open spec fn wf(&self) -> bool {
        &&& self.state_db.wf()
        &&& self.depth <= CALL_CREATE_DEPTH
    }

    /// A machine at depth zero over the given block, rules and state.
    pub fn new(context: BlockContext, chain_rules: ChainRules, state_db: StateDb) -> (r: EVM)
        requires
            state_db.wf(),
        ensures
            r.wf(),
            r.context == context,
            r.chain_rules == chain_rules,
            r.state_db == state_db,
            r.depth == 0,
            r.call_gas_temp == 0,
            r.origin@ == 0,
            r.gas_price == Int256::spec_zero(),
            r.tracer is None,
            !r.enable_preimage_recording,
    {
        EVM {
            context,
            chain_rules,
            state_db,
            depth: 0,
            abort: Arc::new(AtomicBool::new(false)),
            call_gas_temp: 0,
            origin: Address::zero(),
            gas_price: Int256::zero(),
            tracer: None,
            enable_preimage_recording: false,
        }
    }

    /// Whether a stop was asked for from outside. The answer may change from
    /// one call to the next.
    pub fn aborted(&self) -> (r: bool) {
        self.abort.load(std::sync::atomic::Ordering::SeqCst)
    }

    /// Tells the tracer, where there is one.
    pub fn trace(&mut self, event: TraceEvent)
        ensures
            final(self).context == old(self).context,
            final(self).chain_rules == old(self).chain_rules,
            final(self).state_db == old(self).state_db,
            final(self).depth == old(self).depth,
            final(self).abort == old(self).abort,
            final(self).call_gas_temp == old(self).call_gas_temp,
            final(self).origin == old(self).origin,
            final(self).gas_price == old(self).gas_price,
            final(self).enable_preimage_recording == old(self).enable_preimage_recording,
            match old(self).tracer {
                Some(t) => final(self).tracer is Some && final(self).tracer->Some_0.events@
                    == t.events@.push(event),
                None => final(self).tracer is None,
            },
    {
        match &mut self.tracer {
            Some(t) => {
                t.record(event);
            },
            None => {},
        }
    }
}

} // verus!
