//! The world state that the machine reads and writes: accounts, code,
//! storage, logs and the refund counter, with snapshots to go back to.

use vstd::prelude::*;
use vstd::slice::slice_to_vec;
use crate::assoc::{
    assoc, lemma_assoc_absent, lemma_assoc_get, lemma_assoc_push, lemma_assoc_update, unique,
};
use crate::common::Address;
use crate::int256::{Int256, two_256, wrap};
use crate::int256::bytes::be_value;
use crate::keccak::{keccak256, keccak256_word};

verus! {

/// An account without its code and storage.
#[derive(Clone, Copy, Debug, PartialEq, Eq, Structural)]
pub struct Account {
    pub address: Address,
    pub balance: Int256,
    pub nonce: u64,
    pub suicided: bool,
}

/// What the state knows of an account, the balance as a number.
pub struct AccountData {
    pub balance: nat,
    pub nonce: u64,
    pub suicided: bool,
}

/// The code of one account.
pub struct CodeEntry {
    pub address: Address,
    pub code: Vec<u8>,
}

/// One word of storage of one account.
#[derive(Clone, Copy, Debug, PartialEq, Eq, Structural)]
pub struct StorageSlot {
    pub address: Address,
    pub key: Int256,
    pub value: Int256,
}

/// A log record.
pub struct Log {
    pub address: Address,
    pub topics: Vec<Int256>,
    pub data: Vec<u8>,
    pub block_number: u64,
}

/// A log record as plain values.
pub struct LogData {
    pub address: Address,
    pub topics: Seq<Int256>,
    pub data: Seq<u8>,
    pub block_number: u64,
}

impl View for Log {
    type V = LogData;

    open spec fn view(&self) -> LogData {
        LogData {
            address: self.address,
            topics: self.topics@,
            data: self.data@,
            block_number: self.block_number,
        }
    }
}

/// The state as maps. An account that is not in `accounts` does not exist; a
/// storage word that is not in `storage` is zero; an account that is not in
/// `code` has no code.
#[verifier::ext_equal]
pub struct StateView {
    pub accounts: Map<Address, AccountData>,
    pub code: Map<Address, Seq<u8>>,
    pub storage: Map<(Address, Int256), Int256>,
    pub transient: Map<(Address, Int256), Int256>,
    pub logs: Seq<LogData>,
    pub refund: u64,
}

impl StateView {
    /// The balance of an account; zero for one that does not exist.
    pub open spec fn balance(self, a: Address) -> nat {
        if self.accounts.dom().contains(a) {
            self.accounts[a].balance
        } else {
            0
        }
    }

    /// The nonce of an account; zero for one that does not exist.
    pub open spec fn nonce(self, a: Address) -> u64 {
        if self.accounts.dom().contains(a) {
            self.accounts[a].nonce
        } else {
            0
        }
    }

    /// The account's record, or that of a fresh account.
    pub open spec fn account(self, a: Address) -> AccountData {
        if self.accounts.dom().contains(a) {
            self.accounts[a]
        } else {
            AccountData { balance: 0, nonce: 0, suicided: false }
        }
    }

    /// The code of an account; empty for one that has none.
    pub open spec fn code_of(self, a: Address) -> Seq<u8> {
        if self.code.dom().contains(a) {
            self.code[a]
        } else {
            Seq::empty()
        }
    }

    /// A word of storage; zero where nothing was stored.
    pub open spec fn storage_at(self, a: Address, key: Int256) -> Int256 {
        if self.storage.dom().contains((a, key)) {
            self.storage[(a, key)]
        } else {
            Int256::spec_zero()
        }
    }

    /// A word of transient storage; zero where nothing was stored.
    pub open spec fn transient_at(self, a: Address, key: Int256) -> Int256 {
        if self.transient.dom().contains((a, key)) {
            self.transient[(a, key)]
        } else {
            Int256::spec_zero()
        }
    }

    /// The state after `amount` was added to the balance of an account, modulo
    /// 2^256. The account exists from then on.
    pub open spec fn credit(self, a: Address, amount: nat) -> StateView {
        StateView {
            accounts: self.accounts.insert(
                a,
                AccountData { balance: (self.balance(a) + amount) % two_256(), ..self.account(a) },
            ),
            ..self
        }
    }

    /// The state after `amount` was taken from the balance of an account,
    /// modulo 2^256. The account exists from then on.
    pub open spec fn debit(self, a: Address, amount: nat) -> StateView {
        StateView {
            accounts: self.accounts.insert(
                a,
                AccountData { balance: wrap(self.balance(a) - amount), ..self.account(a) },
            ),
            ..self
        }
    }

    /// The state after an account destroyed itself: an account that exists is
    /// marked and loses its balance.
    pub open spec fn destroy(self, a: Address) -> StateView {
        if self.accounts.dom().contains(a) {
            StateView {
                accounts: self.accounts.insert(
                    a,
                    AccountData { balance: 0, suicided: true, ..self.account(a) },
                ),
                ..self
            }
        } else {
            self
        }
    }

    /// Whether an account is absent or has neither nonce, balance nor code.
    pub open spec fn is_empty(self, a: Address) -> bool {
        !self.accounts.dom().contains(a) || (self.accounts[a].nonce == 0
            && self.accounts[a].balance == 0 && self.code_of(a).len() == 0)
    }
}

pub open spec fn account_keys(s: Seq<Account>) -> Seq<Address> {
    Seq::new(s.len(), |i: int| s[i].address)
}

pub open spec fn account_vals(s: Seq<Account>) -> Seq<AccountData> {
    Seq::new(
        s.len(),
        |i: int| AccountData { balance: s[i].balance@, nonce: s[i].nonce, suicided: s[i].suicided },
    )
}

pub open spec fn code_keys(s: Seq<CodeEntry>) -> Seq<Address> {
    Seq::new(s.len(), |i: int| s[i].address)
}

pub open spec fn code_vals(s: Seq<CodeEntry>) -> Seq<Seq<u8>> {
    Seq::new(s.len(), |i: int| s[i].code@)
}

pub open spec fn slot_keys(s: Seq<StorageSlot>) -> Seq<(Address, Int256)> {
    Seq::new(s.len(), |i: int| (s[i].address, s[i].key))
}

pub open spec fn slot_vals(s: Seq<StorageSlot>) -> Seq<Int256> {
    Seq::new(s.len(), |i: int| s[i].value)
}

pub open spec fn log_views(s: Seq<Log>) -> Seq<LogData> {
    Seq::new(s.len(), |i: int| s[i]@)
}

/// The tables of the state, without logs.
pub struct Tables {
    accounts: Vec<Account>,
    codes: Vec<CodeEntry>,
    storage: Vec<StorageSlot>,
    transient: Vec<StorageSlot>,
    refund: u64,
}

impl Tables {
    pub closed spec fn wf(&self) -> bool {
        &&& unique(account_keys(self.accounts@))
        &&& unique(code_keys(self.codes@))
        &&& unique(slot_keys(self.storage@))
        &&& unique(slot_keys(self.transient@))
    }

    pub closed spec fn view_with(&self, logs: Seq<LogData>) -> StateView {
        StateView {
            accounts: assoc(account_keys(self.accounts@), account_vals(self.accounts@)),
            code: assoc(code_keys(self.codes@), code_vals(self.codes@)),
            storage: assoc(slot_keys(self.storage@), slot_vals(self.storage@)),
            transient: assoc(slot_keys(self.transient@), slot_vals(self.transient@)),
            logs,
            refund: self.refund,
        }
    }

    fn empty() -> (r: Tables)
        ensures
            r.wf(),
            r.view_with(Seq::empty()) == (StateView {
                accounts: Map::empty(),
                code: Map::empty(),
                storage: Map::empty(),
                transient: Map::empty(),
                logs: Seq::empty(),
                refund: 0,
            }),
    {
        let r = Tables {
            accounts: Vec::new(),
            codes: Vec::new(),
            storage: Vec::new(),
            transient: Vec::new(),
            refund: 0,
        };
        proof {
            let v = r.view_with(Seq::empty());
            assert(v.accounts =~= Map::empty());
            assert(v.code =~= Map::empty());
            assert(v.storage =~= Map::empty());
            assert(v.transient =~= Map::empty());
        }
        r
    }

    /// A copy of the tables that shares no memory with them.
    #[verifier::rlimit(50)]
    fn copy(&self) -> (r: Tables)
        requires
            self.wf(),
        ensures
            r.wf(),
            forall|logs: Seq<LogData>| r.view_with(logs) == self.view_with(logs),
    {
        let mut accounts: Vec<Account> = Vec::new();
        let mut i: usize = 0;
        while i < self.accounts.len()
            invariant
                i <= self.accounts@.len(),
                accounts@ == self.accounts@.take(i as int),
            decreases self.accounts@.len() - i,
        {
            accounts.push(self.accounts[i]);
            assert(accounts@ =~= self.accounts@.take(i + 1));
            i = i + 1;
        }
        assert(accounts@ =~= self.accounts@);
        let mut storage: Vec<StorageSlot> = Vec::new();
        let mut i: usize = 0;
        while i < self.storage.len()
            invariant
                i <= self.storage@.len(),
                storage@ == self.storage@.take(i as int),
            decreases self.storage@.len() - i,
        {
            storage.push(self.storage[i]);
            assert(storage@ =~= self.storage@.take(i + 1));
            i = i + 1;
        }
        assert(storage@ =~= self.storage@);
        let mut transient: Vec<StorageSlot> = Vec::new();
        let mut i: usize = 0;
        while i < self.transient.len()
            invariant
                i <= self.transient@.len(),
                transient@ == self.transient@.take(i as int),
            decreases self.transient@.len() - i,
        {
            transient.push(self.transient[i]);
            assert(transient@ =~= self.transient@.take(i + 1));
            i = i + 1;
        }
        assert(transient@ =~= self.transient@);
        let mut codes: Vec<CodeEntry> = Vec::new();
        let mut i: usize = 0;
        while i < self.codes.len()
            invariant
                i <= self.codes@.len(),
                codes@.len() == i,
                forall|k: int|
                    0 <= k < i ==> codes@[k].address == self.codes@[k].address && codes@[k].code@
                        == self.codes@[k].code@,
            decreases self.codes@.len() - i,
        {
            let entry = &self.codes[i];
            codes.push(CodeEntry { address: entry.address, code: slice_to_vec(entry.code.as_slice()) });
            i = i + 1;
        }
        assert(code_keys(codes@) =~= code_keys(self.codes@));
        assert(code_vals(codes@) =~= code_vals(self.codes@));
        Tables { accounts, codes, storage, transient, refund: self.refund }
    }

    fn find_account(&self, a: Address) -> (r: Option<usize>)
        ensures
            match r {
                Some(i) => i < self.accounts@.len() && self.accounts@[i as int].address == a,
                None => forall|i: int|
                    0 <= i < self.accounts@.len() ==> self.accounts@[i].address != a,
            },
    {
        let mut i: usize = 0;
        while i < self.accounts.len()
            invariant
                i <= self.accounts@.len(),
                forall|k: int| 0 <= k < i ==> self.accounts@[k].address != a,
            decreases self.accounts@.len() - i,
        {
            if self.accounts[i].address == a {
                return Some(i);
            }
            i = i + 1;
        }
        None
    }

    fn find_code(&self, a: Address) -> (r: Option<usize>)
        ensures
            match r {
                Some(i) => i < self.codes@.len() && self.codes@[i as int].address == a,
                None => forall|i: int| 0 <= i < self.codes@.len() ==> self.codes@[i].address != a,
            },
    {
        let mut i: usize = 0;
        while i < self.codes.len()
            invariant
                i <= self.codes@.len(),
                forall|k: int| 0 <= k < i ==> self.codes@[k].address != a,
            decreases self.codes@.len() - i,
        {
            if self.codes[i].address == a {
                return Some(i);
            }
            i = i + 1;
        }
        None
    }
}

/// Where a key stands in a list of slots, if anywhere.
fn find_slot(slots: &Vec<StorageSlot>, a: Address, key: Int256) -> (r: Option<usize>)
    ensures
        match r {
            Some(i) => i < slots@.len() && slots@[i as int].address == a && slots@[i as int].key
                == key,
            None => forall|i: int|
                0 <= i < slots@.len() ==> !(slots@[i].address == a && slots@[i].key == key),
        },
{
    let mut i: usize = 0;
    while i < slots.len()
        invariant
            i <= slots@.len(),
            forall|k: int| 0 <= k < i ==> !(slots@[k].address == a && slots@[k].key == key),
        decreases slots@.len() - i,
    {
        if slots[i].address == a && slots[i].key == key {
            return Some(i);
        }
        i = i + 1;
    }
    None
}

/// The value stored under a key in a list of slots; zero where none is.
fn slot_get(slots: &Vec<StorageSlot>, a: Address, key: Int256) -> (r: Int256)
    requires
        unique(slot_keys(slots@)),
    ensures
        r == if assoc(slot_keys(slots@), slot_vals(slots@)).dom().contains((a, key)) {
            assoc(slot_keys(slots@), slot_vals(slots@))[(a, key)]
        } else {
            Int256::spec_zero()
        },
{
    match find_slot(slots, a, key) {
        Some(i) => {
            proof {
                lemma_assoc_get(slot_keys(slots@), slot_vals(slots@), i as int);
                assert(slot_keys(slots@)[i as int] == (a, key));
            }
            slots[i].value
        },
        None => {
            proof {
                lemma_assoc_absent(slot_keys(slots@), slot_vals(slots@), (a, key));
            }
            Int256::zero()
        },
    }
}

/// Stores a value under a key in a list of slots.
#[verifier::rlimit(50)]
fn slot_set(slots: &mut Vec<StorageSlot>, a: Address, key: Int256, value: Int256)
    requires
        unique(slot_keys(old(slots)@)),
    ensures
        unique(slot_keys(final(slots)@)),
        assoc(slot_keys(final(slots)@), slot_vals(final(slots)@)) == assoc(
            slot_keys(old(slots)@),
            slot_vals(old(slots)@),
        ).insert((a, key), value),
{
    let slot = StorageSlot { address: a, key, value };
    match find_slot(slots, a, key) {
        Some(i) => {
            proof {
                lemma_assoc_update(slot_keys(slots@), slot_vals(slots@), i as int, value);
            }
            slots[i] = slot;
            assert(slot_keys(slots@) =~= slot_keys(old(slots)@));
            assert(slot_vals(slots@) =~= slot_vals(old(slots)@).update(i as int, value));
        },
        None => {
            proof {
                lemma_assoc_push(slot_keys(slots@), slot_vals(slots@), (a, key), value);
            }
            slots.push(slot);
            assert(slot_keys(slots@) =~= slot_keys(old(slots)@).push((a, key)));
            assert(slot_vals(slots@) =~= slot_vals(old(slots)@).push(value));
        },
    }
}

impl Tables {
    fn account_get(&self, a: Address) -> (r: Option<Account>)
        requires
            self.wf(),
        ensures
            match r {
                Some(acc) => acc.address == a && self.view_with(Seq::empty()).accounts.dom().contains(
                    a,
                ) && self.view_with(Seq::empty()).accounts[a] == (AccountData {
                    balance: acc.balance@,
                    nonce: acc.nonce,
                    suicided: acc.suicided,
                }),
                None => !self.view_with(Seq::empty()).accounts.dom().contains(a),
            },
    {
        match self.find_account(a) {
            Some(i) => {
                proof {
                    lemma_assoc_get(
                        account_keys(self.accounts@),
                        account_vals(self.accounts@),
                        i as int,
                    );
                    assert(account_keys(self.accounts@)[i as int] == a);
                }
                Some(self.accounts[i])
            },
            None => {
                proof {
                    lemma_assoc_absent(account_keys(self.accounts@), account_vals(self.accounts@), a);
                }
                None
            },
        }
    }

    #[verifier::rlimit(50)]
    fn account_put(&mut self, acc: Account)
        requires
            old(self).wf(),
        ensures
            final(self).wf(),
            forall|logs: Seq<LogData>| #[trigger]
                final(self).view_with(logs) == (StateView {
                    accounts: old(self).view_with(logs).accounts.insert(
                        acc.address,
                        AccountData {
                            balance: acc.balance@,
                            nonce: acc.nonce,
                            suicided: acc.suicided,
                        },
                    ),
                    ..old(self).view_with(logs)
                }),
    {
        let data = Ghost(
            AccountData { balance: acc.balance@, nonce: acc.nonce, suicided: acc.suicided },
        );
        match self.find_account(acc.address) {
            Some(i) => {
                proof {
                    lemma_assoc_update(
                        account_keys(self.accounts@),
                        account_vals(self.accounts@),
                        i as int,
                        data@,
                    );
                }
                self.accounts[i] = acc;
                assert(account_keys(self.accounts@) =~= account_keys(old(self).accounts@));
                assert(account_vals(self.accounts@) =~= account_vals(old(self).accounts@).update(
                    i as int,
                    data@,
                ));
            },
            None => {
                proof {
                    lemma_assoc_push(
                        account_keys(self.accounts@),
                        account_vals(self.accounts@),
                        acc.address,
                        data@,
                    );
                }
                self.accounts.push(acc);
                assert(account_keys(self.accounts@) =~= account_keys(old(self).accounts@).push(
                    acc.address,
                ));
                assert(account_vals(self.accounts@) =~= account_vals(old(self).accounts@).push(
                    data@,
                ));
            },
        }
    }

    fn code_get(&self, a: Address) -> (r: &[u8])
        requires
            self.wf(),
        ensures
            r@ == self.view_with(Seq::empty()).code_of(a),
    {
        match self.find_code(a) {
            Some(i) => {
                proof {
                    lemma_assoc_get(code_keys(self.codes@), code_vals(self.codes@), i as int);
                    assert(code_keys(self.codes@)[i as int] == a);
                }
                self.codes[i].code.as_slice()
            },
            None => {
                proof {
                    lemma_assoc_absent(code_keys(self.codes@), code_vals(self.codes@), a);
                }
                let empty: &[u8] = &[];
                assert(empty@ =~= Seq::<u8>::empty());
                empty
            },
        }
    }

    #[verifier::rlimit(50)]
    fn code_put(&mut self, a: Address, code: Vec<u8>)
        requires
            old(self).wf(),
        ensures
            final(self).wf(),
            forall|logs: Seq<LogData>| #[trigger]
                final(self).view_with(logs) == (StateView {
                    code: old(self).view_with(logs).code.insert(a, code@),
                    ..old(self).view_with(logs)
                }),
    {
        let ghost bytes = code@;
        match self.find_code(a) {
            Some(i) => {
                proof {
                    lemma_assoc_update(code_keys(self.codes@), code_vals(self.codes@), i as int, bytes);
                }
                self.codes[i] = CodeEntry { address: a, code };
                assert(code_keys(self.codes@) =~= code_keys(old(self).codes@));
                assert(code_vals(self.codes@) =~= code_vals(old(self).codes@).update(
                    i as int,
                    bytes,
                ));
            },
            None => {
                proof {
                    lemma_assoc_push(code_keys(self.codes@), code_vals(self.codes@), a, bytes);
                }
                self.codes.push(CodeEntry { address: a, code });
                assert(code_keys(self.codes@) =~= code_keys(old(self).codes@).push(a));
                assert(code_vals(self.codes@) =~= code_vals(old(self).codes@).push(bytes));
            },
        }
    }
}

/// A state to go back to.
struct Snapshot {
    tables: Tables,
    logs_len: usize,
}

/// A hash with the bytes that were hashed.
pub struct Preimage {
    pub hash: Int256,
    pub data: Vec<u8>,
}

/// The world state.
pub struct StateDb {
    tables: Tables,
    logs: Vec<Log>,
    snapshots: Vec<Snapshot>,
    preimages: Vec<Preimage>,
}

impl View for StateDb {
    type V = StateView;

    closed spec fn view(&self) -> StateView {
        self.tables.view_with(log_views(self.logs@))
    }
}

impl StateDb {
    /// The tables hold no key twice, here and in every snapshot.
    pub closed spec fn wf(&self) -> bool {
        &&& self.tables.wf()
        &&& forall|i: int|
            0 <= i < self.snapshots@.len() ==> (#[trigger] self.snapshots@[i]).tables.wf()
                && self.snapshots@[i].logs_len <= self.logs@.len()
        &&& forall|i: int, j: int|
            0 <= i <= j < self.snapshots@.len() ==> (#[trigger] self.snapshots@[i]).logs_len <= (
            #[trigger] self.snapshots@[j]).logs_len
    }

    /// How many snapshots can be gone back to.
    pub closed spec fn snapshot_count(&self) -> nat {
        self.snapshots@.len()
    }

    /// The state that snapshot `i` holds.
    pub closed spec fn snapshot_view(&self, i: int) -> StateView {
        self.snapshots@[i].tables.view_with(
            log_views(self.logs@.take(self.snapshots@[i].logs_len as int)),
        )
    }

    /// How many preimages were recorded.
    pub closed spec fn preimage_count(&self) -> nat {
        self.preimages@.len()
    }

    /// The hash and the bytes of the `i`-th preimage that was recorded.
    pub closed spec fn preimage(&self, i: int) -> (Int256, Seq<u8>) {
        (self.preimages@[i].hash, self.preimages@[i].data@)
    }

    /// Whether `other` holds the snapshots of `self`, all of them and no more.
    pub open spec fn same_snapshots(&self, other: &StateDb) -> bool {
        &&& self.snapshot_count() == other.snapshot_count()
        &&& forall|i: int|
            0 <= i < self.snapshot_count() ==> self.snapshot_view(i) == other.snapshot_view(i)
    }

    /// Whether `self` holds the snapshots of `other` and perhaps more.
    pub open spec fn keeps_snapshots_of(&self, other: &StateDb) -> bool {
        &&& self.snapshot_count() >= other.snapshot_count()
        &&& forall|i: int|
            0 <= i < other.snapshot_count() ==> self.snapshot_view(i) == other.snapshot_view(i)
    }

    /// A state without accounts, code, storage or logs, with no snapshot to go
    /// back to and no preimage recorded.
    pub fn new() -> (r: StateDb)
        ensures
            r.wf(),
            r@ == (StateView {
                accounts: Map::empty(),
                code: Map::empty(),
                storage: Map::empty(),
                transient: Map::empty(),
                logs: Seq::empty(),
                refund: 0,
            }),
            r.snapshot_count() == 0,
            r.preimage_count() == 0,
    {
        let r = StateDb {
            tables: Tables::empty(),
            logs: Vec::new(),
            snapshots: Vec::new(),
            preimages: Vec::new(),
        };
        assert(log_views(r.logs@) =~= Seq::empty());
        r
    }

    /// Whether the account exists.
    pub fn exist(&self, a: Address) -> (r: bool)
        requires
            self.wf(),
        ensures
            r == self@.accounts.dom().contains(a),
    {
        self.tables.account_get(a).is_some()
    }

    /// Whether the account is absent or has neither nonce, balance nor code.
    pub fn empty(&self, a: Address) -> (r: bool)
        requires
            self.wf(),
        ensures
            r == self@.is_empty(a),
    {
        match self.tables.account_get(a) {
            Some(acc) => acc.nonce == 0 && acc.balance.is_zero() && self.tables.code_get(a).len()
                == 0,
            None => true,
        }
    }

    /// The account's record, or that of a fresh account where none exists.
    fn account_or_new(&self, a: Address) -> (r: Account)
        requires
            self.wf(),
        ensures
            r.address == a,
            r.balance@ == self@.account(a).balance,
            r.nonce == self@.account(a).nonce,
            r.suicided == self@.account(a).suicided,
    {
        match self.tables.account_get(a) {
            Some(acc) => acc,
            None => Account { address: a, balance: Int256::zero(), nonce: 0, suicided: false },
        }
    }

    /// Writes an account's record.
    fn put_account(&mut self, acc: Account)
        requires
            old(self).wf(),
        ensures
            final(self).wf(),
            final(self)@ == (StateView {
                accounts: old(self)@.accounts.insert(
                    acc.address,
                    AccountData { balance: acc.balance@, nonce: acc.nonce, suicided: acc.suicided },
                ),
                ..old(self)@
            }),
            final(self).same_snapshots(old(self)),
    {
        self.tables.account_put(acc);
        assert(self.snapshots == old(self).snapshots);
        assert(self.logs == old(self).logs);
    }

    /// Makes the account exist. One that exists stays as it is.
    pub fn create_account(&mut self, a: Address)
        requires
            old(self).wf(),
        ensures
            final(self).wf(),
            final(self)@ == (StateView {
                accounts: old(self)@.accounts.insert(a, old(self)@.account(a)),
                ..old(self)@
            }),
            final(self).same_snapshots(old(self)),
    {
        let acc = self.account_or_new(a);
        self.put_account(acc);
    }

    /// The balance of an account; zero for one that does not exist.
    pub fn get_balance(&self, a: Address) -> (r: Int256)
        requires
            self.wf(),
        ensures
            r@ == self@.balance(a),
    {
        self.account_or_new(a).balance
    }

    /// The nonce of an account; zero for one that does not exist.
    pub fn get_nonce(&self, a: Address) -> (r: u64)
        requires
            self.wf(),
        ensures
            r == self@.nonce(a),
    {
        self.account_or_new(a).nonce
    }

    /// Sets the nonce of an account, which exists from then on.
    pub fn set_nonce(&mut self, a: Address, nonce: u64)
        requires
            old(self).wf(),
        ensures
            final(self).wf(),
            final(self)@ == (StateView {
                accounts: old(self)@.accounts.insert(
                    a,
                    AccountData { nonce, ..old(self)@.account(a) },
                ),
                ..old(self)@
            }),
            final(self).same_snapshots(old(self)),
    {
        let mut acc = self.account_or_new(a);
        acc.nonce = nonce;
        self.put_account(acc);
    }

    /// Adds to the balance of an account, modulo 2^256. The account exists
    /// from then on.
    pub fn add_balance(&mut self, a: Address, amount: &Int256)
        requires
            old(self).wf(),
        ensures
            final(self).wf(),
            final(self)@ == (StateView {
                accounts: old(self)@.accounts.insert(
                    a,
                    AccountData {
                        balance: (old(self)@.balance(a) + amount@) % two_256(),
                        ..old(self)@.account(a)
                    },
                ),
                ..old(self)@
            }),
            final(self).same_snapshots(old(self)),
    {
        let mut acc = self.account_or_new(a);
        acc.balance = acc.balance.add(amount);
        self.put_account(acc);
    }

    /// Takes from the balance of an account, modulo 2^256. The account exists
    /// from then on.
    pub fn sub_balance(&mut self, a: Address, amount: &Int256)
        requires
            old(self).wf(),
        ensures
            final(self).wf(),
            final(self)@ == (StateView {
                accounts: old(self)@.accounts.insert(
                    a,
                    AccountData {
                        balance: wrap(old(self)@.balance(a) - amount@),
                        ..old(self)@.account(a)
                    },
                ),
                ..old(self)@
            }),
            final(self).same_snapshots(old(self)),
    {
        let mut acc = self.account_or_new(a);
        acc.balance = acc.balance.sub(amount);
        self.put_account(acc);
    }

    /// Whether the account has destroyed itself.
    pub fn has_suicided(&self, a: Address) -> (r: bool)
        requires
            self.wf(),
        ensures
            r == self@.account(a).suicided,
    {
        self.account_or_new(a).suicided
    }

    /// Marks an account that exists as destroyed and clears its balance.
    /// Says whether the account exists.
    pub fn suicide(&mut self, a: Address) -> (r: bool)
        requires
            old(self).wf(),
        ensures
            final(self).wf(),
            r == old(self)@.accounts.dom().contains(a),
            final(self)@ == if r {
                StateView {
                    accounts: old(self)@.accounts.insert(
                        a,
                        AccountData { balance: 0, suicided: true, ..old(self)@.account(a) },
                    ),
                    ..old(self)@
                }
            } else {
                old(self)@
            },
            final(self).same_snapshots(old(self)),
    {
        if !self.exist(a) {
            return false;
        }
        let mut acc = self.account_or_new(a);
        acc.balance = Int256::zero();
        acc.suicided = true;
        self.put_account(acc);
        true
    }

    /// A copy of the code of an account; empty for one that has none.
    pub fn get_code(&self, a: Address) -> (r: Vec<u8>)
        requires
            self.wf(),
        ensures
            r@ == self@.code_of(a),
    {
        slice_to_vec(self.tables.code_get(a))
    }

    /// The length of the code of an account.
    pub fn get_code_size(&self, a: Address) -> (r: usize)
        requires
            self.wf(),
        ensures
            r == self@.code_of(a).len(),
    {
        self.tables.code_get(a).len()
    }

    /// The Keccak-256 digest of the code of an account as a word; zero for an
    /// account that does not exist.
    pub fn get_code_hash(&self, a: Address) -> (r: Int256)
        requires
            self.wf(),
        ensures
            r@ == if self@.accounts.dom().contains(a) {
                be_value(keccak256(self@.code_of(a)))
            } else {
                0
            },
    {
        if !self.exist(a) {
            return Int256::zero();
        }
        keccak256_word(self.tables.code_get(a))
    }

    /// Gives an account its code.
    pub fn set_code(&mut self, a: Address, code: Vec<u8>)
        requires
            old(self).wf(),
        ensures
            final(self).wf(),
            final(self)@ == (StateView { code: old(self)@.code.insert(a, code@), ..old(self)@ }),
            final(self).same_snapshots(old(self)),
    {
        self.tables.code_put(a, code);
        assert(self.snapshots == old(self).snapshots);
        assert(self.logs == old(self).logs);
    }

    /// A word of an account's storage; zero where nothing was stored.
    pub fn get_state(&self, a: Address, key: &Int256) -> (r: Int256)
        requires
            self.wf(),
        ensures
            r == self@.storage_at(a, *key),
    {
        slot_get(&self.tables.storage, a, *key)
    }

    /// Stores a word in an account's storage.
    pub fn set_state(&mut self, a: Address, key: &Int256, value: &Int256)
        requires
            old(self).wf(),
        ensures
            final(self).wf(),
            final(self)@ == (StateView {
                storage: old(self)@.storage.insert((a, *key), *value),
                ..old(self)@
            }),
            final(self).same_snapshots(old(self)),
    {
        slot_set(&mut self.tables.storage, a, *key, *value);
        assert(self.snapshots == old(self).snapshots);
        assert(self.logs == old(self).logs);
    }

    /// A word of an account's transient storage; zero where nothing was
    /// stored.
    pub fn get_transient_state(&self, a: Address, key: &Int256) -> (r: Int256)
        requires
            self.wf(),
        ensures
            r == self@.transient_at(a, *key),
    {
        slot_get(&self.tables.transient, a, *key)
    }

    /// Stores a word in an account's transient storage.
    pub fn set_transient_state(&mut self, a: Address, key: &Int256, value: &Int256)
        requires
            old(self).wf(),
        ensures
            final(self).wf(),
            final(self)@ == (StateView {
                transient: old(self)@.transient.insert((a, *key), *value),
                ..old(self)@
            }),
            final(self).same_snapshots(old(self)),
    {
        slot_set(&mut self.tables.transient, a, *key, *value);
        assert(self.snapshots == old(self).snapshots);
        assert(self.logs == old(self).logs);
    }

    /// The refund counter.
    pub fn get_refund(&self) -> (r: u64)
        requires
            self.wf(),
        ensures
            r == self@.refund,
    {
        self.tables.refund
    }

    /// Adds to the refund counter, which stops at the greatest number that
    /// it can hold.
    pub fn add_refund(&mut self, gas: u64)
        requires
            old(self).wf(),
        ensures
            final(self).wf(),
            final(self)@ == (StateView {
                refund: if old(self)@.refund + gas > u64::MAX {
                    u64::MAX
                } else {
                    (old(self)@.refund + gas) as u64
                },
                ..old(self)@
            }),
            final(self).same_snapshots(old(self)),
    {
        let r = self.tables.refund;
        self.tables.refund = if gas > u64::MAX - r {
            u64::MAX
        } else {
            r + gas
        };
        assert(self.snapshots == old(self).snapshots);
        assert(self.logs == old(self).logs);
    }

    /// Takes from the refund counter, which stops at zero.
    pub fn sub_refund(&mut self, gas: u64)
        requires
            old(self).wf(),
        ensures
            final(self).wf(),
            final(self)@ == (StateView {
                refund: if old(self)@.refund < gas {
                    0
                } else {
                    (old(self)@.refund - gas) as u64
                },
                ..old(self)@
            }),
            final(self).same_snapshots(old(self)),
    {
        let r = self.tables.refund;
        self.tables.refund = if r < gas {
            0
        } else {
            r - gas
        };
        assert(self.snapshots == old(self).snapshots);
        assert(self.logs == old(self).logs);
    }

    /// Appends a log record.
    #[verifier::rlimit(50)]
    pub fn add_log(&mut self, log: Log)
        requires
            old(self).wf(),
        ensures
            final(self).wf(),
            final(self)@ == (StateView { logs: old(self)@.logs.push(log@), ..old(self)@ }),
            final(self).same_snapshots(old(self)),
    {
        let ghost entry = log@;
        self.logs.push(log);
        proof {
            assert(log_views(self.logs@) =~= log_views(old(self).logs@).push(entry));
            assert forall|i: int| 0 <= i < self.snapshots@.len() implies self.snapshot_view(i)
                == old(self).snapshot_view(i) by {
                let n = self.snapshots@[i].logs_len as int;
                assert(old(self).snapshots@[i].logs_len <= old(self).logs@.len());
                assert(log_views(self.logs@.take(n)) =~= log_views(old(self).logs@.take(n)));
            }
        }
    }

    /// The log records, oldest first.
    pub fn logs(&self) -> (r: &[Log])
        requires
            self.wf(),
        ensures
            log_views(r@) == self@.logs,
    {
        self.logs.as_slice()
    }

    /// Records the bytes that a hash was computed from.
    pub fn add_preimage(&mut self, hash: Int256, data: Vec<u8>)
        requires
            old(self).wf(),
        ensures
            final(self).wf(),
            final(self)@ == old(self)@,
            final(self).same_snapshots(old(self)),
            final(self).preimage_count() == old(self).preimage_count() + 1,
            final(self).preimage(old(self).preimage_count() as int) == (hash, data@),
            forall|i: int|
                0 <= i < old(self).preimage_count() ==> final(self).preimage(i) == old(
                    self,
                ).preimage(i),
    {
        self.preimages.push(Preimage { hash, data });
        assert(self.snapshots == old(self).snapshots);
        assert(self.logs == old(self).logs);
    }

    /// Keeps the state as it is now, to go back to, and gives the number
    /// under which it is kept.
    #[verifier::rlimit(50)]
    pub fn snapshot(&mut self) -> (id: usize)
        requires
            old(self).wf(),
        ensures
            final(self).wf(),
            id == old(self).snapshot_count(),
            final(self)@ == old(self)@,
            final(self).snapshot_count() == id + 1,
            final(self).snapshot_view(id as int) == old(self)@,
            final(self).keeps_snapshots_of(old(self)),
    {
        let id = self.snapshots.len();
        let snap = Snapshot { tables: self.tables.copy(), logs_len: self.logs.len() };
        self.snapshots.push(snap);
        proof {
            assert(self.logs@.take(self.logs@.len() as int) =~= self.logs@);
            assert forall|i: int| 0 <= i < old(self).snapshots@.len() implies self.snapshot_view(i)
                == old(self).snapshot_view(i) by {
                assert(self.snapshots@[i] == old(self).snapshots@[i]);
            }
            assert forall|i: int, j: int| 0 <= i <= j < self.snapshots@.len() implies (
            #[trigger] self.snapshots@[i]).logs_len <= (#[trigger] self.snapshots@[j]).logs_len by {
                if j < old(self).snapshots@.len() {
                    assert(self.snapshots@[i] == old(self).snapshots@[i]);
                    assert(self.snapshots@[j] == old(self).snapshots@[j]);
                } else if i < j {
                    assert(self.snapshots@[i] == old(self).snapshots@[i]);
                }
            }
        }
        id
    }

    /// Drops snapshot `id` and every later one and keeps the state as it is.
    pub fn discard_snapshot(&mut self, id: usize)
        requires
            old(self).wf(),
            id < old(self).snapshot_count(),
        ensures
            final(self).wf(),
            final(self)@ == old(self)@,
            final(self).snapshot_count() == id,
            old(self).keeps_snapshots_of(final(self)),
    {
        self.snapshots.truncate(id);
        proof {
            assert forall|i: int| 0 <= i < self.snapshots@.len() implies self.snapshot_view(i)
                == old(self).snapshot_view(i) by {
                assert(self.snapshots@[i] == old(self).snapshots@[i]);
            }
        }
    }

    /// Goes back to snapshot `id` and drops it and every later one.
    #[verifier::rlimit(50)]
    pub fn revert_to_snapshot(&mut self, id: usize)
        requires
            old(self).wf(),
            id < old(self).snapshot_count(),
        ensures
            final(self).wf(),
            final(self)@ == old(self).snapshot_view(id as int),
            final(self).snapshot_count() == id,
            old(self).keeps_snapshots_of(final(self)),
    {
        let ghost before = *self;
        let count = self.snapshots.len();
        self.snapshots.truncate(id + 1);
        let snap = self.snapshots.pop().unwrap();
        assert(snap == before.snapshots@[id as int]);
        self.logs.truncate(snap.logs_len);
        self.tables = snap.tables;
        proof {
            let n = snap.logs_len as int;
            assert(self.logs@ =~= before.logs@.take(n));
            assert forall|i: int| 0 <= i < self.snapshots@.len() implies self.snapshot_view(i)
                == before.snapshot_view(i) by {
                assert(self.snapshots@[i] == before.snapshots@[i]);
                let k = self.snapshots@[i].logs_len as int;
                assert(before.snapshots@[i].logs_len <= before.snapshots@[id as int].logs_len);
                assert(self.logs@.take(k) =~= before.logs@.take(k));
            }
        }
    }
}

} // verus!
