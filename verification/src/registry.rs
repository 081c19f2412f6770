//! The persistent registry: which addresses have been generated, and the
//! singleton record of usage counters.

use crate::error::WalletError;
use crate::store::{
    store_entries, store_get, store_insert, stores_init, stores_new, StableStore,
    MAX_STORED_BYTES,
};
use vstd::bytes::{
    lemma_auto_spec_u64_to_from_le_bytes, spec_u64_from_le_bytes, spec_u64_to_le_bytes,
    u64_from_le_bytes, u64_to_le_bytes,
};
use vstd::prelude::*;
use vstd::string::{StringExecFns, StringSliceAdditionalSpecFns};
use vstd::utf8::encode_utf8;

verus! {

/// The usage counters of one deployment.
#[derive(Clone, Copy, Debug, PartialEq, Eq, Structural)]
pub struct CounterData {
    /// How many distinct addresses have been generated.
    pub accounts: u64,
    /// How many signing operations have been completed.
    pub transactions: u64,
}

/// The usage counters as they are reported.
#[derive(Clone, Copy, Debug, PartialEq, Eq, Structural)]
pub struct WalletStats {
    pub total_accounts: u64,
    pub total_transactions: u64,
}

/// The virtual memory that holds the counter record.
pub const COUNTERS_MEMORY: u8 = 0;

/// The virtual memory that holds the account markers.
pub const ACCOUNTS_MEMORY: u8 = 1;

/// The counters of a deployment that has recorded nothing yet.
pub open spec fn zero_counters() -> CounterData {
    CounterData { accounts: 0, transactions: 0 }
}

/// The key of the singleton counter record.
pub open spec fn counters_key() -> Seq<char> {
    "counters"@
}

/// The presence marker of a generated account: the ASCII text `generated`.
pub open spec fn generated_marker() -> Seq<u8> {
    seq![103u8, 101u8, 110u8, 101u8, 114u8, 97u8, 116u8, 101u8, 100u8]
}

/// Whether an address is short enough for the store to hold it as a key.
pub open spec fn storable(address: Seq<char>) -> bool {
    encode_utf8(address).len() <= MAX_STORED_BYTES
}

/// The stored form of a counter record: both counters in little-endian
/// order, `accounts` first.
pub open spec fn counter_record(data: CounterData) -> Seq<u8> {
    spec_u64_to_le_bytes(data.accounts) + spec_u64_to_le_bytes(data.transactions)
}

/// The counters that a stored record stands for, if it is one.
pub open spec fn record_counters(bytes: Seq<u8>) -> Option<CounterData> {
    if bytes.len() == 16 {
        Some(
            CounterData {
                accounts: spec_u64_from_le_bytes(bytes.subrange(0, 8)),
                transactions: spec_u64_from_le_bytes(bytes.subrange(8, 16)),
            },
        )
    } else {
        None
    }
}

/// Whether a counter store holds no record, or one that can be read.
pub open spec fn counters_readable(entries: Map<Seq<char>, Seq<u8>>) -> bool {
    entries.dom().contains(counters_key()) ==> record_counters(entries[counters_key()]) is Some
}

/// The counters that a counter store stands for: all zero while it holds no
/// readable record.
pub open spec fn stored_counters(entries: Map<Seq<char>, Seq<u8>>) -> CounterData {
    if entries.dom().contains(counters_key()) {
        match record_counters(entries[counters_key()]) {
            Some(data) => data,
            None => zero_counters(),
        }
    } else {
        zero_counters()
    }
}

/// What a registry holds, as mathematics.
pub struct RegistryView {
    /// The presence marker of every address that has been generated.
    pub accounts: Map<Seq<char>, Seq<u8>>,
    /// The singleton counter record; all zero until one is written.
    pub counters: CounterData,
}

impl RegistryView {
    /// The registry of a fresh deployment.
    pub open spec fn empty() -> RegistryView {
        RegistryView { accounts: Map::empty(), counters: zero_counters() }
    }

    /// Whether `address` has been generated.
    pub open spec fn holds(self, address: Seq<char>) -> bool {
        self.accounts.dom().contains(address)
    }

    /// Whether the `accounts` counter equals the number of addresses held.
    pub open spec fn consistent(self) -> bool {
        self.accounts.dom().finite() && self.accounts.dom().len() == self.counters.accounts
    }

    /// The registry once `address` carries the marker; unchanged where it
    /// carries one already.
    pub open spec fn record(self, address: Seq<char>) -> RegistryView {
        if self.holds(address) {
            self
        } else {
            RegistryView {
                accounts: self.accounts.insert(address, generated_marker()),
                counters: self.counters,
            }
        }
    }

    /// The registry once its counter record is `data`.
    pub open spec fn with_counters(self, data: CounterData) -> RegistryView {
        RegistryView { accounts: self.accounts, counters: data }
    }

    /// Whether `address` can be registered: it is held already, or it is
    /// short enough to be stored and the `accounts` counter can still grow.
    pub open spec fn can_register(self, address: Seq<char>) -> bool {
        self.holds(address) || (storable(address) && self.counters.accounts < u64::MAX)
    }

    /// The registry once `address` is registered: where it is new it carries
    /// the marker and `accounts` has grown by one; where it is held already,
    /// or cannot be registered, nothing has changed.
    pub open spec fn register(self, address: Seq<char>) -> RegistryView {
        if self.holds(address) || !self.can_register(address) {
            self
        } else {
            self.record(address).with_counters(
                CounterData {
                    accounts: (self.counters.accounts + 1) as u64,
                    transactions: self.counters.transactions,
                },
            )
        }
    }

    /// The registry once one more transaction is counted; unchanged where
    /// the counter cannot grow.
    pub open spec fn count_transaction(self) -> RegistryView {
        if self.counters.transactions < u64::MAX {
            self.with_counters(
                CounterData {
                    accounts: self.counters.accounts,
                    transactions: (self.counters.transactions + 1) as u64,
                },
            )
        } else {
            self
        }
    }
}

/// The durable registry of generated accounts and usage counters.
pub struct Registry {
    counters: StableStore,
    accounts: StableStore,
}

impl View for Registry {
    type V = RegistryView;

    closed spec fn view(&self) -> RegistryView {
        RegistryView {
            accounts: store_entries(self.accounts),
            counters: stored_counters(store_entries(self.counters)),
        }
    }
}

/// Decoding a stored counter record gives back the counters that were
/// encoded.
pub proof fn lemma_counter_record_round_trip(data: CounterData)
    ensures
        counter_record(data).len() == 16,
        record_counters(counter_record(data)) == Some(data),
{
    lemma_auto_spec_u64_to_from_le_bytes();
    let low = spec_u64_to_le_bytes(data.accounts);
    let high = spec_u64_to_le_bytes(data.transactions);
    assert(counter_record(data).subrange(0, 8) =~= low);
    assert(counter_record(data).subrange(8, 16) =~= high);
}

/// The key of the counter record is eight bytes long, so it can be stored.
proof fn lemma_counters_key_fits()
    ensures
        encode_utf8(counters_key()).len() == 8,
{
    reveal_strlit("counters");
    let chars = "counters"@;
    assert(vstd::utf8::is_ascii_chars(chars)) by {
        assert(chars.len() == 8);
        assert forall|i: int| 0 <= i < chars.len() implies (chars[i] as u32) < 128 by {
            assert(chars[0] == 'c' && chars[1] == 'o' && chars[2] == 'u' && chars[3] == 'n');
            assert(chars[4] == 't' && chars[5] == 'e' && chars[6] == 'r' && chars[7] == 's');
        }
    }
    vstd::utf8::is_ascii_chars_encode_utf8(chars);
}

/// Encodes a counter record for storage.
pub fn encode_counters(data: CounterData) -> (bytes: Vec<u8>)
    ensures
        bytes@ == counter_record(data),
{
    let mut bytes = u64_to_le_bytes(data.accounts);
    let mut high = u64_to_le_bytes(data.transactions);
    bytes.append(&mut high);
    bytes
}

/// Decodes a stored counter record; `None` where the bytes are not one.
pub fn decode_counters(bytes: &Vec<u8>) -> (data: Option<CounterData>)
    ensures
        data == record_counters(bytes@),
{
    if bytes.len() != 16 {
        return None;
    }
    let low = vstd::slice::slice_subrange(bytes.as_slice(), 0, 8);
    let high = vstd::slice::slice_subrange(bytes.as_slice(), 8, 16);
    Some(CounterData { accounts: u64_from_le_bytes(low), transactions: u64_from_le_bytes(high) })
}

/// Whether an address is short enough for the store to hold it as a key.
pub fn is_storable(address: &str) -> (fits: bool)
    ensures
        fits == storable(address@),
{
    address.as_bytes().len() <= MAX_STORED_BYTES
}

/// The key of the singleton counter record.
fn counters_key_string() -> (key: String)
    ensures
        key@ == counters_key(),
{
    String::from_str("counters")
}

/// The presence marker of a generated account.
fn generated_marker_bytes() -> (marker: Vec<u8>)
    ensures
        marker@ == generated_marker(),
{
    let marker: Vec<u8> = vec![103u8, 101u8, 110u8, 101u8, 114u8, 97u8, 116u8, 101u8, 100u8];
    assert(marker@ =~= generated_marker());
    marker
}

impl Registry {
    /// The invariant of a registry: its counter record, once written, can be
    /// read.
    pub closed spec fn wf(&self) -> bool {
        counters_readable(store_entries(self.counters))
    }

    /// A registry over fresh stores: no address, all counters zero.
    pub fn new() -> (registry: Registry)
        ensures
            registry.wf(),
            registry@ == RegistryView::empty(),
    {
        let (counters, accounts) = stores_new(COUNTERS_MEMORY, ACCOUNTS_MEMORY);
        Registry { counters, accounts }
    }

    /// A registry over stores that may hold earlier records. A counter
    /// record that cannot be read is a storage fault.
    pub fn from_stores(counters: StableStore, accounts: StableStore) -> (opened: Result<
        Registry,
        WalletError,
    >)
        ensures
            match opened {
                Ok(registry) => {
                    &&& counters_readable(store_entries(counters))
                    &&& registry.wf()
                    &&& registry@.accounts == store_entries(accounts)
                    &&& registry@.counters == stored_counters(store_entries(counters))
                },
                Err(error) => error == WalletError::StorageFault && !counters_readable(
                    store_entries(counters),
                ),
            },
    {
        let key = counters_key_string();
        let readable = match store_get(&counters, &key) {
            Some(bytes) => decode_counters(&bytes).is_some(),
            None => true,
        };
        if readable {
            Ok(Registry { counters, accounts })
        } else {
            Err(WalletError::StorageFault)
        }
    }

    /// The registry of this process, over the records that its stable memory
    /// holds: those of an earlier run, or none. To be opened once.
    pub fn init() -> (opened: Result<Registry, WalletError>)
        ensures
            match opened {
                Ok(registry) => registry.wf() && registry@.accounts.dom().finite(),
                Err(error) => error == WalletError::StorageFault,
            },
    {
        let (counters, accounts) = stores_init(COUNTERS_MEMORY, ACCOUNTS_MEMORY);
        Registry::from_stores(counters, accounts)
    }

    /// Whether `address` carries the "generated" marker.
    pub fn account_exists(&self, address: &String) -> (exists: bool)
        ensures
            exists == self@.holds(address@),
    {
        store_get(&self.accounts, address).is_some()
    }

    /// Marks `address` as generated; nothing changes where it already is.
    pub fn mark_account_generated(&mut self, address: String)
        requires
            old(self).wf(),
            storable(address@),
        ensures
            final(self).wf(),
            final(self)@ == old(self)@.record(address@),
    {
        let _ = self.record_new_account_if_absent(address);
    }

    /// Marks `address` as generated if it is not yet, in one step, and says
    /// whether it was new.
    pub fn record_new_account_if_absent(&mut self, address: String) -> (newly_created: bool)
        requires
            old(self).wf(),
            storable(address@),
        ensures
            final(self).wf(),
            newly_created == !old(self)@.holds(address@),
            final(self)@ == old(self)@.record(address@),
    {
        if store_get(&self.accounts, &address).is_none() {
            let _ = store_insert(&mut self.accounts, address, generated_marker_bytes());
            true
        } else {
            false
        }
    }

    /// Registers `address` in one step: where it is new, it is marked as
    /// generated and the `accounts` counter grows by one. Says whether it was
    /// new. An address that cannot be registered is a storage fault, and
    /// leaves the registry as it was.
    pub fn register_account(&mut self, address: String) -> (registered: Result<bool, WalletError>)
        requires
            old(self).wf(),
        ensures
            final(self).wf(),
            final(self)@ == old(self)@.register(address@),
            match registered {
                Ok(newly_created) => old(self)@.can_register(address@) && newly_created
                    == !old(self)@.holds(address@),
                Err(error) => error == WalletError::StorageFault && !old(self)@.can_register(
                    address@,
                ),
            },
    {
        let counters = get_counters(self);
        if !is_storable(address.as_str()) || counters.accounts == u64::MAX {
            return if self.account_exists(&address) {
                Ok(false)
            } else {
                Err(WalletError::StorageFault)
            };
        }
        let newly_created = self.record_new_account_if_absent(address);
        if newly_created {
            update_counters(
                self,
                CounterData {
                    accounts: counters.accounts + 1,
                    transactions: counters.transactions,
                },
            );
        }
        Ok(newly_created)
    }

    /// Counts one more transaction and returns the new total. A counter that
    /// cannot grow is a storage fault, and leaves the registry as it was.
    pub fn count_transaction(&mut self) -> (counted: Result<u64, WalletError>)
        requires
            old(self).wf(),
        ensures
            final(self).wf(),
            final(self)@ == old(self)@.count_transaction(),
            match counted {
                Ok(total) => old(self)@.counters.transactions < u64::MAX && total
                    == old(self)@.counters.transactions + 1,
                Err(error) => error == WalletError::StorageFault
                    && old(self)@.counters.transactions == u64::MAX,
            },
    {
        let counters = get_counters(self);
        if counters.transactions == u64::MAX {
            return Err(WalletError::StorageFault);
        }
        let total = counters.transactions + 1;
        update_counters(self, CounterData { accounts: counters.accounts, transactions: total });
        Ok(total)
    }
}

/// The singleton counter record; all zero before the first write.
pub fn get_counters(registry: &Registry) -> (data: CounterData)
    ensures
        data == registry@.counters,
{
    let key = counters_key_string();
    match store_get(&registry.counters, &key) {
        Some(bytes) => match decode_counters(&bytes) {
            Some(data) => data,
            None => CounterData { accounts: 0, transactions: 0 },
        },
        None => CounterData { accounts: 0, transactions: 0 },
    }
}

/// Overwrites the singleton counter record with `data`.
pub fn update_counters(registry: &mut Registry, data: CounterData)
    ensures
        final(registry).wf(),
        final(registry)@ == old(registry)@.with_counters(data),
{
    proof {
        lemma_counters_key_fits();
        lemma_counter_record_round_trip(data);
    }
    let key = counters_key_string();
    let _ = store_insert(&mut registry.counters, key, encode_counters(data));
}

/// How many distinct addresses have been generated.
pub fn get_total_accounts(registry: &Registry) -> (total: u64)
    ensures
        total == registry@.counters.accounts,
{
    get_counters(registry).accounts
}

/// How many transactions have been counted.
pub fn get_total_transactions(registry: &Registry) -> (total: u64)
    ensures
        total == registry@.counters.transactions,
{
    get_counters(registry).transactions
}

/// Both usage counters.
pub fn get_wallet_stats(registry: &Registry) -> (stats: WalletStats)
    ensures
        stats.total_accounts == registry@.counters.accounts,
        stats.total_transactions == registry@.counters.transactions,
{
    let counters = get_counters(registry);
    WalletStats { total_accounts: counters.accounts, total_transactions: counters.transactions }
}

} // verus!
