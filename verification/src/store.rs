//! The durable key-value maps that back the registry.

use ic_stable_structures::memory_manager::{MemoryId, MemoryManager, VirtualMemory};
use ic_stable_structures::{DefaultMemoryImpl, StableBTreeMap};
use vstd::prelude::*;
use vstd::utf8::encode_utf8;

verus! {

/// The longest key or value, in bytes, whose length the stored format can record.
pub const MAX_STORED_BYTES: usize = 0xFFFF_FFFF;

/// The one id that no virtual memory can have.
pub const UNUSABLE_MEMORY: u8 = 255;

/// An ordered durable map from text keys to byte values, kept in stable
/// memory: a `StableBTreeMap<String, Vec<u8>, _>` over a virtual memory of the
/// default memory. The verifier does not look inside; all it knows of a store
/// is what the functions below say of `store_entries`. They hold of stores
/// that share no memory: on a host whose default memory is one per process,
/// the stores are to be opened once.
#[verifier::external_body]
pub struct StableStore {
    map: StableBTreeMap<String, Vec<u8>, VirtualMemory<DefaultMemoryImpl>>,
}

/// The key-value pairs that a store holds.
pub uninterp spec fn store_entries(store: StableStore) -> Map<Seq<char>, Seq<u8>>;

/// `MemoryManager::init` on the default memory, then `StableBTreeMap::new` on
/// two of its virtual memories: two stores that hold nothing. Whatever the
/// memories held before is discarded. `MemoryId::new` refuses the id 255.
#[verifier::external_body]
pub(crate) fn stores_new(first: u8, second: u8) -> (stores: (StableStore, StableStore))
    requires
        first != second,
        first != UNUSABLE_MEMORY,
        second != UNUSABLE_MEMORY,
    ensures
        store_entries(stores.0) =~= Map::empty(),
        store_entries(stores.1) =~= Map::empty(),
{
    let manager = MemoryManager::init(DefaultMemoryImpl::default());
    (
        StableStore { map: StableBTreeMap::new(manager.get(MemoryId::new(first))) },
        StableStore { map: StableBTreeMap::new(manager.get(MemoryId::new(second))) },
    )
}

/// `MemoryManager::init` on the default memory, then `StableBTreeMap::init` on
/// two of its virtual memories: two stores that hold what was written there
/// before, or nothing where the memory is fresh. Only that each holds finitely
/// many pairs is known of them. `MemoryId::new` refuses the id 255.
#[verifier::external_body]
pub(crate) fn stores_init(first: u8, second: u8) -> (stores: (StableStore, StableStore))
    requires
        first != second,
        first != UNUSABLE_MEMORY,
        second != UNUSABLE_MEMORY,
    ensures
        store_entries(stores.0).dom().finite(),
        store_entries(stores.1).dom().finite(),
{
    let manager = MemoryManager::init(DefaultMemoryImpl::default());
    (
        StableStore { map: StableBTreeMap::init(manager.get(MemoryId::new(first))) },
        StableStore { map: StableBTreeMap::init(manager.get(MemoryId::new(second))) },
    )
}

/// `StableBTreeMap::get`: the value stored under `key`, if the key is present.
#[verifier::external_body]
pub(crate) fn store_get(store: &StableStore, key: &String) -> (value: Option<Vec<u8>>)
    ensures
        match value {
            Some(bytes) => store_entries(*store).dom().contains(key@) && bytes@ == store_entries(
                *store,
            )[key@],
            None => !store_entries(*store).dom().contains(key@),
        },
{
    store.map.get(key)
}

/// `StableBTreeMap::insert`: afterwards `key` maps to `value` and every other
/// key is as before; the value that `key` had is returned. The stored format
/// records lengths in 32 bits, so longer keys and values are left out.
#[verifier::external_body]
pub(crate) fn store_insert(store: &mut StableStore, key: String, value: Vec<u8>) -> (previous:
    Option<Vec<u8>>)
    requires
        encode_utf8(key@).len() <= MAX_STORED_BYTES,
        value@.len() <= MAX_STORED_BYTES,
    ensures
        store_entries(*final(store)) == store_entries(*old(store)).insert(key@, value@),
        match previous {
            Some(bytes) => store_entries(*old(store)).dom().contains(key@) && bytes@
                == store_entries(*old(store))[key@],
            None => !store_entries(*old(store)).dom().contains(key@),
        },
{
    store.map.insert(key, value)
}

} // verus!
