//! The byte store that the ledger lives in: `cosmwasm_std::MemoryStorage`, a
//! map from keys to values, both plain bytes.

use vstd::prelude::*;
use cosmwasm_std::MemoryStorage;

verus! {

/// `cosmwasm_std::MemoryStorage`, taken as it is: what a value of it holds is
/// known through `entries` alone.
#[verifier::external_type_specification]
#[verifier::external_body]
pub struct ExMemoryStorage(MemoryStorage);

/// The entries of a store as a mathematical value.
pub type Store = Map<Seq<u8>, Seq<u8>>;

/// What a `cosmwasm_std::MemoryStorage` holds: each key that was written, with
/// the value last written under it.
pub uninterp spec fn entries(storage: MemoryStorage) -> Map<Seq<u8>, Seq<u8>>;

/// `ReadonlyStorage::get` of `MemoryStorage`: a copy of the value under `key`,
/// or `None` where the store has no such key. The store is not changed.
#[verifier::external_body]
pub(crate) fn storage_get(storage: &MemoryStorage, key: &[u8]) -> (value: Option<Vec<u8>>)
    ensures
        match value {
            Some(bytes) => entries(*storage).contains_key(key@) && entries(*storage)[key@]
                == bytes@,
            None => !entries(*storage).contains_key(key@),
        },
{
    cosmwasm_std::ReadonlyStorage::get(storage, key)
}

/// `Storage::set` of `MemoryStorage`: the store holds `value` under `key`, in
/// place of what it held there; every other entry stays as it was.
#[verifier::external_body]
pub(crate) fn storage_set(storage: &mut MemoryStorage, key: &[u8], value: &[u8])
    ensures
        entries(*final(storage)) == entries(*old(storage)).insert(key@, value@),
{
    cosmwasm_std::Storage::set(storage, key, value)
}

} // verus!
