//! The ledger's entries and the typed views of the store that read and write
//! them.

use vstd::prelude::*;
use cosmwasm_std::MemoryStorage;
use crate::codec::{
    allowance_from_json, allowance_json, amount_from_json, amount_json, decode_allowance,
    decode_amount, decode_state, encode_allowance, encode_amount, encode_state, state_from_json,
    state_json, supply_from_json,
};
use crate::error::ContractError;
use crate::keys::{
    allowance_key, allowances_prefix, balance_key, balances_prefix, prefixed_key, state_entry_key,
    state_key, to_length_prefixed, to_length_prefixed_nested, ALLOWANCES_KEY, BALANCES_KEY,
    MAX_NAMESPACE_LEN,
};
use crate::storage::{entries, storage_get, storage_set, Store};

verus! {

/// A human-readable address, as the host hands it in.
pub type HumanAddr = String;

/// The canonical form of an address: the bytes that identify an account.
pub type CanonicalAddr = Vec<u8>;

/// The one entry that every ledger has: who may mint, and how many tokens
/// are recorded as the total supply.
#[derive(Clone, Debug, PartialEq)]
pub struct State {
    pub minter: HumanAddr,
    pub total_supply: u128,
}

/// A `State` as a mathematical value.
pub ghost struct StateView {
    pub minter: Seq<char>,
    pub total_supply: u128,
}

impl View for State {
    type V = StateView;

    open spec fn view(&self) -> StateView {
        StateView { minter: self.minter@, total_supply: self.total_supply }
    }
}

/// A spending permission: whether the spender may spend at all, and how much
/// is left to spend. One that is switched off lets nothing through, whatever
/// its amount.
#[derive(Clone, Copy, Debug, PartialEq, Eq, Structural)]
pub struct Allowance {
    pub is_allowed: bool,
    pub amount: u128,
}

/// The amount that `store` holds under `key`: nothing stored reads as zero.
pub open spec fn amount_at(store: Store, key: Seq<u8>) -> Result<u128, ContractError> {
    if store.contains_key(key) {
        match amount_from_json(store[key]) {
            Some(amount) => Ok(amount),
            None => Err(ContractError::CodecError),
        }
    } else {
        Ok(0)
    }
}

/// The permission that `store` holds under `key`, if it holds any.
pub open spec fn allowance_at(store: Store, key: Seq<u8>) -> Result<
    Option<Allowance>,
    ContractError,
> {
    if store.contains_key(key) {
        match allowance_from_json(store[key]) {
            Some(allowance) => Ok(Some(allowance)),
            None => Err(ContractError::CodecError),
        }
    } else {
        Ok(None)
    }
}

/// The state that `store` holds under `key`.
pub open spec fn state_at(store: Store, key: Seq<u8>) -> Result<StateView, ContractError> {
    if store.contains_key(key) {
        match state_from_json(store[key]) {
            Some(state) => Ok(state),
            None => Err(ContractError::CodecError),
        }
    } else {
        Err(ContractError::NotFound)
    }
}

/// The balance of `addr` in `store`.
pub open spec fn stored_balance(store: Store, addr: Seq<u8>) -> Result<u128, ContractError> {
    amount_at(store, balance_key(addr))
}

/// The permission that `owner` granted to `spender` in `store`.
pub open spec fn stored_allowance(store: Store, owner: Seq<u8>, spender: Seq<u8>) -> Result<
    Option<Allowance>,
    ContractError,
> {
    allowance_at(store, allowance_key(owner, spender))
}

/// The ledger's state in `store`.
pub open spec fn stored_state(store: Store) -> Result<StateView, ContractError> {
    state_at(store, state_key())
}

/// The total supply that `store` records, whatever its minter reads as.
pub open spec fn stored_supply(store: Store) -> Option<u128> {
    if store.contains_key(state_key()) {
        supply_from_json(store[state_key()])
    } else {
        None
    }
}

/// The one entry of a store that holds a `State`, for reading and writing.
pub struct Singleton<'a> {
    pub storage: &'a mut MemoryStorage,
    pub key: Vec<u8>,
}

/// The one entry of a store that holds a `State`, for reading only.
pub struct ReadonlySingleton<'a> {
    pub storage: &'a MemoryStorage,
    pub key: Vec<u8>,
}

/// The state under `key`.
fn load_state(storage: &MemoryStorage, key: &[u8]) -> (state: Result<State, ContractError>)
    ensures
        match state_at(entries(*storage), key@) {
            Ok(value) => state is Ok && state->Ok_0@ == value,
            Err(e) => state == Err::<State, ContractError>(e),
        },
{
    match storage_get(storage, key) {
        Some(bytes) => decode_state(bytes.as_slice()),
        None => Err(ContractError::NotFound),
    }
}

impl State {
    /// The state entry of `storage`, to be written and read.
    pub fn write<'a>(storage: &'a mut MemoryStorage) -> (entry: Singleton<'a>)
        ensures
            entry.key@ == state_key(),
            *entry.storage == *old(storage),
            *final(entry.storage) == *final(storage),
    {
        Singleton { storage, key: state_entry_key() }
    }

    /// The state entry of `storage`, to be read.
    pub fn read<'a>(storage: &'a MemoryStorage) -> (entry: ReadonlySingleton<'a>)
        ensures
            entry.key@ == state_key(),
            *entry.storage == *storage,
    {
        ReadonlySingleton { storage, key: state_entry_key() }
    }
}

impl<'a> Singleton<'a> {
    /// Writes `data` in place of the state that the entry holds. The bytes
    /// written are read back as `data`.
    pub fn save(&mut self, data: &State) -> (done: Result<(), ContractError>)
        ensures
            done is Ok,
            entries(*final(self).storage) == entries(*old(self).storage).insert(
                old(self).key@,
                state_json(data@),
            ),
            state_from_json(state_json(data@)) == Some(data@),
            final(self).key == old(self).key,
            *final(final(self).storage) == *final(old(self).storage),
    {
        let bytes = encode_state(data)?;
        storage_set(self.storage, self.key.as_slice(), bytes.as_slice());
        Ok(())
    }

    /// Loads the state, hands it to `action`, and writes what `action` gives
    /// in its place. Where the state cannot be loaded, or `action` fails,
    /// nothing is written.
    pub fn update<A: FnOnce(State) -> Result<State, ContractError>>(&mut self, action: A) -> (updated:
        Result<State, ContractError>)
        requires
            forall|input: State| action.requires((input,)),
        ensures
            final(self).key == old(self).key,
            *final(final(self).storage) == *final(old(self).storage),
            match state_at(entries(*old(self).storage), old(self).key@) {
                Err(e) => updated == Err::<State, ContractError>(e) && entries(
                    *final(self).storage,
                ) == entries(*old(self).storage),
                Ok(found) => exists|input: State|
                    input@ == found && #[trigger] action.ensures((input,), updated) && entries(
                        *final(self).storage,
                    ) == match updated {
                        Ok(state) => entries(*old(self).storage).insert(
                            old(self).key@,
                            state_json(state@),
                        ),
                        Err(_) => entries(*old(self).storage),
                    },
            },
    {
        let input = load_state(&*self.storage, self.key.as_slice())?;
        let output = action(input)?;
        self.save(&output)?;
        Ok(output)
    }

    /// The state that the entry holds. `NotFound` where it holds nothing,
    /// `CodecError` where what it holds stands for no state.
    pub fn load(&self) -> (state: Result<State, ContractError>)
        ensures
            match state_at(entries(*old(self.storage)), self.key@) {
                Ok(value) => state is Ok && state->Ok_0@ == value,
                Err(e) => state == Err::<State, ContractError>(e),
            },
    {
        load_state(&*self.storage, self.key.as_slice())
    }
}

impl<'a> ReadonlySingleton<'a> {
    /// The state that the entry holds. `NotFound` where it holds nothing,
    /// `CodecError` where what it holds stands for no state.
    pub fn load(&self) -> (state: Result<State, ContractError>)
        ensures
            match state_at(entries(*self.storage), self.key@) {
                Ok(value) => state is Ok && state->Ok_0@ == value,
                Err(e) => state == Err::<State, ContractError>(e),
            },
    {
        load_state(self.storage, self.key.as_slice())
    }
}

/// The balances of a store, for reading and writing.
pub struct Balances<'a> {
    pub storage: &'a mut MemoryStorage,
    pub prefix: Vec<u8>,
}

impl<'a> Balances<'a> {
    /// The balances of `storage`, under the prefix of their namespace.
    pub fn new(storage: &'a mut MemoryStorage) -> (balances: Self)
        ensures
            balances.prefix@ == balances_prefix(),
            *balances.storage == *old(storage),
            *final(balances.storage) == *final(storage),
    {
        Balances { storage, prefix: to_length_prefixed(&BALANCES_KEY) }
    }

    /// Writes `amount` as the balance of `addr`. A balance of zero is written
    /// like any other.
    pub fn set(&mut self, addr: &CanonicalAddr, amount: u128) -> (done: Result<(), ContractError>)
        ensures
            done is Ok,
            entries(*final(self).storage) == entries(*old(self).storage).insert(
                old(self).prefix@ + addr@,
                amount_json(amount),
            ),
            final(self).prefix == old(self).prefix,
            *final(final(self).storage) == *final(old(self).storage),
    {
        let key = prefixed_key(self.prefix.as_slice(), addr.as_slice());
        let bytes = encode_amount(amount)?;
        storage_set(self.storage, key.as_slice(), bytes.as_slice());
        Ok(())
    }

    /// The balance of `addr`: zero where none was ever written.
    pub fn get(&self, addr: &CanonicalAddr) -> (balance: Result<u128, ContractError>)
        ensures
            balance == amount_at(entries(*old(self.storage)), self.prefix@ + addr@),
    {
        ReadOnlyBalancesImpl(&*self.storage, self.prefix.as_slice()).get(addr)
    }
}

/// The balances of a store, for reading only.
pub struct ReadOnlyBalances<'a> {
    pub storage: &'a MemoryStorage,
    pub prefix: Vec<u8>,
}

impl<'a> ReadOnlyBalances<'a> {
    /// The balances of `storage`, under the prefix of their namespace.
    pub fn new(storage: &'a MemoryStorage) -> (balances: Self)
        ensures
            balances.prefix@ == balances_prefix(),
            *balances.storage == *storage,
    {
        ReadOnlyBalances { storage, prefix: to_length_prefixed(&BALANCES_KEY) }
    }

    /// The balance of `addr`: zero where none was ever written.
    pub fn get(&self, addr: &CanonicalAddr) -> (balance: Result<u128, ContractError>)
        ensures
            balance == amount_at(entries(*self.storage), self.prefix@ + addr@),
    {
        ReadOnlyBalancesImpl(self.storage, self.prefix.as_slice()).get(addr)
    }
}

/// A store and the prefix of its balance keys.
pub struct ReadOnlyBalancesImpl<'a>(pub &'a MemoryStorage, pub &'a [u8]);

impl<'a> ReadOnlyBalancesImpl<'a> {
    /// The amount under the prefix followed by `addr`: zero where the store
    /// has no such key, `CodecError` where its value stands for no amount.
    pub fn get(&self, addr: &CanonicalAddr) -> (balance: Result<u128, ContractError>)
        ensures
            balance == amount_at(entries(*self.0), self.1@ + addr@),
    {
        let key = prefixed_key(self.1, addr.as_slice());
        match storage_get(self.0, key.as_slice()) {
            Some(bytes) => decode_amount(bytes.as_slice()),
            None => Ok(0),
        }
    }
}

/// The spending permissions that one owner granted, for reading and writing.
pub struct Allowances<'a> {
    pub storage: &'a mut MemoryStorage,
    pub prefix: Vec<u8>,
}

impl<'a> Allowances<'a> {
    /// What `owner` granted in `storage`, under the prefix of the namespace
    /// of the permissions and of the owner's own inside it. An owner's
    /// address of more than 0xFFFF bytes has no such prefix.
    pub fn new(owner: &CanonicalAddr, storage: &'a mut MemoryStorage) -> (allowances: Self)
        requires
            owner@.len() <= MAX_NAMESPACE_LEN,
        ensures
            allowances.prefix@ == allowances_prefix(owner@),
            *allowances.storage == *old(storage),
            *final(allowances.storage) == *final(storage),
    {
        Allowances {
            storage,
            prefix: to_length_prefixed_nested(&ALLOWANCES_KEY, owner.as_slice()),
        }
    }

    /// Writes `allowance` in place of whatever the owner granted to `addr`
    /// before.
    pub fn set(&mut self, addr: &CanonicalAddr, allowance: Allowance) -> (done: Result<
        (),
        ContractError,
    >)
        ensures
            done is Ok,
            entries(*final(self).storage) == entries(*old(self).storage).insert(
                old(self).prefix@ + addr@,
                allowance_json(allowance),
            ),
            final(self).prefix == old(self).prefix,
            *final(final(self).storage) == *final(old(self).storage),
    {
        let key = prefixed_key(self.prefix.as_slice(), addr.as_slice());
        let bytes = encode_allowance(&allowance)?;
        storage_set(self.storage, key.as_slice(), bytes.as_slice());
        Ok(())
    }

    /// What the owner granted to `addr`: `None` where nothing was granted.
    pub fn get(&self, addr: &CanonicalAddr) -> (allowance: Result<
        Option<Allowance>,
        ContractError,
    >)
        ensures
            allowance == allowance_at(entries(*old(self.storage)), self.prefix@ + addr@),
    {
        ReadOnlyAllowancesImpl(&*self.storage, self.prefix.as_slice()).get(addr)
    }
}

/// The spending permissions that one owner granted, for reading only.
pub struct ReadOnlyAllowances<'a> {
    pub storage: &'a MemoryStorage,
    pub prefix: Vec<u8>,
}

impl<'a> ReadOnlyAllowances<'a> {
    /// What `owner` granted in `storage`, under the prefix of the namespace
    /// of the permissions and of the owner's own inside it. An owner's
    /// address of more than 0xFFFF bytes has no such prefix.
    pub fn new(owner: &CanonicalAddr, storage: &'a MemoryStorage) -> (allowances: Self)
        requires
            owner@.len() <= MAX_NAMESPACE_LEN,
        ensures
            allowances.prefix@ == allowances_prefix(owner@),
            *allowances.storage == *storage,
    {
        ReadOnlyAllowances {
            storage,
            prefix: to_length_prefixed_nested(&ALLOWANCES_KEY, owner.as_slice()),
        }
    }

    /// What the owner granted to `addr`: `None` where nothing was granted.
    pub fn get(&self, addr: &CanonicalAddr) -> (allowance: Result<
        Option<Allowance>,
        ContractError,
    >)
        ensures
            allowance == allowance_at(entries(*self.storage), self.prefix@ + addr@),
    {
        ReadOnlyAllowancesImpl(self.storage, self.prefix.as_slice()).get(addr)
    }
}

/// A store and the prefix of one owner's permission keys.
pub struct ReadOnlyAllowancesImpl<'a>(pub &'a MemoryStorage, pub &'a [u8]);

impl<'a> ReadOnlyAllowancesImpl<'a> {
    /// The permission under the prefix followed by `addr`: `None` where the
    /// store has no such key, `CodecError` where its value stands for none.
    pub fn get(&self, addr: &CanonicalAddr) -> (allowance: Result<
        Option<Allowance>,
        ContractError,
    >)
        ensures
            allowance == allowance_at(entries(*self.0), self.1@ + addr@),
    {
        let key = prefixed_key(self.1, addr.as_slice());
        match storage_get(self.0, key.as_slice()) {
            Some(bytes) => match decode_allowance(bytes.as_slice()) {
                Ok(allowance) => Ok(Some(allowance)),
                Err(e) => Err(e),
            },
            None => Ok(None),
        }
    }
}

} // verus!
