//! The sum of the balances that a store holds, and how writing one entry
//! changes it.

use vstd::prelude::*;
use crate::codec::{amount_from_json, amount_json, amount_round_trip};
use crate::error::ContractError;
use crate::keys::{allowance_key, balance_key, balances_prefix, state_key};
use crate::state::{stored_balance, stored_supply};
use crate::storage::Store;

verus! {

/// Whether `key` is the balance key of some account.
pub open spec fn is_balance_key(key: Seq<u8>) -> bool {
    key.len() >= balances_prefix().len() && key.subrange(0, balances_prefix().len() as int)
        == balances_prefix()
}

/// What the entry under `key` adds to the sum of the balances: the amount that
/// it holds where it is a balance, nothing where it is not, or where the store
/// has no such entry or one that stands for no amount.
pub open spec fn balance_entry(store: Store, key: Seq<u8>) -> nat {
    if is_balance_key(key) && store.contains_key(key) {
        match amount_from_json(store[key]) {
            Some(amount) => amount as nat,
            None => 0,
        }
    } else {
        0
    }
}

/// The sum of what the entries under `keys` add.
pub open spec fn sum_over(store: Store, keys: Set<Seq<u8>>) -> nat
    decreases keys.len(),
{
    if keys.finite() && keys.len() > 0 {
        let key = keys.choose();
        balance_entry(store, key) + sum_over(store, keys.remove(key))
    } else {
        0
    }
}

/// The sum of all balances in `store`.
pub open spec fn sum_of_balances(store: Store) -> nat {
    sum_over(store, store.dom())
}

/// The total supply that `store` records, or zero where it records none, less
/// the sum of its balances: the tokens that were declared and never credited.
pub open spec fn unbacked_supply(store: Store) -> int {
    (match stored_supply(store) {
        Some(supply) => supply as int,
        None => 0,
    }) - sum_of_balances(store)
}

/// Whether the recorded total supply is the sum of the balances.
pub open spec fn supply_is_backed(store: Store) -> bool {
    stored_supply(store) is Some && stored_supply(store)->0 == sum_of_balances(store)
}

/// The balance key of an account is a balance key, and no other key of the
/// ledger is.
pub proof fn balance_keys_are_told_apart(addr: Seq<u8>, owner: Seq<u8>, spender: Seq<u8>)
    ensures
        is_balance_key(balance_key(addr)),
        !is_balance_key(state_key()),
        !is_balance_key(allowance_key(owner, spender)),
{
    let n = balances_prefix().len() as int;
    assert(balance_key(addr).subrange(0, n) =~= balances_prefix());
    assert(balances_prefix()[1] == 8);
    assert(state_key()[1] == 5);
    assert(allowance_key(owner, spender)[1] == 10);
    if is_balance_key(state_key()) {
        assert(state_key().subrange(0, n)[1] == 5);
    }
    if is_balance_key(allowance_key(owner, spender)) {
        assert(allowance_key(owner, spender).subrange(0, n)[1] == 10);
    }
}

/// Any one key can be taken out of a sum.
pub proof fn sum_over_remove(store: Store, keys: Set<Seq<u8>>, key: Seq<u8>)
    requires
        keys.finite(),
        keys.contains(key),
    ensures
        sum_over(store, keys) == balance_entry(store, key) + sum_over(store, keys.remove(key)),
    decreases keys.len(),
{
    let first = keys.choose();
    if first != key {
        sum_over_remove(store, keys.remove(first), key);
        sum_over_remove(store, keys.remove(key), first);
        assert(keys.remove(first).remove(key) =~= keys.remove(key).remove(first));
    }
}

/// Two stores whose entries under `keys` add the same have the same sum there.
pub proof fn sum_over_agrees(a: Store, b: Store, keys: Set<Seq<u8>>)
    requires
        keys.finite(),
        forall|key: Seq<u8>| keys.contains(key) ==> balance_entry(a, key) == balance_entry(b, key),
    ensures
        sum_over(a, keys) == sum_over(b, keys),
    decreases keys.len(),
{
    if keys.len() > 0 {
        let first = keys.choose();
        sum_over_agrees(a, b, keys.remove(first));
    }
}

/// Writing one entry changes the sum by what the entry adds after the write,
/// less what it added before.
pub proof fn sum_after_insert(store: Store, key: Seq<u8>, value: Seq<u8>)
    requires
        store.dom().finite(),
    ensures
        store.insert(key, value).dom().finite(),
        sum_of_balances(store.insert(key, value)) == sum_of_balances(store) - balance_entry(
            store,
            key,
        ) + balance_entry(store.insert(key, value), key),
{
    let after = store.insert(key, value);
    let rest = store.dom().remove(key);
    assert(after.dom() =~= store.dom().insert(key));
    assert(after.dom().remove(key) =~= rest);
    sum_over_remove(after, after.dom(), key);
    sum_over_agrees(after, store, rest);
    if store.dom().contains(key) {
        sum_over_remove(store, store.dom(), key);
    } else {
        assert(rest =~= store.dom());
    }
}

/// Writing a balance changes the sum by the difference to the balance that the
/// account had.
pub proof fn sum_after_balance_write(store: Store, addr: Seq<u8>, before: u128, after: u128)
    requires
        store.dom().finite(),
        stored_balance(store, addr) == Ok::<u128, ContractError>(before),
    ensures
        store.insert(balance_key(addr), amount_json(after)).dom().finite(),
        sum_of_balances(store.insert(balance_key(addr), amount_json(after))) == sum_of_balances(
            store,
        ) - before + after,
{
    balance_keys_are_told_apart(addr, addr, addr);
    amount_round_trip(after);
    sum_after_insert(store, balance_key(addr), amount_json(after));
}

/// Writing an entry that is no balance leaves the sum as it was.
pub proof fn sum_after_other_write(store: Store, key: Seq<u8>, value: Seq<u8>)
    requires
        store.dom().finite(),
        !is_balance_key(key),
    ensures
        store.insert(key, value).dom().finite(),
        sum_of_balances(store.insert(key, value)) == sum_of_balances(store),
{
    sum_after_insert(store, key, value);
}

/// A store without entries has no balances to sum.
pub proof fn sum_of_nothing()
    ensures
        sum_of_balances(Map::<Seq<u8>, Seq<u8>>::empty()) == 0,
{
    assert(Map::<Seq<u8>, Seq<u8>>::empty().dom() =~= Set::<Seq<u8>>::empty());
}

} // verus!
