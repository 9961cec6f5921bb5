//! What each operation does to the balances, the permissions and the state,
//! as they are read from the store.

use vstd::prelude::*;
use crate::codec::{
    allowance_round_trip, amount_json, amount_round_trip, state_json, supply_of_state,
    supply_round_trip,
};
use crate::contract::{
    allowance_debit, allowance_grant, balance_response_json, burn, burn_from, burned_amounts,
    debited_allowance, init_result, mint, minted_amounts, query_result, transfer, transfer_from,
    transferred_balances,
};
use crate::error::{ContractError, DebitSite};
use crate::host::canonical_form;
use crate::keys::{
    allowance_key, allowance_key_is_injective, balance_key, balance_key_is_injective,
    namespaces_are_disjoint, state_key, MAX_NAMESPACE_LEN,
};
use crate::msg::QueryMsg;
use crate::state::{
    stored_allowance, stored_balance, stored_state, stored_supply, Allowance, StateView,
};
use crate::storage::Store;

verus! {

/// A balance that was written is the balance that is read; the balance of
/// every other account, every permission and the state stay what they were.
pub proof fn balance_write_is_read(
    store: Store,
    addr: Seq<u8>,
    amount: u128,
    other: Seq<u8>,
    owner: Seq<u8>,
    spender: Seq<u8>,
)
    ensures
        stored_balance(store.insert(balance_key(addr), amount_json(amount)), addr) == Ok::<
            u128,
            ContractError,
        >(amount),
        other != addr ==> stored_balance(
            store.insert(balance_key(addr), amount_json(amount)),
            other,
        ) == stored_balance(store, other),
        stored_allowance(store.insert(balance_key(addr), amount_json(amount)), owner, spender)
            == stored_allowance(store, owner, spender),
        stored_state(store.insert(balance_key(addr), amount_json(amount))) == stored_state(store),
        stored_supply(store.insert(balance_key(addr), amount_json(amount))) == stored_supply(
            store,
        ),
{
    amount_round_trip(amount);
    namespaces_are_disjoint(addr, owner, spender);
    if other != addr && balance_key(other) == balance_key(addr) {
        balance_key_is_injective(other, addr);
    }
}

/// A permission that was written is the permission that is read; every other
/// permission, every balance and the state stay what they were.
pub proof fn allowance_write_is_read(
    store: Store,
    owner: Seq<u8>,
    spender: Seq<u8>,
    allowance: Allowance,
    other_owner: Seq<u8>,
    other_spender: Seq<u8>,
    addr: Seq<u8>,
)
    requires
        owner.len() <= MAX_NAMESPACE_LEN,
        other_owner.len() <= MAX_NAMESPACE_LEN,
    ensures
        stored_allowance(allowance_grant(store, owner, spender, allowance), owner, spender) == Ok::<
            Option<Allowance>,
            ContractError,
        >(Some(allowance)),
        other_owner != owner || other_spender != spender ==> stored_allowance(
            allowance_grant(store, owner, spender, allowance),
            other_owner,
            other_spender,
        ) == stored_allowance(store, other_owner, other_spender),
        stored_balance(allowance_grant(store, owner, spender, allowance), addr) == stored_balance(
            store,
            addr,
        ),
        stored_state(allowance_grant(store, owner, spender, allowance)) == stored_state(store),
        stored_supply(allowance_grant(store, owner, spender, allowance)) == stored_supply(store),
{
    allowance_round_trip(allowance);
    namespaces_are_disjoint(addr, owner, spender);
    if allowance_key(other_owner, other_spender) == allowance_key(owner, spender) {
        allowance_key_is_injective(other_owner, other_spender, owner, spender);
    }
}

/// A state that was written records its total supply; every balance and
/// every permission stay what they were.
pub proof fn state_write_is_read(
    store: Store,
    state: StateView,
    addr: Seq<u8>,
    owner: Seq<u8>,
    spender: Seq<u8>,
)
    ensures
        stored_supply(store.insert(state_key(), state_json(state))) == Some(state.total_supply),
        stored_balance(store.insert(state_key(), state_json(state)), addr) == stored_balance(
            store,
            addr,
        ),
        stored_allowance(store.insert(state_key(), state_json(state)), owner, spender)
            == stored_allowance(store, owner, spender),
{
    supply_round_trip(state);
    namespaces_are_disjoint(addr, owner, spender);
}

/// A store that holds a state records the total supply of that state.
pub proof fn state_records_supply(store: Store)
    requires
        stored_state(store) is Ok,
    ensures
        stored_supply(store) == Some(stored_state(store)->Ok_0.total_supply),
{
    supply_of_state(store[state_key()]);
}

/// Setting the ledger up records the declared supply, and changes no balance
/// and no permission.
pub proof fn init_records_the_supply(
    store: Store,
    minter: Seq<char>,
    total_supply: u128,
    addr: Seq<u8>,
    owner: Seq<u8>,
    spender: Seq<u8>,
)
    ensures
        stored_supply(init_result(store, minter, total_supply)) == Some(total_supply),
        stored_balance(init_result(store, minter, total_supply), addr) == stored_balance(
            store,
            addr,
        ),
        stored_allowance(init_result(store, minter, total_supply), owner, spender)
            == stored_allowance(store, owner, spender),
{
    state_write_is_read(store, StateView { minter, total_supply }, addr, owner, spender);
}

/// A transfer that succeeds takes the amount from the sender, who held it,
/// and gives it to the recipient. The balance of every other account, every
/// permission and the state stay what they were.
pub proof fn transfer_moves_the_amount(
    store: Store,
    from: Seq<u8>,
    to: Seq<u8>,
    amount: u128,
    other: Seq<u8>,
    owner: Seq<u8>,
    spender: Seq<u8>,
)
    requires
        transfer(store, from, to, amount) is Ok,
    ensures
        stored_balance(store, from) is Ok,
        stored_balance(store, to) is Ok,
        amount <= stored_balance(store, from)->Ok_0,
        from != to ==> stored_balance(transfer(store, from, to, amount)->Ok_0, from) == Ok::<
            u128,
            ContractError,
        >((stored_balance(store, from)->Ok_0 - amount) as u128),
        from != to ==> stored_balance(transfer(store, from, to, amount)->Ok_0, to) == Ok::<
            u128,
            ContractError,
        >((stored_balance(store, to)->Ok_0 + amount) as u128),
        from != to ==> stored_balance(store, to)->Ok_0 + amount <= u128::MAX,
        from == to ==> stored_balance(transfer(store, from, to, amount)->Ok_0, from)
            == stored_balance(store, from),
        other != from && other != to ==> stored_balance(
            transfer(store, from, to, amount)->Ok_0,
            other,
        ) == stored_balance(store, other),
        stored_allowance(transfer(store, from, to, amount)->Ok_0, owner, spender)
            == stored_allowance(store, owner, spender),
        stored_state(transfer(store, from, to, amount)->Ok_0) == stored_state(store),
        stored_supply(transfer(store, from, to, amount)->Ok_0) == stored_supply(store),
{
    let (left, gained) = transferred_balances(store, from, to, amount)->Ok_0;
    let debited = store.insert(balance_key(from), amount_json(left));
    balance_write_is_read(store, from, left, to, owner, spender);
    balance_write_is_read(store, from, left, other, owner, spender);
    balance_write_is_read(debited, to, gained, from, owner, spender);
    balance_write_is_read(debited, to, gained, other, owner, spender);
}

/// An account that sends to itself keeps its balance, where it holds the
/// amount; where it does not, the transfer fails.
pub proof fn self_transfer_keeps_balance(store: Store, addr: Seq<u8>, amount: u128)
    requires
        stored_balance(store, addr) is Ok,
    ensures
        amount <= stored_balance(store, addr)->Ok_0 ==> transfer(store, addr, addr, amount) is Ok
            && stored_balance(transfer(store, addr, addr, amount)->Ok_0, addr) == stored_balance(
            store,
            addr,
        ) && transfer(store, addr, addr, amount)->Ok_0 == store.insert(
            balance_key(addr),
            amount_json(stored_balance(store, addr)->Ok_0),
        ),
        amount > stored_balance(store, addr)->Ok_0 ==> transfer(store, addr, addr, amount) == Err::<
            Store,
            ContractError,
        >(ContractError::AmountExceedsBalance(DebitSite::Transfer)),
{
    let had = stored_balance(store, addr)->Ok_0;
    if amount <= had {
        let after = transfer(store, addr, addr, amount)->Ok_0;
        amount_round_trip(had);
        assert(after =~= store.insert(balance_key(addr), amount_json(had)));
    }
}

/// A burn that succeeds takes the amount from the balance of the account,
/// which held it, and from the recorded supply, which held it too. The balance
/// of every other account and every permission stay what they were.
pub proof fn burn_takes_the_amount(
    store: Store,
    from: Seq<u8>,
    amount: u128,
    other: Seq<u8>,
    owner: Seq<u8>,
    spender: Seq<u8>,
)
    requires
        burn(store, from, amount) is Ok,
    ensures
        stored_balance(store, from) is Ok,
        stored_supply(store) is Some,
        amount <= stored_balance(store, from)->Ok_0,
        amount <= stored_supply(store)->0,
        stored_balance(burn(store, from, amount)->Ok_0, from) == Ok::<u128, ContractError>(
            (stored_balance(store, from)->Ok_0 - amount) as u128,
        ),
        stored_supply(burn(store, from, amount)->Ok_0) == Some(
            (stored_supply(store)->0 - amount) as u128,
        ),
        other != from ==> stored_balance(burn(store, from, amount)->Ok_0, other)
            == stored_balance(store, other),
        stored_allowance(burn(store, from, amount)->Ok_0, owner, spender) == stored_allowance(
            store,
            owner,
            spender,
        ),
{
    let (left, state) = burned_amounts(store, from, amount)->Ok_0;
    let debited = store.insert(balance_key(from), amount_json(left));
    state_records_supply(store);
    balance_write_is_read(store, from, left, other, owner, spender);
    state_write_is_read(debited, state, from, owner, spender);
    state_write_is_read(debited, state, other, owner, spender);
}

/// A mint that succeeds was asked for by the recorded minter, and adds the
/// amount to the balance of the recipient and to the recorded supply. The
/// balance of every other account and every permission stay what they were.
pub proof fn mint_adds_the_amount(
    store: Store,
    api: Map<Seq<char>, Seq<u8>>,
    sender: Seq<u8>,
    recipient: Seq<u8>,
    amount: u128,
    other: Seq<u8>,
    owner: Seq<u8>,
    spender: Seq<u8>,
)
    requires
        mint(store, api, sender, recipient, amount) is Ok,
    ensures
        stored_state(store) is Ok,
        canonical_form(api, stored_state(store)->Ok_0.minter) == Ok::<Seq<u8>, ContractError>(
            sender,
        ),
        stored_balance(store, recipient) is Ok,
        stored_supply(store) is Some,
        stored_balance(store, recipient)->Ok_0 + amount <= u128::MAX,
        stored_supply(store)->0 + amount <= u128::MAX,
        stored_balance(mint(store, api, sender, recipient, amount)->Ok_0, recipient) == Ok::<
            u128,
            ContractError,
        >((stored_balance(store, recipient)->Ok_0 + amount) as u128),
        stored_supply(mint(store, api, sender, recipient, amount)->Ok_0) == Some(
            (stored_supply(store)->0 + amount) as u128,
        ),
        other != recipient ==> stored_balance(
            mint(store, api, sender, recipient, amount)->Ok_0,
            other,
        ) == stored_balance(store, other),
        stored_allowance(mint(store, api, sender, recipient, amount)->Ok_0, owner, spender)
            == stored_allowance(store, owner, spender),
{
    let (raised, state) = minted_amounts(store, api, sender, recipient, amount)->Ok_0;
    let credited = store.insert(balance_key(recipient), amount_json(raised));
    state_records_supply(store);
    balance_write_is_read(store, recipient, raised, other, owner, spender);
    state_write_is_read(credited, state, recipient, owner, spender);
    state_write_is_read(credited, state, other, owner, spender);
}

/// A debit that succeeds found a permission that was switched on and held the
/// amount, and leaves it switched on with the amount taken. Every other
/// permission, every balance and the state stay what they were.
pub proof fn debit_takes_from_the_allowance(
    store: Store,
    owner: Seq<u8>,
    spender: Seq<u8>,
    amount: u128,
    other_owner: Seq<u8>,
    other_spender: Seq<u8>,
    addr: Seq<u8>,
)
    requires
        owner.len() <= MAX_NAMESPACE_LEN,
        other_owner.len() <= MAX_NAMESPACE_LEN,
        allowance_debit(store, owner, spender, amount) is Ok,
    ensures
        stored_allowance(store, owner, spender) matches Ok(Some(granted)) && granted.is_allowed
            && amount <= granted.amount && stored_allowance(
            allowance_debit(store, owner, spender, amount)->Ok_0,
            owner,
            spender,
        ) == Ok::<Option<Allowance>, ContractError>(
            Some(Allowance { is_allowed: true, amount: (granted.amount - amount) as u128 }),
        ),
        other_owner != owner || other_spender != spender ==> stored_allowance(
            allowance_debit(store, owner, spender, amount)->Ok_0,
            other_owner,
            other_spender,
        ) == stored_allowance(store, other_owner, other_spender),
        stored_balance(allowance_debit(store, owner, spender, amount)->Ok_0, addr)
            == stored_balance(store, addr),
        stored_state(allowance_debit(store, owner, spender, amount)->Ok_0) == stored_state(store),
        stored_supply(allowance_debit(store, owner, spender, amount)->Ok_0) == stored_supply(
            store,
        ),
{
    let left = debited_allowance(store, owner, spender, amount)->Ok_0;
    allowance_write_is_read(store, owner, spender, left, other_owner, other_spender, addr);
}

/// A transfer on a permission that succeeds debits the permission and moves
/// the amount: it does what the debit does to the permissions and what the
/// transfer does to the balances.
pub proof fn transfer_from_debits_and_moves(
    store: Store,
    spender: Seq<u8>,
    from: Seq<u8>,
    to: Seq<u8>,
    amount: u128,
    other: Seq<u8>,
    other_owner: Seq<u8>,
    other_spender: Seq<u8>,
)
    requires
        from.len() <= MAX_NAMESPACE_LEN,
        other_owner.len() <= MAX_NAMESPACE_LEN,
        transfer_from(store, spender, from, to, amount) is Ok,
    ensures
        allowance_debit(store, from, spender, amount) is Ok,
        transfer(store, from, to, amount) is Ok,
        stored_allowance(
            transfer_from(store, spender, from, to, amount)->Ok_0,
            other_owner,
            other_spender,
        ) == stored_allowance(
            allowance_debit(store, from, spender, amount)->Ok_0,
            other_owner,
            other_spender,
        ),
        stored_balance(transfer_from(store, spender, from, to, amount)->Ok_0, other)
            == stored_balance(transfer(store, from, to, amount)->Ok_0, other),
        stored_state(transfer_from(store, spender, from, to, amount)->Ok_0) == stored_state(store),
        stored_supply(transfer_from(store, spender, from, to, amount)->Ok_0) == stored_supply(
            store,
        ),
{
    let debited = allowance_debit(store, from, spender, amount)->Ok_0;
    debit_takes_from_the_allowance(store, from, spender, amount, other_owner, other_spender, from);
    debit_takes_from_the_allowance(store, from, spender, amount, other_owner, other_spender, to);
    debit_takes_from_the_allowance(store, from, spender, amount, other_owner, other_spender, other);
    assert(transferred_balances(debited, from, to, amount) == transferred_balances(
        store,
        from,
        to,
        amount,
    ));
    transfer_moves_the_amount(debited, from, to, amount, other, other_owner, other_spender);
    transfer_moves_the_amount(store, from, to, amount, other, other_owner, other_spender);
}

/// A burn on a permission that succeeds debits the permission and burns the
/// amount: it does what the debit does to the permissions and what the burn
/// does to the balances and to the recorded supply.
pub proof fn burn_from_debits_and_burns(
    store: Store,
    spender: Seq<u8>,
    from: Seq<u8>,
    amount: u128,
    other: Seq<u8>,
    other_owner: Seq<u8>,
    other_spender: Seq<u8>,
)
    requires
        from.len() <= MAX_NAMESPACE_LEN,
        other_owner.len() <= MAX_NAMESPACE_LEN,
        burn_from(store, spender, from, amount) is Ok,
    ensures
        allowance_debit(store, from, spender, amount) is Ok,
        burn(store, from, amount) is Ok,
        stored_allowance(
            burn_from(store, spender, from, amount)->Ok_0,
            other_owner,
            other_spender,
        ) == stored_allowance(
            allowance_debit(store, from, spender, amount)->Ok_0,
            other_owner,
            other_spender,
        ),
        stored_balance(burn_from(store, spender, from, amount)->Ok_0, other) == stored_balance(
            burn(store, from, amount)->Ok_0,
            other,
        ),
        stored_supply(burn_from(store, spender, from, amount)->Ok_0) == stored_supply(
            burn(store, from, amount)->Ok_0,
        ),
{
    let debited = allowance_debit(store, from, spender, amount)->Ok_0;
    debit_takes_from_the_allowance(store, from, spender, amount, other_owner, other_spender, from);
    debit_takes_from_the_allowance(store, from, spender, amount, other_owner, other_spender, other);
    assert(burned_amounts(debited, from, amount) == burned_amounts(store, from, amount));
    burn_takes_the_amount(debited, from, amount, other, other_owner, other_spender);
    burn_takes_the_amount(store, from, amount, other, other_owner, other_spender);
}

/// An account that the store holds no balance for has a balance of zero, and
/// a query for it is answered with zero. Right after the ledger was set up on
/// a store without entries, this is every account.
pub proof fn never_credited_reads_zero(
    store: Store,
    api: Map<Seq<char>, Seq<u8>>,
    msg: QueryMsg,
    addr: Seq<u8>,
    minter: Seq<char>,
    total_supply: u128,
)
    ensures
        !store.contains_key(balance_key(addr)) ==> stored_balance(store, addr) == Ok::<
            u128,
            ContractError,
        >(0),
        msg matches QueryMsg::GetBalance { user } && canonical_form(api, user@) == Ok::<
            Seq<u8>,
            ContractError,
        >(addr) && !store.contains_key(balance_key(addr)) ==> query_result(store, api, msg) == Ok::<
            Seq<u8>,
            ContractError,
        >(balance_response_json(0)),
        stored_balance(
            init_result(Map::<Seq<u8>, Seq<u8>>::empty(), minter, total_supply),
            addr,
        ) == Ok::<u128, ContractError>(0),
{
    namespaces_are_disjoint(addr, addr, addr);
}

} // verus!
