//! The recorded supply and the sum of the balances: what an operation adds to
//! one, or takes from it, it adds to the other, or takes from it.

use vstd::prelude::*;
use crate::codec::{
    allowance_json, allowance_round_trip, amount_json, state_json, supply_of_state,
    supply_round_trip,
};
use crate::contract::{
    allowance_debit, allowance_grant, burn, burned_amounts, debited_allowance, handle_result,
    init_result, mint, transfer, transferred_balances,
};
use crate::error::ContractError;
use crate::host::canonical_form;
use crate::keys::{allowance_key, balance_key, namespaces_are_disjoint, state_key};
use crate::laws::effects::balance_write_is_read;
use crate::msg::HandleMsg;
use crate::state::{
    stored_allowance, stored_balance, stored_state, stored_supply, Allowance, StateView,
};
use crate::storage::Store;
use crate::supply::{
    balance_keys_are_told_apart, sum_after_balance_write, sum_after_other_write, sum_of_balances,
    sum_of_nothing, supply_is_backed, unbacked_supply,
};

verus! {

/// A transfer that succeeds leaves the sum of the balances and the recorded
/// supply as they were.
pub proof fn transfer_conserves(store: Store, from: Seq<u8>, to: Seq<u8>, amount: u128)
    requires
        store.dom().finite(),
        transfer(store, from, to, amount) is Ok,
    ensures
        transfer(store, from, to, amount)->Ok_0.dom().finite(),
        sum_of_balances(transfer(store, from, to, amount)->Ok_0) == sum_of_balances(store),
        stored_supply(transfer(store, from, to, amount)->Ok_0) == stored_supply(store),
{
    let had = stored_balance(store, from)->Ok_0;
    let (left, gained) = transferred_balances(store, from, to, amount)->Ok_0;
    let debited = store.insert(balance_key(from), amount_json(left));
    sum_after_balance_write(store, from, had, left);
    balance_write_is_read(store, from, left, to, from, to);
    let held = stored_balance(debited, to)->Ok_0;
    sum_after_balance_write(debited, to, held, gained);
    balance_write_is_read(debited, to, gained, to, from, to);
}

/// A burn that succeeds takes the amount from the sum of the balances and from
/// the recorded supply alike.
pub proof fn burn_conserves(store: Store, from: Seq<u8>, amount: u128)
    requires
        store.dom().finite(),
        burn(store, from, amount) is Ok,
    ensures
        burn(store, from, amount)->Ok_0.dom().finite(),
        stored_supply(store) is Some,
        stored_supply(burn(store, from, amount)->Ok_0) == Some(
            (stored_supply(store)->0 - amount) as u128,
        ),
        stored_supply(store)->0 >= amount,
        sum_of_balances(burn(store, from, amount)->Ok_0) == sum_of_balances(store) - amount,
{
    let had = stored_balance(store, from)->Ok_0;
    let (left, state) = burned_amounts(store, from, amount)->Ok_0;
    let debited = store.insert(balance_key(from), amount_json(left));
    supply_of_state(store[state_key()]);
    sum_after_balance_write(store, from, had, left);
    balance_keys_are_told_apart(from, from, from);
    sum_after_other_write(debited, state_key(), state_json(state));
    supply_round_trip(state);
}

/// A mint that succeeds adds the amount to the sum of the balances and to the
/// recorded supply alike.
pub proof fn mint_conserves(
    store: Store,
    api: Map<Seq<char>, Seq<u8>>,
    sender: Seq<u8>,
    recipient: Seq<u8>,
    amount: u128,
)
    requires
        store.dom().finite(),
        mint(store, api, sender, recipient, amount) is Ok,
    ensures
        mint(store, api, sender, recipient, amount)->Ok_0.dom().finite(),
        stored_supply(store) is Some,
        stored_supply(mint(store, api, sender, recipient, amount)->Ok_0) == Some(
            (stored_supply(store)->0 + amount) as u128,
        ),
        stored_supply(store)->0 + amount <= u128::MAX,
        sum_of_balances(mint(store, api, sender, recipient, amount)->Ok_0) == sum_of_balances(
            store,
        ) + amount,
{
    let had = stored_balance(store, recipient)->Ok_0;
    let state = stored_state(store)->Ok_0;
    let raised = StateView {
        minter: state.minter,
        total_supply: (state.total_supply + amount) as u128,
    };
    let credited = store.insert(balance_key(recipient), amount_json((had + amount) as u128));
    supply_of_state(store[state_key()]);
    sum_after_balance_write(store, recipient, had, (had + amount) as u128);
    balance_keys_are_told_apart(recipient, recipient, recipient);
    sum_after_other_write(credited, state_key(), state_json(raised));
    supply_round_trip(raised);
}

/// Writing a permission changes no balance and not the state.
pub proof fn allowance_write_conserves(
    store: Store,
    owner: Seq<u8>,
    spender: Seq<u8>,
    allowance: Allowance,
    addr: Seq<u8>,
)
    ensures
        stored_balance(allowance_grant(store, owner, spender, allowance), addr) == stored_balance(
            store,
            addr,
        ),
        stored_state(allowance_grant(store, owner, spender, allowance)) == stored_state(store),
        stored_supply(allowance_grant(store, owner, spender, allowance)) == stored_supply(store),
        stored_allowance(allowance_grant(store, owner, spender, allowance), owner, spender) == Ok::<
            Option<Allowance>,
            ContractError,
        >(Some(allowance)),
        store.dom().finite() ==> allowance_grant(store, owner, spender, allowance).dom().finite()
            && sum_of_balances(allowance_grant(store, owner, spender, allowance))
            == sum_of_balances(store),
{
    namespaces_are_disjoint(addr, owner, spender);
    allowance_round_trip(allowance);
    balance_keys_are_told_apart(addr, owner, spender);
    if store.dom().finite() {
        sum_after_other_write(store, allowance_key(owner, spender), allowance_json(allowance));
    }
}

/// A debit of a permission changes no balance and not the state.
pub proof fn allowance_debit_conserves(
    store: Store,
    owner: Seq<u8>,
    spender: Seq<u8>,
    amount: u128,
    addr: Seq<u8>,
)
    requires
        allowance_debit(store, owner, spender, amount) is Ok,
    ensures
        stored_balance(allowance_debit(store, owner, spender, amount)->Ok_0, addr)
            == stored_balance(store, addr),
        stored_state(allowance_debit(store, owner, spender, amount)->Ok_0) == stored_state(store),
        stored_supply(allowance_debit(store, owner, spender, amount)->Ok_0) == stored_supply(
            store,
        ),
        store.dom().finite() ==> allowance_debit(store, owner, spender, amount)->Ok_0.dom().finite()
            && sum_of_balances(allowance_debit(store, owner, spender, amount)->Ok_0)
            == sum_of_balances(store),
{
    let left = debited_allowance(store, owner, spender, amount)->Ok_0;
    allowance_write_conserves(store, owner, spender, left, addr);
}

/// Every message that succeeds leaves the unbacked supply as it was: what it
/// adds to the recorded supply, or takes from it, it adds to the balances, or
/// takes from them.
pub proof fn handle_conserves(
    store: Store,
    api: Map<Seq<char>, Seq<u8>>,
    sender: Seq<char>,
    msg: HandleMsg,
)
    requires
        store.dom().finite(),
        handle_result(store, api, sender, msg) is Ok,
    ensures
        handle_result(store, api, sender, msg)->Ok_0.dom().finite(),
        unbacked_supply(handle_result(store, api, sender, msg)->Ok_0) == unbacked_supply(store),
        stored_supply(store) is Some ==> stored_supply(handle_result(store, api, sender, msg)->Ok_0)
            is Some,
{
    let caller = canonical_form(api, sender)->Ok_0;
    match msg {
        HandleMsg::Transfer { to, amount } => {
            transfer_conserves(store, caller, canonical_form(api, to@)->Ok_0, amount);
        },
        HandleMsg::Burn { amount } => {
            burn_conserves(store, caller, amount);
        },
        HandleMsg::SetAllowance { spender, amount, is_allowed } => {
            allowance_write_conserves(
                store,
                caller,
                canonical_form(api, spender@)->Ok_0,
                Allowance { is_allowed, amount },
                caller,
            );
        },
        HandleMsg::TransferFrom { from, to, amount } => {
            let from = canonical_form(api, from@)->Ok_0;
            let to = canonical_form(api, to@)->Ok_0;
            allowance_debit_conserves(store, from, caller, amount, from);
            transfer_conserves(
                allowance_debit(store, from, caller, amount)->Ok_0,
                from,
                to,
                amount,
            );
        },
        HandleMsg::BurnFrom { from, amount } => {
            let from = canonical_form(api, from@)->Ok_0;
            allowance_debit_conserves(store, from, caller, amount, from);
            burn_conserves(allowance_debit(store, from, caller, amount)->Ok_0, from, amount);
        },
        HandleMsg::Mint { recipient, amount } => {
            mint_conserves(store, api, caller, canonical_form(api, recipient@)->Ok_0, amount);
        },
    }
}

/// Setting the ledger up records the declared supply and credits nobody.
pub proof fn init_credits_nobody(store: Store, minter: Seq<char>, total_supply: u128)
    requires
        store.dom().finite(),
    ensures
        init_result(store, minter, total_supply).dom().finite(),
        stored_supply(init_result(store, minter, total_supply)) == Some(total_supply),
        sum_of_balances(init_result(store, minter, total_supply)) == sum_of_balances(store),
        forall|addr: Seq<u8>| #[trigger]
            stored_balance(init_result(store, minter, total_supply), addr) == stored_balance(
                store,
                addr,
            ),
{
    let state = StateView { minter, total_supply };
    balance_keys_are_told_apart(Seq::empty(), Seq::empty(), Seq::empty());
    sum_after_other_write(store, state_key(), state_json(state));
    supply_round_trip(state);
    assert forall|addr: Seq<u8>| #[trigger]
        stored_balance(init_result(store, minter, total_supply), addr) == stored_balance(
            store,
            addr,
        ) by {
        namespaces_are_disjoint(addr, addr, addr);
    }
}

/// One message with its sender.
pub ghost struct Call {
    pub sender: Seq<char>,
    pub msg: HandleMsg,
}

/// The entries that a run of calls leaves: each call works on what the calls
/// before it left, and one that fails leaves the entries as it found them.
pub open spec fn after_calls(store: Store, api: Map<Seq<char>, Seq<u8>>, calls: Seq<Call>) -> Store
    decreases calls.len(),
{
    if calls.len() == 0 {
        store
    } else {
        let before = after_calls(store, api, calls.drop_last());
        match handle_result(before, api, calls.last().sender, calls.last().msg) {
            Ok(after) => after,
            Err(_) => before,
        }
    }
}

/// No run of calls changes the unbacked supply. So where the recorded supply
/// is the sum of the balances before a run, it is after it.
pub proof fn calls_conserve(store: Store, api: Map<Seq<char>, Seq<u8>>, calls: Seq<Call>)
    requires
        store.dom().finite(),
    ensures
        after_calls(store, api, calls).dom().finite(),
        unbacked_supply(after_calls(store, api, calls)) == unbacked_supply(store),
        stored_supply(store) is Some ==> stored_supply(after_calls(store, api, calls)) is Some,
        supply_is_backed(store) ==> supply_is_backed(after_calls(store, api, calls)),
    decreases calls.len(),
{
    if calls.len() > 0 {
        calls_conserve(store, api, calls.drop_last());
        let before = after_calls(store, api, calls.drop_last());
        if handle_result(before, api, calls.last().sender, calls.last().msg) is Ok {
            handle_conserves(before, api, calls.last().sender, calls.last().msg);
        }
    }
}

/// In a ledger that was set up on a store without entries, with a total
/// supply of zero, the recorded supply is the sum of the balances after every
/// run of calls.
pub proof fn supply_is_sum_of_balances(
    minter: Seq<char>,
    api: Map<Seq<char>, Seq<u8>>,
    calls: Seq<Call>,
)
    ensures
        supply_is_backed(
            after_calls(init_result(Map::<Seq<u8>, Seq<u8>>::empty(), minter, 0), api, calls),
        ),
{
    let nothing = Map::<Seq<u8>, Seq<u8>>::empty();
    sum_of_nothing();
    init_credits_nobody(nothing, minter, 0);
    calls_conserve(init_result(nothing, minter, 0), api, calls);
}

} // verus!
