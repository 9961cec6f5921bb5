//! The operations of the ledger.
//!
//! Each operation is stated as a function from the entries of the store to the
//! entries that it leaves, or to the error that it fails with. An operation
//! makes every check before it writes anything, so one that fails leaves the
//! store as it found it.

use vstd::prelude::*;
use cosmwasm_std::MemoryStorage;
use crate::codec::{allowance_json, amount_json, encode_amount, state_json, AMOUNT_LABEL, CLOSE};
use crate::error::{ContractError, DebitSite, OverflowSite};
use crate::host::{canonical_form, same_address, Api, Env, Extern};
use crate::keys::{
    allowance_entry_key, allowance_key, balance_entry_key, balance_key, namespaces_are_disjoint,
    state_entry_key, state_key, MAX_NAMESPACE_LEN,
};
use crate::msg::{BalanceResponse, Binary, HandleMsg, InitMsg, QueryMsg};
use crate::state::{
    stored_allowance, stored_balance, stored_state, Allowance, Allowances, Balances,
    CanonicalAddr, HumanAddr, ReadOnlyAllowances, ReadOnlyBalances, State, StateView,
};
use crate::storage::{entries, Store};

verus! {

/// The answer to a message that set the ledger up: it holds nothing.
#[derive(Clone, Copy, Debug, PartialEq, Eq, Structural)]
pub struct InitResponse {}

/// The answer to a message that changed the ledger: it holds nothing.
#[derive(Clone, Copy, Debug, PartialEq, Eq, Structural)]
pub struct HandleResponse {}

/// Whether a call that found the entries `before` met `expected`: on success
/// it left the expected entries, on failure it gave the expected error and
/// left the entries as they were.
pub open spec fn is_outcome<T>(
    expected: Result<Store, ContractError>,
    before: Store,
    after: Store,
    result: Result<T, ContractError>,
) -> bool {
    match expected {
        Ok(store) => result is Ok && after == store,
        Err(e) => result == Err::<T, ContractError>(e) && after == before,
    }
}

/// Whether a store that held a state before a call holds one after it, with
/// the same minter.
pub open spec fn keeps_minter(before: Store, after: Store) -> bool {
    stored_state(before) is Ok ==> stored_state(after) is Ok && stored_state(after)->Ok_0.minter
        == stored_state(before)->Ok_0.minter
}

/// The state that `init` records.
pub open spec fn init_result(store: Store, minter: Seq<char>, total_supply: u128) -> Store {
    store.insert(state_key(), state_json(StateView { minter, total_supply }))
}

/// The balances that a transfer leaves to `from` and to `to`. The sender must
/// hold `amount`; what the recipient holds is read after the sender gave, so an
/// account that sends to itself keeps what it had.
pub open spec fn transferred_balances(store: Store, from: Seq<u8>, to: Seq<u8>, amount: u128)
    -> Result<(u128, u128), ContractError> {
    match stored_balance(store, from) {
        Err(e) => Err(e),
        Ok(from_balance) => if from_balance < amount {
            Err(ContractError::AmountExceedsBalance(DebitSite::Transfer))
        } else {
            let left = (from_balance - amount) as u128;
            match (if to == from {
                Ok(left)
            } else {
                stored_balance(store, to)
            }) {
                Err(e) => Err(e),
                Ok(to_balance) => if to_balance + amount > u128::MAX {
                    Err(ContractError::ArithmeticOverflow(OverflowSite::TransferReceive))
                } else {
                    Ok((left, (to_balance + amount) as u128))
                },
            }
        },
    }
}

/// A transfer of `amount` from `from` to `to`.
pub open spec fn transfer(store: Store, from: Seq<u8>, to: Seq<u8>, amount: u128) -> Result<
    Store,
    ContractError,
> {
    match transferred_balances(store, from, to, amount) {
        Err(e) => Err(e),
        Ok((from_balance, to_balance)) => Ok(
            store.insert(balance_key(from), amount_json(from_balance)).insert(
                balance_key(to),
                amount_json(to_balance),
            ),
        ),
    }
}

/// The balance that a burn leaves to `from`, and the state that it leaves. The
/// balance is checked first, the total supply second.
pub open spec fn burned_amounts(store: Store, from: Seq<u8>, amount: u128) -> Result<
    (u128, StateView),
    ContractError,
> {
    match stored_balance(store, from) {
        Err(e) => Err(e),
        Ok(balance) => if balance < amount {
            Err(ContractError::AmountExceedsBalance(DebitSite::Burn))
        } else {
            match stored_state(store) {
                Err(e) => Err(e),
                Ok(state) => if state.total_supply < amount {
                    Err(ContractError::ArithmeticOverflow(OverflowSite::BurnTotal))
                } else {
                    Ok(
                        (
                            (balance - amount) as u128,
                            StateView {
                                minter: state.minter,
                                total_supply: (state.total_supply - amount) as u128,
                            },
                        ),
                    )
                },
            }
        },
    }
}

/// A burn of `amount` from the balance of `from`.
pub open spec fn burn(store: Store, from: Seq<u8>, amount: u128) -> Result<Store, ContractError> {
    match burned_amounts(store, from, amount) {
        Err(e) => Err(e),
        Ok((balance, state)) => Ok(
            store.insert(balance_key(from), amount_json(balance)).insert(
                state_key(),
                state_json(state),
            ),
        ),
    }
}

/// The permission that is left when `spender` takes `amount` of what `owner`
/// granted. A permission that is missing or switched off gives nothing.
pub open spec fn debited_allowance(store: Store, owner: Seq<u8>, spender: Seq<u8>, amount: u128)
    -> Result<Allowance, ContractError> {
    match stored_allowance(store, owner, spender) {
        Err(e) => Err(e),
        Ok(None) => Err(ContractError::Unauthorized),
        Ok(Some(allowance)) => if !allowance.is_allowed {
            Err(ContractError::Unauthorized)
        } else if allowance.amount < amount {
            Err(ContractError::AmountExceedsAllowance)
        } else {
            Ok(Allowance { is_allowed: true, amount: (allowance.amount - amount) as u128 })
        },
    }
}

/// The debit of `amount` from what `owner` granted to `spender`.
pub open spec fn allowance_debit(store: Store, owner: Seq<u8>, spender: Seq<u8>, amount: u128)
    -> Result<Store, ContractError> {
    match debited_allowance(store, owner, spender, amount) {
        Err(e) => Err(e),
        Ok(allowance) => Ok(
            store.insert(allowance_key(owner, spender), allowance_json(allowance)),
        ),
    }
}

/// The grant of `allowance` by `owner` to `spender`.
pub open spec fn allowance_grant(
    store: Store,
    owner: Seq<u8>,
    spender: Seq<u8>,
    allowance: Allowance,
) -> Store {
    store.insert(allowance_key(owner, spender), allowance_json(allowance))
}

/// A transfer by `spender` on the permission of `from`: the debit, then the
/// transfer.
pub open spec fn transfer_from(
    store: Store,
    spender: Seq<u8>,
    from: Seq<u8>,
    to: Seq<u8>,
    amount: u128,
) -> Result<Store, ContractError> {
    match allowance_debit(store, from, spender, amount) {
        Err(e) => Err(e),
        Ok(debited) => transfer(debited, from, to, amount),
    }
}

/// A burn by `spender` on the permission of `from`: the debit, then the burn.
pub open spec fn burn_from(store: Store, spender: Seq<u8>, from: Seq<u8>, amount: u128) -> Result<
    Store,
    ContractError,
> {
    match allowance_debit(store, from, spender, amount) {
        Err(e) => Err(e),
        Ok(debited) => burn(debited, from, amount),
    }
}

/// The balance that a mint leaves to `recipient`, and the state that it
/// leaves. The recorded minter is compared with the sender by their canonical
/// forms; the balance is checked before the total supply.
pub open spec fn minted_amounts(
    store: Store,
    api: Map<Seq<char>, Seq<u8>>,
    sender: Seq<u8>,
    recipient: Seq<u8>,
    amount: u128,
) -> Result<(u128, StateView), ContractError> {
    match stored_state(store) {
        Err(e) => Err(e),
        Ok(state) => match canonical_form(api, state.minter) {
            Err(e) => Err(e),
            Ok(minter) => if minter != sender {
                Err(ContractError::Unauthorized)
            } else {
                match stored_balance(store, recipient) {
                    Err(e) => Err(e),
                    Ok(balance) => if balance + amount > u128::MAX {
                        Err(ContractError::ArithmeticOverflow(OverflowSite::MintUser))
                    } else if state.total_supply + amount > u128::MAX {
                        Err(ContractError::ArithmeticOverflow(OverflowSite::MintTotal))
                    } else {
                        Ok(
                            (
                                (balance + amount) as u128,
                                StateView {
                                    minter: state.minter,
                                    total_supply: (state.total_supply + amount) as u128,
                                },
                            ),
                        )
                    },
                }
            },
        },
    }
}

/// A mint of `amount` to `recipient`, asked for by `sender`.
pub open spec fn mint(
    store: Store,
    api: Map<Seq<char>, Seq<u8>>,
    sender: Seq<u8>,
    recipient: Seq<u8>,
    amount: u128,
) -> Result<Store, ContractError> {
    match minted_amounts(store, api, sender, recipient, amount) {
        Err(e) => Err(e),
        Ok((balance, state)) => Ok(
            store.insert(balance_key(recipient), amount_json(balance)).insert(
                state_key(),
                state_json(state),
            ),
        ),
    }
}

/// What a message of `sender` does to the entries. Every address is brought
/// to its canonical form first, the sender's before those of the message.
pub open spec fn handle_result(
    store: Store,
    api: Map<Seq<char>, Seq<u8>>,
    sender: Seq<char>,
    msg: HandleMsg,
) -> Result<Store, ContractError> {
    match canonical_form(api, sender) {
        Err(e) => Err(e),
        Ok(caller) => match msg {
            HandleMsg::Transfer { to, amount } => match canonical_form(api, to@) {
                Err(e) => Err(e),
                Ok(to) => transfer(store, caller, to, amount),
            },
            HandleMsg::Burn { amount } => burn(store, caller, amount),
            HandleMsg::SetAllowance { spender, amount, is_allowed } => match canonical_form(
                api,
                spender@,
            ) {
                Err(e) => Err(e),
                Ok(spender) => Ok(
                    allowance_grant(store, caller, spender, Allowance { is_allowed, amount }),
                ),
            },
            HandleMsg::TransferFrom { from, to, amount } => match canonical_form(api, from@) {
                Err(e) => Err(e),
                Ok(from) => match canonical_form(api, to@) {
                    Err(e) => Err(e),
                    Ok(to) => transfer_from(store, caller, from, to, amount),
                },
            },
            HandleMsg::BurnFrom { from, amount } => match canonical_form(api, from@) {
                Err(e) => Err(e),
                Ok(from) => burn_from(store, caller, from, amount),
            },
            HandleMsg::Mint { recipient, amount } => match canonical_form(api, recipient@) {
                Err(e) => Err(e),
                Ok(recipient) => mint(store, api, caller, recipient, amount),
            },
        },
    }
}

/// The keys of the entries that a message of `sender` reads or writes. A
/// message that names an address without a canonical form reads nothing.
pub open spec fn handle_footprint(api: Map<Seq<char>, Seq<u8>>, sender: Seq<char>, msg: HandleMsg)
    -> Seq<Seq<u8>> {
    match canonical_form(api, sender) {
        Err(_) => seq![],
        Ok(caller) => match msg {
            HandleMsg::Transfer { to, amount } => match canonical_form(api, to@) {
                Err(_) => seq![],
                Ok(to) => seq![balance_key(caller), balance_key(to)],
            },
            HandleMsg::Burn { amount } => seq![balance_key(caller), state_key()],
            HandleMsg::SetAllowance { spender, amount, is_allowed } => match canonical_form(
                api,
                spender@,
            ) {
                Err(_) => seq![],
                Ok(spender) => seq![allowance_key(caller, spender)],
            },
            HandleMsg::TransferFrom { from, to, amount } => match canonical_form(api, from@) {
                Err(_) => seq![],
                Ok(from) => match canonical_form(api, to@) {
                    Err(_) => seq![],
                    Ok(to) => seq![
                        allowance_key(from, caller),
                        balance_key(from),
                        balance_key(to),
                    ],
                },
            },
            HandleMsg::BurnFrom { from, amount } => match canonical_form(api, from@) {
                Err(_) => seq![],
                Ok(from) => seq![allowance_key(from, caller), balance_key(from), state_key()],
            },
            HandleMsg::Mint { recipient, amount } => match canonical_form(api, recipient@) {
                Err(_) => seq![],
                Ok(recipient) => seq![state_key(), balance_key(recipient)],
            },
        },
    }
}

/// The keys of the entries that a query reads.
pub open spec fn query_footprint(api: Map<Seq<char>, Seq<u8>>, msg: QueryMsg) -> Seq<Seq<u8>> {
    match msg {
        QueryMsg::GetBalance { user } => match canonical_form(api, user@) {
            Err(_) => seq![],
            Ok(user) => seq![balance_key(user)],
        },
    }
}

/// The keys in `keys`, each as a mathematical value.
pub open spec fn key_views(keys: Seq<Vec<u8>>) -> Seq<Seq<u8>> {
    keys.map_values(|key: Vec<u8>| key@)
}

/// The bytes of the answer to `GetBalance`: `{"amount":` and the amount, then
/// the closing brace.
pub open spec fn balance_response_json(amount: u128) -> Seq<u8> {
    AMOUNT_LABEL@ + amount_json(amount) + seq![CLOSE]
}

/// The answer to a query.
pub open spec fn query_result(store: Store, api: Map<Seq<char>, Seq<u8>>, msg: QueryMsg) -> Result<
    Seq<u8>,
    ContractError,
> {
    match msg {
        QueryMsg::GetBalance { user } => match canonical_form(api, user@) {
            Err(e) => Err(e),
            Ok(user) => match stored_balance(store, user) {
                Err(e) => Err(e),
                Ok(amount) => Ok(balance_response_json(amount)),
            },
        },
    }
}

/// Sets the ledger up: records the minter and the total supply of `msg`, and
/// credits nobody.
pub fn init(deps: &mut Extern, env: Env, msg: InitMsg) -> (response: Result<
    InitResponse,
    ContractError,
>)
    ensures
        response is Ok,
        entries(final(deps).storage) == init_result(
            entries(old(deps).storage),
            msg.minter@,
            msg.total_supply,
        ),
        stored_state(entries(final(deps).storage)) == Ok::<StateView, ContractError>(
            StateView { minter: msg.minter@, total_supply: msg.total_supply },
        ),
        final(deps).api == old(deps).api,
{
    let state = State { minter: msg.minter, total_supply: msg.total_supply };
    State::write(&mut deps.storage).save(&state)?;
    Ok(InitResponse {  })
}

/// Changes the ledger as `msg` says, on behalf of the sender that `env`
/// names.
pub fn handle(deps: &mut Extern, env: Env, msg: HandleMsg) -> (response: Result<
    HandleResponse,
    ContractError,
>)
    ensures
        is_outcome(
            handle_result(entries(old(deps).storage), old(deps).api@, env.message.sender@, msg),
            entries(old(deps).storage),
            entries(final(deps).storage),
            response,
        ),
        final(deps).api == old(deps).api,
        keeps_minter(entries(old(deps).storage), entries(final(deps).storage)),
{
    match msg {
        HandleMsg::Transfer { to, amount } => try_transfer(deps, env, to, amount),
        HandleMsg::Burn { amount } => try_burn(deps, env, amount),
        HandleMsg::SetAllowance { spender, amount, is_allowed } => try_set_allowance(
            deps,
            env,
            spender,
            amount,
            is_allowed,
        ),
        HandleMsg::TransferFrom { from, to, amount } => try_transfer_from(
            deps,
            env,
            from,
            to,
            amount,
        ),
        HandleMsg::BurnFrom { from, amount } => try_burn_from(deps, env, from, amount),
        HandleMsg::Mint { recipient, amount } => try_mint(deps, env, recipient, amount),
    }
}

/// Moves `amount` from the sender to `to`.
pub fn try_transfer(deps: &mut Extern, env: Env, to: HumanAddr, amount: u128) -> (response: Result<
    HandleResponse,
    ContractError,
>)
    ensures
        is_outcome(
            handle_result(
                entries(old(deps).storage),
                old(deps).api@,
                env.message.sender@,
                HandleMsg::Transfer { to, amount },
            ),
            entries(old(deps).storage),
            entries(final(deps).storage),
            response,
        ),
        final(deps).api == old(deps).api,
        keeps_minter(entries(old(deps).storage), entries(final(deps).storage)),
{
    let sender_addr = deps.api.canonical_address(&env.message.sender)?;
    let to = deps.api.canonical_address(&to)?;
    try_transfer_inner(deps, sender_addr, to, amount)?;
    Ok(HandleResponse {  })
}

/// Takes `amount` from the sender's balance and from the total supply.
pub fn try_burn(deps: &mut Extern, env: Env, amount: u128) -> (response: Result<
    HandleResponse,
    ContractError,
>)
    ensures
        is_outcome(
            handle_result(
                entries(old(deps).storage),
                old(deps).api@,
                env.message.sender@,
                HandleMsg::Burn { amount },
            ),
            entries(old(deps).storage),
            entries(final(deps).storage),
            response,
        ),
        final(deps).api == old(deps).api,
        keeps_minter(entries(old(deps).storage), entries(final(deps).storage)),
{
    let sender_addr = deps.api.canonical_address(&env.message.sender)?;
    try_burn_inner(deps, sender_addr, amount)?;
    Ok(HandleResponse {  })
}

/// Puts the permission of `amount` and `is_allowed` in place of whatever the
/// sender granted to `spender` before.
pub fn try_set_allowance(
    deps: &mut Extern,
    env: Env,
    spender: HumanAddr,
    amount: u128,
    is_allowed: bool,
) -> (response: Result<HandleResponse, ContractError>)
    ensures
        is_outcome(
            handle_result(
                entries(old(deps).storage),
                old(deps).api@,
                env.message.sender@,
                HandleMsg::SetAllowance { spender, amount, is_allowed },
            ),
            entries(old(deps).storage),
            entries(final(deps).storage),
            response,
        ),
        final(deps).api == old(deps).api,
        keeps_minter(entries(old(deps).storage), entries(final(deps).storage)),
{
    let sender_addr = deps.api.canonical_address(&env.message.sender)?;
    let spender = deps.api.canonical_address(&spender)?;

    proof {
        namespaces_are_disjoint(spender@, sender_addr@, spender@);
    }
    let mut allowances = Allowances::new(&sender_addr, &mut deps.storage);
    allowances.set(&spender, Allowance { is_allowed, amount })?;
    Ok(HandleResponse {  })
}

/// Moves `amount` from `from` to `to`, on the permission that `from` granted
/// to the sender, which is debited by `amount`.
pub fn try_transfer_from(
    deps: &mut Extern,
    env: Env,
    from: HumanAddr,
    to: HumanAddr,
    amount: u128,
) -> (response: Result<HandleResponse, ContractError>)
    ensures
        is_outcome(
            handle_result(
                entries(old(deps).storage),
                old(deps).api@,
                env.message.sender@,
                HandleMsg::TransferFrom { from, to, amount },
            ),
            entries(old(deps).storage),
            entries(final(deps).storage),
            response,
        ),
        final(deps).api == old(deps).api,
        keeps_minter(entries(old(deps).storage), entries(final(deps).storage)),
{
    let sender_addr = deps.api.canonical_address(&env.message.sender)?;
    let from = deps.api.canonical_address(&from)?;
    let to = deps.api.canonical_address(&to)?;

    let allowance = debited(&deps.storage, &from, &sender_addr, amount)?;
    proof {
        let store = entries(deps.storage);
        let debited_store = store.insert(
            allowance_key(from@, sender_addr@),
            allowance_json(allowance),
        );
        namespaces_are_disjoint(from@, from@, sender_addr@);
        namespaces_are_disjoint(to@, from@, sender_addr@);
        assert(transferred_balances(debited_store, from@, to@, amount) == transferred_balances(
            store,
            from@,
            to@,
            amount,
        ));
    }
    let (from_balance, to_balance) = transferred(&deps.storage, &from, &to, amount)?;

    Allowances::new(&from, &mut deps.storage).set(&sender_addr, allowance)?;
    let mut balances = Balances::new(&mut deps.storage);
    balances.set(&from, from_balance)?;
    balances.set(&to, to_balance)?;

    Ok(HandleResponse {  })
}

/// Takes `amount` from the balance of `from` and from the total supply, on the
/// permission that `from` granted to the sender, which is debited by `amount`.
pub fn try_burn_from(deps: &mut Extern, env: Env, from: HumanAddr, amount: u128) -> (response:
    Result<HandleResponse, ContractError>)
    ensures
        is_outcome(
            handle_result(
                entries(old(deps).storage),
                old(deps).api@,
                env.message.sender@,
                HandleMsg::BurnFrom { from, amount },
            ),
            entries(old(deps).storage),
            entries(final(deps).storage),
            response,
        ),
        final(deps).api == old(deps).api,
        keeps_minter(entries(old(deps).storage), entries(final(deps).storage)),
{
    let sender_addr = deps.api.canonical_address(&env.message.sender)?;
    let from = deps.api.canonical_address(&from)?;

    let allowance = debited(&deps.storage, &from, &sender_addr, amount)?;
    proof {
        let store = entries(deps.storage);
        let debited_store = store.insert(
            allowance_key(from@, sender_addr@),
            allowance_json(allowance),
        );
        namespaces_are_disjoint(from@, from@, sender_addr@);
        assert(burned_amounts(debited_store, from@, amount) == burned_amounts(
            store,
            from@,
            amount,
        ));
    }
    let (balance, state) = burned(&deps.storage, &from, amount)?;

    Allowances::new(&from, &mut deps.storage).set(&sender_addr, allowance)?;
    Balances::new(&mut deps.storage).set(&from, balance)?;
    State::write(&mut deps.storage).save(&state)?;

    Ok(HandleResponse {  })
}

/// Adds `amount` to the balance of `recipient` and to the total supply, where
/// the sender is the recorded minter.
pub fn try_mint(deps: &mut Extern, env: Env, recipient: HumanAddr, amount: u128) -> (response:
    Result<HandleResponse, ContractError>)
    ensures
        is_outcome(
            handle_result(
                entries(old(deps).storage),
                old(deps).api@,
                env.message.sender@,
                HandleMsg::Mint { recipient, amount },
            ),
            entries(old(deps).storage),
            entries(final(deps).storage),
            response,
        ),
        final(deps).api == old(deps).api,
        keeps_minter(entries(old(deps).storage), entries(final(deps).storage)),
{
    let sender_addr = deps.api.canonical_address(&env.message.sender)?;
    let recipient = deps.api.canonical_address(&recipient)?;

    let mut state = State::read(&deps.storage).load()?;
    let minter = deps.api.canonical_address(&state.minter)?;

    if !same_address(&minter, &sender_addr) {
        return Err(ContractError::Unauthorized);
    }

    let recipient_balance = ReadOnlyBalances::new(&deps.storage).get(&recipient)?;
    let new_recipient_balance = match recipient_balance.checked_add(amount) {
        Some(balance) => balance,
        None => {
            return Err(ContractError::ArithmeticOverflow(OverflowSite::MintUser));
        },
    };
    state.total_supply = match state.total_supply.checked_add(amount) {
        Some(total_supply) => total_supply,
        None => {
            return Err(ContractError::ArithmeticOverflow(OverflowSite::MintTotal));
        },
    };

    Balances::new(&mut deps.storage).set(&recipient, new_recipient_balance)?;
    State::write(&mut deps.storage).save(&state)?;

    Ok(HandleResponse {  })
}

/// The balances that a transfer of `amount` from `from` to `to` would leave to
/// the two; nothing is written.
pub fn transferred(storage: &MemoryStorage, from: &CanonicalAddr, to: &CanonicalAddr, amount: u128)
    -> (balances: Result<(u128, u128), ContractError>)
    ensures
        balances == transferred_balances(entries(*storage), from@, to@, amount),
{
    let balances = ReadOnlyBalances::new(storage);

    let sender_balance = balances.get(from)?;
    let sender_new_balance = match sender_balance.checked_sub(amount) {
        Some(balance) => balance,
        None => {
            return Err(ContractError::AmountExceedsBalance(DebitSite::Transfer));
        },
    };

    let to_balance = if same_address(to, from) {
        sender_new_balance
    } else {
        balances.get(to)?
    };
    let recipient_new_balance = match to_balance.checked_add(amount) {
        Some(balance) => balance,
        None => {
            return Err(ContractError::ArithmeticOverflow(OverflowSite::TransferReceive));
        },
    };

    Ok((sender_new_balance, recipient_new_balance))
}

/// Moves `amount` from `from` to `to`.
pub fn try_transfer_inner(
    deps: &mut Extern,
    from: CanonicalAddr,
    to: CanonicalAddr,
    amount: u128,
) -> (done: Result<(), ContractError>)
    ensures
        is_outcome(
            transfer(entries(old(deps).storage), from@, to@, amount),
            entries(old(deps).storage),
            entries(final(deps).storage),
            done,
        ),
        final(deps).api == old(deps).api,
        keeps_minter(entries(old(deps).storage), entries(final(deps).storage)),
{
    let (sender_new_balance, recipient_new_balance) = transferred(
        &deps.storage,
        &from,
        &to,
        amount,
    )?;

    let mut balances = Balances::new(&mut deps.storage);
    balances.set(&from, sender_new_balance)?;
    balances.set(&to, recipient_new_balance)?;

    Ok(())
}

/// The balance and the state that a burn of `amount` from `from` would leave;
/// nothing is written.
pub fn burned(storage: &MemoryStorage, from: &CanonicalAddr, amount: u128) -> (amounts: Result<
    (u128, State),
    ContractError,
>)
    ensures
        match burned_amounts(entries(*storage), from@, amount) {
            Ok((balance, state)) => amounts is Ok && amounts->Ok_0.0 == balance
                && amounts->Ok_0.1@ == state,
            Err(e) => amounts == Err::<(u128, State), ContractError>(e),
        },
{
    let sender_balance = ReadOnlyBalances::new(storage).get(from)?;
    let sender_new_balance = match sender_balance.checked_sub(amount) {
        Some(balance) => balance,
        None => {
            return Err(ContractError::AmountExceedsBalance(DebitSite::Burn));
        },
    };

    let mut state = State::read(storage).load()?;
    state.total_supply = match state.total_supply.checked_sub(amount) {
        Some(total_supply) => total_supply,
        None => {
            return Err(ContractError::ArithmeticOverflow(OverflowSite::BurnTotal));
        },
    };

    Ok((sender_new_balance, state))
}

/// Takes `amount` from the balance of `from` and from the total supply.
pub fn try_burn_inner(deps: &mut Extern, from: CanonicalAddr, amount: u128) -> (done: Result<
    (),
    ContractError,
>)
    ensures
        is_outcome(
            burn(entries(old(deps).storage), from@, amount),
            entries(old(deps).storage),
            entries(final(deps).storage),
            done,
        ),
        final(deps).api == old(deps).api,
        keeps_minter(entries(old(deps).storage), entries(final(deps).storage)),
{
    let (sender_new_balance, state) = burned(&deps.storage, &from, amount)?;

    Balances::new(&mut deps.storage).set(&from, sender_new_balance)?;
    State::write(&mut deps.storage).save(&state)?;

    Ok(())
}

/// The permission that would be left if `allowed_addr` took `amount` of what
/// `owner_addr` granted; nothing is written.
pub fn debited(
    storage: &MemoryStorage,
    owner_addr: &CanonicalAddr,
    allowed_addr: &CanonicalAddr,
    amount: u128,
) -> (left: Result<Allowance, ContractError>)
    requires
        owner_addr@.len() <= MAX_NAMESPACE_LEN,
    ensures
        left == debited_allowance(entries(*storage), owner_addr@, allowed_addr@, amount),
{
    let allowances = ReadOnlyAllowances::new(owner_addr, storage);
    let mut allowance = match allowances.get(allowed_addr)? {
        Some(allowance) => allowance,
        None => {
            return Err(ContractError::Unauthorized);
        },
    };
    if !allowance.is_allowed {
        return Err(ContractError::Unauthorized);
    }
    allowance.amount = match allowance.amount.checked_sub(amount) {
        Some(left) => left,
        None => {
            return Err(ContractError::AmountExceedsAllowance);
        },
    };
    Ok(allowance)
}

/// Debits `amount` from what `owner_addr` granted to `allowed_addr`. The
/// permission must be there and switched on, and hold `amount` at least.
pub fn process_allowance(
    storage: &mut MemoryStorage,
    owner_addr: &CanonicalAddr,
    allowed_addr: &CanonicalAddr,
    amount: u128,
) -> (done: Result<(), ContractError>)
    requires
        owner_addr@.len() <= MAX_NAMESPACE_LEN,
    ensures
        is_outcome(
            allowance_debit(entries(*old(storage)), owner_addr@, allowed_addr@, amount),
            entries(*old(storage)),
            entries(*final(storage)),
            done,
        ),
        keeps_minter(entries(*old(storage)), entries(*final(storage))),
{
    let allowance = debited(storage, owner_addr, allowed_addr, amount)?;

    let mut allowances = Allowances::new(owner_addr, storage);
    allowances.set(allowed_addr, allowance)?;

    Ok(())
}

/// Answers `msg` with the bytes of the answer; the ledger is only read.
pub fn query(deps: &Extern, msg: QueryMsg) -> (answer: Result<Binary, ContractError>)
    ensures
        match query_result(entries(deps.storage), deps.api@, msg) {
            Ok(bytes) => answer is Ok && answer->Ok_0@ == bytes,
            Err(e) => answer == Err::<Binary, ContractError>(e),
        },
{
    match msg {
        QueryMsg::GetBalance { user } => {
            let response = query_balance(deps, user)?;
            let amount = encode_amount(response.amount)?;
            let mut bytes: Vec<u8> = Vec::new();
            bytes.extend_from_slice(&AMOUNT_LABEL);
            bytes.extend_from_slice(amount.as_slice());
            bytes.push(CLOSE);
            assert(bytes@ =~= balance_response_json(response.amount));
            Ok(bytes)
        },
    }
}

/// The balance of `user`: zero for an account that was never credited.
pub fn query_balance(deps: &Extern, user: HumanAddr) -> (response: Result<
    BalanceResponse,
    ContractError,
>)
    ensures
        response == match canonical_form(deps.api@, user@) {
            Err(e) => Err::<BalanceResponse, ContractError>(e),
            Ok(user) => match stored_balance(entries(deps.storage), user) {
                Err(e) => Err(e),
                Ok(amount) => Ok(BalanceResponse { amount }),
            },
        },
{
    let user = deps.api.canonical_address(&user)?;

    let balances = ReadOnlyBalances::new(&deps.storage);
    let balance = balances.get(&user)?;
    Ok(BalanceResponse { amount: balance })
}

/// The keys of the entries that `handle` reads or writes for `msg` of `sender`.
pub fn footprint(api: &Api, sender: &HumanAddr, msg: &HandleMsg) -> (keys: Vec<Vec<u8>>)
    ensures
        key_views(keys@) == handle_footprint(api@, sender@, *msg),
{
    let mut keys: Vec<Vec<u8>> = Vec::new();
    let caller = match api.canonical_address(sender) {
        Ok(caller) => caller,
        Err(_) => {
            assert(key_views(keys@) =~= seq![]);
            return keys;
        },
    };
    match msg {
        HandleMsg::Transfer { to, amount } => {
            if let Ok(to) = api.canonical_address(to) {
                keys.push(balance_entry_key(caller.as_slice()));
                keys.push(balance_entry_key(to.as_slice()));
            }
        },
        HandleMsg::Burn { amount } => {
            keys.push(balance_entry_key(caller.as_slice()));
            keys.push(state_entry_key());
        },
        HandleMsg::SetAllowance { spender, amount, is_allowed } => {
            if let Ok(spender) = api.canonical_address(spender) {
                keys.push(allowance_entry_key(caller.as_slice(), spender.as_slice()));
            }
        },
        HandleMsg::TransferFrom { from, to, amount } => {
            if let Ok(from) = api.canonical_address(from) {
                if let Ok(to) = api.canonical_address(to) {
                    keys.push(allowance_entry_key(from.as_slice(), caller.as_slice()));
                    keys.push(balance_entry_key(from.as_slice()));
                    keys.push(balance_entry_key(to.as_slice()));
                }
            }
        },
        HandleMsg::BurnFrom { from, amount } => {
            if let Ok(from) = api.canonical_address(from) {
                keys.push(allowance_entry_key(from.as_slice(), caller.as_slice()));
                keys.push(balance_entry_key(from.as_slice()));
                keys.push(state_entry_key());
            }
        },
        HandleMsg::Mint { recipient, amount } => {
            if let Ok(recipient) = api.canonical_address(recipient) {
                keys.push(state_entry_key());
                keys.push(balance_entry_key(recipient.as_slice()));
            }
        },
    }
    assert(key_views(keys@) =~= handle_footprint(api@, sender@, *msg));
    keys
}

/// The minter that the store records, where `msg` is a mint and the state can
/// be loaded: the one address that a call has to bring to its canonical form
/// and that its message does not name.
pub fn recorded_minter(storage: &MemoryStorage, msg: &HandleMsg) -> (minter: Option<HumanAddr>)
    ensures
        match minter {
            Some(human) => msg is Mint && stored_state(entries(*storage)) is Ok && stored_state(
                entries(*storage),
            )->Ok_0.minter == human@,
            None => !(msg is Mint) || stored_state(entries(*storage)) is Err,
        },
{
    match msg {
        HandleMsg::Mint { recipient, amount } => match State::read(storage).load() {
            Ok(state) => Some(state.minter),
            Err(_) => None,
        },
        _ => None,
    }
}

/// The keys of the entries that `query` reads for `msg`.
pub fn footprint_of_query(api: &Api, msg: &QueryMsg) -> (keys: Vec<Vec<u8>>)
    ensures
        key_views(keys@) == query_footprint(api@, *msg),
{
    let mut keys: Vec<Vec<u8>> = Vec::new();
    match msg {
        QueryMsg::GetBalance { user } => {
            if let Ok(user) = api.canonical_address(user) {
                keys.push(balance_entry_key(user.as_slice()));
            }
        },
    }
    assert(key_views(keys@) =~= query_footprint(api@, *msg));
    keys
}

} // verus!
