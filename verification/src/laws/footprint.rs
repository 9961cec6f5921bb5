//! The entries that a call reads and writes, and why a call may work on a
//! copy of them.

use vstd::prelude::*;
use crate::codec::{allowance_json, amount_json, state_json};
use crate::contract::{
    allowance_debit, burn, burned_amounts, debited_allowance, handle_footprint, handle_result,
    mint, minted_amounts, query_footprint, query_result, transfer, transferred_balances,
};
use crate::error::ContractError;
use crate::host::canonical_form;
use crate::keys::{allowance_key, balance_key, state_key};
use crate::msg::{HandleMsg, QueryMsg};
use crate::state::Allowance;
use crate::storage::Store;

verus! {

/// Whether two stores hold the same under each of `keys`.
pub open spec fn agree_on(a: Store, b: Store, keys: Seq<Seq<u8>>) -> bool {
    forall|key: Seq<u8>| #[trigger]
        keys.contains(key) ==> a.contains_key(key) == b.contains_key(key) && a[key] == b[key]
}

/// The store `host` with what `copy` holds under `keys` in place of what it
/// held there itself.
pub open spec fn written_back(host: Store, copy: Store, keys: Seq<Seq<u8>>) -> Store {
    Map::new(
        |key: Seq<u8>|
            if keys.contains(key) {
                copy.contains_key(key)
            } else {
                host.contains_key(key)
            },
        |key: Seq<u8>|
            if keys.contains(key) {
                copy[key]
            } else {
                host[key]
            },
    )
}

/// Writing back a copy that holds what the store holds changes nothing.
pub proof fn written_back_unchanged(host: Store, copy: Store, keys: Seq<Seq<u8>>)
    requires
        agree_on(host, copy, keys),
    ensures
        written_back(host, copy, keys) == host,
{
    assert(written_back(host, copy, keys) =~= host);
}

/// An entry of the footprint that is written to the copy and then written
/// back is written to the store.
pub proof fn written_back_insert(
    host: Store,
    copy: Store,
    keys: Seq<Seq<u8>>,
    key: Seq<u8>,
    value: Seq<u8>,
)
    requires
        keys.contains(key),
    ensures
        written_back(host, copy.insert(key, value), keys) == written_back(host, copy, keys).insert(
            key,
            value,
        ),
{
    assert(written_back(host, copy.insert(key, value), keys) =~= written_back(
        host,
        copy,
        keys,
    ).insert(key, value));
}

/// A transfer reads the balances of the two accounts and nothing else, and
/// writes nothing else.
pub proof fn transfer_works_on_a_copy(
    host: Store,
    copy: Store,
    keys: Seq<Seq<u8>>,
    from: Seq<u8>,
    to: Seq<u8>,
    amount: u128,
)
    requires
        agree_on(host, copy, keys),
        keys.contains(balance_key(from)),
        keys.contains(balance_key(to)),
    ensures
        match transfer(copy, from, to, amount) {
            Err(e) => transfer(host, from, to, amount) == Err::<Store, ContractError>(e),
            Ok(after) => transfer(host, from, to, amount) == Ok::<Store, ContractError>(
                written_back(host, after, keys),
            ),
        },
{
    assert(transferred_balances(host, from, to, amount) == transferred_balances(
        copy,
        from,
        to,
        amount,
    ));
    if transferred_balances(copy, from, to, amount) is Ok {
        let (left, gained) = transferred_balances(copy, from, to, amount)->Ok_0;
        let debited = copy.insert(balance_key(from), amount_json(left));
        written_back_unchanged(host, copy, keys);
        written_back_insert(host, copy, keys, balance_key(from), amount_json(left));
        written_back_insert(host, debited, keys, balance_key(to), amount_json(gained));
    }
}

/// A burn reads the balance of the account and the state and nothing else,
/// and writes nothing else.
pub proof fn burn_works_on_a_copy(
    host: Store,
    copy: Store,
    keys: Seq<Seq<u8>>,
    from: Seq<u8>,
    amount: u128,
)
    requires
        agree_on(host, copy, keys),
        keys.contains(balance_key(from)),
        keys.contains(state_key()),
    ensures
        match burn(copy, from, amount) {
            Err(e) => burn(host, from, amount) == Err::<Store, ContractError>(e),
            Ok(after) => burn(host, from, amount) == Ok::<Store, ContractError>(
                written_back(host, after, keys),
            ),
        },
{
    assert(burned_amounts(host, from, amount) == burned_amounts(copy, from, amount));
    if burned_amounts(copy, from, amount) is Ok {
        let (left, state) = burned_amounts(copy, from, amount)->Ok_0;
        let debited = copy.insert(balance_key(from), amount_json(left));
        written_back_unchanged(host, copy, keys);
        written_back_insert(host, copy, keys, balance_key(from), amount_json(left));
        written_back_insert(host, debited, keys, state_key(), state_json(state));
    }
}

/// A mint reads the state and the balance of the recipient and nothing else,
/// and writes nothing else.
pub proof fn mint_works_on_a_copy(
    host: Store,
    copy: Store,
    keys: Seq<Seq<u8>>,
    api: Map<Seq<char>, Seq<u8>>,
    sender: Seq<u8>,
    recipient: Seq<u8>,
    amount: u128,
)
    requires
        agree_on(host, copy, keys),
        keys.contains(balance_key(recipient)),
        keys.contains(state_key()),
    ensures
        match mint(copy, api, sender, recipient, amount) {
            Err(e) => mint(host, api, sender, recipient, amount) == Err::<Store, ContractError>(e),
            Ok(after) => mint(host, api, sender, recipient, amount) == Ok::<Store, ContractError>(
                written_back(host, after, keys),
            ),
        },
{
    assert(minted_amounts(host, api, sender, recipient, amount) == minted_amounts(
        copy,
        api,
        sender,
        recipient,
        amount,
    ));
    if minted_amounts(copy, api, sender, recipient, amount) is Ok {
        let (raised, state) = minted_amounts(copy, api, sender, recipient, amount)->Ok_0;
        let credited = copy.insert(balance_key(recipient), amount_json(raised));
        written_back_unchanged(host, copy, keys);
        written_back_insert(host, copy, keys, balance_key(recipient), amount_json(raised));
        written_back_insert(host, credited, keys, state_key(), state_json(state));
    }
}

/// A debit reads the one permission and nothing else, and writes nothing
/// else; and the copy that it leaves still holds what the store then holds.
pub proof fn allowance_debit_works_on_a_copy(
    host: Store,
    copy: Store,
    keys: Seq<Seq<u8>>,
    owner: Seq<u8>,
    spender: Seq<u8>,
    amount: u128,
)
    requires
        agree_on(host, copy, keys),
        keys.contains(allowance_key(owner, spender)),
    ensures
        match allowance_debit(copy, owner, spender, amount) {
            Err(e) => allowance_debit(host, owner, spender, amount) == Err::<Store, ContractError>(
                e,
            ),
            Ok(after) => allowance_debit(host, owner, spender, amount) == Ok::<
                Store,
                ContractError,
            >(written_back(host, after, keys)) && agree_on(
                written_back(host, after, keys),
                after,
                keys,
            ) && forall|later: Store| #[trigger]
                written_back(written_back(host, after, keys), later, keys) == written_back(
                    host,
                    later,
                    keys,
                ),
        },
{
    assert(debited_allowance(host, owner, spender, amount) == debited_allowance(
        copy,
        owner,
        spender,
        amount,
    ));
    if debited_allowance(copy, owner, spender, amount) is Ok {
        let left = debited_allowance(copy, owner, spender, amount)->Ok_0;
        let after = copy.insert(allowance_key(owner, spender), allowance_json(left));
        written_back_unchanged(host, copy, keys);
        written_back_insert(host, copy, keys, allowance_key(owner, spender), allowance_json(left));
        assert forall|later: Store| #[trigger]
            written_back(written_back(host, after, keys), later, keys) == written_back(
                host,
                later,
                keys,
            ) by {
            assert(written_back(written_back(host, after, keys), later, keys) =~= written_back(
                host,
                later,
                keys,
            ));
        }
    }
}

/// A message reads and writes no entry outside its footprint: handled on a
/// copy that holds the entries of the footprint as the store does, it fails
/// as it would on the store, or leaves what, written back over the store,
/// is what it would have left there.
pub proof fn handle_works_on_a_copy(
    host: Store,
    copy: Store,
    api: Map<Seq<char>, Seq<u8>>,
    sender: Seq<char>,
    msg: HandleMsg,
)
    requires
        agree_on(host, copy, handle_footprint(api, sender, msg)),
    ensures
        match handle_result(copy, api, sender, msg) {
            Err(e) => handle_result(host, api, sender, msg) == Err::<Store, ContractError>(e),
            Ok(after) => handle_result(host, api, sender, msg) == Ok::<Store, ContractError>(
                written_back(host, after, handle_footprint(api, sender, msg)),
            ),
        },
{
    let keys = handle_footprint(api, sender, msg);
    if keys.len() > 0 {
        assert(keys.contains(keys[0]));
    }
    if keys.len() > 1 {
        assert(keys.contains(keys[1]));
    }
    if keys.len() > 2 {
        assert(keys.contains(keys[2]));
    }
    if canonical_form(api, sender) is Ok {
        let caller = canonical_form(api, sender)->Ok_0;
        match msg {
            HandleMsg::Transfer { to, amount } => {
                if canonical_form(api, to@) is Ok {
                    transfer_works_on_a_copy(
                        host,
                        copy,
                        keys,
                        caller,
                        canonical_form(api, to@)->Ok_0,
                        amount,
                    );
                }
            },
            HandleMsg::Burn { amount } => {
                burn_works_on_a_copy(host, copy, keys, caller, amount);
            },
            HandleMsg::SetAllowance { spender, amount, is_allowed } => {
                if canonical_form(api, spender@) is Ok {
                    let spender = canonical_form(api, spender@)->Ok_0;
                    written_back_unchanged(host, copy, keys);
                    written_back_insert(
                        host,
                        copy,
                        keys,
                        allowance_key(caller, spender),
                        allowance_json(Allowance { is_allowed, amount }),
                    );
                }
            },
            HandleMsg::TransferFrom { from, to, amount } => {
                if canonical_form(api, from@) is Ok && canonical_form(api, to@) is Ok {
                    let from = canonical_form(api, from@)->Ok_0;
                    let to = canonical_form(api, to@)->Ok_0;
                    allowance_debit_works_on_a_copy(host, copy, keys, from, caller, amount);
                    if allowance_debit(copy, from, caller, amount) is Ok {
                        let debited = allowance_debit(copy, from, caller, amount)->Ok_0;
                        transfer_works_on_a_copy(
                            written_back(host, debited, keys),
                            debited,
                            keys,
                            from,
                            to,
                            amount,
                        );
                    }
                }
            },
            HandleMsg::BurnFrom { from, amount } => {
                if canonical_form(api, from@) is Ok {
                    let from = canonical_form(api, from@)->Ok_0;
                    allowance_debit_works_on_a_copy(host, copy, keys, from, caller, amount);
                    if allowance_debit(copy, from, caller, amount) is Ok {
                        let debited = allowance_debit(copy, from, caller, amount)->Ok_0;
                        burn_works_on_a_copy(
                            written_back(host, debited, keys),
                            debited,
                            keys,
                            from,
                            amount,
                        );
                    }
                }
            },
            HandleMsg::Mint { recipient, amount } => {
                if canonical_form(api, recipient@) is Ok {
                    mint_works_on_a_copy(
                        host,
                        copy,
                        keys,
                        api,
                        caller,
                        canonical_form(api, recipient@)->Ok_0,
                        amount,
                    );
                }
            },
        }
    }
}

/// A query reads no entry outside its footprint.
pub proof fn query_works_on_a_copy(
    host: Store,
    copy: Store,
    api: Map<Seq<char>, Seq<u8>>,
    msg: QueryMsg,
)
    requires
        agree_on(host, copy, query_footprint(api, msg)),
    ensures
        query_result(copy, api, msg) == query_result(host, api, msg),
{
    let keys = query_footprint(api, msg);
    if keys.len() > 0 {
        assert(keys.contains(keys[0]));
    }
}

} // verus!
