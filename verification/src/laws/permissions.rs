//! What a permission lets a spender do.

use vstd::prelude::*;
use crate::codec::allowance_round_trip;
use crate::contract::{allowance_grant, burn_from, transfer_from};
use crate::error::ContractError;
use crate::keys::namespaces_are_disjoint;
use crate::state::{stored_allowance, Allowance};
use crate::storage::Store;

verus! {

/// A permission that is switched off lets the spender neither transfer nor
/// burn, whatever its amount and whatever is asked for. This is so right after
/// the owner granted it that way.
pub proof fn denied_allowance_blocks(
    store: Store,
    owner: Seq<u8>,
    spender: Seq<u8>,
    granted: u128,
    to: Seq<u8>,
    amount: u128,
)
    ensures
        stored_allowance(store, owner, spender) matches Ok(Some(allowance)) && !allowance.is_allowed
            ==> transfer_from(store, spender, owner, to, amount) == Err::<Store, ContractError>(
            ContractError::Unauthorized,
        ) && burn_from(store, spender, owner, amount) == Err::<Store, ContractError>(
            ContractError::Unauthorized,
        ),
        transfer_from(
            allowance_grant(store, owner, spender, Allowance { is_allowed: false, amount: granted }),
            spender,
            owner,
            to,
            amount,
        ) == Err::<Store, ContractError>(ContractError::Unauthorized),
        burn_from(
            allowance_grant(store, owner, spender, Allowance { is_allowed: false, amount: granted }),
            spender,
            owner,
            amount,
        ) == Err::<Store, ContractError>(ContractError::Unauthorized),
{
    allowance_round_trip(Allowance { is_allowed: false, amount: granted });
}

/// After an owner granted `granted` to a spender, a transfer of `amount` by
/// the spender that succeeds leaves a permission of `granted - amount`, still
/// switched on.
pub proof fn transfer_from_debits_allowance(
    store: Store,
    owner: Seq<u8>,
    spender: Seq<u8>,
    granted: u128,
    to: Seq<u8>,
    amount: u128,
)
    requires
        transfer_from(
            allowance_grant(store, owner, spender, Allowance { is_allowed: true, amount: granted }),
            spender,
            owner,
            to,
            amount,
        ) is Ok,
    ensures
        amount <= granted,
        stored_allowance(
            transfer_from(
                allowance_grant(
                    store,
                    owner,
                    spender,
                    Allowance { is_allowed: true, amount: granted },
                ),
                spender,
                owner,
                to,
                amount,
            )->Ok_0,
            owner,
            spender,
        ) == Ok::<Option<Allowance>, ContractError>(
            Some(Allowance { is_allowed: true, amount: (granted - amount) as u128 }),
        ),
{
    let allowed = Allowance { is_allowed: true, amount: granted };
    let left = Allowance { is_allowed: true, amount: (granted - amount) as u128 };
    let granted_store = allowance_grant(store, owner, spender, allowed);
    allowance_round_trip(allowed);
    allowance_round_trip(left);
    namespaces_are_disjoint(owner, owner, spender);
    namespaces_are_disjoint(to, owner, spender);
}

} // verus!
