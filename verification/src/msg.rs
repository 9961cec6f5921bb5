//! The messages that the ledger takes, and what it answers.

use vstd::prelude::*;
use crate::state::HumanAddr;

verus! {

/// The bytes of an answer.
pub type Binary = Vec<u8>;

/// What sets a ledger up: who may mint, and the total supply to record.
#[derive(Clone, Debug, PartialEq)]
pub struct InitMsg {
    pub minter: HumanAddr,
    pub total_supply: u128,
}

/// What changes a ledger.
#[derive(Clone, Debug, PartialEq)]
pub enum HandleMsg {
    /// Moves `amount` from the caller to `to`.
    Transfer { to: HumanAddr, amount: u128 },
    /// Takes `amount` from the caller's balance and from the total supply.
    Burn { amount: u128 },
    /// Puts a permission in place of what the caller granted to `spender`
    /// before.
    SetAllowance { spender: HumanAddr, amount: u128, is_allowed: bool },
    /// Moves `amount` from `from` to `to`, on the permission that `from`
    /// granted to the caller.
    TransferFrom { from: HumanAddr, to: HumanAddr, amount: u128 },
    /// Takes `amount` from the balance of `from` and from the total supply, on
    /// the permission that `from` granted to the caller.
    BurnFrom { from: HumanAddr, amount: u128 },
    /// Adds `amount` to the balance of `recipient` and to the total supply; for
    /// the minter only.
    Mint { recipient: HumanAddr, amount: u128 },
}

impl HandleMsg {
    /// The addresses that the message names, in the order of its fields.
    pub open spec fn named_addresses(self) -> Seq<Seq<char>> {
        match self {
            HandleMsg::Transfer { to, amount } => seq![to@],
            HandleMsg::Burn { amount } => seq![],
            HandleMsg::SetAllowance { spender, amount, is_allowed } => seq![spender@],
            HandleMsg::TransferFrom { from, to, amount } => seq![from@, to@],
            HandleMsg::BurnFrom { from, amount } => seq![from@],
            HandleMsg::Mint { recipient, amount } => seq![recipient@],
        }
    }

    /// The addresses that the message names, in the order of its fields: those
    /// that the host has to resolve before the message is handled, after the
    /// sender's.
    pub fn addresses(&self) -> (named: Vec<HumanAddr>)
        ensures
            named@.map_values(|human: HumanAddr| human@) == self.named_addresses(),
    {
        let mut named: Vec<HumanAddr> = Vec::new();
        match self {
            HandleMsg::Transfer { to, amount } => {
                named.push(to.clone());
            },
            HandleMsg::Burn { amount } => {},
            HandleMsg::SetAllowance { spender, amount, is_allowed } => {
                named.push(spender.clone());
            },
            HandleMsg::TransferFrom { from, to, amount } => {
                named.push(from.clone());
                named.push(to.clone());
            },
            HandleMsg::BurnFrom { from, amount } => {
                named.push(from.clone());
            },
            HandleMsg::Mint { recipient, amount } => {
                named.push(recipient.clone());
            },
        }
        assert(named@.map_values(|human: HumanAddr| human@) =~= self.named_addresses());
        named
    }
}

/// What reads a ledger.
#[derive(Clone, Debug, PartialEq)]
pub enum QueryMsg {
    GetBalance { user: HumanAddr },
}

/// The answer to `GetBalance`.
#[derive(Clone, Copy, Debug, PartialEq, Eq, Structural)]
pub struct BalanceResponse {
    pub amount: u128,
}

} // verus!
