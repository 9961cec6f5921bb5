//! What an operation of the ledger can fail with.

use vstd::prelude::*;

verus! {

/// The addition or subtraction that left the range of an amount.
#[derive(Clone, Copy, Debug, PartialEq, Eq, Structural)]
pub enum OverflowSite {
    /// A mint would raise the recipient's balance above the largest amount.
    MintUser,
    /// A mint would raise the total supply above the largest amount.
    MintTotal,
    /// A burn would take more from the total supply than it holds.
    BurnTotal,
    /// A transfer would raise the recipient's balance above the largest amount.
    TransferReceive,
}

/// The operation that tried to take more from a balance than it holds.
#[derive(Clone, Copy, Debug, PartialEq, Eq, Structural)]
pub enum DebitSite {
    Transfer,
    Burn,
}

#[derive(Clone, Copy, Debug, PartialEq, Eq, Structural)]
pub enum ContractError {
    /// The caller is not the minter, or holds no permission that is switched on.
    Unauthorized,
    ArithmeticOverflow(OverflowSite),
    /// A spender asked for more than the owner allowed.
    AmountExceedsAllowance,
    AmountExceedsBalance(DebitSite),
    /// A stored value is not the encoding of what its key should hold.
    CodecError,
    /// The ledger was never initialised: the store holds no state entry.
    NotFound,
    /// The host did not give a canonical form for an address.
    InvalidAddress,
}

impl ContractError {
    /// The text that goes with each error.
    pub open spec fn message_text(self) -> Seq<char> {
        match self {
            ContractError::Unauthorized => "Unauthorized"@,
            ContractError::ArithmeticOverflow(OverflowSite::MintUser) =>
                "Too many tokens to mint for user"@,
            ContractError::ArithmeticOverflow(OverflowSite::MintTotal) =>
                "More token are tried to create than available in total supply"@,
            ContractError::ArithmeticOverflow(OverflowSite::BurnTotal) =>
                "More tokens are tried to burn than available in total supply"@,
            ContractError::ArithmeticOverflow(OverflowSite::TransferReceive) =>
                "Too many tokens to receive"@,
            ContractError::AmountExceedsAllowance =>
                "Amount of tokens is bigger than allowed to transfer"@,
            ContractError::AmountExceedsBalance(DebitSite::Transfer) =>
                "Too many tokens to transfer"@,
            ContractError::AmountExceedsBalance(DebitSite::Burn) => "Too many tokens to burn"@,
            ContractError::CodecError => "Error parsing a stored value"@,
            ContractError::NotFound => "State not found"@,
            ContractError::InvalidAddress => "Invalid address"@,
        }
    }

    /// A human-readable message; it tells the arithmetic sites apart.
    pub fn message(&self) -> (text: String)
        ensures
            text@ == self.message_text(),
    {
        let text: &str = match self {
            ContractError::Unauthorized => "Unauthorized",
            ContractError::ArithmeticOverflow(OverflowSite::MintUser) =>
                "Too many tokens to mint for user",
            ContractError::ArithmeticOverflow(OverflowSite::MintTotal) =>
                "More token are tried to create than available in total supply",
            ContractError::ArithmeticOverflow(OverflowSite::BurnTotal) =>
                "More tokens are tried to burn than available in total supply",
            ContractError::ArithmeticOverflow(OverflowSite::TransferReceive) =>
                "Too many tokens to receive",
            ContractError::AmountExceedsAllowance =>
                "Amount of tokens is bigger than allowed to transfer",
            ContractError::AmountExceedsBalance(DebitSite::Transfer) =>
                "Too many tokens to transfer",
            ContractError::AmountExceedsBalance(DebitSite::Burn) => "Too many tokens to burn",
            ContractError::CodecError => "Error parsing a stored value",
            ContractError::NotFound => "State not found",
            ContractError::InvalidAddress => "Invalid address",
        };
        text.to_owned()
    }
}

} // verus!
