//! What holds of the ledger over all stores, accounts and amounts.

pub mod conservation;
pub mod effects;
pub mod footprint;
pub mod permissions;
