//! A fungible-token ledger over a byte-addressed key/value store.
//!
//! The ledger keeps one balance per account, the circulating supply and the
//! spending permissions that owners grant to other accounts. Every entry is
//! stored as bytes under a length-prefixed key, and every operation is stated
//! as a function on the map of those bytes.
//!
//! - `storage`: the store, `cosmwasm_std::MemoryStorage`, and what it holds.
//! - `keys`: the layout of the keys.
//! - `codec`: the bytes of the stored values.
//! - `state`: the entries, and the typed views that read and write them.
//! - `host`: what the host hands to a call.
//! - `msg`: the messages.
//! - `contract`: the operations.
//! - `error`: what an operation can fail with.
//! - `supply`: the sum of the balances.
//! - `laws`: what holds of the operations.

pub mod codec;
pub mod contract;
pub mod error;
pub mod host;
pub mod keys;
pub mod laws;
pub mod msg;
pub mod state;
pub mod storage;
pub mod supply;
