//! A local ledger of ERC-1155 style multi-tokens: per-account balances keyed
//! by token id, operator approvals, batched transfers and balance queries,
//! with records persisted under derived keys in a byte-oriented store.
pub mod ids;
pub mod codec;
pub mod state;
pub mod ledger;
pub mod theorems;
