//! Core of a fixed-supply, pay-to-mint NFT collection contract.
//!
//! The library holds the verified heart of the contract: the inventory-backed
//! batch-mint protocol. A finite pool of metadata identifiers is registered at
//! initialization; buyers mint against it, a per-wallet cap is enforced, token
//! identities are assigned sequentially, and the collected price is forwarded
//! to the collection owner. Ownership records, transfers and approvals belong
//! to an external NFT ledger, which the surrounding host code drives; the
//! library takes the ledger's counts as plain inputs and returns the exact
//! plan of a mint (identities, metadata, payment) for the host to carry out.

pub mod contract;
pub mod error;
pub mod laws;
pub mod msg;
pub mod state;
