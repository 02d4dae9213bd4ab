//! Requests accepted by the entry dispatcher and the records a mint returns.

use vstd::prelude::*;

verus! {

/// When an approval or operator grant expires. Carried through untouched by
/// the dispatcher; only the NFT ledger interprets it.
#[derive(Clone, Copy, Debug, PartialEq, Eq, Structural)]
pub enum Expiration {
    AtHeight(u64),
    AtTime(u64),
    Never,
}

/// A request to mint one specific token, passed through to the NFT ledger.
#[derive(Clone, Debug, PartialEq)]
pub struct MintMsg {
    pub token_id: String,
    pub owner: String,
    pub token_uri: Option<String>,
}

/// The operations the contract accepts. `BatchMint` is handled by the batch
/// mint engine; every other variant is forwarded verbatim to the NFT ledger.
#[derive(Clone, Debug, PartialEq)]
pub enum ExecuteMsg {
    BatchMint { amount: u64 },
    Mint(MintMsg),
    Approve { spender: String, token_id: String, expires: Option<Expiration> },
    Revoke { spender: String, token_id: String },
    ApproveAll { operator: String, expires: Option<Expiration> },
    RevokeAll { operator: String },
    TransferNft { recipient: String, token_id: String },
    SendNft { contract: String, token_id: String, msg: Vec<u8> },
}

/// One newly minted token: the sequential identity the ledger must register,
/// and the metadata identifier drawn from the pool for it.
#[derive(Clone, Debug, PartialEq)]
pub struct MintedToken {
    pub id: u64,
    pub token_uri: String,
}

/// The single outbound payment instruction a successful mint emits: transfer
/// `amount` of `denom` from the contract's own funds to `to_address`.
#[derive(Clone, Debug, PartialEq)]
pub struct Payment {
    pub to_address: String,
    pub denom: String,
    pub amount: u128,
}

/// Result of a successful batch mint: who minted, the new tokens in ascending
/// order of identity, and exactly one payment instruction.
#[derive(Clone, Debug, PartialEq)]
pub struct MintResponse {
    pub minter: String,
    pub minted: Vec<MintedToken>,
    pub payment: Payment,
}

/// What `execute` decided: either the engine ran a batch mint, or the request
/// is one the NFT ledger must handle, returned unchanged for forwarding.
#[derive(Clone, Debug, PartialEq)]
pub enum ExecuteOutcome {
    Minted(MintResponse),
    Forward(ExecuteMsg),
}

} // verus!
