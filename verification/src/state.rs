//! The collection's persisted record: owner, remaining metadata pool, price.

use vstd::prelude::*;

verus! {

/// Price of one mint: a denomination together with the amount charged per
/// token. Fixed at initialization.
#[derive(Clone, Debug, PartialEq)]
pub struct MintPrice {
    pub denom: String,
    pub amount: u64,
}

/// The single persisted record of the collection.
///
/// `owner` receives the mint proceeds and never changes after initialization.
/// `tokens` is the ordered pool of metadata identifiers not yet assigned to
/// any minted NFT; it only ever shrinks, one element per successful mint.
/// `mint_price` is fixed at initialization.
#[derive(Clone, Debug, PartialEq)]
pub struct State {
    pub owner: String,
    pub tokens: Vec<String>,
    pub mint_price: MintPrice,
}

} // verus!
