//! The failure modes of the minting core.

use vstd::prelude::*;

verus! {

/// Every way the core can refuse an operation. All failures abort the whole
/// call: no partial effect of a failed call is ever visible afterwards.
#[derive(Clone, Copy, Debug, PartialEq, Eq, Structural)]
pub enum ContractError {
    /// The collection record was never initialized.
    NotInitialized,
    /// The caller's holdings after the mint would exceed the per-wallet cap.
    WalletCapExceeded,
    /// No metadata identifiers remain in the pool.
    InventoryExhausted,
    /// A token record already exists at the identity being registered; under
    /// correct sequencing this never happens (defensive check).
    IdentityAlreadyClaimed,
}

} // verus!
