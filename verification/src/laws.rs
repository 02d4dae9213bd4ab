//! The guarantees of the minting core, stated and proved once for all inputs.

use vstd::prelude::*;

use crate::contract::{cap_ok, ids_of, mint_outcome, tokens_after, PER_WALLET_CAP};
use crate::error::ContractError;

verus! {

/// Cap enforcement: with enough inventory on hand, a mint of `n` by a caller
/// owning `owned` tokens succeeds exactly when `owned + n` stays within the
/// per-wallet cap, and a breach of the cap is reported as `WalletCapExceeded`.
pub proof fn lemma_cap_enforcement(tokens: Seq<String>, owned: u64, n: u64)
    requires
        n <= tokens.len(),
    ensures
        mint_outcome(tokens, owned, n) is Ok <==> cap_ok(owned, n),
        mint_outcome(tokens, owned, n) is Ok <==> owned + n <= PER_WALLET_CAP,
        owned + n > PER_WALLET_CAP ==> mint_outcome(tokens, owned, n) == Err::<
            (),
            ContractError,
        >(ContractError::WalletCapExceeded),
{
}

/// Inventory monotonicity, one call: a successful mint of `n` removes exactly
/// `n` identifiers from the pool. (A failed call removes none: `mint_post`
/// leaves the record equal to what it was.)
pub proof fn lemma_inventory_delta(tokens: Seq<String>, n: u64)
    requires
        n <= tokens.len(),
    ensures
        tokens.len() - tokens_after(tokens, n).len() == n,
{
}

/// Inventory monotonicity, across calls: successful mints compose, so the
/// pool shrinks by exactly the total number of tokens minted, whatever the
/// sequence of calls.
pub proof fn lemma_inventory_two_mints(tokens: Seq<String>, n1: u64, n2: u64)
    requires
        n1 + n2 <= tokens.len(),
        n1 + n2 <= u64::MAX,
    ensures
        n2 <= tokens_after(tokens, n1).len(),
        tokens.len() - tokens_after(tokens_after(tokens, n1), n2).len() == n1 + n2,
        tokens_after(tokens_after(tokens, n1), n2) == tokens_after(tokens, (n1 + n2) as u64),
{
    assert(tokens_after(tokens_after(tokens, n1), n2) =~= tokens_after(tokens, (n1 + n2) as u64));
}

/// Identity uniqueness and ordering: the identities of two consecutive mints,
/// the second starting from the counter the first advanced, form one strictly
/// increasing run with no gaps and no repeats. By induction over calls, all
/// identities minted over the contract's lifetime do.
pub proof fn lemma_identity_uniqueness(assigned: u64, n1: u64, n2: u64)
    requires
        assigned + n1 + n2 <= u64::MAX,
    ensures
        ({
            let all = ids_of(assigned, n1) + ids_of((assigned + n1) as u64, n2);
            &&& all.len() == n1 + n2
            &&& (forall|i: int| 0 <= i < all.len() ==> #[trigger] all[i] == assigned + 1 + i)
            &&& (forall|i: int, j: int| 0 <= i < j < all.len() ==> all[i] < all[j])
        }),
{
    let all = ids_of(assigned, n1) + ids_of((assigned + n1) as u64, n2);
    assert forall|i: int| 0 <= i < all.len() implies #[trigger] all[i] == assigned + 1 + i by {
        if i < n1 {
            assert(all[i] == ids_of(assigned, n1)[i]);
        } else {
            assert(all[i] == ids_of((assigned + n1) as u64, n2)[i - n1]);
        }
    }
}

/// Exhaustion boundary: with exactly `m` identifiers left and the cap not in
/// the way, a mint of `m` drains the pool and succeeds, while a mint of
/// `m + 1` fails with `InventoryExhausted` — and, by `mint_post`, assigns
/// nothing in the failing call.
pub proof fn lemma_exhaustion_boundary(tokens: Seq<String>, owned: u64, m: u64)
    requires
        tokens.len() == m as nat,
        owned + m + 1 <= PER_WALLET_CAP,
    ensures
        mint_outcome(tokens, owned, m) is Ok,
        tokens_after(tokens, m).len() == 0,
        mint_outcome(tokens, owned, (m + 1) as u64) == Err::<
            (),
            ContractError,
        >(ContractError::InventoryExhausted),
{
}

} // verus!
