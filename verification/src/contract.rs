//! Initialization, the batch mint engine, and the entry dispatcher.

use vstd::prelude::*;

use crate::error::ContractError;
use crate::msg::{ExecuteMsg, ExecuteOutcome, MintResponse, MintedToken, Payment};
use crate::state::{MintPrice, State};

verus! {

/// Maximum number of token identities one wallet may own at once.
pub const PER_WALLET_CAP: u64 = 10;

/// The wallet cap admits a mint of `n` by a caller already owning `owned`
/// tokens exactly when the caller's holdings afterwards stay within the cap.
pub open spec fn cap_ok(owned: u64, n: u64) -> bool {
    owned + n <= PER_WALLET_CAP
}

/// How a batch mint of `n` tokens ends, given the remaining pool and the
/// caller's current holdings: the cap is checked first, then the inventory.
pub open spec fn mint_outcome(tokens: Seq<String>, owned: u64, n: u64) -> Result<
    (),
    ContractError,
> {
    if !cap_ok(owned, n) {
        Err(ContractError::WalletCapExceeded)
    } else if n > tokens.len() {
        Err(ContractError::InventoryExhausted)
    } else {
        Ok(())
    }
}

/// The pool after a successful mint of `n`: the last `n` identifiers are gone.
pub open spec fn tokens_after(tokens: Seq<String>, n: u64) -> Seq<String>
    recommends
        n <= tokens.len(),
{
    tokens.take(tokens.len() - n)
}

/// The identities a mint of `n` assigns when the ledger has already assigned
/// `assigned` of them: the strictly increasing run `assigned + 1 ..= assigned + n`.
pub open spec fn ids_of(assigned: u64, n: u64) -> Seq<u64>
    recommends
        assigned + n <= u64::MAX,
{
    Seq::new(n as nat, |i: int| (assigned + 1 + i) as u64)
}

/// Everything `batch_mint` promises, relating the record before (`pre`) and
/// after (`post`) the call to its result.
///
/// On success the pool loses exactly its last `n` identifiers while owner and
/// price stay put; the response carries the caller, the `n` new tokens — the
/// identities `assigned + 1 ..= assigned + n` in ascending order, each paired
/// with one pool identifier in last-in-first-out order — and exactly one
/// payment instruction of `n * mint_price.amount` in `mint_price.denom` to the
/// owner. On failure the error is the one `mint_outcome` picks and the record
/// is untouched.
pub open spec fn mint_post(
    pre: State,
    post: State,
    sender: String,
    owned: u64,
    assigned: u64,
    n: u64,
    r: Result<MintResponse, ContractError>,
) -> bool {
    match r {
        Ok(resp) => {
            &&& mint_outcome(pre.tokens@, owned, n) is Ok
            &&& post.owner == pre.owner
            &&& post.mint_price == pre.mint_price
            &&& post.tokens@ == tokens_after(pre.tokens@, n)
            &&& resp.minter == sender
            &&& resp.minted@.len() == n as nat
            &&& resp.minted@.map_values(|t: MintedToken| t.id) == ids_of(assigned, n)
            &&& (forall|i: int|
                0 <= i < n ==> (#[trigger] resp.minted@[i]).id == assigned + 1 + i)
            &&& (forall|i: int|
                0 <= i < n ==> (#[trigger] resp.minted@[i]).token_uri == pre.tokens@[pre.tokens@.len()
                    - 1 - i])
            &&& resp.payment.to_address == pre.owner
            &&& resp.payment.denom == pre.mint_price.denom
            &&& resp.payment.amount == pre.mint_price.amount * n
        },
        Err(e) => {
            &&& mint_outcome(pre.tokens@, owned, n) == Err::<(), ContractError>(e)
            &&& post == pre
        },
    }
}

/// The batch mint engine. For a caller that currently owns `owned` token
/// identities, against a ledger that has assigned `assigned` identities so
/// far, mint `n` tokens: enforce the wallet cap, draw the `n` newest pool
/// identifiers, assign the next `n` sequential identities, and emit the single
/// payment instruction forwarding the proceeds to the collection owner.
///
/// Failures leave the record exactly as it was: a failed call has no partial
/// effect. `mint_post` states the full contract.
pub fn batch_mint(state: &mut State, sender: String, owned: u64, assigned: u64, n: u64) -> (r:
    Result<MintResponse, ContractError>)
    requires
        assigned + n <= u64::MAX,
    ensures
        mint_post(*old(state), *final(state), sender, owned, assigned, n, r),
        r is Ok <==> cap_ok(owned, n) && n <= old(state).tokens@.len(),
{
    if n > PER_WALLET_CAP || owned > PER_WALLET_CAP || owned + n > PER_WALLET_CAP {
        return Err(ContractError::WalletCapExceeded);
    }
    if n > state.tokens.len() as u64 {
        return Err(ContractError::InventoryExhausted);
    }
    let ghost pre = *state;
    let mut minted: Vec<MintedToken> = Vec::new();
    let mut i: u64 = 0;
    while i < n
        invariant
            i <= n,
            n <= pre.tokens@.len(),
            assigned + n <= u64::MAX,
            state.owner == pre.owner,
            state.mint_price == pre.mint_price,
            state.tokens@ == pre.tokens@.take(pre.tokens@.len() - i),
            minted@.len() == i as nat,
            forall|j: int| 0 <= j < i ==> (#[trigger] minted@[j]).id == assigned + 1 + j,
            forall|j: int|
                0 <= j < i ==> (#[trigger] minted@[j]).token_uri == pre.tokens@[pre.tokens@.len()
                    - 1 - j],
        decreases n - i,
    {
        let token_uri = state.tokens.pop().unwrap();
        let id: u64 = assigned + i + 1;
        minted.push(MintedToken { id, token_uri });
        i = i + 1;
        proof {
            assert(state.tokens@ =~= pre.tokens@.take(pre.tokens@.len() - i));
        }
    }
    proof {
        assert(state.tokens@ =~= tokens_after(pre.tokens@, n));
        assert(minted@.map_values(|t: MintedToken| t.id) =~= ids_of(assigned, n));
        assert((state.mint_price.amount as int) * (n as int) <= u128::MAX) by (nonlinear_arith)
            requires
                state.mint_price.amount <= u64::MAX,
                n <= 10,
        ;
    }
    let amount: u128 = (state.mint_price.amount as u128) * (n as u128);
    Ok(
        MintResponse {
            minter: sender,
            minted,
            payment: Payment {
                to_address: state.owner.clone(),
                denom: state.mint_price.denom.clone(),
                amount,
            },
        },
    )
}

/// The entry dispatcher. A `BatchMint` request runs the engine; every other
/// request is returned unchanged as `Forward`, for the host to pass straight
/// through to the NFT ledger, with the record untouched.
pub fn execute(state: &mut State, sender: String, owned: u64, assigned: u64, msg: ExecuteMsg) -> (r:
    Result<ExecuteOutcome, ContractError>)
    requires
        msg matches ExecuteMsg::BatchMint { amount } ==> assigned + amount <= u64::MAX,
    ensures
        match msg {
            ExecuteMsg::BatchMint { amount } => {
                &&& (match r {
                    Ok(o) => o matches ExecuteOutcome::Minted(resp) && mint_post(
                        *old(state),
                        *final(state),
                        sender,
                        owned,
                        assigned,
                        amount,
                        Ok(resp),
                    ),
                    Err(e) => mint_post(
                        *old(state),
                        *final(state),
                        sender,
                        owned,
                        assigned,
                        amount,
                        Err(e),
                    ),
                })
                &&& (r is Ok <==> cap_ok(owned, amount) && amount <= old(state).tokens@.len())
            },
            _ => r == Ok::<ExecuteOutcome, ContractError>(ExecuteOutcome::Forward(msg))
                && *final(state) == *old(state),
        },
{
    match msg {
        ExecuteMsg::BatchMint { amount } => match batch_mint(state, sender, owned, assigned, amount) {
            Ok(resp) => Ok(ExecuteOutcome::Minted(resp)),
            Err(e) => Err(e),
        },
        other => Ok(ExecuteOutcome::Forward(other)),
    }
}

/// Build the collection record. The initializing caller becomes the owner;
/// the supplied pool and price are stored unchanged.
pub fn instantiate(sender: String, tokens: Vec<String>, mint_price: MintPrice) -> (s: State)
    ensures
        s.owner == sender,
        s.tokens == tokens,
        s.mint_price == mint_price,
{
    State { owner: sender, tokens, mint_price }
}

/// The inventory store's load step: a missing record is the fatal
/// `NotInitialized` failure, an existing one is returned as is.
pub fn load_state(stored: Option<State>) -> (r: Result<State, ContractError>)
    ensures
        match stored {
            Some(s) => r == Ok::<State, ContractError>(s),
            None => r == Err::<State, ContractError>(ContractError::NotInitialized),
        },
{
    match stored {
        Some(s) => Ok(s),
        None => Err(ContractError::NotInitialized),
    }
}

/// The defensive check before registering a token record at a fresh identity:
/// if the ledger already holds a record there, registration must fail rather
/// than overwrite it.
pub fn register_token(already_claimed: bool) -> (r: Result<(), ContractError>)
    ensures
        r == if already_claimed {
            Err::<(), ContractError>(ContractError::IdentityAlreadyClaimed)
        } else {
            Ok::<(), ContractError>(())
        },
{
    if already_claimed {
        Err(ContractError::IdentityAlreadyClaimed)
    } else {
        Ok(())
    }
}

} // verus!
