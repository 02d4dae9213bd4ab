use mint_core::contract::{batch_mint, execute, instantiate, load_state, register_token};
use mint_core::error::ContractError;
use mint_core::msg::{ExecuteMsg, ExecuteOutcome};
use mint_core::state::{MintPrice, State};

fn pool(ids: &[&str]) -> Vec<String> {
    ids.iter().map(|s| s.to_string()).collect()
}

fn fresh_state(tokens: &[&str], denom: &str, amount: u64) -> State {
    instantiate(
        "O".to_string(),
        pool(tokens),
        MintPrice { denom: denom.to_string(), amount },
    )
}

#[test]
fn instantiate_stores_fields() {
    let s = fresh_state(&["a", "b"], "uToken", 5);
    assert_eq!(s.owner, "O");
    assert_eq!(s.tokens, pool(&["a", "b"]));
    assert_eq!(s.mint_price.denom, "uToken");
    assert_eq!(s.mint_price.amount, 5);
}

#[test]
fn scenario_lifo_mint_then_exhaustion() {
    let mut s = fresh_state(&["a", "b", "c"], "uToken", 1);

    let resp = batch_mint(&mut s, "C".to_string(), 0, 0, 2).unwrap();
    assert_eq!(resp.minter, "C");
    assert_eq!(resp.minted.len(), 2);
    assert_eq!(resp.minted[0].id, 1);
    assert_eq!(resp.minted[0].token_uri, "c");
    assert_eq!(resp.minted[1].id, 2);
    assert_eq!(resp.minted[1].token_uri, "b");
    assert_eq!(s.tokens, pool(&["a"]));
    assert_eq!(resp.payment.to_address, "O");
    assert_eq!(resp.payment.denom, "uToken");
    assert_eq!(resp.payment.amount, 2);

    // Only one identifier is left, so a second mint of two must fail whole.
    let err = batch_mint(&mut s, "C".to_string(), 2, 2, 2).unwrap_err();
    assert_eq!(err, ContractError::InventoryExhausted);
    assert_eq!(s.tokens, pool(&["a"]));
}

#[test]
fn scenario_cap_reached_then_exceeded() {
    let mut s = fresh_state(&["a", "b", "c"], "uToken", 1);

    let resp = batch_mint(&mut s, "C".to_string(), 9, 40, 1).unwrap();
    assert_eq!(resp.minted.len(), 1);
    assert_eq!(resp.minted[0].id, 41);

    let err = batch_mint(&mut s, "C".to_string(), 10, 41, 1).unwrap_err();
    assert_eq!(err, ContractError::WalletCapExceeded);
}

#[test]
fn cap_boundary_exact() {
    let mut s = fresh_state(&["a", "b", "c", "d"], "uToken", 1);
    // k + n == 10 succeeds.
    assert!(batch_mint(&mut s, "C".to_string(), 7, 0, 3).is_ok());

    let mut s = fresh_state(&["a", "b", "c", "d"], "uToken", 1);
    // k + n == 11 fails, and the pool is untouched.
    let err = batch_mint(&mut s, "C".to_string(), 7, 0, 4).unwrap_err();
    assert_eq!(err, ContractError::WalletCapExceeded);
    assert_eq!(s.tokens, pool(&["a", "b", "c", "d"]));
}

#[test]
fn zero_mint_succeeds_with_zero_payment() {
    // A mint of zero tokens is an allowed degenerate case: it succeeds and
    // emits a zero-amount instruction. Whether it should instead be rejected
    // outright is an open product question; this pins the current behavior.
    let mut s = fresh_state(&["a"], "uToken", 3);
    let resp = batch_mint(&mut s, "C".to_string(), 10, 0, 0).unwrap();
    assert!(resp.minted.is_empty());
    assert_eq!(resp.payment.amount, 0);
    assert_eq!(resp.payment.denom, "uToken");
    assert_eq!(resp.payment.to_address, "O");
    assert_eq!(s.tokens, pool(&["a"]));
}

#[test]
fn exhaustion_boundary_exact() {
    // Exactly m identifiers: a mint of m drains the pool.
    let mut s = fresh_state(&["a", "b", "c"], "uToken", 1);
    let resp = batch_mint(&mut s, "C".to_string(), 0, 0, 3).unwrap();
    assert_eq!(resp.minted.len(), 3);
    assert!(s.tokens.is_empty());

    // A mint of m + 1 fails with no token assigned.
    let mut s = fresh_state(&["a", "b", "c"], "uToken", 1);
    let err = batch_mint(&mut s, "C".to_string(), 0, 0, 4).unwrap_err();
    assert_eq!(err, ContractError::InventoryExhausted);
    assert_eq!(s.tokens, pool(&["a", "b", "c"]));
}

// NOTE on payment direction: the emitted instruction transfers funds from the
// contract's own balance *to* the collection owner; nothing here collects the
// price *from* the caller. That direction looks inverted for a pay-to-mint
// flow and needs explicit product confirmation before it is changed; these
// tests pin the current direction.
#[test]
fn payment_amount_is_price_times_count() {
    let mut s = fresh_state(&["a", "b", "c"], "uluna", 7);
    let resp = batch_mint(&mut s, "C".to_string(), 0, 0, 3).unwrap();
    assert_eq!(resp.payment.amount, 21);
    assert_eq!(resp.payment.denom, "uluna");
    assert_eq!(resp.payment.to_address, "O");
}

#[test]
fn payment_amount_survives_large_price() {
    // price * n no longer fits in 64 bits; the instruction still carries it.
    let mut s = fresh_state(&["a", "b"], "uToken", u64::MAX);
    let resp = batch_mint(&mut s, "C".to_string(), 0, 0, 2).unwrap();
    assert_eq!(resp.payment.amount, (u64::MAX as u128) * 2);
}

#[test]
fn identities_stay_sequential_across_calls() {
    let mut s = fresh_state(&["a", "b", "c", "d", "e"], "uToken", 1);
    let first = batch_mint(&mut s, "C".to_string(), 0, 0, 2).unwrap();
    let ids: Vec<u64> = first.minted.iter().map(|t| t.id).collect();
    assert_eq!(ids, vec![1, 2]);

    // The ledger advanced its counter by two; the next run follows gaplessly.
    let second = batch_mint(&mut s, "D".to_string(), 0, 2, 3).unwrap();
    let ids: Vec<u64> = second.minted.iter().map(|t| t.id).collect();
    assert_eq!(ids, vec![3, 4, 5]);
}

#[test]
fn load_state_missing_is_not_initialized() {
    let err = load_state(None).unwrap_err();
    assert_eq!(err, ContractError::NotInitialized);
}

#[test]
fn load_state_present_returns_record() {
    let s = fresh_state(&["a"], "uToken", 1);
    let loaded = load_state(Some(s.clone())).unwrap();
    assert_eq!(loaded, s);
}

#[test]
fn register_token_refuses_claimed_identity() {
    let err = register_token(true).unwrap_err();
    assert_eq!(err, ContractError::IdentityAlreadyClaimed);
    assert!(register_token(false).is_ok());
}

#[test]
fn execute_routes_batch_mint_to_engine() {
    let mut s = fresh_state(&["a", "b"], "uToken", 1);
    let outcome = execute(
        &mut s,
        "C".to_string(),
        0,
        0,
        ExecuteMsg::BatchMint { amount: 1 },
    )
    .unwrap();
    match outcome {
        ExecuteOutcome::Minted(resp) => {
            assert_eq!(resp.minted.len(), 1);
            assert_eq!(resp.minted[0].id, 1);
            assert_eq!(resp.minted[0].token_uri, "b");
        }
        other => panic!("expected a mint, got {:?}", other),
    }
    assert_eq!(s.tokens, pool(&["a"]));
}

#[test]
fn execute_propagates_engine_errors() {
    let mut s = fresh_state(&[], "uToken", 1);
    let err = execute(
        &mut s,
        "C".to_string(),
        0,
        0,
        ExecuteMsg::BatchMint { amount: 1 },
    )
    .unwrap_err();
    assert_eq!(err, ContractError::InventoryExhausted);
}

#[test]
fn execute_forwards_ledger_requests_unchanged() {
    let mut s = fresh_state(&["a"], "uToken", 1);
    let msg = ExecuteMsg::TransferNft {
        recipient: "R".to_string(),
        token_id: "3".to_string(),
    };
    let outcome = execute(&mut s, "C".to_string(), 0, 0, msg.clone()).unwrap();
    assert_eq!(outcome, ExecuteOutcome::Forward(msg));
    assert_eq!(s.tokens, pool(&["a"]));

    let msg = ExecuteMsg::RevokeAll { operator: "P".to_string() };
    let outcome = execute(&mut s, "C".to_string(), 0, 0, msg.clone()).unwrap();
    assert_eq!(outcome, ExecuteOutcome::Forward(msg));
}
