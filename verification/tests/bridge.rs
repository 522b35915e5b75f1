use bridging_solana::errors::ErrorCode;
use bridging_solana::state::TokenAccount;
use bridging_solana::vault::emergency_withdraw;
use bridging_solana::vault::initialize_bridge;
use bridging_solana::vault::lock_tokens;
use bridging_solana::vault::pause_bridge;
use bridging_solana::vault::resume_bridge;
use bridging_solana::vault::unlock_from_evm;

fn key(tag: u8) -> [u8; 32] {
    let mut k = [0u8; 32];
    k[0] = tag;
    k
}

fn addr(tag: u8) -> [u8; 20] {
    let mut a = [0u8; 20];
    a[0] = tag;
    a
}

const ADMIN: u8 = 1;
const MINT: u8 = 2;
const CONFIG: u8 = 3;
const RELAYER: u8 = 4;
const USER: u8 = 5;

fn fresh_bridge() -> bridging_solana::state::VaultLedger {
    initialize_bridge(key(ADMIN), key(MINT), key(CONFIG), 254, 11155111, addr(0xec), key(RELAYER))
}

#[test]
fn initialize_starts_at_nonce_zero() {
    let ledger = fresh_bridge();
    assert_eq!(ledger.config.nonce, 0);
    assert!(!ledger.config.paused);
    assert_eq!(ledger.records.len(), 0);
    assert_eq!(ledger.processed.len(), 0);
    assert_eq!(ledger.vault.amount, 0);
    assert_eq!(ledger.config.admin, key(ADMIN));
    assert_eq!(ledger.config.relayer_pubkey, key(RELAYER));
    assert_eq!(ledger.config.destination_chain_id, 11155111);
}

#[test]
fn lock_records_intent_and_advances_nonce() {
    // admin initializes for mint M and relayer R; a user locks 1_000_000
    // base units; nonce becomes 1 and the record at index 0 holds the amount
    let mut ledger = fresh_bridge();
    let mut user_token = TokenAccount { amount: 5_000_000 };
    let dest = addr(0xab);

    let ev = lock_tokens(&mut ledger, key(USER), &mut user_token, 1_000_000, dest, 42).unwrap();
    assert_eq!(ev.nonce, 0);
    assert_eq!(ev.amount, 1_000_000);
    assert_eq!(ev.user, key(USER));
    assert_eq!(ev.config, key(CONFIG));
    assert_eq!(ev.destination_address, dest);

    assert_eq!(ledger.config.nonce, 1);
    assert_eq!(ledger.records.len(), 1);
    assert_eq!(ledger.records[0].nonce, 0);
    assert_eq!(ledger.records[0].amount, 1_000_000);
    assert_eq!(ledger.records[0].user, key(USER));
    assert_eq!(ledger.records[0].created_at_slot, 42);
    assert_eq!(ledger.vault.amount, 1_000_000);
    assert_eq!(user_token.amount, 4_000_000);
}

#[test]
fn lock_nonces_are_dense() {
    let mut ledger = fresh_bridge();
    let mut user_token = TokenAccount { amount: 600 };
    for i in 0..3u64 {
        let ev = lock_tokens(&mut ledger, key(USER), &mut user_token, 100 + i, addr(7), i).unwrap();
        assert_eq!(ev.nonce, i);
    }
    assert_eq!(ledger.config.nonce, 3);
    for i in 0..3usize {
        assert_eq!(ledger.records[i].nonce, i as u64);
    }
}

#[test]
fn lock_zero_amount_is_rejected() {
    let mut ledger = fresh_bridge();
    let mut user_token = TokenAccount { amount: 10 };
    let r = lock_tokens(&mut ledger, key(USER), &mut user_token, 0, addr(7), 1);
    assert_eq!(r.unwrap_err(), ErrorCode::InvalidAmount);
    assert_eq!(ledger.config.nonce, 0);
    assert_eq!(user_token.amount, 10);
}

#[test]
fn lock_while_paused_fails_and_keeps_nonce() {
    // admin pauses; a subsequent lock from any user fails with BridgePaused
    // and the nonce is unchanged
    let mut ledger = fresh_bridge();
    let mut user_token = TokenAccount { amount: 100 };
    pause_bridge(&mut ledger, key(ADMIN)).unwrap();

    let r = lock_tokens(&mut ledger, key(USER), &mut user_token, 50, addr(7), 1);
    assert_eq!(r.unwrap_err(), ErrorCode::BridgePaused);
    assert_eq!(ledger.config.nonce, 0);
    assert_eq!(ledger.records.len(), 0);
    assert_eq!(user_token.amount, 100);
}

#[test]
fn unlock_moves_funds_once_and_only_once() {
    // a lock escrows funds; the relayer unlocks them; a second submission
    // for the same (chain, nonce) is rejected without moving funds
    let mut ledger = fresh_bridge();
    let mut user_token = TokenAccount { amount: 1_000_000 };
    lock_tokens(&mut ledger, key(USER), &mut user_token, 1_000_000, addr(0xab), 1).unwrap();

    let mut recipient = TokenAccount { amount: 0 };
    unlock_from_evm(&mut ledger, key(RELAYER), 31337, 0, 1_000_000, &mut recipient).unwrap();
    assert_eq!(recipient.amount, 1_000_000);
    assert_eq!(ledger.vault.amount, 0);
    assert_eq!(ledger.processed.len(), 1);
    assert!(ledger.processed[0].message.executed);
    assert_eq!(ledger.processed[0].src_chain_id, 31337);
    assert_eq!(ledger.processed[0].nonce, 0);

    let second = unlock_from_evm(&mut ledger, key(RELAYER), 31337, 0, 1_000_000, &mut recipient);
    assert_eq!(second.unwrap_err(), ErrorCode::AlreadyProcessed);
    assert_eq!(recipient.amount, 1_000_000);
    assert_eq!(ledger.vault.amount, 0);
    assert_eq!(ledger.processed.len(), 1);
}

#[test]
fn unlock_distinct_nonces_both_apply() {
    let mut ledger = fresh_bridge();
    let mut user_token = TokenAccount { amount: 300 };
    lock_tokens(&mut ledger, key(USER), &mut user_token, 300, addr(1), 1).unwrap();

    let mut recipient = TokenAccount { amount: 0 };
    unlock_from_evm(&mut ledger, key(RELAYER), 9, 0, 100, &mut recipient).unwrap();
    unlock_from_evm(&mut ledger, key(RELAYER), 9, 1, 100, &mut recipient).unwrap();
    // same nonce on another source chain is its own key
    unlock_from_evm(&mut ledger, key(RELAYER), 10, 0, 100, &mut recipient).unwrap();
    assert_eq!(recipient.amount, 300);
    assert_eq!(ledger.processed.len(), 3);
}

#[test]
fn unlock_requires_the_trusted_relayer() {
    let mut ledger = fresh_bridge();
    let mut user_token = TokenAccount { amount: 100 };
    lock_tokens(&mut ledger, key(USER), &mut user_token, 100, addr(1), 1).unwrap();

    let mut recipient = TokenAccount { amount: 0 };
    let r = unlock_from_evm(&mut ledger, key(USER), 9, 0, 100, &mut recipient);
    assert_eq!(r.unwrap_err(), ErrorCode::Unauthorized);
    assert_eq!(recipient.amount, 0);
    assert_eq!(ledger.vault.amount, 100);
}

#[test]
fn unlock_while_paused_fails() {
    let mut ledger = fresh_bridge();
    let mut user_token = TokenAccount { amount: 100 };
    lock_tokens(&mut ledger, key(USER), &mut user_token, 100, addr(1), 1).unwrap();
    pause_bridge(&mut ledger, key(ADMIN)).unwrap();

    let mut recipient = TokenAccount { amount: 0 };
    let r = unlock_from_evm(&mut ledger, key(RELAYER), 9, 0, 100, &mut recipient);
    assert_eq!(r.unwrap_err(), ErrorCode::BridgePaused);
    assert_eq!(ledger.vault.amount, 100);
}

#[test]
fn unlock_more_than_vault_is_rejected() {
    let mut ledger = fresh_bridge();
    let mut user_token = TokenAccount { amount: 100 };
    lock_tokens(&mut ledger, key(USER), &mut user_token, 100, addr(1), 1).unwrap();

    let mut recipient = TokenAccount { amount: 0 };
    let r = unlock_from_evm(&mut ledger, key(RELAYER), 9, 0, 101, &mut recipient);
    assert_eq!(r.unwrap_err(), ErrorCode::InsufficientVaultFunds);
    assert_eq!(ledger.vault.amount, 100);
    assert_eq!(ledger.processed.len(), 0);
}

#[test]
fn pause_requires_admin() {
    let mut ledger = fresh_bridge();
    let r = pause_bridge(&mut ledger, key(USER));
    assert_eq!(r.unwrap_err(), ErrorCode::UnauthorizedAdmin);
    assert!(!ledger.config.paused);
}

#[test]
fn pause_twice_is_rejected() {
    let mut ledger = fresh_bridge();
    pause_bridge(&mut ledger, key(ADMIN)).unwrap();
    let r = pause_bridge(&mut ledger, key(ADMIN));
    assert_eq!(r.unwrap_err(), ErrorCode::AlreadyPaused);
    assert!(ledger.config.paused);
}

#[test]
fn resume_only_when_paused() {
    let mut ledger = fresh_bridge();
    let r = resume_bridge(&mut ledger, key(ADMIN));
    assert_eq!(r.unwrap_err(), ErrorCode::NotPaused);

    pause_bridge(&mut ledger, key(ADMIN)).unwrap();
    resume_bridge(&mut ledger, key(ADMIN)).unwrap();
    assert!(!ledger.config.paused);
}

#[test]
fn resume_requires_admin() {
    let mut ledger = fresh_bridge();
    pause_bridge(&mut ledger, key(ADMIN)).unwrap();
    let r = resume_bridge(&mut ledger, key(USER));
    assert_eq!(r.unwrap_err(), ErrorCode::UnauthorizedAdmin);
    assert!(ledger.config.paused);
}

#[test]
fn emergency_withdraw_needs_pause_first() {
    let mut ledger = fresh_bridge();
    let mut user_token = TokenAccount { amount: 700 };
    lock_tokens(&mut ledger, key(USER), &mut user_token, 700, addr(1), 1).unwrap();

    let mut admin_token = TokenAccount { amount: 0 };
    let r = emergency_withdraw(&mut ledger, key(ADMIN), &mut admin_token);
    assert_eq!(r.unwrap_err(), ErrorCode::NotPaused);
    assert_eq!(ledger.vault.amount, 700);
}

#[test]
fn emergency_withdraw_sweeps_vault_when_paused() {
    let mut ledger = fresh_bridge();
    let mut user_token = TokenAccount { amount: 700 };
    lock_tokens(&mut ledger, key(USER), &mut user_token, 700, addr(1), 1).unwrap();
    pause_bridge(&mut ledger, key(ADMIN)).unwrap();

    let mut admin_token = TokenAccount { amount: 5 };
    let swept = emergency_withdraw(&mut ledger, key(ADMIN), &mut admin_token).unwrap();
    assert_eq!(swept, 700);
    assert_eq!(admin_token.amount, 705);
    assert_eq!(ledger.vault.amount, 0);
}

#[test]
fn emergency_withdraw_requires_admin() {
    let mut ledger = fresh_bridge();
    pause_bridge(&mut ledger, key(ADMIN)).unwrap();
    let mut thief_token = TokenAccount { amount: 0 };
    let r = emergency_withdraw(&mut ledger, key(USER), &mut thief_token);
    assert_eq!(r.unwrap_err(), ErrorCode::UnauthorizedAdmin);
}
