//! The vault program's instruction handlers.
//!
//! Each handler is specified by a pair of spec functions: a *check* that
//! decides, from the pre-state and the arguments alone, whether the
//! instruction succeeds or which error it aborts with, and a *state-after*
//! function giving the post-state of a successful call.  The executable
//! handlers are proved to follow them exactly: on an error the ledger and
//! every token account involved are left unchanged, mirroring the atomic
//! abort of a rejected ledger transaction.

use vstd::prelude::*;

use crate::errors::ErrorCode;
use crate::keys::key_eq;
use crate::keys::Addr20;
use crate::keys::Key32;
use crate::state::find_processed;
use crate::state::processed_contains;
use crate::state::BridgeConfig;
use crate::state::LedgerView;
use crate::state::LockRecord;
use crate::state::ProcessedEntry;
use crate::state::ProcessedMessage;
use crate::state::TokenAccount;
use crate::state::VaultLedger;

verus! {

broadcast use vstd::array::group_array_axioms;

/// Notification emitted on every successful lock: everything the outbound
/// watcher needs to replay the intent on the destination ledger.
#[derive(Clone, Copy, Debug)]
pub struct BridgeLockEvent {
    /// The config the lock belongs to.
    pub config: Key32,
    /// Sequence number the lock was stamped with.
    pub nonce: u64,
    /// The user whose funds were escrowed.
    pub user: Key32,
    /// Escrowed amount in token base units.
    pub amount: u64,
    /// Requested destination address.
    pub destination_address: Addr20,
}

/// The fresh ledger produced by `initialize_bridge`.
pub open spec fn init_state(
    admin: Key32,
    token_mint: Key32,
    config_key: Key32,
    vault_authority_bump: u8,
    destination_chain_id: u64,
    destination_bridge: Addr20,
    relayer: Key32,
) -> LedgerView {
    LedgerView {
        config_key: config_key,
        config: BridgeConfig {
            admin: admin,
            token_mint: token_mint,
            vault_authority_bump: vault_authority_bump,
            nonce: 0,
            destination_chain_id: destination_chain_id,
            destination_bridge: destination_bridge,
            relayer_pubkey: relayer,
            paused: false,
        },
        records: Seq::empty(),
        processed: Seq::empty(),
        vault: TokenAccount { amount: 0 },
    }
}

/// Whether a lock succeeds, or with which error it aborts.
pub open spec fn lock_check(s: LedgerView, amount: u64) -> Result<(), ErrorCode> {
    if s.config.paused {
        Err(ErrorCode::BridgePaused)
    } else if amount == 0 {
        Err(ErrorCode::InvalidAmount)
    } else if s.config.nonce == u64::MAX {
        Err(ErrorCode::NonceOverflow)
    } else {
        Ok(())
    }
}

/// The event a successful lock emits.
pub open spec fn lock_event_spec(s: LedgerView, user: Key32, amount: u64, dest: Addr20) -> BridgeLockEvent {
    BridgeLockEvent {
        config: s.config_key,
        nonce: s.config.nonce,
        user: user,
        amount: amount,
        destination_address: dest,
    }
}

/// The ledger after a successful lock: the escrow grows by `amount`, a
/// record stamped with the current nonce is appended, and the nonce
/// advances by one.
pub open spec fn lock_state_after(
    s: LedgerView,
    user: Key32,
    amount: u64,
    dest: Addr20,
    now_slot: u64,
) -> LedgerView {
    LedgerView {
        config: BridgeConfig { nonce: (s.config.nonce + 1) as u64, ..s.config },
        records: s.records.push(
            LockRecord {
                config: s.config_key,
                nonce: s.config.nonce,
                user: user,
                amount: amount,
                destination_address: dest,
                created_at_slot: now_slot,
            },
        ),
        ..s
    }
}

/// Source-ledger entry point: escrow `amount` from the caller into the
/// vault, append the lock record and advance the nonce, all atomically.
///
/// The caller must hold the funds being locked, and the vault balance stays
/// within the token's 64-bit supply.
pub fn lock_tokens(
    ledger: &mut VaultLedger,
    user: Key32,
    user_token: &mut TokenAccount,
    amount: u64,
    destination_address: Addr20,
    now_slot: u64,
) -> (r: Result<BridgeLockEvent, ErrorCode>)
    requires
        old(ledger).wf(),
        amount <= old(user_token).amount,
        old(ledger)@.vault.amount + amount <= u64::MAX,
    ensures
        final(ledger).wf(),
        match r {
            Ok(ev) => {
                &&& lock_check(old(ledger)@, amount) == Ok::<(), ErrorCode>(())
                &&& ev == lock_event_spec(old(ledger)@, user, amount, destination_address)
                &&& final(ledger)@ == LedgerView {
                    vault: TokenAccount { amount: (old(ledger)@.vault.amount + amount) as u64 },
                    ..lock_state_after(old(ledger)@, user, amount, destination_address, now_slot)
                }
                &&& final(user_token).amount == old(user_token).amount - amount
            },
            Err(e) => {
                &&& lock_check(old(ledger)@, amount) == Err::<(), ErrorCode>(e)
                &&& final(ledger)@ == old(ledger)@
                &&& *final(user_token) == *old(user_token)
            },
        },
{
    if ledger.config.paused {
        return Err(ErrorCode::BridgePaused);
    }
    if amount == 0 {
        return Err(ErrorCode::InvalidAmount);
    }
    if ledger.config.nonce == u64::MAX {
        return Err(ErrorCode::NonceOverflow);
    }
    let current_nonce = ledger.config.nonce;

    // escrow: user -> vault, one atomic unit with the bookkeeping below
    user_token.amount = user_token.amount - amount;
    ledger.vault.amount = ledger.vault.amount + amount;

    let record = LockRecord {
        config: ledger.config_key,
        nonce: current_nonce,
        user: user,
        amount: amount,
        destination_address: destination_address,
        created_at_slot: now_slot,
    };
    ledger.records.push(record);
    ledger.config.nonce = current_nonce + 1;

    proof {
        let s1 = old(ledger)@;
        let s2 = ledger@;
        assert forall|i: int| 0 <= i < s2.records.len() implies {
            &&& (#[trigger] s2.records[i]).nonce == i
            &&& s2.records[i].config == s2.config_key
            &&& s2.records[i].amount > 0
        } by {
            if i < s1.records.len() {
                assert(s2.records[i] == s1.records[i]);
            } else {
                assert(s2.records[i] == record);
            }
        }
        assert forall|i: int, j: int|
            #![trigger s2.processed[i], s2.processed[j]]
            0 <= i < s2.processed.len() && 0 <= j < s2.processed.len() && i != j implies !(
        s2.processed[i].src_chain_id == s2.processed[j].src_chain_id && s2.processed[i].nonce
            == s2.processed[j].nonce) by {
            assert(s2.processed[i] == s1.processed[i]);
            assert(s2.processed[j] == s1.processed[j]);
        }
        assert forall|i: int|
            0 <= i < s2.processed.len() implies (#[trigger] s2.processed[i]).message.executed by {
            assert(s2.processed[i] == s1.processed[i]);
        }
    }
    Ok(
        BridgeLockEvent {
            config: ledger.config_key,
            nonce: current_nonce,
            user: user,
            amount: amount,
            destination_address: destination_address,
        },
    )
}

/// Whether an unlock succeeds, or with which error it aborts.
pub open spec fn unlock_check(
    s: LedgerView,
    caller: Key32,
    src_chain_id: u64,
    nonce: u64,
    amount: u64,
) -> Result<(), ErrorCode> {
    if s.config.paused {
        Err(ErrorCode::BridgePaused)
    } else if caller != s.config.relayer_pubkey {
        Err(ErrorCode::Unauthorized)
    } else if processed_contains(s.processed, src_chain_id, nonce) {
        Err(ErrorCode::AlreadyProcessed)
    } else if amount > s.vault.amount {
        Err(ErrorCode::InsufficientVaultFunds)
    } else {
        Ok(())
    }
}

/// The ledger after a successful unlock: the marker for
/// `(src_chain_id, nonce)` is set and `amount` leaves the vault, one atomic
/// unit.
pub open spec fn unlock_state_after(
    s: LedgerView,
    src_chain_id: u64,
    nonce: u64,
    amount: u64,
) -> LedgerView {
    LedgerView {
        processed: s.processed.push(
            ProcessedEntry {
                src_chain_id: src_chain_id,
                nonce: nonce,
                message: ProcessedMessage { executed: true },
            },
        ),
        vault: TokenAccount { amount: (s.vault.amount - amount) as u64 },
        ..s
    }
}

/// The unlock instruction as a total transition: a refused call leaves the
/// ledger as it was.
pub open spec fn unlock_transition(
    s: LedgerView,
    caller: Key32,
    src_chain_id: u64,
    nonce: u64,
    amount: u64,
) -> LedgerView {
    if unlock_check(s, caller, src_chain_id, nonce, amount) is Ok {
        unlock_state_after(s, src_chain_id, nonce, amount)
    } else {
        s
    }
}

/// Source-ledger entry point for the return trip: release `amount` from the
/// vault to the recipient, guarded by the processed-message marker.
///
/// Only the configured relayer may call it; the marker is set in the same
/// atomic unit as the transfer, so a replayed message is refused with
/// `AlreadyProcessed` and moves nothing.
pub fn unlock_from_evm(
    ledger: &mut VaultLedger,
    caller: Key32,
    src_chain_id: u64,
    nonce: u64,
    amount: u64,
    recipient_token: &mut TokenAccount,
) -> (r: Result<(), ErrorCode>)
    requires
        old(ledger).wf(),
        old(recipient_token).amount + amount <= u64::MAX,
    ensures
        final(ledger).wf(),
        match r {
            Ok(()) => {
                &&& unlock_check(old(ledger)@, caller, src_chain_id, nonce, amount)
                    == Ok::<(), ErrorCode>(())
                &&& final(ledger)@ == unlock_state_after(old(ledger)@, src_chain_id, nonce, amount)
                &&& final(recipient_token).amount == old(recipient_token).amount + amount
            },
            Err(e) => {
                &&& unlock_check(old(ledger)@, caller, src_chain_id, nonce, amount)
                    == Err::<(), ErrorCode>(e)
                &&& final(ledger)@ == old(ledger)@
                &&& *final(recipient_token) == *old(recipient_token)
            },
        },
        final(ledger)@ == unlock_transition(old(ledger)@, caller, src_chain_id, nonce, amount),
{
    if ledger.config.paused {
        return Err(ErrorCode::BridgePaused);
    }
    if !key_eq(&caller, &ledger.config.relayer_pubkey) {
        return Err(ErrorCode::Unauthorized);
    }
    proof {
        assert(caller =~= ledger.config.relayer_pubkey);
    }
    if find_processed(&ledger.processed, src_chain_id, nonce) {
        return Err(ErrorCode::AlreadyProcessed);
    }
    if amount > ledger.vault.amount {
        return Err(ErrorCode::InsufficientVaultFunds);
    }

    // mark before release, in the same atomic unit
    let entry = ProcessedEntry {
        src_chain_id: src_chain_id,
        nonce: nonce,
        message: ProcessedMessage { executed: true },
    };
    ledger.processed.push(entry);
    ledger.vault.amount = ledger.vault.amount - amount;
    recipient_token.amount = recipient_token.amount + amount;

    proof {
        let s1 = old(ledger)@;
        let s2 = ledger@;
        assert forall|i: int, j: int|
            #![trigger s2.processed[i], s2.processed[j]]
            0 <= i < s2.processed.len() && 0 <= j < s2.processed.len() && i != j implies !(
        s2.processed[i].src_chain_id == s2.processed[j].src_chain_id && s2.processed[i].nonce
            == s2.processed[j].nonce) by {
            if i < s1.processed.len() && j < s1.processed.len() {
                assert(s2.processed[i] == s1.processed[i]);
                assert(s2.processed[j] == s1.processed[j]);
            } else if i < s1.processed.len() {
                assert(s2.processed[j] == entry);
                if s1.processed[i].src_chain_id == src_chain_id && s1.processed[i].nonce
                    == nonce {
                    assert(processed_contains(s1.processed, src_chain_id, nonce));
                }
            } else {
                assert(s2.processed[i] == entry);
                if j < s1.processed.len() && s1.processed[j].src_chain_id == src_chain_id
                    && s1.processed[j].nonce == nonce {
                    assert(processed_contains(s1.processed, src_chain_id, nonce));
                }
            }
        }
        assert forall|i: int|
            0 <= i < s2.processed.len() implies (#[trigger] s2.processed[i]).message.executed by {
            if i < s1.processed.len() {
                assert(s2.processed[i] == s1.processed[i]);
            } else {
                assert(s2.processed[i] == entry);
            }
        }
        assert forall|i: int| 0 <= i < s2.records.len() implies {
            &&& (#[trigger] s2.records[i]).nonce == i
            &&& s2.records[i].config == s2.config_key
            &&& s2.records[i].amount > 0
        } by {
            assert(s2.records[i] == s1.records[i]);
        }
    }
    Ok(())
}

/// Whether a pause succeeds, or with which error it aborts.
pub open spec fn pause_check(s: LedgerView, caller: Key32) -> Result<(), ErrorCode> {
    if caller != s.config.admin {
        Err(ErrorCode::UnauthorizedAdmin)
    } else if s.config.paused {
        Err(ErrorCode::AlreadyPaused)
    } else {
        Ok(())
    }
}

/// Halt locking and unlocking.  Admin only; refused if already paused.
pub fn pause_bridge(ledger: &mut VaultLedger, caller: Key32) -> (r: Result<(), ErrorCode>)
    requires
        old(ledger).wf(),
    ensures
        final(ledger).wf(),
        match r {
            Ok(()) => {
                &&& pause_check(old(ledger)@, caller) == Ok::<(), ErrorCode>(())
                &&& final(ledger)@ == LedgerView {
                    config: BridgeConfig { paused: true, ..old(ledger)@.config },
                    ..old(ledger)@
                }
            },
            Err(e) => {
                &&& pause_check(old(ledger)@, caller) == Err::<(), ErrorCode>(e)
                &&& final(ledger)@ == old(ledger)@
            },
        },
{
    if !key_eq(&caller, &ledger.config.admin) {
        return Err(ErrorCode::UnauthorizedAdmin);
    }
    proof {
        assert(caller =~= ledger.config.admin);
    }
    if ledger.config.paused {
        return Err(ErrorCode::AlreadyPaused);
    }
    ledger.config.paused = true;
    Ok(())
}

/// Whether a resume succeeds, or with which error it aborts.
pub open spec fn resume_check(s: LedgerView, caller: Key32) -> Result<(), ErrorCode> {
    if caller != s.config.admin {
        Err(ErrorCode::UnauthorizedAdmin)
    } else if !s.config.paused {
        Err(ErrorCode::NotPaused)
    } else {
        Ok(())
    }
}

/// Lift a pause.  Admin only; refused if the bridge is live.
pub fn resume_bridge(ledger: &mut VaultLedger, caller: Key32) -> (r: Result<(), ErrorCode>)
    requires
        old(ledger).wf(),
    ensures
        final(ledger).wf(),
        match r {
            Ok(()) => {
                &&& resume_check(old(ledger)@, caller) == Ok::<(), ErrorCode>(())
                &&& final(ledger)@ == LedgerView {
                    config: BridgeConfig { paused: false, ..old(ledger)@.config },
                    ..old(ledger)@
                }
            },
            Err(e) => {
                &&& resume_check(old(ledger)@, caller) == Err::<(), ErrorCode>(e)
                &&& final(ledger)@ == old(ledger)@
            },
        },
{
    if !key_eq(&caller, &ledger.config.admin) {
        return Err(ErrorCode::UnauthorizedAdmin);
    }
    proof {
        assert(caller =~= ledger.config.admin);
    }
    if !ledger.config.paused {
        return Err(ErrorCode::NotPaused);
    }
    ledger.config.paused = false;
    Ok(())
}

/// Whether an emergency withdraw succeeds, or with which error it aborts.
///
/// The bridge must already be paused: the escape hatch cannot double as a
/// live drain path.
pub open spec fn emergency_check(s: LedgerView, caller: Key32) -> Result<(), ErrorCode> {
    if caller != s.config.admin {
        Err(ErrorCode::UnauthorizedAdmin)
    } else if !s.config.paused {
        Err(ErrorCode::NotPaused)
    } else {
        Ok(())
    }
}

/// Sweep the vault's entire balance to the admin, bypassing the unlock
/// bookkeeping.  Admin only, and only while paused.
pub fn emergency_withdraw(
    ledger: &mut VaultLedger,
    caller: Key32,
    admin_token: &mut TokenAccount,
) -> (r: Result<u64, ErrorCode>)
    requires
        old(ledger).wf(),
        old(admin_token).amount + old(ledger)@.vault.amount <= u64::MAX,
    ensures
        final(ledger).wf(),
        match r {
            Ok(swept) => {
                &&& emergency_check(old(ledger)@, caller) == Ok::<(), ErrorCode>(())
                &&& swept == old(ledger)@.vault.amount
                &&& final(ledger)@ == LedgerView {
                    vault: TokenAccount { amount: 0 },
                    ..old(ledger)@
                }
                &&& final(admin_token).amount == old(admin_token).amount + swept
            },
            Err(e) => {
                &&& emergency_check(old(ledger)@, caller) == Err::<(), ErrorCode>(e)
                &&& final(ledger)@ == old(ledger)@
                &&& *final(admin_token) == *old(admin_token)
            },
        },
{
    if !key_eq(&caller, &ledger.config.admin) {
        return Err(ErrorCode::UnauthorizedAdmin);
    }
    proof {
        assert(caller =~= ledger.config.admin);
    }
    if !ledger.config.paused {
        return Err(ErrorCode::NotPaused);
    }
    let swept = ledger.vault.amount;
    admin_token.amount = admin_token.amount + swept;
    ledger.vault.amount = 0;
    Ok(swept)
}

/// Build the initial ledger for a new bridge: nonce zero, live, empty vault.
pub fn initialize_bridge(
    admin: Key32,
    token_mint: Key32,
    config_key: Key32,
    vault_authority_bump: u8,
    destination_chain_id: u64,
    destination_bridge: Addr20,
    relayer: Key32,
) -> (s: VaultLedger)
    ensures
        s@ == init_state(
            admin,
            token_mint,
            config_key,
            vault_authority_bump,
            destination_chain_id,
            destination_bridge,
            relayer,
        ),
        s.wf(),
{
    VaultLedger {
        config_key: config_key,
        config: BridgeConfig {
            admin: admin,
            token_mint: token_mint,
            vault_authority_bump: vault_authority_bump,
            nonce: 0,
            destination_chain_id: destination_chain_id,
            destination_bridge: destination_bridge,
            relayer_pubkey: relayer,
            paused: false,
        },
        records: Vec::new(),
        processed: Vec::new(),
        vault: TokenAccount { amount: 0 },
    }
}

/// Law: locks number their records densely.  From any well-formed ledger, a
/// successful lock appends exactly one record, stamped with the old nonce,
/// and afterwards the recorded nonces are exactly `0, 1, …, k - 1` with the
/// config nonce equal to `k`.
pub proof fn lemma_lock_nonce_sequence(
    s: LedgerView,
    user: Key32,
    amount: u64,
    dest: Addr20,
    now_slot: u64,
)
    requires
        s.wf(),
        lock_check(s, amount) == Ok::<(), ErrorCode>(()),
    ensures
        ({
            let s2 = lock_state_after(s, user, amount, dest, now_slot);
            &&& s2.wf()
            &&& s2.config.nonce == s.config.nonce + 1
            &&& s2.records.len() == s.config.nonce + 1
            &&& forall|i: int| 0 <= i < s2.records.len() ==> (#[trigger] s2.records[i]).nonce == i
            &&& s2.records[s.config.nonce as int].amount == amount
            &&& s2.records[s.config.nonce as int].user == user
        }),
{
    let s2 = lock_state_after(s, user, amount, dest, now_slot);
    assert forall|i: int| 0 <= i < s2.records.len() implies {
        &&& (#[trigger] s2.records[i]).nonce == i
        &&& s2.records[i].config == s2.config_key
        &&& s2.records[i].amount > 0
    } by {
        if i < s.records.len() {
            assert(s2.records[i] == s.records[i]);
        }
    }
}

/// Law: an unlock is applied at most once.  From any well-formed ledger, a
/// successful unlock removes exactly `amount` from the vault and sets the
/// marker; a second unlock for the same (source chain, nonce) pair — by any
/// caller, for any amount — is refused with `AlreadyProcessed` and, being
/// refused, changes nothing.
pub proof fn lemma_unlock_exactly_once(
    s: LedgerView,
    caller: Key32,
    caller2: Key32,
    src_chain_id: u64,
    nonce: u64,
    amount: u64,
    amount2: u64,
)
    requires
        s.wf(),
        unlock_check(s, caller, src_chain_id, nonce, amount) == Ok::<(), ErrorCode>(()),
        caller2 == s.config.relayer_pubkey,
    ensures
        ({
            let s2 = unlock_state_after(s, src_chain_id, nonce, amount);
            &&& s2.wf()
            &&& s2.vault.amount == s.vault.amount - amount
            &&& unlock_check(s2, caller2, src_chain_id, nonce, amount2) == Err::<
                (),
                ErrorCode,
            >(ErrorCode::AlreadyProcessed)
            &&& unlock_transition(s2, caller2, src_chain_id, nonce, amount2) == s2
        }),
{
    let s2 = unlock_state_after(s, src_chain_id, nonce, amount);
    let n = s.processed.len() as int;
    assert(s2.processed[n].src_chain_id == src_chain_id && s2.processed[n].nonce == nonce);
    assert(processed_contains(s2.processed, src_chain_id, nonce));
    lemma_unlock_preserves_wf(s, caller, src_chain_id, nonce, amount);
}

/// A successful unlock preserves the ledger invariant.
pub proof fn lemma_unlock_preserves_wf(
    s: LedgerView,
    caller: Key32,
    src_chain_id: u64,
    nonce: u64,
    amount: u64,
)
    requires
        s.wf(),
        unlock_check(s, caller, src_chain_id, nonce, amount) == Ok::<(), ErrorCode>(()),
    ensures
        unlock_state_after(s, src_chain_id, nonce, amount).wf(),
{
    let s2 = unlock_state_after(s, src_chain_id, nonce, amount);
    let entry = ProcessedEntry {
        src_chain_id: src_chain_id,
        nonce: nonce,
        message: ProcessedMessage { executed: true },
    };
    assert forall|i: int, j: int|
        #![trigger s2.processed[i], s2.processed[j]]
        0 <= i < s2.processed.len() && 0 <= j < s2.processed.len() && i != j implies !(
    s2.processed[i].src_chain_id == s2.processed[j].src_chain_id && s2.processed[i].nonce
        == s2.processed[j].nonce) by {
        if i < s.processed.len() && j < s.processed.len() {
            assert(s2.processed[i] == s.processed[i]);
            assert(s2.processed[j] == s.processed[j]);
        } else if i < s.processed.len() {
            assert(s2.processed[j] == entry);
            if s.processed[i].src_chain_id == src_chain_id && s.processed[i].nonce == nonce {
                assert(processed_contains(s.processed, src_chain_id, nonce));
            }
        } else {
            assert(s2.processed[i] == entry);
            if j < s.processed.len() && s.processed[j].src_chain_id == src_chain_id
                && s.processed[j].nonce == nonce {
                assert(processed_contains(s.processed, src_chain_id, nonce));
            }
        }
    }
    assert forall|i: int|
        0 <= i < s2.processed.len() implies (#[trigger] s2.processed[i]).message.executed by {
        if i < s.processed.len() {
            assert(s2.processed[i] == s.processed[i]);
        }
    }
    assert forall|i: int| 0 <= i < s2.records.len() implies {
        &&& (#[trigger] s2.records[i]).nonce == i
        &&& s2.records[i].config == s2.config_key
        &&& s2.records[i].amount > 0
    } by {
        assert(s2.records[i] == s.records[i]);
    }
}

/// Law: replays are harmless whatever the relayer's cursor did.  Once the
/// marker for a (source chain, nonce) pair is set — say the relayer crashed
/// after a confirmed submission and resubmits the same intent — the unlock
/// transition refuses the call and leaves the ledger exactly as it was.
/// Replay protection lives in the ledger, not in the relayer's volatile
/// cursor.
pub proof fn lemma_replay_is_harmless(
    s: LedgerView,
    caller: Key32,
    src_chain_id: u64,
    nonce: u64,
    amount: u64,
)
    requires
        processed_contains(s.processed, src_chain_id, nonce),
    ensures
        unlock_check(s, caller, src_chain_id, nonce, amount) is Err,
        unlock_transition(s, caller, src_chain_id, nonce, amount) == s,
{
}

/// Law: the unlock transition is idempotent.  Applying it twice with the
/// same arguments yields the same ledger as applying it once.
pub proof fn lemma_unlock_idempotent(
    s: LedgerView,
    caller: Key32,
    src_chain_id: u64,
    nonce: u64,
    amount: u64,
)
    requires
        s.wf(),
    ensures
        unlock_transition(
            unlock_transition(s, caller, src_chain_id, nonce, amount),
            caller,
            src_chain_id,
            nonce,
            amount,
        ) == unlock_transition(s, caller, src_chain_id, nonce, amount),
{
    if unlock_check(s, caller, src_chain_id, nonce, amount) is Ok {
        let s2 = unlock_state_after(s, src_chain_id, nonce, amount);
        let n = s.processed.len() as int;
        assert(s2.processed[n].src_chain_id == src_chain_id && s2.processed[n].nonce == nonce);
        assert(processed_contains(s2.processed, src_chain_id, nonce));
    }
}

/// Law: while the bridge is paused, a lock fails with `BridgePaused`, an
/// unlock fails with `BridgePaused`, and an emergency withdraw by the admin
/// is allowed.
pub proof fn lemma_paused_blocks_operations(
    s: LedgerView,
    caller: Key32,
    src_chain_id: u64,
    nonce: u64,
    amount: u64,
)
    requires
        s.wf(),
        s.config.paused,
    ensures
        lock_check(s, amount) == Err::<(), ErrorCode>(ErrorCode::BridgePaused),
        unlock_check(s, caller, src_chain_id, nonce, amount) == Err::<
            (),
            ErrorCode,
        >(ErrorCode::BridgePaused),
        emergency_check(s, s.config.admin) == Ok::<(), ErrorCode>(()),
{
}

} // verus!

