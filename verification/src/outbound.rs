//! Decision logic of the outbound watcher (source ledger → destination).
//!
//! The watcher polls the bridge config's nonce, replays every lock record in
//! `[cursor, nonce)` as a destination-chain call, and advances its cursor
//! only on confirmed success.  The surrounding loop — RPC reads, submission,
//! sleeping — performs no decision of its own: it reads the next nonce to
//! work on from [`next_pending_nonce`], builds the calldata with
//! [`build_bridge_message`], and feeds the submission outcome back through
//! [`cursor_after_submit`].

use vstd::prelude::*;

use crate::keys::Addr20;
use crate::keys::Key32;
use crate::state::BridgeConfig;
use crate::state::LockRecord;

verus! {

/// The destination-chain call for one lock intent, field for field what the
/// `mintFromSolana` entry point accepts.
#[derive(Clone, Copy, Debug)]
pub struct BridgeMessage {
    /// Chain identifier of the source ledger, from the deployment's
    /// configuration.
    pub src_chain_id: u64,
    /// Address of the bridge config account.
    pub config: Key32,
    /// Sequence number of the intent.
    pub nonce: u64,
    /// The escrowed token's mint.
    pub token_mint: Key32,
    /// The user whose funds were escrowed.
    pub user: Key32,
    /// Escrowed amount in token base units.
    pub amount: u64,
    /// The recipient the user asked for, from the lock record.
    pub destination_address: Addr20,
}

/// Translate one lock record into the destination-chain call.  The call's
/// recipient is the lock record's destination address: the address the
/// locking user asked the value to surface at.
pub fn build_bridge_message(
    config: &BridgeConfig,
    lock: &LockRecord,
    config_pubkey: Key32,
    src_chain_id: u64,
) -> (m: BridgeMessage)
    ensures
        m.src_chain_id == src_chain_id,
        m.config == config_pubkey,
        m.nonce == lock.nonce,
        m.token_mint == config.token_mint,
        m.user == lock.user,
        m.amount == lock.amount,
        m.destination_address == lock.destination_address,
{
    BridgeMessage {
        src_chain_id: src_chain_id,
        config: config_pubkey,
        nonce: lock.nonce,
        token_mint: config.token_mint,
        user: lock.user,
        amount: lock.amount,
        destination_address: lock.destination_address,
    }
}

/// How one submission to the destination chain ended.
#[derive(Clone, Copy, PartialEq, Eq, Structural, Debug)]
pub enum SubmitOutcome {
    /// The transaction confirmed.
    Confirmed,
    /// The destination chain rejected the call because the intent already
    /// landed there; the effect exists, so the cursor may advance.
    AlreadyLanded,
    /// A transient failure — RPC error, no confirmation.  The same nonce is
    /// retried on the next cycle.
    Failed,
}

/// The next nonce the watcher must replay, if any: the cursor itself while
/// it trails the config's nonce.
pub fn next_pending_nonce(last_processed_nonce: u64, current_nonce: u64) -> (r: Option<u64>)
    ensures
        r == if last_processed_nonce < current_nonce {
            Some(last_processed_nonce)
        } else {
            Option::<u64>::None
        },
{
    if last_processed_nonce < current_nonce {
        Some(last_processed_nonce)
    } else {
        None
    }
}

/// All nonces the watcher has to replay this cycle, in strictly ascending
/// order with no gaps: `cursor, cursor + 1, …, current_nonce - 1`.
pub fn pending_nonces(last_processed_nonce: u64, current_nonce: u64) -> (r: Vec<u64>)
    ensures
        last_processed_nonce <= current_nonce ==> r@.len() == current_nonce
            - last_processed_nonce,
        last_processed_nonce > current_nonce ==> r@.len() == 0,
        forall|i: int| 0 <= i < r@.len() ==> r@[i] == last_processed_nonce + i,
{
    let mut r: Vec<u64> = Vec::new();
    let mut n: u64 = last_processed_nonce;
    while n < current_nonce
        invariant
            last_processed_nonce <= n,
            n <= current_nonce || n == last_processed_nonce,
            r@.len() == n - last_processed_nonce,
            forall|i: int| 0 <= i < r@.len() ==> r@[i] == last_processed_nonce + i,
        decreases current_nonce - n,
    {
        r.push(n);
        n = n + 1;
    }
    r
}

/// Advance the cursor after one submission: past the nonce on confirmed
/// success (a chain-level "already processed" rejection counts, the effect
/// landed), and not at all on failure.  The cursor never moves past a nonce
/// that did not confirm — the at-least-once half of the delivery guarantee.
pub fn cursor_after_submit(last_processed_nonce: u64, outcome: SubmitOutcome) -> (r: u64)
    requires
        last_processed_nonce < u64::MAX,
    ensures
        r == if outcome is Failed {
            last_processed_nonce
        } else {
            (last_processed_nonce + 1) as u64
        },
        last_processed_nonce <= r <= last_processed_nonce + 1,
{
    match outcome {
        SubmitOutcome::Confirmed => last_processed_nonce + 1,
        SubmitOutcome::AlreadyLanded => last_processed_nonce + 1,
        SubmitOutcome::Failed => last_processed_nonce,
    }
}

} // verus!
