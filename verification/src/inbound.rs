//! Decision logic of the inbound watcher (destination ledger → source).
//!
//! The watcher polls destination-chain logs for burn events from a block
//! cursor and replays each one as an unlock on the source ledger.  The
//! verified part is every decision the loop takes: where to start scanning,
//! whether an event is for this deployment and well formed, and how the
//! block cursor moves.  Duplicate or re-delivered events across overlapping
//! scans are made safe by the ledger's processed-message marker, not here.

use vstd::prelude::*;

use crate::keys::is_zero_key;
use crate::keys::key_eq;
use crate::keys::key_is_zero;
use crate::keys::Key32;

verus! {

broadcast use vstd::array::group_array_axioms;

/// A burn/return event observed on the destination ledger.
#[derive(Clone, Copy, Debug)]
pub struct BurnedToSolanaEvent {
    /// The destination chain's identifier for the event.
    pub message_id: Key32,
    /// Chain identifier the value should return to.
    pub src_chain_id: u64,
    /// Chain identifier of this deployment's source ledger, as the event
    /// claims it.
    pub dst_chain_id: u64,
    /// The bridge config the event claims to belong to.
    pub config: Key32,
    /// Sequence number of the burn intent.
    pub nonce: u64,
    /// Burned amount; the destination ledger counts in 256-bit units, of
    /// which only values within 128 bits can reach this watcher.
    pub amount: u128,
    /// Recipient account on the source ledger.
    pub solana_recipient: Key32,
}

/// Why an observed event was skipped rather than replayed.  A skipped event
/// is a possible spoofed or misrouted log: logged and dropped, never fatal.
#[derive(Clone, Copy, PartialEq, Eq, Structural, Debug)]
pub enum EventSkip {
    /// The event names a destination chain other than this deployment's.
    DstChainMismatch,
    /// The event names a config other than the known bridge config.
    ConfigMismatch,
    /// The burned amount does not fit the source ledger's 64-bit balances.
    AmountTooLarge,
    /// The recipient is the all-zero account.
    ZeroRecipient,
}

/// The unlock call an accepted event turns into.
#[derive(Clone, Copy, Debug)]
pub struct UnlockCall {
    /// Chain identifier of the ledger the burn happened on.
    pub src_chain_id: u64,
    /// Sequence number of the burn intent.
    pub nonce: u64,
    /// Amount to release, in token base units.
    pub amount: u64,
    /// Recipient account on the source ledger.
    pub recipient: Key32,
}

/// Which unlock call an event yields, or why it is skipped.
pub open spec fn check_event_spec(
    ev: BurnedToSolanaEvent,
    expected_dst_chain_id: u64,
    config_pubkey: Key32,
) -> Result<UnlockCall, EventSkip> {
    if ev.dst_chain_id != expected_dst_chain_id {
        Err(EventSkip::DstChainMismatch)
    } else if ev.config != config_pubkey {
        Err(EventSkip::ConfigMismatch)
    } else if ev.amount > u64::MAX {
        Err(EventSkip::AmountTooLarge)
    } else if is_zero_key(ev.solana_recipient) {
        Err(EventSkip::ZeroRecipient)
    } else {
        Ok(
            UnlockCall {
                src_chain_id: ev.src_chain_id,
                nonce: ev.nonce,
                amount: ev.amount as u64,
                recipient: ev.solana_recipient,
            },
        )
    }
}

/// Validate one observed event against this deployment: right destination
/// chain, right config, an amount the source ledger can hold, a real
/// recipient.
pub fn check_burn_event(
    ev: &BurnedToSolanaEvent,
    expected_dst_chain_id: u64,
    config_pubkey: &Key32,
) -> (r: Result<UnlockCall, EventSkip>)
    ensures
        r == check_event_spec(*ev, expected_dst_chain_id, *config_pubkey),
{
    if ev.dst_chain_id != expected_dst_chain_id {
        return Err(EventSkip::DstChainMismatch);
    }
    if !key_eq(&ev.config, config_pubkey) {
        return Err(EventSkip::ConfigMismatch);
    }
    proof {
        assert(ev.config =~= *config_pubkey);
    }
    if ev.amount > u64::MAX as u128 {
        return Err(EventSkip::AmountTooLarge);
    }
    if key_is_zero(&ev.solana_recipient) {
        return Err(EventSkip::ZeroRecipient);
    }
    Ok(
        UnlockCall {
            src_chain_id: ev.src_chain_id,
            nonce: ev.nonce,
            amount: ev.amount as u64,
            recipient: ev.solana_recipient,
        },
    )
}

/// Where scanning starts: the configured block if one was given, otherwise
/// the current head minus a safety margin of 100 blocks, so catch-up work
/// stays bounded without missing recent events.
pub fn initial_from_block(start_block: Option<u64>, current_block: u64) -> (r: u64)
    ensures
        r == match start_block {
            Some(b) => b,
            None => if current_block >= 100 {
                (current_block - 100) as u64
            } else {
                0
            },
        },
{
    match start_block {
        Some(b) => b,
        None => {
            if current_block >= 100 {
                current_block - 100
            } else {
                0
            }
        },
    }
}

/// Advance the block cursor by one after a polling cycle.  The cursor is
/// block-level and moves regardless of individual event outcomes; a failed
/// event is retried only as far as overlapping scans re-deliver it, and the
/// ledger's marker keeps those re-deliveries safe.
pub fn advance_from_block(from_block: u64) -> (r: u64)
    ensures
        r == if from_block == u64::MAX {
            u64::MAX
        } else {
            (from_block + 1) as u64
        },
{
    if from_block == u64::MAX {
        u64::MAX
    } else {
        from_block + 1
    }
}

} // verus!
