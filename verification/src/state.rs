//! Durable ledger state of the bridge.
//!
//! The vault program owns one [`BridgeConfig`] per token pair, one immutable
//! [`LockRecord`] per lock intent, and one [`ProcessedMessage`] marker per
//! (source-chain-id, nonce) pair that has been unlocked.  [`VaultLedger`]
//! gathers everything the program persists for one bridge, together with the
//! escrow vault's token balance, and carries the well-formedness invariant
//! that every handler preserves.

use vstd::prelude::*;

use crate::keys::Addr20;
use crate::keys::Key32;

verus! {

/// A token account, reduced to the one field the handlers reason about.
#[derive(Clone, Copy, PartialEq, Eq, Structural, Debug)]
pub struct TokenAccount {
    /// Balance in token base units.
    pub amount: u64,
}

/// Bridge configuration: one per token pair, owned by the vault program.
#[derive(Clone, Copy, Debug)]
pub struct BridgeConfig {
    /// Identity allowed to pause, resume and sweep the bridge.
    pub admin: Key32,
    /// The token this bridge escrows.
    pub token_mint: Key32,
    /// Bump of the derived vault authority, stored so the program can
    /// re-derive its signing identity.
    pub vault_authority_bump: u8,
    /// Monotonic sequence number: the nonce the next lock will be stamped
    /// with, equal to the number of locks recorded so far.
    pub nonce: u64,
    /// Chain identifier of the destination ledger.
    pub destination_chain_id: u64,
    /// Address of the bridge contract on the destination ledger.
    pub destination_bridge: Addr20,
    /// The single trusted relayer identity allowed to submit unlocks.
    pub relayer_pubkey: Key32,
    /// While set, locks and unlocks are refused.
    pub paused: bool,
}

/// One lock intent: created atomically with the escrow transfer, immutable
/// thereafter.
#[derive(Clone, Copy, Debug)]
pub struct LockRecord {
    /// The config this record belongs to.
    pub config: Key32,
    /// Its sequence number, unique per config.
    pub nonce: u64,
    /// The user whose funds were escrowed.
    pub user: Key32,
    /// Escrowed amount in token base units; always positive.
    pub amount: u64,
    /// Where the value is to surface on the destination ledger.
    pub destination_address: Addr20,
    /// Ledger slot at which the lock was recorded.
    pub created_at_slot: u64,
}

/// Replay-protection marker on the unlock side.
#[derive(Clone, Copy, PartialEq, Eq, Structural, Debug)]
pub struct ProcessedMessage {
    /// Set exactly once, when the corresponding unlock is applied.
    pub executed: bool,
}

/// A processed-message marker together with the (source-chain-id, nonce) key
/// it is stored under.
#[derive(Clone, Copy, Debug)]
pub struct ProcessedEntry {
    /// Chain identifier of the ledger the replayed intent originated on.
    pub src_chain_id: u64,
    /// Sequence number of the intent on that ledger.
    pub nonce: u64,
    /// The marker itself.
    pub message: ProcessedMessage,
}

/// Everything the vault program persists for one bridge, plus the escrow
/// vault's balance.
pub struct VaultLedger {
    /// Address of the config account; lock records point back to it.
    pub config_key: Key32,
    /// The bridge configuration.
    pub config: BridgeConfig,
    /// Lock records in nonce order: the record for nonce `n` sits at index
    /// `n`, and a record exists exactly for every `n < config.nonce`.
    pub records: Vec<LockRecord>,
    /// Markers for every (source-chain-id, nonce) pair already unlocked.
    pub processed: Vec<ProcessedEntry>,
    /// Balance of the escrow vault's token account.
    pub vault: TokenAccount,
}

/// The abstract value of a [`VaultLedger`]: the same data with the record
/// and marker stores as mathematical sequences.  Transition functions and
/// laws are stated over this type.
#[verifier::ext_equal]
pub ghost struct LedgerView {
    /// Address of the config account.
    pub config_key: Key32,
    /// The bridge configuration.
    pub config: BridgeConfig,
    /// Lock records in nonce order.
    pub records: Seq<LockRecord>,
    /// Markers for every pair already unlocked.
    pub processed: Seq<ProcessedEntry>,
    /// Balance of the escrow vault's token account.
    pub vault: TokenAccount,
}

impl View for VaultLedger {
    type V = LedgerView;

    open spec fn view(&self) -> LedgerView {
        LedgerView {
            config_key: self.config_key,
            config: self.config,
            records: self.records@,
            processed: self.processed@,
            vault: self.vault,
        }
    }
}

/// Whether a marker for `(chain, nonce)` exists in `p`.
pub open spec fn processed_contains(p: Seq<ProcessedEntry>, chain: u64, nonce: u64) -> bool {
    exists|i: int|
        0 <= i < p.len() && (#[trigger] p[i]).src_chain_id == chain && p[i].nonce == nonce
}

impl LedgerView {
    /// The ledger invariant: lock records are dense and stamped with their
    /// own index, processed markers are unique per key and always executed.
    pub open spec fn wf(self) -> bool {
        &&& self.records.len() == self.config.nonce as int
        &&& forall|i: int|
            0 <= i < self.records.len() ==> {
                &&& (#[trigger] self.records[i]).nonce == i
                &&& self.records[i].config == self.config_key
                &&& self.records[i].amount > 0
            }
        &&& forall|i: int, j: int|
            #![trigger self.processed[i], self.processed[j]]
            0 <= i < self.processed.len() && 0 <= j < self.processed.len() && i != j
                ==> !(self.processed[i].src_chain_id == self.processed[j].src_chain_id
                && self.processed[i].nonce == self.processed[j].nonce)
        &&& forall|i: int|
            0 <= i < self.processed.len() ==> (#[trigger] self.processed[i]).message.executed
    }
}

impl VaultLedger {
    /// The ledger invariant, read through the view.
    pub open spec fn wf(self) -> bool {
        self@.wf()
    }
}

/// Linear scan for a marker under `(chain, nonce)`.
pub fn find_processed(p: &Vec<ProcessedEntry>, chain: u64, nonce: u64) -> (r: bool)
    ensures
        r == processed_contains(p@, chain, nonce),
{
    let mut i: usize = 0;
    while i < p.len()
        invariant
            i <= p@.len(),
            forall|j: int|
                0 <= j < i ==> !((#[trigger] p@[j]).src_chain_id == chain && p@[j].nonce == nonce),
        decreases p@.len() - i,
    {
        if p[i].src_chain_id == chain && p[i].nonce == nonce {
            return true;
        }
        i += 1;
    }
    false
}

} // verus!
