//! A cross-chain token bridge, verified.
//!
//! Funds are escrowed in a vault on a source ledger while an equivalent
//! representation circulates on a destination ledger.  The crate models the
//! durable ledger state (bridge configuration, lock records, processed-message
//! markers), the instruction handlers that mutate it, the decision logic of
//! the off-ledger relayer that replays intents between the two ledgers, and a
//! small constant-product AMM bundled with the bridge programs.
//!
//! Every state transition is specified by a mathematical transition function
//! and the executable handlers are proved to refine it; the replay-protection
//! and nonce-monotonicity guarantees are stated and proved as lemmas.

pub mod amm;
pub mod errors;
pub mod fixed_math;
pub mod inbound;
pub mod keys;
pub mod outbound;
pub mod seeds;
pub mod state;
pub mod vault;
