//! Error conditions named by the bridge program and the AMM program.
//!
//! Every rejected instruction aborts atomically with one of these tags; the
//! handlers' contracts state exactly which inputs produce which tag.

use vstd::prelude::*;

verus! {

/// Error conditions of the bridge vault program.
#[derive(Clone, Copy, Debug, PartialEq, Eq, Structural)]
pub enum ErrorCode {
    /// Incrementing the lock nonce would overflow its integer width.
    NonceOverflow,
    /// A lock was requested for a zero amount.
    InvalidAmount,
    /// An administrative instruction was signed by a non-admin identity.
    UnauthorizedAdmin,
    /// A lock or unlock was attempted while the bridge is paused.
    BridgePaused,
    /// `pause` was called while the bridge is already paused.
    AlreadyPaused,
    /// `resume` or `emergency_withdraw` was called while the bridge is live.
    NotPaused,
    /// An unlock was signed by an identity other than the trusted relayer.
    Unauthorized,
    /// An unlock was attempted for a (source chain, nonce) pair whose
    /// processed marker is already set.
    AlreadyProcessed,
    /// An unlock or sweep asked for more than the vault holds.
    InsufficientVaultFunds,
}

/// Error conditions of the AMM program.
#[derive(Clone, Copy, Debug, PartialEq, Eq, Structural)]
pub enum ErrorType {
    /// The fee is not below the basis-point denominator.
    InvalidFee,
    /// A pool operation referenced a mint the pool does not hold.
    InvalidMint,
    /// A deposit would mint no liquidity, or less than the locked minimum.
    DepositTooSmall,
    /// A swap's output fell below the caller's stated minimum.
    OutputTooSmall,
    /// A swap would decrease the pool's constant product.
    InvariantViolated,
    /// A withdrawal asked for more liquidity tokens than the caller holds,
    /// or more than are in circulation.
    InsufficientLiquidity,
    /// A withdrawal would pay out zero units of either token.
    ZeroWithdrawal,
}

} // verus!
