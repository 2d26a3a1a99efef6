use vstd::prelude::*;

verus! {

/// Why an instruction was refused. A refused instruction changes no record.
#[derive(Clone, Copy, Debug, PartialEq, Eq, Structural)]
pub enum ErrorCode {
    /// Insufficient stake to withdraw the requested amount.
    InsufficientStake,
    /// A checked addition or subtraction would have wrapped.
    MathOverflow,
    /// The proof was empty or rejected.
    InvalidZKProof,
    /// The identity proof was empty or rejected.
    SybilAttackDetected,
    /// The minimum holding time since the last stake has not elapsed.
    StakeDurationNotMet,
    /// Compressing a proof failed.
    CompressionError,
    /// The signer is not the authority of the record.
    Unauthorized,
    /// No order has been committed for this trader and pool.
    OrderNotCommitted,
    /// An order is already committed for this trader and pool.
    OrderAlreadyCommitted,
}

} // verus!
