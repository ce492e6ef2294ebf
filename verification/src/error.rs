use vstd::prelude::*;

verus! {

/// The terminal failure kinds of the issuance engine.
///
/// Every error aborts the whole operation: the engine mutates no balance on
/// an error, and the host substrate rolls back any token movement already
/// requested.
#[derive(Clone, Copy, Debug, PartialEq, Eq, Structural)]
pub enum ErrorCode {
    /// The caller's identity does not match the stored `owner` or
    /// `authority` of the record the operation targets.
    Unauthorized,
    /// A checked arithmetic step exceeded the 64-bit unsigned range.
    MathOverflow,
    /// The operation would leave the position below the 150%
    /// collateralization floor, or the stored collateral cannot cover the
    /// requested payout.
    InsufficientCollateral,
    /// A sell asked to burn more synthetic units than the position's
    /// recorded minted amount.
    InsufficientSyntheticBalance,
    /// A one-time initialization was invoked while the record already
    /// exists; initialization never silently overwrites.
    AlreadyInitialized,
    /// A trade or redemption was attempted while the live oracle is not in
    /// the `Trading` status, so no trustworthy price is available.
    NoOraclePrice,
}

} // verus!
