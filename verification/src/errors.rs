//! Error taxonomy of the escrow: validation, authorization, state-guard and
//! arithmetic failures, all rejected synchronously before any state mutation.

use vstd::prelude::*;

verus! {

/// Everything an escrow operation can refuse with.
///
/// Arithmetic overflow is an error value, never a silent wrap: a wrapped
/// price would be a security defect, so every operation that computes a
/// price reports `Overflow` instead.
#[derive(PartialEq, Eq, Structural, Clone, Copy, Debug)]
pub enum EscrowError {
    /// A project-token name of an unacceptable length.
    InvalidName,
    /// A project-token symbol of an unacceptable length.
    InvalidSymbol,
    /// An empty proxy-token media reference.
    InvalidPtMediaUri,
    /// An empty collection base reference.
    InvalidCollectionBaseUri,
    /// A maximum supply of zero, or one not above the pre-minted amount.
    InvalidMaxSupply,
    /// A funding target of zero.
    InvalidFundingTarget,
    /// A conversion period shorter than one day.
    InvalidConversionPeriod,
    /// A stable-asset deposit below the quoted buy price.
    InsufficientFund,
    /// A zero amount, or one outside the claimable bounds.
    InvalidAmount,
    /// An operation that would do nothing, such as selling claims worth
    /// nothing.
    InvalidAction,
    /// Closing requested while the escrow can still trade.
    NotAvailableToClose,
    /// Closing requested after the last closing stage was passed.
    AlreadyClosed,
    /// A caller other than the owner on an owner-only operation.
    NotAllowed,
    /// A state-mutating operation while the escrow is paused.
    Paused,
    /// A trade before the escrow was activated.
    NotActivated,
    /// A trade after the conversion window closed.
    NotOngoing,
    /// A conversion or claim before the funding threshold was reached.
    NotOverFundingTarget,
    /// A conversion during the buffer period.
    InBufferPeriod,
    /// A proceeds claim before the conversion period elapsed.
    NotOverConversionPeriod,
    /// An operation before the escrow was activated, on a path that needs
    /// activation data.
    AlreadyActivated,
    /// A curve argument that the selected curve needs is absent.
    MissingCurveArg,
    /// A price or counter computation exceeded its integer range.
    Overflow,
    /// A claim id whose balance does not allow the requested burn.
    InsufficientBalance,
    /// Minting past the proxy token's maximum supply.
    OverMaxSupply,
    /// A compensation step found the ledger in a shape it cannot restore.
    CompensationFailed,
}

} // verus!
